//! The project manifest: the package's own identity and its declared
//! dependencies, and the requirement strings the solver is asked to
//! satisfy. Reading and decoding the manifest file is the driver's I/O;
//! this module holds the decoded values and the one computation on them.

use vstd::prelude::*;

verus! {

/// The package table of a manifest.
pub struct Package {
    /// Project name.
    pub name: String,
    /// Project version.
    pub version: String,
}

/// A decoded project manifest.
pub struct Manifest {
    /// The project's own identity.
    pub package: Package,
    /// Declared dependencies as (name, version requirement) pairs, in
    /// manifest order; absent when the manifest declares none.
    pub dependencies: Option<Vec<(String, String)>>,
}

impl Manifest {
    /// The requirement strings handed to the solver: one `name version`
    /// string per declared dependency, in manifest order; none when the
    /// manifest declares no dependencies.
    pub fn requirement_strings(&self) -> (specs: Vec<String>)
        ensures
            match self.dependencies {
                Some(deps) => specs@.len() == deps@.len() && (forall|i: int|
                    0 <= i < deps@.len() ==> specs@[i]@ == deps@[i].0@ + " "@ + deps@[i].1@),
                None => specs@.len() == 0,
            },
    {
        let mut specs: Vec<String> = Vec::new();
        match &self.dependencies {
            None => specs,
            Some(deps) => {
                let mut i: usize = 0;
                while i < deps.len()
                    invariant
                        i <= deps.len(),
                        specs@.len() == i,
                        forall|j: int|
                            0 <= j < i ==> specs@[j]@ == deps@[j].0@ + " "@ + deps@[j].1@,
                    decreases deps.len() - i,
                {
                    let mut s = deps[i].0.clone();
                    s.append(" ");
                    s.append(deps[i].1.as_str());
                    specs.push(s);
                    i = i + 1;
                }
                specs
            },
        }
    }
}

} // verus!
