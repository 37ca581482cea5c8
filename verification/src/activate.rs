//! Reversible shell activation. The activator never mutates its own process
//! environment: it renders a fragment of shell text for the invoking shell
//! to evaluate. The fragment snapshots the current values of the host
//! integration path variables into shadow variables, prepends the
//! environment's subdirectories to them, and defines a restoration
//! procedure that puts the snapshots back, unsets every shadow and the
//! marker, and removes itself.
//!
//! `ShellVars` is the model of the variables the fragment touches, with the
//! fragment's meaning given by `activation_effect` and
//! `deactivation_effect`; `lemma_activation_reversible` is the
//! reversibility guarantee. In the model the empty sequence stands for an
//! unset variable, as the shell's own expansion does: restoring a variable
//! whose prior value was unset leaves it expanding to the same empty text.

use vstd::prelude::*;

verus! {

/// The shell variables the activation fragment touches: the five host
/// integration path variables, their shadow snapshots, and the marker
/// naming the active environment.
pub ghost struct ShellVars {
    pub path: Seq<char>,
    pub ld_library_path: Seq<char>,
    pub dyld_library_path: Seq<char>,
    pub pkg_config_path: Seq<char>,
    pub cmake_prefix_path: Seq<char>,
    pub shadow_path: Seq<char>,
    pub shadow_ld_library_path: Seq<char>,
    pub shadow_dyld_library_path: Seq<char>,
    pub shadow_pkg_config_path: Seq<char>,
    pub shadow_cmake_prefix_path: Seq<char>,
    pub env_marker: Seq<char>,
}

/// What evaluating the activation fragment does to the shell: snapshot
/// every path variable into its shadow, then prepend the environment
/// subdirectories and set the marker to the environment path `d`.
pub open spec fn activation_effect(s: ShellVars, d: Seq<char>) -> ShellVars {
    ShellVars {
        path: d + "/bin:"@ + s.path,
        ld_library_path: d + "/lib:"@ + s.ld_library_path,
        dyld_library_path: d + "/lib:"@ + s.dyld_library_path,
        pkg_config_path: d + "/lib/pkgconfig:"@ + s.pkg_config_path,
        cmake_prefix_path: d + ":"@ + s.cmake_prefix_path,
        shadow_path: s.path,
        shadow_ld_library_path: s.ld_library_path,
        shadow_dyld_library_path: s.dyld_library_path,
        shadow_pkg_config_path: s.pkg_config_path,
        shadow_cmake_prefix_path: s.cmake_prefix_path,
        env_marker: d,
    }
}

/// What evaluating the emitted restoration procedure does to the shell:
/// put every snapshot back unconditionally, then unset the shadows and the
/// marker — no state of the activation survives.
pub open spec fn deactivation_effect(s: ShellVars) -> ShellVars {
    ShellVars {
        path: s.shadow_path,
        ld_library_path: s.shadow_ld_library_path,
        dyld_library_path: s.shadow_dyld_library_path,
        pkg_config_path: s.shadow_pkg_config_path,
        cmake_prefix_path: s.shadow_cmake_prefix_path,
        shadow_path: Seq::empty(),
        shadow_ld_library_path: Seq::empty(),
        shadow_dyld_library_path: Seq::empty(),
        shadow_pkg_config_path: Seq::empty(),
        shadow_cmake_prefix_path: Seq::empty(),
        env_marker: Seq::empty(),
    }
}

/// Activation is reversible: evaluating the activation fragment and then
/// its restoration procedure leaves every path variable byte-identical to
/// its prior value — an empty or unset prior included — with the shadows
/// and the marker unset, so no residue of the activation remains.
pub proof fn lemma_activation_reversible(s: ShellVars, d: Seq<char>)
    ensures
        ({
            let t = deactivation_effect(activation_effect(s, d));
            &&& t.path == s.path
            &&& t.ld_library_path == s.ld_library_path
            &&& t.dyld_library_path == s.dyld_library_path
            &&& t.pkg_config_path == s.pkg_config_path
            &&& t.cmake_prefix_path == s.cmake_prefix_path
            &&& t.shadow_path.len() == 0
            &&& t.shadow_ld_library_path.len() == 0
            &&& t.shadow_dyld_library_path.len() == 0
            &&& t.shadow_pkg_config_path.len() == 0
            &&& t.shadow_cmake_prefix_path.len() == 0
            &&& t.env_marker.len() == 0
        }),
{
}

/// The full activation fragment for the environment rooted at `d`:
/// snapshots first, then the prepending exports and the marker, then the
/// restoration procedure.
pub open spec fn activation_script(d: Seq<char>) -> Seq<char> {
    "# Lux environment activation script\n# Usage: eval \"$(lux activate)\"\n\n# Save old environment\nexport _LUX_OLD_PATH=\"$PATH\"\nexport _LUX_OLD_LD_LIBRARY_PATH=\"$LD_LIBRARY_PATH\"\nexport _LUX_OLD_DYLD_LIBRARY_PATH=\"$DYLD_LIBRARY_PATH\"\nexport _LUX_OLD_PKG_CONFIG_PATH=\"$PKG_CONFIG_PATH\"\nexport _LUX_OLD_CMAKE_PREFIX_PATH=\"$CMAKE_PREFIX_PATH\"\n\nexport LUX_ENV=\""@
        + d + "\"\nexport PATH=\""@ + d + "/bin:$PATH\"\nexport LD_LIBRARY_PATH=\""@ + d
        + "/lib:$LD_LIBRARY_PATH\"\nexport DYLD_LIBRARY_PATH=\""@ + d
        + "/lib:$DYLD_LIBRARY_PATH\"\nexport PKG_CONFIG_PATH=\""@ + d
        + "/lib/pkgconfig:$PKG_CONFIG_PATH\"\nexport CMAKE_PREFIX_PATH=\""@ + d
        + ":$CMAKE_PREFIX_PATH\"\n\n# Provide deactivation function\nlux_deactivate() {\n    export PATH=\"$_LUX_OLD_PATH\"\n    unset _LUX_OLD_PATH\n    export LD_LIBRARY_PATH=\"$_LUX_OLD_LD_LIBRARY_PATH\"\n    unset _LUX_OLD_LD_LIBRARY_PATH\n    export DYLD_LIBRARY_PATH=\"$_LUX_OLD_DYLD_LIBRARY_PATH\"\n    unset _LUX_OLD_DYLD_LIBRARY_PATH\n    export PKG_CONFIG_PATH=\"$_LUX_OLD_PKG_CONFIG_PATH\"\n    unset _LUX_OLD_PKG_CONFIG_PATH\n    export CMAKE_PREFIX_PATH=\"$_LUX_OLD_CMAKE_PREFIX_PATH\"\n    unset _LUX_OLD_CMAKE_PREFIX_PATH\n    unset LUX_ENV\n    unset -f lux_deactivate\n}\n"@
}

/// Renders activation fragments and status views for one environment
/// directory; performs no side effects of its own.
pub struct Activator {
    /// The environment directory the fragment exposes, as an absolute,
    /// canonical path resolved by the caller.
    pub env_dir: String,
}

impl Activator {
    /// An activator for the environment rooted at `env_dir`.
    pub fn new(env_dir: String) -> (a: Activator)
        ensures
            a.env_dir == env_dir,
    {
        Activator { env_dir }
    }

    /// Renders the activation fragment: pure text for the invoking shell to
    /// evaluate, exactly `activation_script` of the environment directory.
    pub fn generate_activation_script(&self) -> (script: String)
        ensures
            script@ == activation_script(self.env_dir@),
    {
        let mut s =
            "# Lux environment activation script\n# Usage: eval \"$(lux activate)\"\n\n# Save old environment\nexport _LUX_OLD_PATH=\"$PATH\"\nexport _LUX_OLD_LD_LIBRARY_PATH=\"$LD_LIBRARY_PATH\"\nexport _LUX_OLD_DYLD_LIBRARY_PATH=\"$DYLD_LIBRARY_PATH\"\nexport _LUX_OLD_PKG_CONFIG_PATH=\"$PKG_CONFIG_PATH\"\nexport _LUX_OLD_CMAKE_PREFIX_PATH=\"$CMAKE_PREFIX_PATH\"\n\nexport LUX_ENV=\"".to_owned();
        s.append(self.env_dir.as_str());
        s.append("\"\nexport PATH=\"");
        s.append(self.env_dir.as_str());
        s.append("/bin:$PATH\"\nexport LD_LIBRARY_PATH=\"");
        s.append(self.env_dir.as_str());
        s.append("/lib:$LD_LIBRARY_PATH\"\nexport DYLD_LIBRARY_PATH=\"");
        s.append(self.env_dir.as_str());
        s.append("/lib:$DYLD_LIBRARY_PATH\"\nexport PKG_CONFIG_PATH=\"");
        s.append(self.env_dir.as_str());
        s.append("/lib/pkgconfig:$PKG_CONFIG_PATH\"\nexport CMAKE_PREFIX_PATH=\"");
        s.append(self.env_dir.as_str());
        s.append(
            ":$CMAKE_PREFIX_PATH\"\n\n# Provide deactivation function\nlux_deactivate() {\n    export PATH=\"$_LUX_OLD_PATH\"\n    unset _LUX_OLD_PATH\n    export LD_LIBRARY_PATH=\"$_LUX_OLD_LD_LIBRARY_PATH\"\n    unset _LUX_OLD_LD_LIBRARY_PATH\n    export DYLD_LIBRARY_PATH=\"$_LUX_OLD_DYLD_LIBRARY_PATH\"\n    unset _LUX_OLD_DYLD_LIBRARY_PATH\n    export PKG_CONFIG_PATH=\"$_LUX_OLD_PKG_CONFIG_PATH\"\n    unset _LUX_OLD_PKG_CONFIG_PATH\n    export CMAKE_PREFIX_PATH=\"$_LUX_OLD_CMAKE_PREFIX_PATH\"\n    unset _LUX_OLD_CMAKE_PREFIX_PATH\n    unset LUX_ENV\n    unset -f lux_deactivate\n}\n",
        );
        s
    }
}

} // verus!
