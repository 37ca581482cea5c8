//! Lowercase hexadecimal rendering of byte strings, used to address the
//! content cache by declared digest. The encoding is proved injective, which
//! is what keeps distinct artifacts from colliding in the cache.

use vstd::prelude::*;

verus! {

/// The lowercase hex character standing for one value below 16.
pub open spec fn hex_digit(d: int) -> char
    recommends
        0 <= d < 16,
{
    if d == 0 {
        '0'
    } else if d == 1 {
        '1'
    } else if d == 2 {
        '2'
    } else if d == 3 {
        '3'
    } else if d == 4 {
        '4'
    } else if d == 5 {
        '5'
    } else if d == 6 {
        '6'
    } else if d == 7 {
        '7'
    } else if d == 8 {
        '8'
    } else if d == 9 {
        '9'
    } else if d == 10 {
        'a'
    } else if d == 11 {
        'b'
    } else if d == 12 {
        'c'
    } else if d == 13 {
        'd'
    } else if d == 14 {
        'e'
    } else {
        'f'
    }
}

/// Lowercase hex rendering of a byte string: two characters per byte, high
/// nibble first.
pub open spec fn hex_of(bs: Seq<u8>) -> Seq<char>
    decreases bs.len(),
{
    if bs.len() == 0 {
        Seq::empty()
    } else {
        hex_of(bs.drop_last()) + seq![hex_digit(bs.last() as int / 16), hex_digit(bs.last() as int % 16)]
    }
}

pub proof fn lemma_hex_of_len(bs: Seq<u8>)
    ensures
        hex_of(bs).len() == 2 * bs.len(),
    decreases bs.len(),
{
    if bs.len() > 0 {
        lemma_hex_of_len(bs.drop_last());
    }
}

/// Two distinct values below 16 render as distinct hex characters.
proof fn lemma_hex_digit_injective(a: int, b: int)
    requires
        0 <= a < 16,
        0 <= b < 16,
        hex_digit(a) == hex_digit(b),
    ensures
        a == b,
{
}

/// Hex rendering is injective: equal renderings come only from equal byte
/// strings. This is what makes a digest-derived cache address collision-free.
pub proof fn lemma_hex_of_injective(a: Seq<u8>, b: Seq<u8>)
    requires
        hex_of(a) == hex_of(b),
    ensures
        a =~= b,
    decreases a.len(),
{
    lemma_hex_of_len(a);
    lemma_hex_of_len(b);
    if a.len() > 0 {
        let n = a.len() as int;
        let pa = hex_of(a.drop_last());
        let pb = hex_of(b.drop_last());
        lemma_hex_of_len(a.drop_last());
        lemma_hex_of_len(b.drop_last());
        assert(hex_of(a)[2 * n - 2] == hex_digit(a.last() as int / 16));
        assert(hex_of(a)[2 * n - 1] == hex_digit(a.last() as int % 16));
        assert(hex_of(b)[2 * n - 2] == hex_digit(b.last() as int / 16));
        assert(hex_of(b)[2 * n - 1] == hex_digit(b.last() as int % 16));
        lemma_hex_digit_injective(a.last() as int / 16, b.last() as int / 16);
        lemma_hex_digit_injective(a.last() as int % 16, b.last() as int % 16);
        assert(a.last() as int == 16 * (a.last() as int / 16) + a.last() as int % 16);
        assert(b.last() as int == 16 * (b.last() as int / 16) + b.last() as int % 16);
        assert(a.last() == b.last());
        assert(pa =~= pb) by {
            assert forall|i: int| 0 <= i < 2 * n - 2 implies pa[i] == pb[i] by {
                assert(hex_of(a)[i] == pa[i]);
                assert(hex_of(b)[i] == pb[i]);
            }
        }
        lemma_hex_of_injective(a.drop_last(), b.drop_last());
        assert(a =~= a.drop_last() + seq![a.last()]);
        assert(b =~= b.drop_last() + seq![b.last()]);
    }
}

/// One-character string for a value below 16.
fn hex_digit_str(d: u8) -> (r: &'static str)
    requires
        d < 16,
    ensures
        r@.len() == 1,
        r@[0] == hex_digit(d as int),
{
    match d {
        0 => {
            proof {
                reveal_strlit("0");
            }
            "0"
        },
        1 => {
            proof {
                reveal_strlit("1");
            }
            "1"
        },
        2 => {
            proof {
                reveal_strlit("2");
            }
            "2"
        },
        3 => {
            proof {
                reveal_strlit("3");
            }
            "3"
        },
        4 => {
            proof {
                reveal_strlit("4");
            }
            "4"
        },
        5 => {
            proof {
                reveal_strlit("5");
            }
            "5"
        },
        6 => {
            proof {
                reveal_strlit("6");
            }
            "6"
        },
        7 => {
            proof {
                reveal_strlit("7");
            }
            "7"
        },
        8 => {
            proof {
                reveal_strlit("8");
            }
            "8"
        },
        9 => {
            proof {
                reveal_strlit("9");
            }
            "9"
        },
        10 => {
            proof {
                reveal_strlit("a");
            }
            "a"
        },
        11 => {
            proof {
                reveal_strlit("b");
            }
            "b"
        },
        12 => {
            proof {
                reveal_strlit("c");
            }
            "c"
        },
        13 => {
            proof {
                reveal_strlit("d");
            }
            "d"
        },
        14 => {
            proof {
                reveal_strlit("e");
            }
            "e"
        },
        _ => {
            proof {
                reveal_strlit("f");
            }
            "f"
        },
    }
}

/// Renders a byte string as lowercase hex, two characters per byte.
pub fn encode_hex(bs: &Vec<u8>) -> (s: String)
    ensures
        s@ == hex_of(bs@),
{
    let mut s = String::new();
    let mut i: usize = 0;
    while i < bs.len()
        invariant
            i <= bs.len(),
            s@ =~= hex_of(bs@.take(i as int)),
        decreases bs.len() - i,
    {
        let b = bs[i];
        let hi = hex_digit_str(b / 16);
        let lo = hex_digit_str(b % 16);
        s.append(hi);
        s.append(lo);
        proof {
            let t = bs@.take(i + 1);
            assert(t.drop_last() =~= bs@.take(i as int));
            assert(t.last() == bs@[i as int]);
            assert(seq![hex_digit(b as int / 16), hex_digit(b as int % 16)] =~= hi@ + lo@);
        }
        i = i + 1;
    }
    proof {
        assert(bs@.take(bs@.len() as int) =~= bs@);
    }
    s
}

} // verus!
