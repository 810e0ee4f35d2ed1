//! Small string helpers used by parsers of wire names.

use vstd::prelude::*;
use vstd::string::StringSliceAdditionalSpecFns;

verus! {

/// An ASCII upper-case letter mapped to lower case; any other byte unchanged.
pub open spec fn lower_byte(b: u8) -> u8 {
    if 65 <= b && b <= 90 {
        (b + 32) as u8
    } else {
        b
    }
}

/// The byte sequence with ASCII letters lowered.
pub open spec fn ascii_lower(s: Seq<u8>) -> Seq<u8> {
    Seq::new(s.len(), |i: int| lower_byte(s[i]))
}

/// Whether the two strings are equal up to ASCII letter case.
pub(crate) fn eq_ignore_ascii(a: &str, b: &str) -> (r: bool)
    ensures
        r == (ascii_lower(a.spec_bytes()) == ascii_lower(b.spec_bytes())),
{
    let ab = a.as_bytes();
    let bb = b.as_bytes();
    if ab.len() != bb.len() {
        proof {
            assert(ascii_lower(a.spec_bytes()).len() != ascii_lower(b.spec_bytes()).len());
        }
        return false;
    }
    let mut i: usize = 0;
    while i < ab.len()
        invariant
            i <= ab@.len(),
            ab@ == a.spec_bytes(),
            bb@ == b.spec_bytes(),
            ab@.len() == bb@.len(),
            forall|k: int| 0 <= k < i ==> lower_byte(ab@[k]) == lower_byte(bb@[k]),
        decreases ab@.len() - i,
    {
        let x = ab[i];
        let y = bb[i];
        let lx = if 65 <= x && x <= 90 {
            x + 32
        } else {
            x
        };
        let ly = if 65 <= y && y <= 90 {
            y + 32
        } else {
            y
        };
        if lx != ly {
            proof {
                assert(ascii_lower(a.spec_bytes())[i as int] != ascii_lower(b.spec_bytes())[
                    i as int
                ]);
            }
            return false;
        }
        i = i + 1;
    }
    proof {
        assert(ascii_lower(a.spec_bytes()) =~= ascii_lower(b.spec_bytes()));
    }
    true
}

/// Whether the two strings hold the same characters.
pub(crate) fn str_eq(a: &str, b: &str) -> (r: bool)
    ensures
        r == (a@ == b@),
{
    let sa = String::from_str(a);
    let sb = String::from_str(b);
    sa == sb
}

} // verus!
