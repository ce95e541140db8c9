//! Identifier safety at the ingestion boundary: an externally supplied
//! filename or document identifier may be used to address storage only if
//! it is a single normal path component, so it cannot traverse outside the
//! designated root.

use vstd::prelude::*;

verus! {

/// A safe storage identifier: non-empty, free of path separators, and not
/// one of the relative components `.` and `..`.
pub open spec fn spec_valid_identifier(s: Seq<char>) -> bool {
    &&& s.len() > 0
    &&& (forall|i: int| 0 <= i < s.len() ==> s[i] != '/' && s[i] != '\\')
    &&& s != seq!['.']
    &&& s != seq!['.', '.']
}

/// Decides whether `name` is safe to use as a storage identifier. Pure and
/// total: no I/O, accepts exactly the identifiers `spec_valid_identifier`
/// allows.
pub fn validate_identifier(name: &str) -> (r: bool)
    ensures
        r == spec_valid_identifier(name@),
{
    let n: usize = name.unicode_len();
    if n == 0 {
        return false;
    }
    let mut i: usize = 0;
    while i < n
        invariant
            n == name@.len(),
            i <= n,
            forall|j: int| 0 <= j < i ==> name@[j] != '/' && name@[j] != '\\',
        decreases n - i,
    {
        let c: char = name.get_char(i);
        if c == '/' || c == '\\' {
            return false;
        }
        i = i + 1;
    }
    if n == 1 {
        let c0: char = name.get_char(0);
        if c0 == '.' {
            proof {
                assert(name@ =~= seq!['.']);
            }
            return false;
        }
        proof {
            assert(name@ != seq!['.']) by {
                if name@ == seq!['.'] {
                    assert(name@[0] == '.');
                }
            }
            assert(name@ != seq!['.', '.']) by {
                if name@ == seq!['.', '.'] {
                    assert(name@.len() == 2);
                }
            }
        }
        return true;
    }
    if n == 2 {
        let c0: char = name.get_char(0);
        let c1: char = name.get_char(1);
        if c0 == '.' && c1 == '.' {
            proof {
                assert(name@ =~= seq!['.', '.']);
            }
            return false;
        }
        proof {
            assert(name@ != seq!['.']) by {
                if name@ == seq!['.'] {
                    assert(name@.len() == 1);
                }
            }
            assert(name@ != seq!['.', '.']) by {
                if name@ == seq!['.', '.'] {
                    assert(name@[0] == '.');
                    assert(name@[1] == '.');
                }
            }
        }
        return true;
    }
    proof {
        assert(name@ != seq!['.']) by {
            if name@ == seq!['.'] {
                assert(name@.len() == 1);
            }
        }
        assert(name@ != seq!['.', '.']) by {
            if name@ == seq!['.', '.'] {
                assert(name@.len() == 2);
            }
        }
    }
    true
}

} // verus!
