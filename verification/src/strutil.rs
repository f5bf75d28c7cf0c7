//! String helpers: verified string equality, and the case-normalization
//! utility used when struct field names are matched.

use vstd::prelude::*;
use vstd::string::StringSliceAdditionalSpecFns;
use vstd::utf8::encode_utf8_decode_utf8;

verus! {

/// Whether two strings hold the same characters.
pub fn str_eq(a: &str, b: &str) -> (r: bool)
    ensures
        r == (a@ == b@),
{
    let ab = a.as_bytes();
    let bb = b.as_bytes();
    if ab.len() != bb.len() {
        proof {
            if a@ == b@ {
                assert(a.spec_bytes() == b.spec_bytes());
            }
        }
        return false;
    }
    let n = ab.len();
    let mut i: usize = 0;
    while i < n
        invariant
            n == ab@.len(),
            n == bb@.len(),
            i <= n,
            ab@ == a.spec_bytes(),
            bb@ == b.spec_bytes(),
            forall|j: int| 0 <= j < i ==> ab@[j] == bb@[j],
        decreases n - i,
    {
        if ab[i] != bb[i] {
            proof {
                if a@ == b@ {
                    assert(a.spec_bytes() == b.spec_bytes());
                }
            }
            return false;
        }
        i += 1;
    }
    proof {
        assert(a.spec_bytes() =~= b.spec_bytes());
        encode_utf8_decode_utf8(a@);
        encode_utf8_decode_utf8(b@);
    }
    true
}

/// The canonical lowercase-with-underscores form of an identifier, as the
/// case-normalization utility computes it. A pure function of the input
/// characters; its value is fixed only by `to_snek_case` below.
pub uninterp spec fn snek_of(s: Seq<char>) -> Seq<char>;

/// Relies on heck's `ToSnekCase for str` (an alias of `ToSnakeCase`): the
/// conversion reads nothing but the input characters, so its result is a
/// pure function of them.
#[verifier::external_body]
pub fn to_snek_case(s: &str) -> (r: String)
    ensures
        r@ == snek_of(s@),
{
    heck::ToSnekCase::to_snek_case(s)
}

} // verus!
