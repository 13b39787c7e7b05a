//! Reading the service's settings.

use vstd::prelude::*;
use crate::text::{chars_of, find_char, find_in, lemma_find_in_bounds, string_of};

verus! {

/// The `sep`-separated fields of `s[lo..]`, as `str::split` gives them
/// (an empty text is one empty field).
pub open spec fn fields_from(s: Seq<char>, sep: char, lo: int) -> Seq<Seq<char>>
    decreases s.len() - lo,
{
    if lo < 0 || lo > s.len() {
        seq![]
    } else {
        let e = find_in(s, sep, lo, s.len() as int);
        if e < s.len() {
            proof {
                lemma_find_in_bounds(s, sep, lo, s.len() as int);
            }
            seq![s.subrange(lo, e)] + fields_from(s, sep, e + 1)
        } else {
            seq![s.subrange(lo, s.len() as int)]
        }
    }
}

/// The allowed CORS origins of a `DEX_ALLOWED_ORIGINS` value: the text split
/// at every `,`, with nothing trimmed (the value holds no spaces).
pub fn allowed_origins(value: &str) -> (res: Vec<String>)
    ensures
        res@.len() == fields_from(value@, ',', 0).len(),
        forall|i: int| 0 <= i < res@.len() ==> #[trigger] res@[i]@ == fields_from(value@, ',', 0)[i],
{
    let v = chars_of(value);
    let n = v.len();
    let mut out: Vec<String> = Vec::new();
    let mut lo: usize = 0;
    loop
        invariant
            v@ == value@,
            n == v@.len(),
            lo <= n,
            fields_from(value@, ',', 0) == out@.map_values(|f: String| f@) + fields_from(
                value@,
                ',',
                lo as int,
            ),
        decreases n - lo,
    {
        let e = find_char(&v, ',', lo, n);
        proof {
            lemma_find_in_bounds(v@, ',', lo as int, n as int);
        }
        let f = string_of(&v, lo, e);
        let ghost before = out@;
        out.push(f);
        proof {
            assert(out@.map_values(|f: String| f@) =~= before.map_values(|f: String| f@) + seq![
                v@.subrange(lo as int, e as int),
            ]);
        }
        if e < n {
            proof {
                assert(fields_from(value@, ',', lo as int) == seq![v@.subrange(lo as int, e as int)]
                    + fields_from(value@, ',', e + 1));
                assert(out@.map_values(|f: String| f@) + fields_from(value@, ',', e + 1)
                    =~= before.map_values(|f: String| f@) + fields_from(value@, ',', lo as int));
            }
            lo = e + 1;
        } else {
            proof {
                assert(fields_from(value@, ',', lo as int) == seq![v@.subrange(lo as int, n as int)]);
                assert(fields_from(value@, ',', 0) =~= out@.map_values(|f: String| f@));
                assert forall|i: int| 0 <= i < out@.len() implies #[trigger] out@[i]@ == fields_from(
                    value@,
                    ',',
                    0,
                )[i] by {
                    assert(out@.map_values(|f: String| f@)[i] == out@[i]@);
                }
            }
            return out;
        }
    }
}

} // verus!
