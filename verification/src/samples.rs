//! Helpers of the sample projects in the RADS workspace.

use vstd::prelude::*;
use crate::text;

verus! {

/// The numbers one to ten.
pub fn count_to_10() -> (v: Vec<u8>)
    ensures
        v@ == Seq::new(10, |i: int| (i + 1) as u8),
{
    let mut v: Vec<u8> = Vec::new();
    let mut n: u8 = 1;
    while n <= 10
        invariant
            1 <= n <= 11,
            v@ == Seq::new((n - 1) as nat, |i: int| (i + 1) as u8),
        decreases 11 - n,
    {
        v.push(n);
        proof {
            assert(v@ =~= Seq::new(n as nat, |i: int| (i + 1) as u8));
        }
        n += 1;
    }
    v
}

/// The characters of a string in reverse order.
pub fn reverse_string(input: &str) -> (r: String)
    ensures
        r@ == input@.reverse(),
{
    let chars = text::chars_of(input);
    let mut out: Vec<char> = Vec::new();
    let mut i: usize = chars.len();
    while i > 0
        invariant
            i <= chars.len(),
            chars@ == input@,
            out@ == chars@.skip(i as int).reverse(),
        decreases i,
    {
        i -= 1;
        out.push(chars[i]);
        proof {
            assert(out@ =~= chars@.skip(i as int).reverse());
        }
    }
    proof {
        assert(chars@.skip(0) =~= chars@);
    }
    text::string_of(&out)
}

/// A point in the plane.
pub fn coordinates_2d(x: i32, y: i32) -> (p: (i32, i32))
    ensures
        p == (x, y),
{
    (x, y)
}

} // verus!
