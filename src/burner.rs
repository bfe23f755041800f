//! A load generator: a task whose runs do nothing but spend time.
use vstd::prelude::*;

verus! {

/// `x`, plus `x` counted up one hundred times by one.
pub fn pointlessly_complex_task(x: i32) -> (r: i32)
    requires
        i32::MIN <= 2 * x + 100 <= i32::MAX,
    ensures
        r == 2 * x + 100,
{
    let mut x2: i32 = x;
    let mut k: u32 = 0;
    while k < 100
        invariant
            k <= 100,
            x2 == x + k,
            i32::MIN <= 2 * x + 100 <= i32::MAX,
        decreases 100 - k,
    {
        x2 = x2 + 1;
        k = k + 1;
    }
    x + x2
}

} // verus!
