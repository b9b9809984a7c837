use vstd::prelude::*;

verus! {

/// The square of `number`; the caller keeps the product within `i32`.
pub fn calculate_square(number: i32) -> (r: i32)
    requires
        i32::MIN <= number * number <= i32::MAX,
    ensures
        r == number * number,
{
    number * number
}

} // verus!
