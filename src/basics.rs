use vstd::prelude::*;

verus! {

/// Three hours, counted in seconds.
pub const THREE_HOURS_IN_SECONDS: u32 = 60 * 60 * 3;

/// The value of a binding that is never reassigned after it is made.
pub fn immutable() -> (x: u32)
    ensures
        x == 5,
{
    let x: u32 = 5;
    x
}

/// A binding before and after it is reassigned once.
pub fn mutable() -> (r: (u32, u32))
    ensures
        r == (10u32, 15u32),
{
    let mut y: u32 = 10;
    let first = y;
    y = 15;
    (first, y)
}

/// The value of the named constant.
pub fn constants() -> (r: u32)
    ensures
        r == 10800,
{
    THREE_HOURS_IN_SECONDS
}

/// A name redefined in the outer scope and again in an inner block: the
/// inner value, then the value seen after the block, which is the outer
/// redefinition's.
pub fn shadowing() -> (r: (u32, u32))
    ensures
        r == (12u32, 6u32),
{
    let x: u32 = 5;
    let x: u32 = x + 1;
    let inner: u32 = {
        let x: u32 = x * 2;
        x
    };
    (inner, x)
}

} // verus!
