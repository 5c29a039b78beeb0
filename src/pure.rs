use vstd::prelude::*;
use vstd::string::*;

verus! {

/// Yields the fixed greeting.
pub fn greeting() -> (r: &'static str)
    ensures
        r@ == "Hello, World!"@,
{
    "Hello, World!"
}

/// The sum of two integers; the sum must fit in `i32`.
pub fn add_ints(a: i32, b: i32) -> (r: i32)
    requires
        i32::MIN <= a + b <= i32::MAX,
    ensures
        r == a + b,
{
    a + b
}

/// Appends `b` to the owned text `a`.
pub fn append_text(a: String, b: &str) -> (r: String)
    ensures
        r@ == a@ + b@,
{
    a.concat(b)
}

/// Calls `f` once with ten and yields what it returns. `f` is borrowed only
/// as `Fn`, so it may be called again and may not change what it captured.
pub fn apply<F: Fn(i32) -> i32>(f: F) -> (r: i32)
    requires
        f.requires((10i32,)),
    ensures
        f.ensures((10i32,), r),
{
    f(10)
}

/// Adding is commutative: the results of `add_ints(a, b)` and `add_ints(b, a)`
/// are the same.
pub proof fn lemma_add_commutes(a: i32, b: i32, ab: i32, ba: i32)
    requires
        call_ensures(add_ints, (a, b), ab),
        call_ensures(add_ints, (b, a), ba),
    ensures
        ab == ba,
{
}

/// Adding is associative: adding `a` and `b` first and then `c` gives what
/// adding `b` and `c` first and then `a` to it gives.
pub proof fn lemma_add_associates(a: i32, b: i32, c: i32, ab: i32, ab_c: i32, bc: i32, a_bc: i32)
    requires
        call_ensures(add_ints, (a, b), ab),
        call_ensures(add_ints, (ab, c), ab_c),
        call_ensures(add_ints, (b, c), bc),
        call_ensures(add_ints, (a, bc), a_bc),
    ensures
        ab_c == a_bc,
{
}

/// Adding is pure: two calls on the same integers give the same result.
pub proof fn lemma_add_is_pure(a: i32, b: i32, r1: i32, r2: i32)
    requires
        call_ensures(add_ints, (a, b), r1),
        call_ensures(add_ints, (a, b), r2),
    ensures
        r1 == r2,
        r1 == a + b,
{
}

} // verus!
