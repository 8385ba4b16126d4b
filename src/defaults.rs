use vstd::prelude::*;
use vstd::laws_eq::obeys_concrete_eq;
use vstd::std_specs::cmp::PartialEqSpec;

verus! {

/// What `is_default(x)` may return: `r` is the outcome of comparing `x`
/// with a value that `T::default()` produces.
pub open spec fn default_comparison<T: Default + PartialEq>(x: T, r: bool) -> bool {
    exists|d: T| #[trigger] call_ensures(T::default, (), d) && r == x.eq_spec(&d)
}

/// Tells whether `x` equals the default value of `T`, the test that a
/// serializer uses to leave out fields that hold nothing.
pub fn is_default<T: Default + PartialEq>(x: &T) -> (r: bool)
    ensures
        T::obeys_eq_spec() ==> default_comparison(*x, r),
{
    let d = T::default();
    *x == d
}


/// For a type whose equality is equality of values and whose `default`
/// always gives the same value `d`: `is_default` holds of `d`, and of no
/// other value, so it turns false once a change moves a value away from `d`.
pub proof fn lemma_is_default_exact<T: Default + PartialEq>(d: T, x: T, r: bool)
    requires
        obeys_concrete_eq::<T>(),
        call_ensures(T::default, (), d),
        forall|e: T| #[trigger] call_ensures(T::default, (), e) ==> e == d,
        default_comparison(x, r),
    ensures
        r <==> x == d,
{
    reveal(obeys_concrete_eq);
    let e = choose|e: T| #[trigger] call_ensures(T::default, (), e) && r == x.eq_spec(&e);
    assert(e == d);
}

} // verus!
