use crate::slot::{kept, LazyPinned};
use core::cmp::Ordering;
use vstd::prelude::*;
use vstd::std_specs::cmp::{PartialEqSpec, PartialOrdSpec};

verus! {

/// Two slots are equal exactly when the options they hold are equal.
pub proof fn lemma_eq_is_option_eq<T: PartialEq>(a: Option<T>, b: Option<T>)
    ensures
        PartialEqSpec::eq_spec(&LazyPinned(a), &LazyPinned(b)) == PartialEqSpec::eq_spec(&a, &b),
{
}

/// Two occupied slots are equal exactly when the values they hold are equal,
/// and an empty slot equals an empty one and no occupied one.
pub proof fn lemma_eq_by_cases<T: PartialEq>(x: T, y: T)
    ensures
        PartialEqSpec::eq_spec(&LazyPinned(Some(x)), &LazyPinned(Some(y))) == PartialEqSpec::eq_spec(
            &x,
            &y,
        ),
        PartialEqSpec::eq_spec(&LazyPinned::<T>(None), &LazyPinned::<T>(None)),
        !PartialEqSpec::eq_spec(&LazyPinned::<T>(None), &LazyPinned(Some(y))),
        !PartialEqSpec::eq_spec(&LazyPinned(Some(x)), &LazyPinned::<T>(None)),
{
}

/// Two slots compare as the options they hold do.
pub proof fn lemma_order_is_option_order<T: PartialOrd>(a: Option<T>, b: Option<T>)
    ensures
        PartialOrdSpec::partial_cmp_spec(&LazyPinned(a), &LazyPinned(b))
            == PartialOrdSpec::partial_cmp_spec(&a, &b),
{
}

/// An empty slot is strictly less than every occupied one, whatever it
/// holds, and two occupied slots compare as their values do.
pub proof fn lemma_empty_is_least<T: PartialOrd>(x: T, y: T)
    ensures
        PartialOrdSpec::partial_cmp_spec(&LazyPinned::<T>(None), &LazyPinned(Some(x))) == Some(
            Ordering::Less,
        ),
        PartialOrdSpec::partial_cmp_spec(&LazyPinned(Some(x)), &LazyPinned::<T>(None)) == Some(
            Ordering::Greater,
        ),
        PartialOrdSpec::partial_cmp_spec(&LazyPinned::<T>(None), &LazyPinned::<T>(None)) == Some(
            Ordering::Equal,
        ),
        PartialOrdSpec::partial_cmp_spec(&LazyPinned(Some(x)), &LazyPinned(Some(y)))
            == PartialOrdSpec::partial_cmp_spec(&x, &y),
{
}

/// Insert-if-absent is idempotent: after `v1` went into an empty slot, a
/// second insert that offers `v2` keeps `v1`.
pub proof fn lemma_first_insert_wins<T>(v1: T, v2: T)
    ensures
        kept(None, v1) == v1,
        kept(Some(kept(None, v1)), v2) == v1,
{
}

/// Insert-if-absent never changes an occupied slot, and fills an empty one
/// with what was offered.
pub proof fn lemma_insert_keeps_occupied<T>(c: LazyPinned<T>, v: T)
    ensures
        c.is_occupied() ==> Some(kept(c@, v)) == c@,
        !c.is_occupied() ==> kept(c@, v) == v,
{
}

/// An occupied slot makes no demand on a producer: one that could never be
/// called is accepted with it, so it is not called.
pub proof fn lemma_occupied_admits_any_producer<T, F: FnOnce() -> T>(c: LazyPinned<T>, f: F)
    requires
        c.is_occupied(),
    ensures
        c.admits_producer(f),
{
}

/// As `lemma_occupied_admits_any_producer`, for a producer that takes data.
pub proof fn lemma_occupied_admits_any_producer_with<T, Data, F: FnOnce(Data) -> T>(
    c: LazyPinned<T>,
    data: Data,
    f: F,
)
    requires
        c.is_occupied(),
    ensures
        c.admits_producer_with(data, f),
{
}

/// An empty slot makes no demand on a user: one that could never be called
/// is accepted with it, so it is not called.
pub proof fn lemma_empty_admits_any_user<T, U: FnOnce(&mut T)>(c: LazyPinned<T>, u: U)
    requires
        !c.is_occupied(),
    ensures
        c.admits_user(u),
{
}

/// As `lemma_empty_admits_any_user`, for a user that takes data.
pub proof fn lemma_empty_admits_any_user_with<T, Data, U: FnOnce(Data, &mut T)>(
    c: LazyPinned<T>,
    data: Data,
    u: U,
)
    requires
        !c.is_occupied(),
    ensures
        c.admits_user_with(data, u),
{
}

/// The shared and the exclusive projection of one slot agree on presence:
/// one hands out a value exactly when the other does, and then the same one.
pub proof fn lemma_projections_agree<T>(
    c: LazyPinned<T>,
    shared: Option<&T>,
    exclusive: Option<&mut T>,
)
    requires
        c.projects_to(shared),
        c.projects_to_mut(exclusive),
    ensures
        shared is Some <==> exclusive is Some,
        shared is Some <==> c.is_occupied(),
        shared matches Some(s) ==> *s == *exclusive.unwrap(),
{
}

} // verus!
