//! What holds of bundles across several operations.
use crate::bundle::{BorrowedWithOwner, RefMutWithOwner, RefWithOwner};
use crate::kind::{BorrowWithLifetime, PlainRef, PlainRefMut};
use crate::owner::StableOwner;
use vstd::prelude::*;

verus! {

/// A reference bundle shows the target of the owner it was made from: every
/// view of a bundle that holds `owner` and the plain-reference kind is that
/// owner's target.
pub proof fn lemma_ref_view_is_target<O>(owner: O, bundle: RefWithOwner<O>, view: &O::Target) where
    O: StableOwner,

    requires
        bundle.owner() == owner,
        bundle.has_view(view),
    ensures
        view == owner.target(),
{
}

/// A mutable-reference bundle under a shared borrow shows the target of the
/// owner it was made from.
pub proof fn lemma_ref_mut_view_is_target<O>(
    owner: O,
    bundle: RefMutWithOwner<O>,
    view: &O::Target,
) where O: StableOwner
    requires
        bundle.owner() == owner,
        bundle.has_view(view),
    ensures
        view == owner.target(),
{
}

/// A bundle made by `new_with` shows what `make` computed from the owner's
/// target: every view of it is a rescoping, against the target of the owner
/// that went in, of a result of `make` on that target.
pub proof fn lemma_view_is_made_from_target<B, O, F>(
    owner: O,
    make: F,
    bundle: BorrowedWithOwner<B, O>,
    view: <B as BorrowWithLifetime<'static, <O as StableOwner>::Target>>::Borrowed,
) where
    O: StableOwner,
    B: for<'a> BorrowWithLifetime<'a, <O as StableOwner>::Target>,
    F: for<'a> FnOnce(&'a <O as StableOwner>::Target) -> B,

    requires
        BorrowedWithOwner::made_by(owner, make, bundle),
        bundle.has_view(view),
    ensures
        exists|stored: B|
            {
                &&& #[trigger] call_ensures(make, (owner.target(),), stored)
                &&& call_ensures(
                    <B as BorrowWithLifetime<'static, <O as StableOwner>::Target>>::rescope,
                    (&stored, owner.target()),
                    view,
                )
            },
{
}

/// The owner comes back as it went in: a bundle that holds `owner` still
/// holds it after a map, so `into_owner` returns it, target and all, after
/// any number of maps.
pub proof fn lemma_owner_recovered<B, B2, O, F>(
    owner: O,
    bundle: BorrowedWithOwner<B, O>,
    f: F,
    mapped: BorrowedWithOwner<B2, O>,
) where
    O: StableOwner,
    B: for<'a> BorrowWithLifetime<'a, <O as StableOwner>::Target>,
    B2: for<'a> BorrowWithLifetime<'a, <O as StableOwner>::Target>,
    F: for<'a> FnOnce(<B as BorrowWithLifetime<'a, <O as StableOwner>::Target>>::Borrowed) -> B2,

    requires
        bundle.owner() == owner,
        bundle.maps_to(f, mapped),
    ensures
        mapped.owner() == owner,
        mapped.owner().target() == owner.target(),
{
}

/// Whether `h` does in one step what `f` and then `g` do in two on `bundle`:
/// whatever `h` returns for a view of the bundle, `g` returns for a view of
/// what `f` returns for the first view, rescoped against the bundle's target.
pub open spec fn composes<B, B2, B3, O, F, G, H>(
    bundle: BorrowedWithOwner<B, O>,
    f: F,
    g: G,
    h: H,
) -> bool where
    O: StableOwner,
    B: for<'a> BorrowWithLifetime<'a, <O as StableOwner>::Target>,
    B2: for<'a> BorrowWithLifetime<'a, <O as StableOwner>::Target>,
    F: for<'a> FnOnce(<B as BorrowWithLifetime<'a, <O as StableOwner>::Target>>::Borrowed) -> B2,
    G: for<'a> FnOnce(<B2 as BorrowWithLifetime<'a, <O as StableOwner>::Target>>::Borrowed) -> B3,
    H: for<'a> FnOnce(<B as BorrowWithLifetime<'a, <O as StableOwner>::Target>>::Borrowed) -> B3,
 {
    forall|
        view: <B as BorrowWithLifetime<'static, <O as StableOwner>::Target>>::Borrowed,
        out: B3,
    |
        bundle.has_view(view) && #[trigger] call_ensures(h, (view,), out) ==> exists|
            between: B2,
            between_view: <B2 as BorrowWithLifetime<'static, <O as StableOwner>::Target>>::Borrowed,
        |
            {
                &&& #[trigger] call_ensures(f, (view,), between)
                &&& #[trigger] call_ensures(
                    <B2 as BorrowWithLifetime<'static, <O as StableOwner>::Target>>::rescope,
                    (&between, bundle.owner().target()),
                    between_view,
                )
                &&& call_ensures(g, (between_view,), out)
            }
}

/// Mapping with a composed function gives nothing that mapping twice could
/// not give: if `h` composes `f` and `g`, every result of `map(h)` is a
/// result of `map(f)` followed by `map(g)`.
pub proof fn lemma_map_composed<B, B2, B3, O, F, G, H>(
    bundle: BorrowedWithOwner<B, O>,
    f: F,
    g: G,
    h: H,
    once: BorrowedWithOwner<B3, O>,
) where
    O: StableOwner,
    B: for<'a> BorrowWithLifetime<'a, <O as StableOwner>::Target>,
    B2: for<'a> BorrowWithLifetime<'a, <O as StableOwner>::Target>,
    B3: for<'a> BorrowWithLifetime<'a, <O as StableOwner>::Target>,
    F: for<'a> FnOnce(<B as BorrowWithLifetime<'a, <O as StableOwner>::Target>>::Borrowed) -> B2,
    G: for<'a> FnOnce(<B2 as BorrowWithLifetime<'a, <O as StableOwner>::Target>>::Borrowed) -> B3,
    H: for<'a> FnOnce(<B as BorrowWithLifetime<'a, <O as StableOwner>::Target>>::Borrowed) -> B3,

    requires
        composes(bundle, f, g, h),
        bundle.maps_to(h, once),
    ensures
        exists|between: BorrowedWithOwner<B2, O>|
            #[trigger] bundle.maps_to(f, between) && between.maps_to(g, once),
{
    let view = choose|view| #[trigger]
        bundle.has_view(view) && call_ensures(h, (view,), once.stored());
    let (stored, between_view) = choose|
        stored: B2,
        between_view: <B2 as BorrowWithLifetime<'static, <O as StableOwner>::Target>>::Borrowed,
    |
        {
            &&& #[trigger] call_ensures(f, (view,), stored)
            &&& #[trigger] call_ensures(
                <B2 as BorrowWithLifetime<'static, <O as StableOwner>::Target>>::rescope,
                (&stored, bundle.owner().target()),
                between_view,
            )
            &&& call_ensures(g, (between_view,), once.stored())
        };
    let between = BorrowedWithOwner::<B2, O>::holding(bundle.owner(), stored);
    BorrowedWithOwner::<B2, O>::lemma_holding(bundle.owner(), stored);
    assert(between.has_view(between_view));
    assert(bundle.maps_to(f, between) && between.maps_to(g, once));
}

/// Whether `f` has at most one result for each argument.
pub open spec fn single_valued<V, R, F>(f: F) -> bool where F: FnOnce(V) -> R {
    forall|arg: V, one: R, other: R| #[trigger]
        call_ensures(f, (arg,), one) && #[trigger] call_ensures(f, (arg,), other) ==> one == other
}

/// Whether rescoping a stored view of kind `B` against a target has at most
/// one result.
pub open spec fn rescopes_to_one<B, T>() -> bool where
    T: ?Sized + 'static,
    B: for<'a> BorrowWithLifetime<'a, T>,
 {
    forall|
        stored: &B,
        target: &T,
        one: <B as BorrowWithLifetime<'static, T>>::Borrowed,
        other: <B as BorrowWithLifetime<'static, T>>::Borrowed,
    | #[trigger]
        call_ensures(
            <B as BorrowWithLifetime<'static, T>>::rescope,
            (stored, target),
            one,
        ) && #[trigger] call_ensures(
            <B as BorrowWithLifetime<'static, T>>::rescope,
            (stored, target),
            other,
        ) ==> one == other
}

/// The kinds that come with the library rescope to one view: the target
/// itself for the two reference kinds, and the one value there is for the
/// unit kind.
pub proof fn lemma_plain_kinds_rescope_to_one<T: ?Sized + 'static>()
    ensures
        rescopes_to_one::<PlainRef, T>(),
        rescopes_to_one::<PlainRefMut, T>(),
        rescopes_to_one::<(), T>(),
{
}

/// Map composition: where rescoping and the functions have one result each,
/// `map(f)` followed by `map(g)` and `map(h)` for an `h` that composes `f`
/// and `g` give the same bundle, and so the same views.
pub proof fn lemma_map_composition<B, B2, B3, O, F, G, H>(
    bundle: BorrowedWithOwner<B, O>,
    f: F,
    between: BorrowedWithOwner<B2, O>,
    g: G,
    twice: BorrowedWithOwner<B3, O>,
    h: H,
    once: BorrowedWithOwner<B3, O>,
) where
    O: StableOwner,
    B: for<'a> BorrowWithLifetime<'a, <O as StableOwner>::Target>,
    B2: for<'a> BorrowWithLifetime<'a, <O as StableOwner>::Target>,
    B3: for<'a> BorrowWithLifetime<'a, <O as StableOwner>::Target>,
    F: for<'a> FnOnce(<B as BorrowWithLifetime<'a, <O as StableOwner>::Target>>::Borrowed) -> B2,
    G: for<'a> FnOnce(<B2 as BorrowWithLifetime<'a, <O as StableOwner>::Target>>::Borrowed) -> B3,
    H: for<'a> FnOnce(<B as BorrowWithLifetime<'a, <O as StableOwner>::Target>>::Borrowed) -> B3,

    requires
        bundle.maps_to(f, between),
        between.maps_to(g, twice),
        bundle.maps_to(h, once),
        composes(bundle, f, g, h),
        rescopes_to_one::<B, <O as StableOwner>::Target>(),
        rescopes_to_one::<B2, <O as StableOwner>::Target>(),
        single_valued::<
            <B as BorrowWithLifetime<'static, <O as StableOwner>::Target>>::Borrowed,
            B2,
            F,
        >(f),
        single_valued::<
            <B2 as BorrowWithLifetime<'static, <O as StableOwner>::Target>>::Borrowed,
            B3,
            G,
        >(g),
    ensures
        twice == once,
        forall|view| twice.has_view(view) == once.has_view(view),
{
    BorrowedWithOwner::<B3, O>::lemma_holding(once.owner(), once.stored());
}

/// A clone shows what the bundle it was cloned from shows: wherever cloning a
/// stored view gives an equal one, a bundle and its clone are equal, and what
/// is read through one is what is read through the other.
pub proof fn lemma_clone_shows_same_views<B, O>(
    source: BorrowedWithOwner<B, O>,
    copy: BorrowedWithOwner<B, O>,
) where
    O: StableOwner,
    B: Clone + for<'a> BorrowWithLifetime<'a, <O as StableOwner>::Target>,

    requires
        source.clones_to(copy),
        forall|one: B, other: B| #[trigger] cloned::<B>(one, other) ==> one == other,
    ensures
        copy == source,
        forall|view| copy.has_view(view) == source.has_view(view),
{
    BorrowedWithOwner::<B, O>::lemma_holding(source.owner(), source.stored());
}

} // verus!
