//! The bundle itself: one owner, one stored view, and the operations that
//! build, read, transform and take apart the pair.
use crate::kind::{BorrowWithLifetime, PlainRef, PlainRefMut};
use crate::owner::{hands_out_target, CloneStableOwner, StableOwner, StableOwnerMut};
use vstd::prelude::*;

verus! {

/// A view held together with the owner of the data it is a view of.
///
/// `B` is the kind of the view and at the same time its stored form. The
/// owner is never handed out while the bundle exists, so nothing can change
/// the target behind the back of the stored view.
pub struct BorrowedWithOwner<B, O> where
    O: StableOwner,
    B: for<'a> BorrowWithLifetime<'a, <O as StableOwner>::Target>,
 {
    // The view comes first: fields are dropped in the order in which they are
    // declared, and a view is torn down before the owner it speaks of.
    borrowed: B,
    owner: O,
}

/// A plain reference to the owner's target, held together with the owner.
pub type RefWithOwner<O> = BorrowedWithOwner<PlainRef, O>;

/// A mutable reference to the owner's target, held together with the owner.
pub type RefMutWithOwner<O> = BorrowedWithOwner<PlainRefMut, O>;

impl<O> RefWithOwner<O> where O: StableOwner {
    /// Bundles `owner` with a reference to all of its target: the view of
    /// the new bundle is the owner's target.
    pub fn new(owner: O) -> (bundle: Self)
        ensures
            bundle.owner() == owner,
            forall|view: &<O as StableOwner>::Target| #[trigger]
                bundle.has_view(view) ==> view == owner.target(),
    {
        BorrowedWithOwner { borrowed: PlainRef, owner }
    }
}

impl<O> RefMutWithOwner<O> where O: StableOwnerMut {
    /// Bundles `owner` with a mutable reference to all of its target: the
    /// view of the new bundle is the owner's target, for reading under a
    /// shared borrow and for writing under an exclusive one.
    pub fn new(owner: O) -> (bundle: Self)
        ensures
            bundle.owner() == owner,
            forall|view: &<O as StableOwner>::Target| #[trigger]
                bundle.has_view(view) ==> view == owner.target(),
    {
        BorrowedWithOwner { borrowed: PlainRefMut, owner }
    }
}

impl<B, O> BorrowedWithOwner<B, O> where
    O: StableOwner,
    B: for<'a> BorrowWithLifetime<'a, <O as StableOwner>::Target>,
 {
    /// The owner inside the bundle.
    pub closed spec fn owner(self) -> O {
        self.owner
    }

    /// The stored form of the view inside the bundle.
    pub closed spec fn stored(self) -> B {
        self.borrowed
    }

    /// The bundle that holds `owner` and `stored`.
    pub closed spec fn holding(owner: O, stored: B) -> Self {
        BorrowedWithOwner { borrowed: stored, owner }
    }

    /// A bundle is its owner and its stored view, and nothing else.
    pub proof fn lemma_holding(owner: O, stored: B)
        ensures
            Self::holding(owner, stored).owner() == owner,
            Self::holding(owner, stored).stored() == stored,
            forall|bundle: Self|
                bundle.owner() == owner && bundle.stored() == stored ==> bundle == Self::holding(
                    owner,
                    stored,
                ),
    {
    }

    /// Whether `view` is the stored view rescoped to a shared borrow of this
    /// bundle: what the kind's `rescope` may return for the stored form and
    /// the target that the owner hands out.
    pub open spec fn has_view(
        self,
        view: <B as BorrowWithLifetime<'static, <O as StableOwner>::Target>>::Borrowed,
    ) -> bool {
        &&& hands_out_target(self.owner())
        &&& call_ensures(
            <B as BorrowWithLifetime<'static, <O as StableOwner>::Target>>::rescope,
            (&self.stored(), self.owner().target()),
            view,
        )
    }

    /// Whether `bundle` is what [`new_with`](Self::new_with) may return for
    /// `owner` and `make`: it holds `owner`, and its stored view is a result
    /// of `make` on the owner's target.
    pub open spec fn made_by<F>(owner: O, make: F, bundle: Self) -> bool where
        F: for<'a> FnOnce(&'a <O as StableOwner>::Target) -> B,
     {
        &&& bundle.owner() == owner
        &&& hands_out_target(owner)
        &&& call_ensures(make, (owner.target(),), bundle.stored())
    }

    /// Whether `mapped` is what [`map`](Self::map) may return for this bundle
    /// and `f`: it holds the same owner, and its stored view is a result of
    /// `f` on a view of this bundle.
    pub open spec fn maps_to<B2, F>(self, f: F, mapped: BorrowedWithOwner<B2, O>) -> bool where
        B2: for<'a> BorrowWithLifetime<'a, <O as StableOwner>::Target>,
        F: for<'a> FnOnce(
            <B as BorrowWithLifetime<'a, <O as StableOwner>::Target>>::Borrowed,
        ) -> B2,
     {
        &&& mapped.owner() == self.owner()
        &&& exists|view| #[trigger] self.has_view(view) && call_ensures(f, (view,), mapped.stored())
    }

    /// Whether `copy` is what cloning this bundle may return: a bundle with
    /// the same owner, and so the same target, whose stored view is a clone
    /// of this one's.
    pub open spec fn clones_to(self, copy: Self) -> bool where B: Clone {
        &&& copy.owner() == self.owner()
        &&& cloned::<B>(self.stored(), copy.stored())
    }

    /// Bundles `owner` with the view that `make` computes from its target.
    ///
    /// `make` has to work for a borrow of any length, and what it returns
    /// holds no borrow: it cannot keep the reference it was given.
    pub fn new_with<F>(owner: O, make: F) -> (bundle: Self) where
        F: for<'a> FnOnce(&'a <O as StableOwner>::Target) -> B,

        requires
            hands_out_target(owner) ==> call_requires(make, (owner.target(),)),
        ensures
            Self::made_by(owner, make, bundle),
    {
        let borrowed = make(owner.target_ref());
        BorrowedWithOwner { borrowed, owner }
    }

    /// Bundles `owner` with the view that `make` computes from its target,
    /// where `make` may also write to the target: the bundle holds the owner
    /// with what `make` left there.
    pub fn new_with_mut<F>(owner: O, make: F) -> (bundle: Self) where
        O: StableOwnerMut,
        F: for<'a> FnOnce(&'a mut <O as StableOwner>::Target) -> B,

        requires
            forall|handle: &mut O, target: &mut <O as StableOwner>::Target|
                #[trigger] call_ensures(<O as StableOwnerMut>::target_mut, (handle,), target)
                    && *handle == owner ==> call_requires(make, (target,)),
        ensures
            exists|handle: &mut O, target: &mut <O as StableOwner>::Target|
                {
                    &&& #[trigger] call_ensures(
                        <O as StableOwnerMut>::target_mut,
                        (handle,),
                        target,
                    )
                    &&& call_ensures(make, (target,), bundle.stored())
                    &&& *handle == owner
                    &&& *final(handle) == bundle.owner()
                },
    {
        let mut owner = owner;
        let borrowed = make(owner.target_mut());
        BorrowedWithOwner { borrowed, owner }
    }

    /// Drops the view and gives the owner back.
    pub fn into_owner(self) -> (owner: O)
        ensures
            owner == self.owner(),
    {
        self.owner
    }

    /// Takes the bundle apart into the owner and the stored form of the view.
    /// The stored form holds no borrow of the owner, so it may outlive it.
    pub fn into_parts(self) -> (parts: (O, B))
        ensures
            parts.0 == self.owner(),
            parts.1 == self.stored(),
    {
        (self.owner, self.borrowed)
    }

    /// Drops the owner and gives back the stored form of the view.
    pub fn into_borrowed(self) -> (stored: B)
        ensures
            stored == self.stored(),
    {
        self.borrowed
    }

    /// The view, valid for as long as the bundle stays borrowed.
    pub fn borrowed<'a>(&'a self) -> (view: <B as BorrowWithLifetime<
        'a,
        <O as StableOwner>::Target,
    >>::Borrowed)
        ensures
            self.has_view(view),
    {
        self.borrowed.rescope(self.owner.target_ref())
    }

    /// The view for exclusive access, valid for as long as the bundle stays
    /// exclusively borrowed.
    ///
    /// The view is what the kind's `rescope_mut` returns for an exclusive
    /// borrow of the stored form and one of the owner's target. What the
    /// caller leaves behind those two borrows is what the bundle holds when
    /// the view is gone.
    pub fn borrowed_mut<'a>(&'a mut self) -> (view: <B as BorrowWithLifetime<
        'a,
        <O as StableOwner>::Target,
    >>::BorrowedMut) where O: StableOwnerMut
        ensures
            exists|owner: &mut O, stored: &mut B, target: &mut <O as StableOwner>::Target|
                {
                    &&& #[trigger] call_ensures(
                        <O as StableOwnerMut>::target_mut,
                        (owner,),
                        target,
                    )
                    &&& #[trigger] call_ensures(
                        <B as BorrowWithLifetime<'a, <O as StableOwner>::Target>>::rescope_mut,
                        (stored, target),
                        view,
                    )
                    &&& *owner == old(self).owner()
                    &&& *final(owner) == final(self).owner()
                    &&& *stored == old(self).stored()
                    &&& *final(stored) == final(self).stored()
                },
    {
        self.borrowed.rescope_mut(self.owner.target_mut())
    }

    /// Replaces the view by what `f` makes of it and keeps the owner.
    ///
    /// `f` gets the view by value, for a borrow that ends when `f` returns,
    /// and has to work for a borrow of any length. The old stored view is
    /// dropped once `f` is done.
    pub fn map<B2, F>(self, f: F) -> (mapped: BorrowedWithOwner<B2, O>) where
        B2: for<'a> BorrowWithLifetime<'a, <O as StableOwner>::Target>,
        F: for<'a> FnOnce(
            <B as BorrowWithLifetime<'a, <O as StableOwner>::Target>>::Borrowed,
        ) -> B2,

        requires
            forall|view| #[trigger] self.has_view(view) ==> call_requires(f, (view,)),
        ensures
            self.maps_to(f, mapped),
    {
        let view = self.borrowed.rescope(self.owner.target_ref());
        assert(self.has_view(view));
        let borrowed = f(view);
        BorrowedWithOwner { borrowed, owner: self.owner }
    }

    /// Replaces the view by what `f` makes of the view for exclusive access,
    /// and keeps the owner with whatever `f` has written to its target
    /// through that view.
    pub fn map_mut<B2, F>(self, f: F) -> (mapped: BorrowedWithOwner<B2, O>) where
        O: StableOwnerMut,
        B2: for<'a> BorrowWithLifetime<'a, <O as StableOwner>::Target>,
        F: for<'a> FnOnce(
            <B as BorrowWithLifetime<'a, <O as StableOwner>::Target>>::BorrowedMut,
        ) -> B2,

        requires
            forall|
                owner: &mut O,
                stored: &mut B,
                target: &mut <O as StableOwner>::Target,
                view: <B as BorrowWithLifetime<'static, <O as StableOwner>::Target>>::BorrowedMut,
            |
                {
                    &&& #[trigger] call_ensures(
                        <O as StableOwnerMut>::target_mut,
                        (owner,),
                        target,
                    )
                    &&& #[trigger] call_ensures(
                        <B as BorrowWithLifetime<
                            'static,
                            <O as StableOwner>::Target,
                        >>::rescope_mut,
                        (stored, target),
                        view,
                    )
                    &&& *owner == self.owner()
                    &&& *stored == self.stored()
                } ==> call_requires(f, (view,)),
        ensures
            exists|
                owner: &mut O,
                stored: &mut B,
                target: &mut <O as StableOwner>::Target,
                view: <B as BorrowWithLifetime<'static, <O as StableOwner>::Target>>::BorrowedMut,
            |
                {
                    &&& #[trigger] call_ensures(
                        <O as StableOwnerMut>::target_mut,
                        (owner,),
                        target,
                    )
                    &&& #[trigger] call_ensures(
                        <B as BorrowWithLifetime<
                            'static,
                            <O as StableOwner>::Target,
                        >>::rescope_mut,
                        (stored, target),
                        view,
                    )
                    &&& call_ensures(f, (view,), mapped.stored())
                    &&& *owner == self.owner()
                    &&& *stored == self.stored()
                    &&& *final(owner) == mapped.owner()
                },
    {
        let mut this = self;
        let borrowed = f(this.borrowed.rescope_mut(this.owner.target_mut()));
        BorrowedWithOwner { borrowed, owner: this.owner }
    }

    /// Hands the view to `f` and returns what `f` computes, together with the
    /// owner. No new bundle is made.
    pub fn with_borrowed<R, F>(self, f: F) -> (out: (R, O)) where
        F: for<'a> FnOnce(
            <B as BorrowWithLifetime<'a, <O as StableOwner>::Target>>::Borrowed,
        ) -> R,

        requires
            forall|view| #[trigger] self.has_view(view) ==> call_requires(f, (view,)),
        ensures
            out.1 == self.owner(),
            exists|view| #[trigger] self.has_view(view) && call_ensures(f, (view,), out.0),
    {
        let view = self.borrowed.rescope(self.owner.target_ref());
        assert(self.has_view(view));
        let result = f(view);
        (result, self.owner)
    }

    /// Hands the view for exclusive access to `f` and returns what `f`
    /// computes, together with the owner and whatever `f` has written to its
    /// target through that view.
    pub fn with_borrowed_mut<R, F>(self, f: F) -> (out: (R, O)) where
        O: StableOwnerMut,
        F: for<'a> FnOnce(
            <B as BorrowWithLifetime<'a, <O as StableOwner>::Target>>::BorrowedMut,
        ) -> R,

        requires
            forall|
                owner: &mut O,
                stored: &mut B,
                target: &mut <O as StableOwner>::Target,
                view: <B as BorrowWithLifetime<'static, <O as StableOwner>::Target>>::BorrowedMut,
            |
                {
                    &&& #[trigger] call_ensures(
                        <O as StableOwnerMut>::target_mut,
                        (owner,),
                        target,
                    )
                    &&& #[trigger] call_ensures(
                        <B as BorrowWithLifetime<
                            'static,
                            <O as StableOwner>::Target,
                        >>::rescope_mut,
                        (stored, target),
                        view,
                    )
                    &&& *owner == self.owner()
                    &&& *stored == self.stored()
                } ==> call_requires(f, (view,)),
        ensures
            exists|
                owner: &mut O,
                stored: &mut B,
                target: &mut <O as StableOwner>::Target,
                view: <B as BorrowWithLifetime<'static, <O as StableOwner>::Target>>::BorrowedMut,
            |
                {
                    &&& #[trigger] call_ensures(
                        <O as StableOwnerMut>::target_mut,
                        (owner,),
                        target,
                    )
                    &&& #[trigger] call_ensures(
                        <B as BorrowWithLifetime<
                            'static,
                            <O as StableOwner>::Target,
                        >>::rescope_mut,
                        (stored, target),
                        view,
                    )
                    &&& call_ensures(f, (view,), out.0)
                    &&& *owner == self.owner()
                    &&& *stored == self.stored()
                    &&& *final(owner) == out.1
                },
    {
        let mut this = self;
        let result = f(this.borrowed.rescope_mut(this.owner.target_mut()));
        (result, this.owner)
    }
}

impl<B, O> Clone for BorrowedWithOwner<B, O> where
    O: CloneStableOwner,
    B: Clone + for<'a> BorrowWithLifetime<'a, <O as StableOwner>::Target>,
 {
    /// A second bundle over the same target: the owner is shared, not copied,
    /// and the stored view is cloned.
    fn clone(&self) -> (copy: Self)
        ensures
            self.clones_to(copy),
    {
        let owner = self.owner.share();
        let borrowed = self.borrowed.clone();
        BorrowedWithOwner { borrowed, owner }
    }
}

impl<B, O> Copy for BorrowedWithOwner<B, O> where
    O: CloneStableOwner + Copy,
    B: Copy + for<'a> BorrowWithLifetime<'a, <O as StableOwner>::Target>,
 {
}

} // verus!
