//! View kinds: for every scope, the type of view that a bundle hands out for
//! that scope, and how the view is put together from what the bundle stores.
use vstd::prelude::*;

verus! {

/// A kind of view over a target of type `T`.
///
/// The implementing type is the stored form of the view: everything about it
/// that does not depend on a borrow of the target. For every lifetime `'a` the
/// kind names the type of the view that is valid for `'a` and builds such a
/// view from the stored form and a borrow of the target, both held for `'a`.
/// A bundle is generic in a kind that does this for all lifetimes, which is
/// what lets it hand out a view for whatever borrow a caller holds.
///
/// The methods carry no contract here. An implementation states its own, and
/// a bundle's contracts speak of whatever that is.
pub trait BorrowWithLifetime<'a, T: ?Sized + 'a> {
    /// The view under a shared borrow that lasts for `'a`.
    type Borrowed: 'a;

    /// The view under an exclusive borrow that lasts for `'a`.
    type BorrowedMut: 'a;

    /// Builds the view for a shared borrow.
    fn rescope(&'a self, target: &'a T) -> Self::Borrowed;

    /// Builds the view for an exclusive borrow. The view may change the
    /// stored form, the target, or both, for as long as it lives.
    fn rescope_mut(&'a mut self, target: &'a mut T) -> Self::BorrowedMut;
}

/// The view that is a plain reference to the whole target. Nothing needs to
/// be stored for it.
#[derive(Clone, Copy, Debug)]
pub struct PlainRef;

/// The view that is a mutable reference to the whole target: a plain one
/// under a shared borrow. Nothing needs to be stored for it, and it cannot be
/// duplicated.
#[derive(Debug)]
pub struct PlainRefMut;

impl<'a, T: ?Sized + 'a> BorrowWithLifetime<'a, T> for PlainRef {
    type Borrowed = &'a T;

    type BorrowedMut = &'a T;

    fn rescope(&'a self, target: &'a T) -> (v: &'a T)
        ensures
            v == target,
    {
        target
    }

    fn rescope_mut(&'a mut self, target: &'a mut T) -> (v: &'a T)
        ensures
            v == &*old(target),
            &*final(target) == &*old(target),
            *final(self) == *old(self),
    {
        &*target
    }
}

impl<'a, T: ?Sized + 'a> BorrowWithLifetime<'a, T> for PlainRefMut {
    type Borrowed = &'a T;

    type BorrowedMut = &'a mut T;

    fn rescope(&'a self, target: &'a T) -> (v: &'a T)
        ensures
            v == target,
    {
        target
    }

    fn rescope_mut(&'a mut self, target: &'a mut T) -> (v: &'a mut T)
        ensures
            &*v == &*old(target),
            &*final(v) == &*final(target),
            *final(self) == *old(self),
    {
        target
    }
}

/// No view at all: a bundle of this kind only keeps its owner.
impl<'a, T: ?Sized + 'a> BorrowWithLifetime<'a, T> for () {
    type Borrowed = ();

    type BorrowedMut = ();

    fn rescope(&'a self, _target: &'a T) -> (v: ()) {
        ()
    }

    fn rescope_mut(&'a mut self, target: &'a mut T) -> (v: ())
        ensures
            &*final(target) == &*old(target),
    {
        ()
    }
}

} // verus!
