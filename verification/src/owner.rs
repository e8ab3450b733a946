//! The owner side of a bundle: handles whose target stays the same data no
//! matter where the handle itself is moved.
use std::rc::Rc;
use std::sync::Arc;
use vstd::prelude::*;

verus! {

/// A handle to data that does not move when the handle moves.
///
/// In contracts the data is [`target`](StableOwner::target), a function of
/// the handle's value alone: two looks at the same handle see the same
/// target, wherever the handle has been moved in between.
pub trait StableOwner {
    /// What the handle gives access to. It holds no borrow of its own, so
    /// that a view of it can be made for a borrow of any length.
    type Target: ?Sized + 'static;

    /// The data behind the handle.
    spec fn target(&self) -> &Self::Target;

    /// Shared access to the data behind the handle.
    fn target_ref(&self) -> (t: &Self::Target)
        ensures
            t == self.target(),
    ;
}

/// A stable owner that can hand out its target for writing.
pub trait StableOwnerMut: StableOwner {
    /// Exclusive access to the data behind the handle. Whatever the caller
    /// leaves there is the target afterwards.
    fn target_mut(&mut self) -> (t: &mut Self::Target)
        ensures
            &*t == old(self).target(),
            &*final(t) == final(self).target(),
    ;
}

/// A stable owner that can be duplicated without duplicating its target:
/// the new handle leads to the same data as the old one.
pub trait CloneStableOwner: StableOwner + Sized {
    /// A second handle to the same target. In contracts the two handles are
    /// one value.
    fn share(&self) -> (o: Self)
        ensures
            o == *self,
    ;
}

/// Whether `owner` hands out its target: whatever the owner's own contract
/// for `target_ref` says of what it returns holds of `owner.target()`.
///
/// This is how a bundle passes on what a kind of owner promises beyond the
/// identity of its target, such as that the text of a `String` has the
/// string's characters.
pub open spec fn hands_out_target<O: StableOwner>(owner: O) -> bool {
    call_ensures(<O as StableOwner>::target_ref, (&owner,), owner.target())
}

/// A box leads to what it holds, which stays on the heap where it is.
impl<T: ?Sized + 'static> StableOwner for Box<T> {
    type Target = T;

    open spec fn target(&self) -> &T {
        &**self
    }

    fn target_ref(&self) -> (t: &T) {
        &**self
    }
}

impl<T: ?Sized + 'static> StableOwnerMut for Box<T> {
    fn target_mut(&mut self) -> (t: &mut T) {
        &mut **self
    }
}

/// A counted pointer leads to the value that all its clones share.
impl<T: ?Sized + 'static> StableOwner for Rc<T> {
    type Target = T;

    open spec fn target(&self) -> &T {
        &**self
    }

    fn target_ref(&self) -> (t: &T) {
        &**self
    }
}

impl<T: ?Sized + 'static> CloneStableOwner for Rc<T> {
    fn share(&self) -> (o: Self) {
        rc_clone(self)
    }
}

/// An atomically counted pointer leads to the value that all its clones
/// share.
impl<T: ?Sized + 'static> StableOwner for Arc<T> {
    type Target = T;

    open spec fn target(&self) -> &T {
        &**self
    }

    fn target_ref(&self) -> (t: &T) {
        &**self
    }
}

impl<T: ?Sized + 'static> CloneStableOwner for Arc<T> {
    fn share(&self) -> (o: Self) {
        arc_clone(self)
    }
}

/// A shared reference leads to what it refers to.
impl<'a, T: ?Sized + 'static> StableOwner for &'a T {
    type Target = T;

    open spec fn target(&self) -> &T {
        &**self
    }

    fn target_ref(&self) -> (t: &T) {
        &**self
    }
}

impl<'a, T: ?Sized + 'static> CloneStableOwner for &'a T {
    fn share(&self) -> (o: Self) {
        *self
    }
}

/// A vector leads to the slice of all its elements.
impl<T: 'static> StableOwner for Vec<T> {
    type Target = [T];

    closed spec fn target(&self) -> &[T] {
        slice_of(self@)
    }

    fn target_ref(&self) -> (t: &[T])
        ensures
            t@ == self@,
    {
        let t = self.as_slice();
        proof {
            lemma_slice_of(t);
        }
        t
    }
}

impl<T: 'static> StableOwnerMut for Vec<T> {
    fn target_mut(&mut self) -> (t: &mut [T])
        ensures
            t@ == old(self)@,
            final(t)@ == final(self)@,
    {
        assert forall|s: &[T]| slice_of(#[trigger] s@) == s by {
            lemma_slice_of(s);
        }
        self.as_mut_slice()
    }
}

/// A string leads to the slice of all its text.
impl StableOwner for String {
    type Target = str;

    open spec fn target(&self) -> &str {
        text_of(self@)
    }

    fn target_ref(&self) -> (t: &str)
        ensures
            t@ == self@,
    {
        string_as_str(self)
    }
}

impl StableOwnerMut for String {
    fn target_mut(&mut self) -> (t: &mut str)
        ensures
            t@ == old(self)@,
            final(t)@ == final(self)@,
    {
        string_as_mut_str(self)
    }
}

/// The slice that holds exactly `items`.
spec fn slice_of<T>(items: Seq<T>) -> &'static [T] {
    choose|t: &[T]| t@ == items
}

/// A slice is determined by what it holds.
proof fn lemma_slice_of<T>(t: &[T])
    ensures
        slice_of(t@) == t,
{
    assert(slice_of(t@) =~= t);
}

/// The string slice that `String::as_str` hands out for a string made of
/// `chars`. Nothing is proved of it: what is known of it is what the two
/// functions below say.
pub uninterp spec fn text_of(chars: Seq<char>) -> &'static str;

/// `String::as_str`, which gives the whole string as a slice: the slice has
/// the string's characters, and which slice it is depends on those characters
/// alone.
#[verifier::external_body]
fn string_as_str(s: &String) -> (t: &str)
    ensures
        t == text_of(s@),
        t@ == s@,
{
    s.as_str()
}

/// `String::as_mut_str`, which gives the whole string as a mutable slice:
/// the slice is the one that `String::as_str` would give, and the characters
/// that are left in it are the string's characters afterwards.
#[verifier::external_body]
fn string_as_mut_str(s: &mut String) -> (t: &mut str)
    ensures
        &*t == text_of(old(s)@),
        t@ == old(s)@,
        &*final(t) == text_of(final(s)@),
        final(t)@ == final(s)@,
{
    s.as_mut_str()
}

/// `Rc::clone`, which makes another pointer to the same allocation. In
/// contracts an `Rc` stands for the value it points to, so the new pointer
/// equals the old one.
#[verifier::external_body]
fn rc_clone<T: ?Sized>(r: &Rc<T>) -> (res: Rc<T>)
    ensures
        res == *r,
{
    Rc::clone(r)
}

/// `Arc::clone`, which makes another pointer to the same allocation. In
/// contracts an `Arc` stands for the value it points to, so the new pointer
/// equals the old one.
#[verifier::external_body]
fn arc_clone<T: ?Sized>(r: &Arc<T>) -> (res: Arc<T>)
    ensures
        res == *r,
{
    Arc::clone(r)
}

} // verus!
