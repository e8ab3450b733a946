//! A container that keeps a derived view together with the owner of the data
//! it was derived from, so that the pair can be stored, moved and handed to
//! another thread as one value.
//!
//! A view never holds a pointer into its owner. What the bundle stores is the
//! part of the view that does not depend on any borrow: positions, lengths,
//! copied content, or nothing at all for a plain reference. A view that can
//! reach the owner's data exists only while the bundle is borrowed; it is put
//! together, for exactly that borrow, by [`BorrowWithLifetime::rescope`] or
//! [`BorrowWithLifetime::rescope_mut`].
//!
//! ```
//! use borrowed_with_owner::{BorrowWithLifetime, RefWithOwner};
//!
//! /// The first so many bytes of a text.
//! struct Prefix(usize);
//!
//! impl<'a> BorrowWithLifetime<'a, str> for Prefix {
//!     type Borrowed = &'a str;
//!     type BorrowedMut = &'a mut str;
//!
//!     fn rescope(&'a self, target: &'a str) -> &'a str {
//!         &target[..self.0]
//!     }
//!
//!     fn rescope_mut(&'a mut self, target: &'a mut str) -> &'a mut str {
//!         &mut target[..self.0]
//!     }
//! }
//!
//! let text = String::from("hello world");
//! let word = RefWithOwner::new(text).map(|text| Prefix(text.find(' ').unwrap_or(text.len())));
//! assert_eq!(word.borrowed(), "hello");
//! assert_eq!(word.into_owner(), "hello world");
//! ```

pub mod bundle;
pub mod kind;
pub mod laws;
pub mod owner;

pub use bundle::{BorrowedWithOwner, RefMutWithOwner, RefWithOwner};
pub use kind::{BorrowWithLifetime, PlainRef, PlainRefMut};
pub use owner::{CloneStableOwner, StableOwner, StableOwnerMut};
