use borrowed_with_owner::{BorrowWithLifetime, BorrowedWithOwner, RefMutWithOwner, RefWithOwner};
use std::cell::RefCell;
use std::rc::Rc;
use std::sync::Arc;

fn hand_over<T: Send + 'static>(value: T) -> T {
    value
}

/// How many words a text has, counted once and kept.
#[derive(Clone, Copy, Debug, PartialEq)]
struct Words(usize);

impl<'a> BorrowWithLifetime<'a, str> for Words {
    type Borrowed = usize;
    type BorrowedMut = &'a mut usize;

    fn rescope(&'a self, _target: &'a str) -> usize {
        self.0
    }

    fn rescope_mut(&'a mut self, _target: &'a mut str) -> &'a mut usize {
        &mut self.0
    }
}

/// The first so many bytes of a text.
#[derive(Clone, Copy, Debug, PartialEq)]
struct Prefix(usize);

impl<'a> BorrowWithLifetime<'a, str> for Prefix {
    type Borrowed = &'a str;
    type BorrowedMut = &'a mut str;

    fn rescope(&'a self, target: &'a str) -> &'a str {
        &target[..self.0]
    }

    fn rescope_mut(&'a mut self, target: &'a mut str) -> &'a mut str {
        &mut target[..self.0]
    }
}

fn first_word(text: &str) -> Prefix {
    Prefix(text.find(' ').unwrap_or(text.len()))
}

fn count_words(text: &str) -> Words {
    Words(text.split_whitespace().count())
}

#[test]
fn a_reference_bundle_shows_the_target() {
    let bundle = RefWithOwner::new(Box::new(41u32));
    assert_eq!(*bundle.borrowed(), 41);
    let bundle = hand_over(bundle);
    assert_eq!(*bundle.borrowed(), 41);
}

#[test]
fn a_made_bundle_shows_what_was_made_of_the_target() {
    let text: Box<str> = "one two three".into();
    let bundle = BorrowedWithOwner::<Prefix, Box<str>>::new_with(text, first_word);
    assert_eq!(bundle.borrowed(), first_word("one two three").rescope("one two three"));
    assert_eq!(bundle.borrowed(), "one");
    let bundle = hand_over(bundle);
    assert_eq!(bundle.borrowed(), "one");
}

#[test]
fn a_word_of_a_text_is_read_through_the_bundle() {
    let text = String::from("hello world");
    let word = RefWithOwner::new(text).map(|text| Prefix(text.find(' ').unwrap_or(text.len())));
    assert_eq!(word.borrowed(), "hello");
    assert_eq!(word.into_owner(), "hello world");
}

#[test]
fn a_unit_view_keeps_only_the_owner() {
    let bundle = BorrowedWithOwner::<(), Box<u8>>::new_with(Box::new(7), |_| ());
    assert_eq!(bundle.borrowed(), ());
    assert_eq!(bundle.into_parts(), (Box::new(7), ()));
}

#[test]
fn the_owner_comes_back_unchanged() {
    let text = String::from("one two three");
    assert_eq!(RefWithOwner::new(text.clone()).into_owner(), text);

    let bundle = RefWithOwner::new(text.clone()).map(first_word);
    assert_eq!(bundle.borrowed(), "one");
    let bundle = bundle.map(|word| Words(word.len()));
    assert_eq!(bundle.borrowed(), 3);
    assert_eq!(bundle.into_owner(), text);
}

#[test]
fn the_owner_that_comes_back_is_the_one_that_went_in() {
    let owner = Rc::new(5u8);
    let kept = Rc::clone(&owner);
    let back = RefWithOwner::new(owner).map(|_| ()).into_owner();
    assert!(Rc::ptr_eq(&kept, &back));
    assert_eq!(Rc::strong_count(&kept), 2);
}

#[test]
fn mapping_twice_is_mapping_with_the_composition() {
    let text: Box<str> = "one two three".into();
    let twice = RefWithOwner::new(text.clone()).map(first_word).map(count_words);
    let once = RefWithOwner::new(text).map(|text| count_words(first_word(text).rescope(text)));
    assert_eq!(twice.borrowed(), 1);
    assert_eq!(twice.borrowed(), once.borrowed());
    assert_eq!(twice.into_parts(), once.into_parts());
}

#[test]
fn a_clone_shows_the_same_view_of_the_same_target() {
    let owner: Arc<str> = Arc::from("one two three");
    let kept = Arc::clone(&owner);
    let source = RefWithOwner::new(owner).map(|text| count_words(text));
    let copy = source.clone();
    assert_eq!(Arc::strong_count(&kept), 3);

    let source = hand_over(source);
    let copy = hand_over(copy);
    assert_eq!(source.borrowed(), 3);
    assert_eq!(copy.borrowed(), source.borrowed());

    let (first, second) = (source.into_owner(), copy.into_owner());
    assert!(Arc::ptr_eq(&first, &second));
    assert!(Arc::ptr_eq(&first, &kept));
}

#[test]
fn a_clone_over_an_rc_shares_the_target() {
    let owner = Rc::new(RefCell::new(1u8));
    let kept = Rc::clone(&owner);
    let source = RefWithOwner::new(owner);
    let copy = source.clone();
    assert_eq!(Rc::strong_count(&kept), 3);

    *kept.borrow_mut() = 2;
    assert_eq!(*source.borrowed().borrow(), 2);
    assert_eq!(*copy.borrowed().borrow(), 2);
}

#[test]
fn a_bundle_over_a_shared_reference_is_copied() {
    let source = RefWithOwner::new("one two three").map(|text| first_word(text));
    let copy = source;
    assert_eq!(source.borrowed(), "one");
    assert_eq!(copy.borrowed(), "one");
}

#[test]
fn what_is_written_through_the_view_is_in_the_owner() {
    let mut bundle = RefMutWithOwner::new(Box::new(String::from("abc")));
    assert_eq!(bundle.borrowed(), "abc");
    bundle.borrowed_mut().push('d');
    assert_eq!(bundle.borrowed(), "abcd");
    let mut bundle = hand_over(bundle);
    bundle.borrowed_mut().make_ascii_uppercase();
    assert_eq!(*bundle.into_owner(), "ABCD");
}

#[test]
fn an_exclusive_view_reaches_the_stored_part_and_the_target() {
    let text: Box<str> = "one two three".into();
    let mut words = RefMutWithOwner::new(text.clone()).map(|text| count_words(text));
    *words.borrowed_mut() += 1;
    assert_eq!(words.borrowed(), 4);
    assert_eq!(words.into_parts(), (text.clone(), Words(4)));

    let mut prefix = RefMutWithOwner::new(text).map(|text| first_word(text));
    prefix.borrowed_mut().make_ascii_uppercase();
    assert_eq!(prefix.borrowed(), "ONE");
    assert_eq!(&*prefix.into_owner(), "ONE two three");
}

#[test]
fn a_bundle_is_made_while_its_target_is_written() {
    let bundle = BorrowedWithOwner::<Words, Box<str>>::new_with_mut("One Two".into(), |text| {
        text.make_ascii_lowercase();
        count_words(text)
    });
    assert_eq!(bundle.borrowed(), 2);
    assert_eq!(bundle.into_parts(), ("one two".into(), Words(2)));
}

#[test]
fn a_map_may_write_to_the_target() {
    let bundle = RefMutWithOwner::new(String::from("one two three")).map_mut(|text| {
        text.make_ascii_uppercase();
        first_word(text)
    });
    assert_eq!(bundle.borrowed(), "ONE");

    let bundle = hand_over(bundle).map_mut(|word| {
        word.make_ascii_lowercase();
        Words(word.len())
    });
    assert_eq!(bundle.borrowed(), 3);
    assert_eq!(bundle.into_owner(), "one TWO THREE");
}

#[test]
fn with_borrowed_mut_returns_the_result_and_the_written_owner() {
    let bundle = RefMutWithOwner::new(vec![3u8, 1, 2]);
    let (smallest, owner) = bundle.with_borrowed_mut(|items| {
        items.sort();
        items[0]
    });
    assert_eq!(smallest, 1);
    assert_eq!(owner, [1, 2, 3]);
}

#[test]
fn a_plain_reference_bundle_reads_under_an_exclusive_borrow() {
    let mut bundle = RefWithOwner::new(Box::new(3u8));
    let view: &u8 = bundle.borrowed_mut();
    assert_eq!(*view, 3);
    assert_eq!(*bundle.into_owner(), 3);
}

#[test]
fn the_parts_come_apart() {
    let text: Box<str> = "one two three".into();
    let bundle = RefWithOwner::new(text.clone()).map(first_word);
    assert_eq!(bundle.into_parts(), (text.clone(), Prefix(3)));
    assert_eq!(RefWithOwner::new(text.clone()).map(first_word).into_borrowed(), Prefix(3));
    assert_eq!(RefWithOwner::new(text.clone()).map(first_word).into_owner(), text);
}

#[test]
fn with_borrowed_returns_the_result_and_the_owner() {
    let text: Box<str> = "one two three".into();
    let bundle = RefWithOwner::new(text.clone()).map(first_word);
    let (length, owner) = bundle.with_borrowed(|word| word.len());
    assert_eq!(length, 3);
    assert_eq!(owner, text);

    let (copied, owner) = RefWithOwner::new(owner).with_borrowed(|text| text.to_uppercase());
    assert_eq!(copied, "ONE TWO THREE");
    assert_eq!(owner, text);
}

/// Writes its name to a shared log when it is dropped.
struct Noisy {
    name: &'static str,
    log: Rc<RefCell<Vec<&'static str>>>,
}

impl Drop for Noisy {
    fn drop(&mut self) {
        self.log.borrow_mut().push(self.name);
    }
}

impl<'a> BorrowWithLifetime<'a, Noisy> for Noisy {
    type Borrowed = (&'a str, &'a str);
    type BorrowedMut = (&'a str, &'a str);

    fn rescope(&'a self, target: &'a Noisy) -> (&'a str, &'a str) {
        (self.name, target.name)
    }

    fn rescope_mut(&'a mut self, target: &'a mut Noisy) -> (&'a str, &'a str) {
        (self.name, target.name)
    }
}

#[test]
fn the_view_is_dropped_before_the_owner() {
    let log = Rc::new(RefCell::new(Vec::new()));
    let owner = Box::new(Noisy { name: "owner", log: Rc::clone(&log) });
    let view_log = Rc::clone(&log);
    let bundle = RefWithOwner::new(owner).map(move |_| Noisy { name: "view", log: view_log });
    assert_eq!(bundle.borrowed(), ("view", "owner"));
    assert!(log.borrow().is_empty());
    drop(bundle);
    assert_eq!(*log.borrow(), ["view", "owner"]);
}

#[test]
fn into_owner_drops_the_view_and_keeps_the_owner() {
    let log = Rc::new(RefCell::new(Vec::new()));
    let owner = Box::new(Noisy { name: "owner", log: Rc::clone(&log) });
    let view_log = Rc::clone(&log);
    let bundle = RefWithOwner::new(owner).map(move |_| Noisy { name: "view", log: view_log });
    let owner = bundle.into_owner();
    assert_eq!(*log.borrow(), ["view"]);
    drop(owner);
    assert_eq!(*log.borrow(), ["view", "owner"]);
}
