use dart::dart_handle::RangeBound::{Excluded, Included, Unbounded};
use dart::dart_types::list::{slice, Item};

#[test]
fn a_view_starts_at_the_first_index_of_its_range() {
    assert_eq!(slice(Included(2), Included(5), 10), Some((2, 3)));
    assert_eq!(slice(Excluded(2), Included(5), 10), Some((3, 2)));
    assert_eq!(slice(Unbounded, Included(5), 10), Some((0, 5)));
}

#[test]
fn a_view_stops_at_the_last_index_of_its_range() {
    assert_eq!(slice(Included(2), Excluded(5), 10), Some((2, 2)));
    assert_eq!(slice(Included(2), Unbounded, 10), Some((2, 7)));
    assert_eq!(slice(Unbounded, Unbounded, 10), Some((0, 9)));
    assert_eq!(slice(Included(4), Included(4), 10), Some((4, 0)));
}

#[test]
fn a_range_without_a_last_index_gives_no_view() {
    assert_eq!(slice(Unbounded, Unbounded, 0), None);
    assert_eq!(slice(Unbounded, Excluded(0), 10), None);
    assert_eq!(slice(Excluded(usize::MAX), Unbounded, 10), None);
    assert_eq!(slice(Included(5), Included(4), 10), None);
    assert_eq!(slice(Included(5), Excluded(5), 10), None);
}

#[test]
fn an_item_that_was_not_fetched_holds_nothing() {
    let mut item: Item<u32> = Item::Unfetched;
    assert!(item.is_none());
    assert!(item.get_ref().is_none());
    assert!(item.modified().is_none());
    assert!(item.make_mut().is_none());
    assert!(matches!(item, Item::Unfetched));
}

#[test]
fn an_item_that_was_read_is_not_written_back() {
    let item = Item::Read(5u32);
    assert!(!item.is_none());
    assert_eq!(item.get_ref(), Some(&5));
    assert!(item.modified().is_none());
}

#[test]
fn an_item_that_was_handed_out_for_writing_counts_as_modified() {
    let mut item = Item::Read(5u32);
    match item.make_mut() {
        Some(x) => {
            assert_eq!(*x, 5);
            *x = 6;
        }
        None => panic!("nothing to write to"),
    }
    assert!(matches!(item, Item::PossiblyModified(6)));
    assert_eq!(item.get_ref(), Some(&6));
    assert_eq!(item.modified(), Some(&6));
    assert!(!item.is_none());
}

#[test]
fn a_modified_item_stays_modified() {
    let mut item = Item::PossiblyModified(String::from("a"));
    if let Some(x) = item.make_mut() {
        x.push('b');
    }
    assert!(matches!(&item, Item::PossiblyModified(x) if x == "ab"));
    let mut untouched = Item::Read(1u8);
    assert!(untouched.make_mut().is_some());
    assert!(matches!(untouched, Item::PossiblyModified(1)));
}
