//! Views into host lists: which stretch of a list a range of indices names,
//! and the state of an element that a view has cached.

use crate::dart_handle::RangeBound;
use vstd::prelude::*;

verus! {

/// The first index of a view whose range starts at `start`.
pub open spec fn view_start(start: RangeBound) -> int {
    match start {
        RangeBound::Unbounded => 0,
        RangeBound::Included(x) => x as int,
        RangeBound::Excluded(x) => x + 1,
    }
}

/// The index at which a view over a list of `list_len` elements stops, for a
/// range that ends at `end`.
pub open spec fn view_end(end: RangeBound, list_len: usize) -> int {
    match end {
        RangeBound::Unbounded => list_len - 1,
        RangeBound::Included(x) => x as int,
        RangeBound::Excluded(x) => x - 1,
    }
}

/// Where a view over a list of `list_len` elements starts and how many
/// elements it caches, for the range from `start` to `end`: its first index,
/// and the distance from there to the index at which it stops. `None` where
/// one of the two, or the index at which it stops, is no `usize`.
pub fn slice(start: RangeBound, end: RangeBound, list_len: usize) -> (view: Option<(usize, usize)>)
    ensures
        view is Some <==> 0 <= view_start(start) <= view_end(end, list_len) <= usize::MAX,
        view matches Some((first, len)) ==> first == view_start(start) && len == view_end(
            end,
            list_len,
        ) - view_start(start),
{
    let first: usize = match start {
        RangeBound::Unbounded => 0,
        RangeBound::Included(x) => x,
        RangeBound::Excluded(x) => {
            if x == usize::MAX {
                return None;
            }
            x + 1
        },
    };
    let last: usize = match end {
        RangeBound::Unbounded => {
            if list_len == 0 {
                return None;
            }
            list_len - 1
        },
        RangeBound::Included(x) => x,
        RangeBound::Excluded(x) => {
            if x == 0 {
                return None;
            }
            x - 1
        },
    };
    if last < first {
        return None;
    }
    Some((first, last - first))
}

/// An element of a list as a mutable view has cached it.
pub enum Item<T> {
    /// Fetched, and only read since.
    Read(T),
    /// Fetched, and handed out for writing: it may differ from the list's.
    PossiblyModified(T),
    /// Not fetched yet.
    Unfetched,
}

impl<T> Item<T> {
    /// The cached element, if there is one.
    pub open spec fn value(self) -> Option<T> {
        match self {
            Item::Read(x) => Some(x),
            Item::PossiblyModified(x) => Some(x),
            Item::Unfetched => None,
        }
    }

    /// The cached element, if one was fetched.
    pub fn get_ref(&self) -> (cached: Option<&T>)
        ensures
            cached == match self.value() {
                Some(x) => Some(&x),
                None => None,
            },
    {
        match self {
            Item::Read(x) => Some(x),
            Item::PossiblyModified(x) => Some(x),
            Item::Unfetched => None,
        }
    }

    /// The cached element for writing, if one was fetched. The item counts as
    /// possibly modified from then on, and holds whatever the caller leaves
    /// behind the reference.
    pub fn make_mut(&mut self) -> (cached: Option<&mut T>)
        ensures
            old(self).value() is None ==> cached is None && *final(self) == Item::<T>::Unfetched,
            old(self).value() matches Some(x) ==> (cached matches Some(r) && *r == x && *final(self)
                == Item::PossiblyModified(*final(r))),
    {
        match self {
            Item::Read(_) => {
                let mut value = Item::Unfetched;
                std::mem::swap(self, &mut value);
                if let Item::Read(x) = value {
                    *self = Item::PossiblyModified(x);
                }
                match self {
                    Item::PossiblyModified(x) => Some(x),
                    _ => None,
                }
            },
            Item::PossiblyModified(x) => Some(x),
            Item::Unfetched => None,
        }
    }

    /// Whether nothing was fetched yet.
    pub fn is_none(&self) -> (none: bool)
        ensures
            none == (self.value() is None),
    {
        if let Item::Unfetched = self {
            true
        } else {
            false
        }
    }

    /// The element that has to be written back to the list when the view goes
    /// away: the cached one, if it was handed out for writing.
    pub fn modified(&self) -> (changed: Option<&T>)
        ensures
            changed == match *self {
                Item::PossiblyModified(x) => Some(&x),
                _ => None,
            },
    {
        match self {
            Item::PossiblyModified(x) => Some(x),
            _ => None,
        }
    }
}

} // verus!
