//! Content equality and copying for records that hold text and lists.

use crate::text::same_text;
use vstd::prelude::*;

verus! {

/// A value compared by content and copied with its content.
pub trait Record: DeepView + Sized {
    /// Whether both values say the same.
    fn is_same(&self, other: &Self) -> (answer: bool)
        ensures
            answer == (self.deep_view() == other.deep_view()),
    ;

    /// A second value with the same content.
    fn duplicate(&self) -> (copy: Self)
        ensures
            copy.deep_view() == self.deep_view(),
    ;
}

impl Record for String {
    fn is_same(&self, other: &Self) -> (answer: bool) {
        same_text(self.as_str(), other.as_str())
    }

    fn duplicate(&self) -> (copy: Self) {
        self.clone()
    }
}

impl Record for bool {
    fn is_same(&self, other: &Self) -> (answer: bool) {
        *self == *other
    }

    fn duplicate(&self) -> (copy: Self) {
        *self
    }
}

impl Record for u16 {
    fn is_same(&self, other: &Self) -> (answer: bool) {
        *self == *other
    }

    fn duplicate(&self) -> (copy: Self) {
        *self
    }
}

impl Record for u32 {
    fn is_same(&self, other: &Self) -> (answer: bool) {
        *self == *other
    }

    fn duplicate(&self) -> (copy: Self) {
        *self
    }
}

impl Record for u64 {
    fn is_same(&self, other: &Self) -> (answer: bool) {
        *self == *other
    }

    fn duplicate(&self) -> (copy: Self) {
        *self
    }
}

impl Record for usize {
    fn is_same(&self, other: &Self) -> (answer: bool) {
        *self == *other
    }

    fn duplicate(&self) -> (copy: Self) {
        *self
    }
}

impl<T: Record> Record for Option<T> {
    fn is_same(&self, other: &Self) -> (answer: bool) {
        match (self, other) {
            (Some(a), Some(b)) => a.is_same(b),
            (None, None) => true,
            _ => false,
        }
    }

    fn duplicate(&self) -> (copy: Self) {
        match self {
            Some(value) => Some(value.duplicate()),
            None => None,
        }
    }
}

impl<T: Record> Record for Vec<T> {
    fn is_same(&self, other: &Self) -> (answer: bool) {
        if self.len() != other.len() {
            assert(self.deep_view().len() != other.deep_view().len());
            return false;
        }
        let mut i: usize = 0;
        while i < self.len()
            invariant
                i <= self@.len(),
                self@.len() == other@.len(),
                forall|j: int|
                    0 <= j < i ==> (#[trigger] self@[j]).deep_view() == other@[j].deep_view(),
            decreases self@.len() - i,
        {
            if !self[i].is_same(&other[i]) {
                assert(self.deep_view()[i as int] != other.deep_view()[i as int]);
                return false;
            }
            i = i + 1;
        }
        assert(self.deep_view() =~= other.deep_view());
        true
    }

    fn duplicate(&self) -> (copy: Self) {
        let mut copy: Vec<T> = Vec::with_capacity(self.len());
        let mut i: usize = 0;
        while i < self.len()
            invariant
                i <= self@.len(),
                copy@.len() == i,
                forall|j: int|
                    0 <= j < i ==> (#[trigger] copy@[j]).deep_view() == self@[j].deep_view(),
            decreases self@.len() - i,
        {
            let item = self[i].duplicate();
            copy.push(item);
            i = i + 1;
        }
        assert(copy.deep_view() =~= self.deep_view());
        copy
    }
}

/// Whether `list` holds a value that says the same as `item`.
pub fn holds<T: Record>(list: &Vec<T>, item: &T) -> (answer: bool)
    ensures
        answer == list.deep_view().contains(item.deep_view()),
{
    let mut i: usize = 0;
    while i < list.len()
        invariant
            i <= list@.len(),
            forall|j: int| 0 <= j < i ==> (#[trigger] list@[j]).deep_view() != item.deep_view(),
        decreases list@.len() - i,
    {
        if list[i].is_same(item) {
            assert(list.deep_view()[i as int] == item.deep_view());
            return true;
        }
        i = i + 1;
    }
    proof {
        if list.deep_view().contains(item.deep_view()) {
            let k = list.deep_view().index_of(item.deep_view());
            assert(list.deep_view()[k] == list@[k].deep_view());
        }
    }
    false
}

} // verus!
