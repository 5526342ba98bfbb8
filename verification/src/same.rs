//! Comparison of two values of one type by all that they hold.
use vstd::prelude::*;
use vstd::string::*;

use crate::text;

verus! {

/// A type whose values can be told apart.
pub(crate) trait Same: DeepView {
    /// Whether two values hold the same.
    fn is_same(&self, other: &Self) -> (r: bool)
        ensures
            r == (self.deep_view() == other.deep_view()),
    ;
}

impl Same for bool {
    fn is_same(&self, other: &Self) -> (r: bool) {
        *self == *other
    }
}

impl Same for u16 {
    fn is_same(&self, other: &Self) -> (r: bool) {
        *self == *other
    }
}

impl Same for u32 {
    fn is_same(&self, other: &Self) -> (r: bool) {
        *self == *other
    }
}

impl Same for u64 {
    fn is_same(&self, other: &Self) -> (r: bool) {
        *self == *other
    }
}

impl Same for String {
    fn is_same(&self, other: &Self) -> (r: bool) {
        text::same(self.as_str(), other.as_str())
    }
}

impl<T: Same> Same for Box<T> {
    fn is_same(&self, other: &Self) -> (r: bool) {
        (**self).is_same(&**other)
    }
}

impl<T: Same> Same for Option<T> {
    fn is_same(&self, other: &Self) -> (r: bool) {
        match (self, other) {
            (Some(a), Some(b)) => a.is_same(b),
            (None, None) => true,
            _ => false,
        }
    }
}

impl<T: Same> Same for Vec<T> {
    fn is_same(&self, other: &Self) -> (r: bool) {
        if self.len() != other.len() {
            assert(self.deep_view().len() != other.deep_view().len());
            return false;
        }
        let mut i: usize = 0;
        while i < self.len()
            invariant
                i <= self.len(),
                self.len() == other.len(),
                forall|j: int|
                    0 <= j < i ==> #[trigger] self.deep_view()[j] == other.deep_view()[j],
            decreases self.len() - i,
        {
            if !self[i].is_same(&other[i]) {
                assert(self.deep_view()[i as int] != other.deep_view()[i as int]);
                return false;
            }
            assert(self.deep_view()[i as int] == other.deep_view()[i as int]);
            i = i + 1;
        }
        assert(self.deep_view() =~= other.deep_view());
        true
    }
}

} // verus!
