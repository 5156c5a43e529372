//! A growable array that keeps count of its elements.

use super::MyResult;
use vstd::prelude::*;

verus! {

/// A growable array. Its view is the sequence of its elements, oldest first.
#[derive(Clone)]
pub struct Array<T> {
    data: Vec<T>,
    len: usize,
}

impl<T> View for Array<T> {
    type V = Seq<T>;

    closed spec fn view(&self) -> Seq<T> {
        self.data@
    }
}

impl<T> Array<T> {
    /// The count kept beside the elements is their number. `new` establishes
    /// this and every method keeps it.
    pub closed spec fn wf(&self) -> bool {
        self.len == self.data@.len()
    }

    /// The number of elements.
    pub fn len(&self) -> (len: usize)
        requires
            self.wf(),
        ensures
            len == self@.len(),
    {
        self.len
    }

    /// The empty array.
    pub fn new() -> (array: Self)
        ensures
            array.wf(),
            array@ == Seq::<T>::empty(),
    {
        Array { data: Vec::new(), len: 0 }
    }

    /// Appends `value`, unless the array already holds as many elements as
    /// can be counted; then the array stays as it was and the error says so.
    pub fn push(&mut self, value: T) -> (pushed: MyResult<(), String>)
        requires
            old(self).wf(),
        ensures
            final(self).wf(),
            old(self)@.len() < usize::MAX ==> pushed is Value && final(self)@ == old(self)@.push(
                value,
            ),
            old(self)@.len() >= usize::MAX ==> pushed is Error && pushed->Error_0@
                == "Array is full"@ && final(self)@ == old(self)@,
    {
        if self.len < usize::MAX {
            self.data.push(value);
            self.len += 1;
            return MyResult::Value(());
        }
        MyResult::Error("Array is full".to_string())
    }

    /// Whether `push` would append.
    pub fn can_push(&self) -> (can: bool)
        requires
            self.wf(),
        ensures
            can == (self@.len() < usize::MAX),
    {
        self.len < usize::MAX
    }

    /// Takes the last element off, if there is one.
    pub fn pop(&mut self) -> (popped: Option<T>)
        requires
            old(self).wf(),
        ensures
            final(self).wf(),
            old(self)@.len() == 0 ==> popped.is_none() && final(self)@ == old(self)@,
            old(self)@.len() > 0 ==> popped == Some(old(self)@.last()) && final(self)@ == old(
                self,
            )@.drop_last(),
    {
        match self.data.pop() {
            Some(value) => {
                self.len -= 1;
                Some(value)
            },
            None => None,
        }
    }

    pub fn is_empty(&self) -> (empty: bool)
        requires
            self.wf(),
        ensures
            empty == (self@.len() == 0),
    {
        self.len() == 0
    }
}

} // verus!
