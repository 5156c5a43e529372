//! Types shared by the sender and the receiver.

pub mod array;
pub mod list;
pub mod messaging;
pub mod socket;

use vstd::prelude::*;

verus! {

/// A two-variant sum: a value, or the error that stood in its way.
#[derive(Clone, Debug, PartialEq, Eq)]
pub enum MyResult<T, E> where E: Clone {
    Value(T),
    Error(E),
}

impl<T, E> MyResult<T, E> where E: Clone {
    /// Whether this holds a value.
    pub fn is_ok(&self) -> (ok: bool)
        ensures
            ok == (self is Value),
    {
        match self {
            MyResult::Value(_) => true,
            MyResult::Error(_) => false,
        }
    }

    /// Whether this holds an error.
    pub fn is_err(&self) -> (err: bool)
        ensures
            err == (self is Error),
    {
        !self.is_ok()
    }

    /// The value held.
    pub fn unwrap(self) -> (value: T)
        requires
            self is Value,
        ensures
            value == self->Value_0,
    {
        match self {
            MyResult::Value(value) => value,
            MyResult::Error(_) => unreached(),
        }
    }

    /// The value held, by reference.
    pub fn unwrap_as_ref(&self) -> (value: &T)
        requires
            self is Value,
        ensures
            *value == self->Value_0,
    {
        match self {
            MyResult::Value(value) => value,
            MyResult::Error(_) => unreached(),
        }
    }

    /// The error held.
    pub fn unwrap_err(self) -> (error: E)
        requires
            self is Error,
        ensures
            error == self->Error_0,
    {
        match self {
            MyResult::Value(_) => unreached(),
            MyResult::Error(error) => error,
        }
    }
}

} // verus!
