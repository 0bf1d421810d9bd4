//! The unit of reported completion.

use vstd::prelude::*;
use crate::error::Error;

verus! {

/// A completed operation: the identifier it was submitted under, and how many
/// bytes it moved or why it failed.
#[derive(Clone, Copy, Debug, PartialEq, Eq)]
pub struct Entry {
    pub user_data: usize,
    pub result: Result<usize, Error>,
}

impl Entry {
    pub fn new(user_data: usize, result: Result<usize, Error>) -> (e: Entry)
        ensures
            e == (Entry { user_data, result }),
    {
        Entry { user_data, result }
    }

    pub fn user_data(&self) -> (user_data: usize)
        ensures
            user_data == self.user_data,
    {
        self.user_data
    }

    pub fn into_result(self) -> (result: Result<usize, Error>)
        ensures
            result == self.result,
    {
        self.result
    }
}

} // verus!
