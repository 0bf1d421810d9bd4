//! Identifiers of registered operations, and the header each cell starts with.

use vstd::prelude::*;
use crate::fd::RawFd;

verus! {

/// The header at the front of every operation cell: the driver that the cell
/// belongs to. The kernel's own part of the header is laid out by whoever
/// talks to the kernel; the driver reads none of it.
#[derive(Clone, Copy, Debug, PartialEq, Eq, Structural)]
pub struct Overlapped {
    /// The unique ID of created driver.
    pub driver: RawFd,
}

impl Overlapped {
    pub fn new(driver: RawFd) -> (header: Overlapped)
        ensures
            header.driver == driver,
    {
        Overlapped { driver }
    }
}

/// The stable identifier of an operation cell: the driver that owns the cell
/// and the integer that travels through the kernel and comes back on
/// completion.
#[derive(Clone, Copy, Debug, PartialEq, Eq, Structural)]
pub struct Key {
    pub header: Overlapped,
    pub user_data: usize,
}

impl Key {
    pub fn new(driver: RawFd, user_data: usize) -> (key: Key)
        ensures
            key.header.driver == driver,
            key.user_data == user_data,
    {
        Key { header: Overlapped::new(driver), user_data }
    }

    pub fn user_data(&self) -> (user_data: usize)
        ensures
            user_data == self.user_data,
    {
        self.user_data
    }

    pub fn driver(&self) -> (driver: RawFd)
        ensures
            driver == self.header.driver,
    {
        self.header.driver
    }
}

} // verus!
