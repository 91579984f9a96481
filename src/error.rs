use vstd::prelude::*;

verus! {

/// Everything that an operation of the library can fail with.
#[derive(Debug, Clone, Copy, PartialEq, Eq, Structural)]
pub enum ControlError {
    /// The handle has no open descriptor.
    NotConnected,
    /// A read returned fewer bytes than were asked for.
    ShortRead { expected: usize, actual: usize },
    /// A write accepted fewer bytes than were handed to it.
    ShortWrite { expected: usize, actual: usize },
    /// A system call failed with this error number.
    Sys(i32),
    /// The driver reported a variable bit length that is neither 1, 8, 16 nor 32.
    UnsupportedBitLength(u16),
    /// A value was to be encoded in a bit width other than 8, 16, 32 or 64.
    InvalidSize(usize),
    /// A value was to be decoded from a buffer of other than 1, 2 or 4 bytes.
    InvalidLength(usize),
    /// A variable name does not fit the driver's name field with its terminating zero.
    NameTooLong(usize),
    /// The driver reported a device count outside the capacity of the list.
    DeviceCountOutOfRange(i32),
}

} // verus!
