//! The driver handle and the decisions around each of its system calls.
//!
//! `RevPiControl<H>` owns at most one open descriptor `H` of the device file.
//! The calls on the descriptor are made by the caller, which obtains it through
//! `handle` and hands each call's outcome to the functions here: these check
//! it, decode what the driver wrote, and never return what it did not vouch for.
use vstd::prelude::*;
use vstd::string::StringSliceAdditionalSpecFns;

use crate::codec::{le_bytes, num_to_bytes};
use crate::error::ControlError;
use crate::picontrol::{
    device_info_at, name_field, value_bytes, variable_bytes, SDeviceInfo, SPIValue, SPIVariable,
    DEVICE_INFO_SIZE, NAME_SIZE, VALUE_SIZE, VARIABLE_SIZE,
};

verus! {

/// Starting size of the buffer that copies the process image.
pub const SMALL_BUFFER_SIZE: usize = 256;

/// Size beyond which the copy buffer no longer grows.
pub const LARGE_BUFFER_SIZE: usize = 65536;

/// A handle on the driver's device file, open or not.
pub struct RevPiControl<H> {
    path: String,
    handle: Option<H>,
}

impl<H> RevPiControl<H> {
    /// The path of the device file.
    pub closed spec fn path_view(&self) -> Seq<char> {
        self.path@
    }

    /// The open descriptor, if any.
    pub closed spec fn handle_view(&self) -> Option<H> {
        self.handle
    }

    pub open spec fn is_connected(&self) -> bool {
        self.handle_view() is Some
    }

    /// The handle with the descriptor `h` kept.
    pub closed spec fn attached(self, h: H) -> Self {
        RevPiControl { path: self.path, handle: Some(h) }
    }

    /// A handle on the default device node, not yet open.
    pub fn new() -> (r: Self)
        ensures
            r.path_view() == "/dev/piControl0"@,
            !r.is_connected(),
    {
        RevPiControl { path: "/dev/piControl0".to_owned(), handle: None }
    }

    /// A handle on the device file at `path`, not yet open.
    pub fn new_at(path: &str) -> (r: Self)
        ensures
            r.path_view() == path@,
            !r.is_connected(),
    {
        RevPiControl { path: path.to_owned(), handle: None }
    }

    /// The path of the device file.
    pub fn path(&self) -> (r: &str)
        ensures
            r@ == self.path_view(),
    {
        self.path.as_str()
    }

    /// Whether a descriptor is open.
    pub fn is_open(&self) -> (r: bool)
        ensures
            r == self.is_connected(),
    {
        self.handle.is_some()
    }

    /// The open descriptor, for a call on it; without one, the operation
    /// fails as not connected and no call can be made.
    pub fn handle(&self) -> (r: Result<&H, ControlError>)
        ensures
            match r {
                Ok(h) => self.handle_view() == Some(*h),
                Err(e) => !self.is_connected() && e == ControlError::NotConnected,
            },
    {
        match &self.handle {
            Some(h) => Ok(h),
            None => Err(ControlError::NotConnected),
        }
    }

    /// The first step of opening: the path to open, or `None` where a
    /// descriptor is already open and nothing is to be done.
    pub fn open_target(&self) -> (r: Option<&str>)
        ensures
            r is None <==> self.is_connected(),
            r is Some ==> r->Some_0@ == self.path_view(),
    {
        if self.handle.is_some() {
            None
        } else {
            Some(self.path.as_str())
        }
    }

    /// The last step of opening: keeps the descriptor that was opened.
    pub fn attach(&mut self, handle: H)
        requires
            !old(self).is_connected(),
        ensures
            *final(self) == old(self).attached(handle),
            final(self).handle_view() == Some(handle),
            final(self).path_view() == old(self).path_view(),
    {
        self.handle = Some(handle);
    }

    /// Releases the descriptor, if one is open; the path is kept.
    pub fn close(&mut self)
        ensures
            !final(self).is_connected(),
            final(self).path_view() == old(self).path_view(),
    {
        self.handle = None;
    }
}

impl<H> Default for RevPiControl<H> {
    /// A handle on the default device node, not yet open.
    fn default() -> (r: Self)
        ensures
            r.path_view() == "/dev/piControl0"@,
            !r.is_connected(),
    {
        Self::new()
    }
}

/// Opening twice keeps one descriptor: once a descriptor is attached the
/// handle is open, so a second `open_target` names nothing to open and a
/// second `attach` is not allowed; the first descriptor and the path stay.
pub proof fn lemma_open_idempotent<H>(c: RevPiControl<H>, h: H)
    requires
        !c.is_connected(),
    ensures
        c.attached(h).is_connected(),
        c.attached(h).handle_view() == Some(h),
        c.attached(h).path_view() == c.path_view(),
{
}

/// The outcome of an ioctl: the call's own error, the error number it left
/// where it returned a negative value, or its non-negative return value.
pub open spec fn ioctl_outcome(res: Result<i32, i32>, last_errno: i32) -> Result<i32, ControlError> {
    match res {
        Err(e) => Err(ControlError::Sys(e)),
        Ok(n) => if n < 0 {
            Err(ControlError::Sys(last_errno))
        } else {
            Ok(n)
        },
    }
}

/// Checks an ioctl's outcome; `res` holds its return value or the error
/// number of a failed call, `last_errno` the error number read right after it.
pub fn check_ioctl(res: Result<i32, i32>, last_errno: i32) -> (r: Result<i32, ControlError>)
    ensures
        r == ioctl_outcome(res, last_errno),
{
    match res {
        Err(e) => Err(ControlError::Sys(e)),
        Ok(n) => if n < 0 {
            Err(ControlError::Sys(last_errno))
        } else {
            Ok(n)
        },
    }
}

/// Checks what a read of `length` bytes returned: exactly that many bytes,
/// or a short-read error, never a padded result.
pub fn check_read(length: usize, data: Vec<u8>) -> (r: Result<Vec<u8>, ControlError>)
    ensures
        data@.len() == length ==> r is Ok && r->Ok_0@ == data@,
        data@.len() != length ==> r == Err::<Vec<u8>, ControlError>(
            ControlError::ShortRead { expected: length, actual: data@.len() as usize },
        ),
{
    let actual = data.len();
    if actual == length {
        Ok(data)
    } else {
        Err(ControlError::ShortRead { expected: length, actual })
    }
}

/// Checks that a write took all `length` bytes.
pub fn check_write(length: usize, written: usize) -> (r: Result<bool, ControlError>)
    ensures
        written == length ==> r == Ok::<bool, ControlError>(true),
        written != length ==> r == Err::<bool, ControlError>(
            ControlError::ShortWrite { expected: length, actual: written },
        ),
{
    if written == length {
        Ok(true)
    } else {
        Err(ControlError::ShortWrite { expected: length, actual: written })
    }
}

/// The lookup request for the variable `name`, in the driver's layout. The
/// name must leave room for its terminating zero in the name field.
pub fn variable_request(name: &str) -> (r: Result<Vec<u8>, ControlError>)
    ensures
        name.spec_bytes().len() < NAME_SIZE ==> r is Ok && r->Ok_0@ == name_field(
            name.spec_bytes(),
        ) + Seq::new((VARIABLE_SIZE - NAME_SIZE) as nat, |i: int| 0u8),
        name.spec_bytes().len() >= NAME_SIZE ==> r == Err::<Vec<u8>, ControlError>(
            ControlError::NameTooLong(name.spec_bytes().len() as usize),
        ),
{
    let len = name.as_bytes().len();
    if len >= NAME_SIZE {
        return Err(ControlError::NameTooLong(len));
    }
    let v = SPIVariable::with_name(name);
    let b = v.to_le_bytes();
    assert(b@ =~= name_field(name.spec_bytes()) + Seq::new(
        (VARIABLE_SIZE - NAME_SIZE) as nat,
        |i: int| 0u8,
    ));
    Ok(b)
}

/// The variable that the driver wrote into `buf` after a lookup whose outcome
/// is `res` and `last_errno` (see `check_ioctl`).
pub fn variable_reply(res: Result<i32, i32>, last_errno: i32, buf: &[u8]) -> (r: Result<
    SPIVariable,
    ControlError,
>)
    requires
        buf@.len() >= VARIABLE_SIZE,
    ensures
        match ioctl_outcome(res, last_errno) {
            Err(e) => r == Err::<SPIVariable, ControlError>(e),
            Ok(_) => r is Ok && variable_bytes(r->Ok_0) == buf@.take(VARIABLE_SIZE as int).update(
                35,
                0u8,
            ),
        },
{
    match check_ioctl(res, last_errno) {
        Err(e) => Err(e),
        Ok(_) => {
            let v = SPIVariable::from_le_bytes(buf);
            assert(variable_bytes(v) =~= buf@.take(VARIABLE_SIZE as int).update(35, 0u8));
            Ok(v)
        },
    }
}

/// The devices that the driver wrote into `buf` after a list request whose
/// outcome is `res` and `last_errno` (see `check_ioctl`): exactly as many
/// records as the driver counted, never the slots beyond them.
pub fn device_list_reply(res: Result<i32, i32>, last_errno: i32, buf: &[u8]) -> (r: Result<
    Vec<SDeviceInfo>,
    ControlError,
>)
    ensures
        match ioctl_outcome(res, last_errno) {
            Err(e) => r == Err::<Vec<SDeviceInfo>, ControlError>(e),
            Ok(n) => if n as int * DEVICE_INFO_SIZE as int > buf@.len() {
                r == Err::<Vec<SDeviceInfo>, ControlError>(ControlError::DeviceCountOutOfRange(n))
            } else {
                r is Ok && r->Ok_0@.len() == n && forall|i: int|
                    0 <= i < n ==> #[trigger] r->Ok_0@[i] == device_info_at(
                        buf@,
                        i * DEVICE_INFO_SIZE as int,
                    )
            },
        },
{
    let n = match check_ioctl(res, last_errno) {
        Err(e) => {
            return Err(e);
        },
        Ok(n) => n,
    };
    let blen = buf.len();
    let capacity = blen / DEVICE_INFO_SIZE;
    if n as usize > capacity {
        return Err(ControlError::DeviceCountOutOfRange(n));
    }
    let count = n as usize;
    let mut list: Vec<SDeviceInfo> = Vec::new();
    let mut i: usize = 0;
    while i < count
        invariant
            count == n,
            count * DEVICE_INFO_SIZE <= buf@.len(),
            buf@.len() == blen,
            i <= count,
            list@.len() == i,
            forall|j: int|
                0 <= j < i ==> #[trigger] list@[j] == device_info_at(
                    buf@,
                    j * DEVICE_INFO_SIZE as int,
                ),
        decreases count - i,
    {
        assert((i + 1) * DEVICE_INFO_SIZE <= count * DEVICE_INFO_SIZE) by (nonlinear_arith)
            requires
                i < count,
        ;
        assert(i * DEVICE_INFO_SIZE <= (i + 1) * DEVICE_INFO_SIZE) by (nonlinear_arith);
        list.push(SDeviceInfo::from_le_bytes(buf, i * DEVICE_INFO_SIZE));
        i = i + 1;
    }
    Ok(list)
}

/// The request for one bit, in the driver's layout, after the bit index of
/// `value` has been folded into its address (see `SPIValue::normalize`).
pub fn bit_value_request(value: &mut SPIValue) -> (r: Vec<u8>)
    requires
        old(value).i16uAddress + old(value).i8uBit / 8 <= u16::MAX,
    ensures
        final(value).i16uAddress == old(value).i16uAddress + old(value).i8uBit / 8,
        final(value).i8uBit == old(value).i8uBit % 8,
        final(value).i8uValue == old(value).i8uValue,
        r@ == value_bytes(*final(value)),
{
    value.normalize();
    value.to_le_bytes()
}

/// Takes what the driver wrote back after a bit request whose outcome is
/// `res` and `last_errno` (see `check_ioctl`): on success `value` becomes the
/// record in `buf`, on failure it is left as it was.
pub fn bit_value_reply(res: Result<i32, i32>, last_errno: i32, buf: &[u8], value: &mut SPIValue) -> (r:
    Result<bool, ControlError>)
    requires
        buf@.len() >= VALUE_SIZE,
    ensures
        match ioctl_outcome(res, last_errno) {
            Err(e) => r == Err::<bool, ControlError>(e) && *final(value) == *old(value),
            Ok(_) => r == Ok::<bool, ControlError>(true) && value_bytes(*final(value))
                == buf@.take(VALUE_SIZE as int),
        },
{
    match check_ioctl(res, last_errno) {
        Err(e) => Err(e),
        Ok(_) => {
            *value = SPIValue::from_le_bytes(buf);
            assert(value_bytes(*value) =~= buf@.take(VALUE_SIZE as int));
            Ok(true)
        },
    }
}

/// The buffer that a copy of the process image starts with.
pub fn copy_buffer() -> (r: Vec<u8>)
    ensures
        r@ == Seq::new(SMALL_BUFFER_SIZE as nat, |i: int| 0u8),
{
    let mut b: Vec<u8> = Vec::new();
    let mut i: usize = 0;
    while i < SMALL_BUFFER_SIZE
        invariant
            i <= SMALL_BUFFER_SIZE,
            b@ == Seq::new(i as nat, |j: int| 0u8),
        decreases SMALL_BUFFER_SIZE - i,
    {
        b.push(0);
        i = i + 1;
        assert(b@ =~= Seq::new(i as nat, |j: int| 0u8));
    }
    b
}

/// After a read of `len_read` bytes during a copy: where the read filled the
/// buffer and the buffer is under the cap, the buffer grows by `len_read`
/// zero bytes; otherwise it stays as it is.
pub fn grow_buffer(buffer: &mut Vec<u8>, len_read: usize)
    ensures
        len_read == old(buffer)@.len() && len_read < LARGE_BUFFER_SIZE ==> final(buffer)@ == old(
            buffer,
        )@ + Seq::new(len_read as nat, |i: int| 0u8),
        !(len_read == old(buffer)@.len() && len_read < LARGE_BUFFER_SIZE) ==> final(buffer)@ == old(
            buffer,
        )@,
{
    if len_read == buffer.len() && len_read < LARGE_BUFFER_SIZE {
        let ghost start = buffer@;
        let mut i: usize = 0;
        while i < len_read
            invariant
                i <= len_read < LARGE_BUFFER_SIZE,
                start.len() == len_read,
                buffer@ == start + Seq::new(i as nat, |j: int| 0u8),
            decreases len_read - i,
        {
            buffer.push(0);
            i = i + 1;
            assert(buffer@ =~= start + Seq::new(i as nat, |j: int| 0u8));
        }
    }
}

/// How a variable is reached in the process image.
#[derive(Debug, Clone, Copy, PartialEq, Eq, Structural)]
pub enum VariableAccess {
    /// A one-bit variable, through the bit-value request.
    Bit(SPIValue),
    /// A variable of `size` whole bytes at `address`.
    Bytes { address: u16, size: usize },
}

/// How the variable `var` is read: a bit length of 1 is a bit, one of 8, 16
/// or 32 is that many bits in whole bytes; any other length is a fault of the
/// driver's description and is reported, never rounded.
pub fn variable_access(var: &SPIVariable) -> (r: Result<VariableAccess, ControlError>)
    ensures
        var.i16uLength == 1 ==> r == Ok::<VariableAccess, ControlError>(
            VariableAccess::Bit(
                SPIValue { i16uAddress: var.i16uAddress, i8uBit: var.i8uBit, i8uValue: 0 },
            ),
        ),
        (var.i16uLength == 8 || var.i16uLength == 16 || var.i16uLength == 32) ==> r == Ok::<
            VariableAccess,
            ControlError,
        >(VariableAccess::Bytes { address: var.i16uAddress, size: (var.i16uLength / 8) as usize }),
        !(var.i16uLength == 1 || var.i16uLength == 8 || var.i16uLength == 16 || var.i16uLength
            == 32) ==> r == Err::<VariableAccess, ControlError>(
            ControlError::UnsupportedBitLength(var.i16uLength),
        ),
{
    let len = var.i16uLength;
    if len == 1 {
        Ok(VariableAccess::Bit(SPIValue { i16uAddress: var.i16uAddress, i8uBit: var.i8uBit, i8uValue: 0 }))
    } else if len == 8 || len == 16 || len == 32 {
        Ok(VariableAccess::Bytes { address: var.i16uAddress, size: (len / 8) as usize })
    } else {
        Err(ControlError::UnsupportedBitLength(len))
    }
}

/// What writing `value` to a variable takes.
#[derive(Debug, PartialEq, Eq)]
pub enum VariableWrite {
    /// Set one bit through the bit-value request.
    Bit(SPIValue),
    /// Write these bytes at `address`.
    Bytes { address: u16, data: Vec<u8> },
}

/// How `value` is written to the variable `var`: a one-bit variable gets the
/// low byte of `value` through the bit-value request; one of 8, 16 or 32 bits
/// gets `value` little-endian in exactly its own width; any other bit length
/// is reported.
pub fn variable_write(var: &SPIVariable, value: u32) -> (r: Result<VariableWrite, ControlError>)
    ensures
        var.i16uLength == 1 ==> r == Ok::<VariableWrite, ControlError>(
            VariableWrite::Bit(
                SPIValue {
                    i16uAddress: var.i16uAddress,
                    i8uBit: var.i8uBit,
                    i8uValue: (value % 256) as u8,
                },
            ),
        ),
        (var.i16uLength == 8 || var.i16uLength == 16 || var.i16uLength == 32) ==> match r {
            Ok(VariableWrite::Bytes { address, data }) => address == var.i16uAddress && data@
                == le_bytes(value as nat, (var.i16uLength / 8) as nat),
            _ => false,
        },
        !(var.i16uLength == 1 || var.i16uLength == 8 || var.i16uLength == 16 || var.i16uLength
            == 32) ==> r == Err::<VariableWrite, ControlError>(
            ControlError::UnsupportedBitLength(var.i16uLength),
        ),
{
    let len = var.i16uLength;
    if len == 1 {
        Ok(
            VariableWrite::Bit(
                SPIValue {
                    i16uAddress: var.i16uAddress,
                    i8uBit: var.i8uBit,
                    i8uValue: (value % 256) as u8,
                },
            ),
        )
    } else if len == 8 || len == 16 || len == 32 {
        match num_to_bytes(value as u64, len as usize) {
            Ok(data) => Ok(VariableWrite::Bytes { address: var.i16uAddress, data }),
            Err(e) => Err(e),
        }
    } else {
        Err(ControlError::UnsupportedBitLength(len))
    }
}

} // verus!
