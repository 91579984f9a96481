//! The piControl kernel ABI: device path, request numbers, record layouts.
//!
//! Records cross the ioctl boundary as byte buffers in the driver's C layout
//! (natural alignment, little-endian); the functions here are the only place
//! where those layouts are written down.
use vstd::prelude::*;
use vstd::string::StringSliceAdditionalSpecFns;
use vstd::utf8::valid_utf8;

verus! {

/// Default device node of the driver, with its terminating zero.
pub const PICONTROL_DEVICE: [u8; 16] = [
    47, 100, 101, 118, 47, 112, 105, 67, 111, 110, 116, 114, 111, 108, 48, 0,
];

/// Largest number of modules that the driver reports.
pub const REV_PI_DEV_CNT_MAX: usize = 64;

/// Bit of a module type that marks a module as connected.
pub const PICONTROL_NOT_CONNECTED: u32 = 0x8000;

/// Bits of a module type that hold the type code itself.
pub const PICONTROL_NOT_CONNECTED_MASK: u32 = 0x7fff;

pub const PICONTROL_SW_MODBUS_TCP_SLAVE: u32 = 24577;

pub const PICONTROL_SW_MODBUS_RTU_SLAVE: u32 = 24578;

pub const PICONTROL_SW_MODBUS_TCP_MASTER: u32 = 24579;

pub const PICONTROL_SW_MODBUS_RTU_MASTER: u32 = 24580;

/// ioctl type byte of the driver's requests.
pub const KB_IOC_MAGIC: u8 = 75;

pub const KB_RESET: u8 = 12;

pub const KB_GET_DEVICE_INFO_LIST: u8 = 13;

pub const KB_GET_DEVICE_INFO: u8 = 14;

pub const KB_GET_VALUE: u8 = 15;

pub const KB_SET_VALUE: u8 = 16;

pub const KB_FIND_VARIABLE: u8 = 17;

/// Bytes of one device record in the driver's layout.
pub const DEVICE_INFO_SIZE: usize = 72;

/// Bytes of a variable record in the driver's layout.
pub const VARIABLE_SIZE: usize = 38;

/// Bytes of a bit-value record in the driver's layout.
pub const VALUE_SIZE: usize = 4;

/// Bytes of the name field of a variable record.
pub const NAME_SIZE: usize = 32;

/// The 16-bit number at `at` in `b`, least significant byte first.
pub open spec fn u16_at(b: Seq<u8>, at: int) -> u16 {
    (b[at] as int + 256 * b[at + 1] as int) as u16
}

/// The 32-bit number at `at` in `b`, least significant byte first.
pub open spec fn u32_at(b: Seq<u8>, at: int) -> u32 {
    (u16_at(b, at) as int + 65536 * u16_at(b, at + 2) as int) as u32
}

/// The two bytes of `v`, least significant first.
pub open spec fn u16_bytes(v: u16) -> Seq<u8> {
    seq![(v % 256) as u8, (v / 256) as u8]
}

fn read_u16_at(b: &[u8], at: usize) -> (r: u16)
    requires
        at + 2 <= b@.len(),
    ensures
        r == u16_at(b@, at as int),
{
    b[at] as u16 + 256 * b[at + 1] as u16
}

fn read_u32_at(b: &[u8], at: usize) -> (r: u32)
    requires
        at + 4 <= b@.len(),
    ensures
        r == u32_at(b@, at as int),
{
    let len = b.len();
    assert(at + 4 <= len);
    let lo = read_u16_at(b, at);
    let hi = read_u16_at(b, at + 2);
    lo as u32 + 65536 * hi as u32
}

fn push_u16(out: &mut Vec<u8>, v: u16)
    ensures
        final(out)@ == old(out)@ + u16_bytes(v),
{
    out.push((v % 256) as u8);
    out.push((v / 256) as u8);
    assert(final(out)@ =~= old(out)@ + u16_bytes(v));
}

/// One module as the driver describes it.
#[derive(Debug, Clone, Copy, PartialEq, Eq, Structural)]
#[allow(non_snake_case)]
pub struct SDeviceInfo {
    pub i8uAddress: u8,
    pub i32uSerialnumber: u32,
    pub i16uModuleType: u16,
    pub i16uHW_Revision: u16,
    pub i16uSW_Major: u16,
    pub i16uSW_Minor: u16,
    pub i32uSVN_Revision: u32,
    pub i16uInputLength: u16,
    pub i16uOutputLength: u16,
    pub i16uConfigLength: u16,
    pub i16uBaseOffset: u16,
    pub i16uInputOffset: u16,
    pub i16uOutputOffset: u16,
    pub i16uConfigOffset: u16,
    pub i16uFirstEntry: u16,
    pub i16uEntries: u16,
    pub i8uModuleState: u8,
    pub i8uActive: u8,
}

/// The device record that starts at `at` in `b`.
pub open spec fn device_info_at(b: Seq<u8>, at: int) -> SDeviceInfo {
    SDeviceInfo {
        i8uAddress: b[at],
        i32uSerialnumber: u32_at(b, at + 4),
        i16uModuleType: u16_at(b, at + 8),
        i16uHW_Revision: u16_at(b, at + 10),
        i16uSW_Major: u16_at(b, at + 12),
        i16uSW_Minor: u16_at(b, at + 14),
        i32uSVN_Revision: u32_at(b, at + 16),
        i16uInputLength: u16_at(b, at + 20),
        i16uOutputLength: u16_at(b, at + 22),
        i16uConfigLength: u16_at(b, at + 24),
        i16uBaseOffset: u16_at(b, at + 26),
        i16uInputOffset: u16_at(b, at + 28),
        i16uOutputOffset: u16_at(b, at + 30),
        i16uConfigOffset: u16_at(b, at + 32),
        i16uFirstEntry: u16_at(b, at + 34),
        i16uEntries: u16_at(b, at + 36),
        i8uModuleState: b[at + 38],
        i8uActive: b[at + 39],
    }
}

impl Default for SDeviceInfo {
    /// The all-zero record.
    fn default() -> (r: Self)
        ensures
            r == device_info_at(Seq::new(DEVICE_INFO_SIZE as nat, |i: int| 0u8), 0),
    {
        SDeviceInfo {
            i8uAddress: 0,
            i32uSerialnumber: 0,
            i16uModuleType: 0,
            i16uHW_Revision: 0,
            i16uSW_Major: 0,
            i16uSW_Minor: 0,
            i32uSVN_Revision: 0,
            i16uInputLength: 0,
            i16uOutputLength: 0,
            i16uConfigLength: 0,
            i16uBaseOffset: 0,
            i16uInputOffset: 0,
            i16uOutputOffset: 0,
            i16uConfigOffset: 0,
            i16uFirstEntry: 0,
            i16uEntries: 0,
            i8uModuleState: 0,
            i8uActive: 0,
        }
    }
}

impl SDeviceInfo {
    /// Reads the device record that starts at `at` in `b`.
    pub fn from_le_bytes(b: &[u8], at: usize) -> (r: SDeviceInfo)
        requires
            at + DEVICE_INFO_SIZE <= b@.len(),
        ensures
            r == device_info_at(b@, at as int),
    {
        SDeviceInfo {
            i8uAddress: b[at],
            i32uSerialnumber: read_u32_at(b, at + 4),
            i16uModuleType: read_u16_at(b, at + 8),
            i16uHW_Revision: read_u16_at(b, at + 10),
            i16uSW_Major: read_u16_at(b, at + 12),
            i16uSW_Minor: read_u16_at(b, at + 14),
            i32uSVN_Revision: read_u32_at(b, at + 16),
            i16uInputLength: read_u16_at(b, at + 20),
            i16uOutputLength: read_u16_at(b, at + 22),
            i16uConfigLength: read_u16_at(b, at + 24),
            i16uBaseOffset: read_u16_at(b, at + 26),
            i16uInputOffset: read_u16_at(b, at + 28),
            i16uOutputOffset: read_u16_at(b, at + 30),
            i16uConfigOffset: read_u16_at(b, at + 32),
            i16uFirstEntry: read_u16_at(b, at + 34),
            i16uEntries: read_u16_at(b, at + 36),
            i8uModuleState: b[at + 38],
            i8uActive: b[at + 39],
        }
    }
}

/// Why the name field of a variable record is not a name.
#[derive(Debug, Clone, Copy, PartialEq, Eq, Structural)]
pub enum CstrToStrError {
    /// The field holds no terminating zero.
    FromBytesWithNul,
    /// The bytes before the terminating zero are not UTF-8.
    Utf8,
}

/// `n` is the position of the first zero byte in `s`.
pub open spec fn is_first_nul(s: Seq<u8>, n: int) -> bool {
    0 <= n < s.len() && s[n] == 0 && forall|j: int| 0 <= j < n ==> s[j] != 0
}

/// The name field that holds `name`: its bytes, then zeros up to the field's size.
pub open spec fn name_field(name: Seq<u8>) -> Seq<u8> {
    Seq::new(NAME_SIZE as nat, |i: int| if i < name.len() { name[i] } else { 0u8 })
}

/// Relies on `std::str::from_utf8`: the bytes as text where they are valid UTF-8.
#[verifier::external_body]
fn utf8_str(b: &[u8]) -> (r: Option<&str>)
    ensures
        r is Some <==> valid_utf8(b@),
        r is Some ==> r->Some_0.spec_bytes() == b@,
{
    std::str::from_utf8(b).ok()
}

/// Copies a name into a zero-filled name field.
fn byte_to_int8_array(name: &[u8]) -> (r: [u8; 32])
    requires
        name@.len() <= NAME_SIZE,
    ensures
        r@ == name_field(name@),
{
    let mut field = [0u8; 32];
    let mut i: usize = 0;
    while i < name.len()
        invariant
            i <= name@.len() <= NAME_SIZE,
            forall|j: int| 0 <= j < i ==> field@[j] == name@[j],
            forall|j: int| i <= j < NAME_SIZE ==> field@[j] == 0,
        decreases name@.len() - i,
    {
        field[i] = name[i];
        i = i + 1;
    }
    assert(field@ =~= name_field(name@));
    field
}

/// A process-image variable as the driver describes it: the name it was
/// looked up by, its byte address, the bit within that byte, its bit length.
#[derive(Debug, Clone, Copy, PartialEq, Eq)]
#[allow(non_snake_case)]
pub struct SPIVariable {
    pub strVarName: [u8; 32],
    pub i16uAddress: u16,
    pub i8uBit: u8,
    pub i16uLength: u16,
}

/// The driver's layout of a variable record.
pub open spec fn variable_bytes(v: SPIVariable) -> Seq<u8> {
    v.strVarName@ + u16_bytes(v.i16uAddress) + seq![v.i8uBit, 0u8] + u16_bytes(v.i16uLength)
}

impl Default for SPIVariable {
    /// The all-zero record: an empty name, every other field zero.
    fn default() -> (r: Self)
        ensures
            r.strVarName@ == name_field(Seq::empty()),
            r.i16uAddress == 0,
            r.i8uBit == 0,
            r.i16uLength == 0,
    {
        let r = SPIVariable { strVarName: [0u8; 32], i16uAddress: 0, i8uBit: 0, i16uLength: 0 };
        assert(r.strVarName@ =~= name_field(Seq::empty()));
        r
    }
}

impl SPIVariable {
    /// The lookup request for the variable called `name`: the name in a
    /// zero-filled field, every other field zero.
    pub fn with_name(name: &str) -> (r: SPIVariable)
        requires
            name.spec_bytes().len() <= NAME_SIZE,
        ensures
            r.strVarName@ == name_field(name.spec_bytes()),
            r.i16uAddress == 0,
            r.i8uBit == 0,
            r.i16uLength == 0,
    {
        SPIVariable {
            strVarName: byte_to_int8_array(name.as_bytes()),
            i16uAddress: 0,
            i8uBit: 0,
            i16uLength: 0,
        }
    }

    /// The record in the driver's layout.
    pub fn to_le_bytes(&self) -> (r: Vec<u8>)
        ensures
            r@ == variable_bytes(*self),
            r@.len() == VARIABLE_SIZE,
    {
        let mut out: Vec<u8> = Vec::new();
        let mut i: usize = 0;
        while i < NAME_SIZE
            invariant
                i <= NAME_SIZE,
                out@ =~= self.strVarName@.take(i as int),
            decreases NAME_SIZE - i,
        {
            out.push(self.strVarName[i]);
            i = i + 1;
        }
        push_u16(&mut out, self.i16uAddress);
        out.push(self.i8uBit);
        out.push(0);
        push_u16(&mut out, self.i16uLength);
        assert(out@ =~= variable_bytes(*self));
        out
    }

    /// Reads a variable record in the driver's layout.
    pub fn from_le_bytes(b: &[u8]) -> (r: SPIVariable)
        requires
            b@.len() >= VARIABLE_SIZE,
        ensures
            r.strVarName@ == b@.take(NAME_SIZE as int),
            r.i16uAddress == u16_at(b@, 32),
            r.i8uBit == b@[34],
            r.i16uLength == u16_at(b@, 36),
    {
        let mut field = [0u8; 32];
        let mut i: usize = 0;
        while i < NAME_SIZE
            invariant
                i <= NAME_SIZE <= b@.len(),
                forall|j: int| 0 <= j < i ==> field@[j] == b@[j],
            decreases NAME_SIZE - i,
        {
            field[i] = b[i];
            i = i + 1;
        }
        assert(field@ =~= b@.take(NAME_SIZE as int));
        SPIVariable {
            strVarName: field,
            i16uAddress: read_u16_at(b, 32),
            i8uBit: b[34],
            i16uLength: read_u16_at(b, 36),
        }
    }

    /// The variable's name: the bytes of the name field before its first zero.
    pub fn name(&self) -> (r: Result<&str, CstrToStrError>)
        ensures
            match r {
                Ok(s) => exists|n: int|
                    is_first_nul(self.strVarName@, n) && s.spec_bytes() == self.strVarName@.take(n),
                Err(CstrToStrError::FromBytesWithNul) => forall|j: int|
                    0 <= j < NAME_SIZE ==> self.strVarName@[j] != 0,
                Err(CstrToStrError::Utf8) => exists|n: int|
                    is_first_nul(self.strVarName@, n) && !valid_utf8(self.strVarName@.take(n)),
            },
    {
        let field = self.strVarName.as_slice();
        let mut n: usize = 0;
        while n < NAME_SIZE
            invariant
                n <= NAME_SIZE,
                field@ == self.strVarName@,
                forall|j: int| 0 <= j < n ==> field@[j] != 0,
            decreases NAME_SIZE - n,
        {
            if field[n] == 0 {
                let prefix = &field[0..n];
                assert(prefix@ =~= self.strVarName@.take(n as int));
                assert(is_first_nul(self.strVarName@, n as int));
                return match utf8_str(prefix) {
                    Some(s) => Ok(s),
                    None => Err(CstrToStrError::Utf8),
                };
            }
            n = n + 1;
        }
        Err(CstrToStrError::FromBytesWithNul)
    }
}

/// A request for one bit of the process image: the byte address, the bit
/// within it, and the bit's value.
#[derive(Debug, Clone, Copy, PartialEq, Eq, Structural)]
#[allow(non_snake_case)]
pub struct SPIValue {
    pub i16uAddress: u16,
    pub i8uBit: u8,
    pub i8uValue: u8,
}

/// The driver's layout of a bit-value record.
pub open spec fn value_bytes(v: SPIValue) -> Seq<u8> {
    u16_bytes(v.i16uAddress) + seq![v.i8uBit, v.i8uValue]
}

impl Default for SPIValue {
    /// The all-zero record.
    fn default() -> (r: Self)
        ensures
            r == (SPIValue { i16uAddress: 0, i8uBit: 0, i8uValue: 0 }),
    {
        SPIValue { i16uAddress: 0, i8uBit: 0, i8uValue: 0 }
    }
}

impl SPIValue {
    /// Folds whole bytes of the bit index into the address, so that the bit
    /// index lies in 0..8 and the same bit is meant.
    pub fn normalize(&mut self)
        requires
            old(self).i16uAddress + old(self).i8uBit / 8 <= u16::MAX,
        ensures
            final(self).i16uAddress == old(self).i16uAddress + old(self).i8uBit / 8,
            final(self).i8uBit == old(self).i8uBit % 8,
            final(self).i8uBit < 8,
            final(self).i8uValue == old(self).i8uValue,
    {
        self.i16uAddress = self.i16uAddress + (self.i8uBit as u16) / 8;
        self.i8uBit = self.i8uBit % 8;
    }

    /// The record in the driver's layout.
    pub fn to_le_bytes(&self) -> (r: Vec<u8>)
        ensures
            r@ == value_bytes(*self),
            r@.len() == VALUE_SIZE,
    {
        let mut out: Vec<u8> = Vec::new();
        push_u16(&mut out, self.i16uAddress);
        out.push(self.i8uBit);
        out.push(self.i8uValue);
        assert(out@ =~= value_bytes(*self));
        out
    }

    /// Reads a bit-value record in the driver's layout.
    pub fn from_le_bytes(b: &[u8]) -> (r: SPIValue)
        requires
            b@.len() >= VALUE_SIZE,
        ensures
            r == (SPIValue { i16uAddress: u16_at(b@, 0), i8uBit: b@[2], i8uValue: b@[3] }),
    {
        SPIValue { i16uAddress: read_u16_at(b, 0), i8uBit: b[2], i8uValue: b[3] }
    }
}

} // verus!
