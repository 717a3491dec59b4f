//! Driver for the AS5600 absolute rotary encoder.
//!
//! The encoder exposes a 12-bit raw angle in a two-byte register. The driver
//! issues a combined write-then-read bus transaction through a caller-supplied
//! transport, masks the concatenated bytes to 12 bits, and can convert the raw
//! reading to an exact angle in millidegrees.

use vstd::prelude::*;

verus! {

/// Default 7-bit device address of the AS5600.
pub const DEFAULT_ADDRESS: u8 = 0x36;

/// Register address of the 12-bit raw angle (two bytes, high then low).
pub const ANGLE_REGISTER: u8 = 0x0e;

/// Largest raw angle the 12-bit register can hold.
pub const RAW_ANGLE_MAX: u16 = 4095;

/// A combined write-then-read bus transaction, supplied by the caller.
///
/// An implementation writes the single register-select byte to the device at
/// `device_address` and reads two bytes back in one atomic transaction. A
/// transport fault (timeout, NACK, arbitration loss) is surfaced verbatim as
/// `Fault`; the driver never retries. Nothing is promised of the bytes an
/// implementation returns: hardware decides them.
pub trait BusTransport {
    /// The transport's own error type, surfaced verbatim by the driver.
    type Fault;

    /// Writes `register` to the device at `device_address`, then reads two
    /// bytes back in the same transaction.
    fn write_read_two(&mut self, device_address: u8, register: u8) -> Result<[u8; 2], Self::Fault>;
}

/// The 12-bit raw angle encoded by a two-byte register read: the high byte's
/// low nibble concatenated with the low byte.
pub open spec fn raw_angle_of_bytes(high: u8, low: u8) -> u16 {
    (((high as u16) << 8) | (low as u16)) & 0x0fff
}

/// The exact angle in millidegrees that a raw reading denotes:
/// `raw * 360000 / 4096`, rounded down.
pub open spec fn millidegrees_of_raw(raw: u16) -> int {
    (raw * 360000) / 4096
}

/// Decodes a two-byte register read into the 12-bit raw angle.
pub fn decode_raw_angle(high: u8, low: u8) -> (raw: u16)
    ensures
        raw == raw_angle_of_bytes(high, low),
        raw <= RAW_ANGLE_MAX,
{
    let raw: u16 = (((high as u16) << 8) | (low as u16)) & 0x0fff;
    proof {
        assert((((high as u16) << 8) | (low as u16)) & 0x0fff <= 4095) by (bit_vector);
    }
    raw
}

/// Converts a raw 12-bit angle to millidegrees by the linear mapping
/// `raw * 360000 / 4096`.
pub fn raw_to_millidegrees(raw: u16) -> (m: u32)
    requires
        raw <= RAW_ANGLE_MAX,
    ensures
        m == millidegrees_of_raw(raw),
        m < 360000,
{
    let m: u32 = (raw as u32) * 360000 / 4096;
    m
}

/// The angle conversion is strictly increasing in the raw reading: a larger
/// register value always denotes a strictly larger angle, and the mapping is
/// linear in the raw value before the final rounding division.
pub proof fn lemma_millidegrees_strictly_increasing(r1: u16, r2: u16)
    requires
        r1 < r2,
        r2 <= RAW_ANGLE_MAX,
    ensures
        millidegrees_of_raw(r1) < millidegrees_of_raw(r2),
{
    let a = r1 * 360000;
    let b = r2 * 360000;
    assert(a + 360000 <= b);
    assert(a == 4096 * (a / 4096) + a % 4096) by {
        vstd::arithmetic::div_mod::lemma_fundamental_div_mod(a as int, 4096);
    }
    assert(b == 4096 * (b / 4096) + b % 4096) by {
        vstd::arithmetic::div_mod::lemma_fundamental_div_mod(b as int, 4096);
    }
}

/// The angle conversion is linear up to rounding: each raw increment raises
/// the angle by 87 or 88 millidegrees (the exact slope is
/// `360000 / 4096 = 87.890625`).
pub proof fn lemma_millidegrees_slope(r: u16)
    requires
        r < RAW_ANGLE_MAX,
    ensures
        millidegrees_of_raw(r) + 87 <= millidegrees_of_raw((r + 1) as u16) <= millidegrees_of_raw(
            r,
        ) + 88,
{
    let a = r * 360000;
    let q = a / 4096;
    let rem = a % 4096;
    vstd::arithmetic::div_mod::lemma_fundamental_div_mod(a, 4096);
    vstd::arithmetic::div_mod::lemma_mod_bound(a, 4096);
    assert((r + 1) * 360000 == a + 360000);
    if rem + 3648 < 4096 {
        vstd::arithmetic::div_mod::lemma_fundamental_div_mod_converse(
            a + 360000,
            4096,
            q + 87,
            rem + 3648,
        );
    } else {
        vstd::arithmetic::div_mod::lemma_fundamental_div_mod_converse(
            a + 360000,
            4096,
            q + 88,
            rem - 448,
        );
    }
}

/// Driver for one AS5600 device on a caller-supplied bus transport.
///
/// The driver owns the transport exclusively for as long as it exists;
/// `release` hands the transport back for sequential reuse by other drivers
/// sharing the same physical bus.
pub struct As5600<B> {
    bus: B,
    address: u8,
    angle_register: u8,
}

impl<B: BusTransport> As5600<B> {
    /// The device address this driver talks to.
    pub closed spec fn spec_address(self) -> u8 {
        self.address
    }

    /// The register address the driver reads the angle from.
    pub closed spec fn spec_angle_register(self) -> u8 {
        self.angle_register
    }

    /// The bus transport the driver owns.
    pub closed spec fn spec_bus(self) -> B {
        self.bus
    }

    /// Creates a driver with the default device address and angle register.
    pub fn new(bus: B) -> (s: Self)
        ensures
            s.spec_address() == DEFAULT_ADDRESS,
            s.spec_angle_register() == ANGLE_REGISTER,
            s.spec_bus() == bus,
    {
        Self { bus, address: DEFAULT_ADDRESS, angle_register: ANGLE_REGISTER }
    }

    /// Creates a driver with an overridden device address and angle register.
    pub fn with_config(bus: B, address: u8, angle_register: u8) -> (s: Self)
        ensures
            s.spec_address() == address,
            s.spec_angle_register() == angle_register,
            s.spec_bus() == bus,
    {
        Self { bus, address, angle_register }
    }

    /// Reads the raw 12-bit angle (`0..=4095`).
    ///
    /// Issues one combined write-then-read transaction and masks the two
    /// returned bytes to 12 bits. A transport fault is returned verbatim;
    /// there is no retry and no local recovery.
    pub fn read_raw_angle(&mut self) -> (r: Result<u16, B::Fault>)
        ensures
            final(self).spec_address() == old(self).spec_address(),
            final(self).spec_angle_register() == old(self).spec_angle_register(),
            r matches Ok(raw) ==> raw <= RAW_ANGLE_MAX,
    {
        match self.bus.write_read_two(self.address, self.angle_register) {
            Ok(buf) => Ok(decode_raw_angle(buf[0], buf[1])),
            Err(fault) => Err(fault),
        }
    }

    /// Reads the angle in millidegrees (`0..=359999`).
    ///
    /// Calls `read_raw_angle` and applies the exact linear conversion
    /// `raw * 360000 / 4096`. Same error contract as `read_raw_angle`.
    pub fn read_millidegrees(&mut self) -> (r: Result<u32, B::Fault>)
        ensures
            final(self).spec_address() == old(self).spec_address(),
            final(self).spec_angle_register() == old(self).spec_angle_register(),
            r matches Ok(m) ==> m < 360000,
            r matches Ok(m) ==> exists|raw: u16| raw <= RAW_ANGLE_MAX && m == millidegrees_of_raw(raw),
    {
        match self.read_raw_angle() {
            Ok(raw) => {
                let m = raw_to_millidegrees(raw);
                proof {
                    assert(raw <= RAW_ANGLE_MAX && m == millidegrees_of_raw(raw));
                }
                Ok(m)
            }
            Err(fault) => Err(fault),
        }
    }

    /// Relinquishes the bus transport back to the caller, with no side
    /// effects.
    pub fn release(self) -> (b: B)
        ensures
            b == self.spec_bus(),
    {
        self.bus
    }
}

} // verus!
