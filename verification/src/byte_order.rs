//! Byte orders of integers in memory.
//!
//! Guest and device share memory, and with it the byte order of the machine
//! that they run on.
use vstd::prelude::*;

verus! {

/// An order in which the bytes of an integer stand in memory.
#[derive(Clone, Copy, Debug, PartialEq, Eq, Structural)]
pub enum ByteOrder {
    /// The least significant byte comes first.
    Little,
    /// The most significant byte comes first.
    Big,
}

/// Calls `u16::from_ne_bytes`. Trusted: the result has the two bytes in one of
/// the two orders. Which one depends on the machine, and is left open.
#[verifier::external_body]
fn native_u16(first: u8, second: u8) -> (x: u16)
    ensures
        x == first + 0x100 * second || x == 0x100 * first + second,
{
    u16::from_ne_bytes([first, second])
}

impl ByteOrder {
    /// Whether this is the byte order of the machine: the one in which it takes
    /// the number one apart.
    pub closed spec fn is_native(self) -> bool {
        exists|x: u16|
            #![trigger call_ensures(native_u16, (1u8, 0u8), x)]
            call_ensures(native_u16, (1u8, 0u8), x) && self == if x == 1 {
                ByteOrder::Little
            } else {
                ByteOrder::Big
            }
    }

    /// The byte order of the machine.
    pub fn native() -> (order: ByteOrder)
        ensures
            order.is_native(),
    {
        let x: u16 = native_u16(1, 0);
        if x == 1 {
            ByteOrder::Little
        } else {
            ByteOrder::Big
        }
    }

    /// The 32-bit number at offset `at` of `b`.
    pub open spec fn u32_at(self, b: Seq<u8>, at: int) -> u32 {
        match self {
            ByteOrder::Little => (b[at] + 0x100 * b[at + 1] + 0x1_0000 * b[at + 2] + 0x100_0000 * b[
            at + 3]) as u32,
            ByteOrder::Big => (0x100_0000 * b[at] + 0x1_0000 * b[at + 1] + 0x100 * b[at + 2] + b[at
                + 3]) as u32,
        }
    }

    /// The 64-bit number at offset `at` of `b`.
    pub open spec fn u64_at(self, b: Seq<u8>, at: int) -> u64 {
        match self {
            ByteOrder::Little => (self.u32_at(b, at) + 0x1_0000_0000 * self.u32_at(
                b,
                at + 4,
            )) as u64,
            ByteOrder::Big => (0x1_0000_0000 * self.u32_at(b, at) + self.u32_at(b, at + 4)) as u64,
        }
    }

    /// The four bytes of `x`.
    pub open spec fn u32_bytes(self, x: u32) -> Seq<u8> {
        let b0 = (x % 0x100) as u8;
        let b1 = (x / 0x100 % 0x100) as u8;
        let b2 = (x / 0x1_0000 % 0x100) as u8;
        let b3 = (x / 0x100_0000) as u8;
        match self {
            ByteOrder::Little => seq![b0, b1, b2, b3],
            ByteOrder::Big => seq![b3, b2, b1, b0],
        }
    }

    /// The eight bytes of `x`.
    pub open spec fn u64_bytes(self, x: u64) -> Seq<u8> {
        let low = self.u32_bytes((x % 0x1_0000_0000) as u32);
        let high = self.u32_bytes((x / 0x1_0000_0000) as u32);
        match self {
            ByteOrder::Little => low + high,
            ByteOrder::Big => high + low,
        }
    }

    /// Reads the 32-bit number at offset `at`.
    pub fn get_u32(self, b: &[u8], at: usize) -> (x: u32)
        requires
            at + 4 <= b@.len(),
        ensures
            x == self.u32_at(b@, at as int),
    {
        let b0: u32 = b[at] as u32;
        let b1: u32 = b[at + 1] as u32;
        let b2: u32 = b[at + 2] as u32;
        let b3: u32 = b[at + 3] as u32;
        match self {
            ByteOrder::Little => b0 + 0x100 * b1 + 0x1_0000 * b2 + 0x100_0000 * b3,
            ByteOrder::Big => 0x100_0000 * b0 + 0x1_0000 * b1 + 0x100 * b2 + b3,
        }
    }

    /// Reads the 64-bit number at offset `at`.
    pub fn get_u64(self, b: &[u8], at: usize) -> (x: u64)
        requires
            at + 8 <= b@.len(),
        ensures
            x == self.u64_at(b@, at as int),
    {
        assert(b.len() == b@.len());
        let first: u64 = self.get_u32(b, at) as u64;
        let second: u64 = self.get_u32(b, at + 4) as u64;
        match self {
            ByteOrder::Little => first + 0x1_0000_0000 * second,
            ByteOrder::Big => 0x1_0000_0000 * first + second,
        }
    }

    /// Appends the bytes of `x` to `out`.
    pub fn put_u32(self, out: &mut Vec<u8>, x: u32)
        ensures
            final(out)@ == old(out)@ + self.u32_bytes(x),
    {
        let b0: u8 = (x % 0x100) as u8;
        let b1: u8 = (x / 0x100 % 0x100) as u8;
        let b2: u8 = (x / 0x1_0000 % 0x100) as u8;
        let b3: u8 = (x / 0x100_0000) as u8;
        match self {
            ByteOrder::Little => {
                out.push(b0);
                out.push(b1);
                out.push(b2);
                out.push(b3);
            },
            ByteOrder::Big => {
                out.push(b3);
                out.push(b2);
                out.push(b1);
                out.push(b0);
            },
        }
        assert(out@ =~= old(out)@ + self.u32_bytes(x));
    }

    /// Appends the bytes of `x` to `out`.
    pub fn put_u64(self, out: &mut Vec<u8>, x: u64)
        ensures
            final(out)@ == old(out)@ + self.u64_bytes(x),
    {
        let low: u32 = (x % 0x1_0000_0000) as u32;
        let high: u32 = (x / 0x1_0000_0000) as u32;
        match self {
            ByteOrder::Little => {
                self.put_u32(out, low);
                self.put_u32(out, high);
            },
            ByteOrder::Big => {
                self.put_u32(out, high);
                self.put_u32(out, low);
            },
        }
        assert(out@ =~= old(out)@ + self.u64_bytes(x));
    }
}

/// The byte order of the machine is little-endian if and only if the machine
/// takes the bytes one and zero for the number one.
proof fn lemma_order_was_tried(order: ByteOrder)
    requires
        order.is_native(),
    ensures
        exists|x: u16|
            #![trigger call_ensures(native_u16, (1u8, 0u8), x)]
            call_ensures(native_u16, (1u8, 0u8), x) && (order is Little <==> x == 1),
{
}

} // verus!
