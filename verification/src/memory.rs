//! Access to guest memory.
use vm_memory::{Bytes, GuestAddress, GuestMemoryError, GuestMemoryMmap};
use vstd::prelude::*;

verus! {

/// `vm_memory::GuestMemoryMmap`, the mapped memory of the guest. The regions of
/// a value never change; what the bytes in them are is up to the guest.
#[verifier::external_type_specification]
#[verifier::external_body]
pub struct ExGuestMemoryMmap(vm_memory::GuestMemoryMmap);

/// `vm_memory::GuestMemoryError`, the error of an access to guest memory.
/// Nothing is known of its values.
#[verifier::external_type_specification]
#[verifier::external_body]
pub struct ExGuestMemoryError(vm_memory::GuestMemoryError);

/// The guest physical addresses that the regions of `mem` back.
pub uninterp spec fn backed_addresses(mem: GuestMemoryMmap) -> Set<u64>;

/// Whether all of the `count` addresses from `addr` on are among `backed`.
pub open spec fn backs(backed: Set<u64>, addr: u64, count: nat) -> bool {
    &&& addr + count <= u64::MAX + 1
    &&& forall|a: u64| addr <= a < addr + count ==> #[trigger] backed.contains(a)
}

/// A part of a range that is backed is backed.
pub proof fn lemma_part_is_backed(
    backed: Set<u64>,
    addr: u64,
    count: nat,
    part_addr: u64,
    part_count: nat,
)
    requires
        backs(backed, addr, count),
        addr <= part_addr,
        part_addr + part_count <= addr + count,
    ensures
        backs(backed, part_addr, part_count),
{
}

/// Two ranges, one behind the other, are backed if and only if the range that
/// they make up is.
pub proof fn lemma_joined_ranges_are_backed(
    backed: Set<u64>,
    addr: u64,
    count1: nat,
    count2: nat,
)
    requires
        addr + count1 <= u64::MAX,
    ensures
        backs(backed, addr, count1 + count2) <==> backs(backed, addr, count1) && backs(
            backed,
            (addr + count1) as u64,
            count2,
        ),
{
    let next = (addr + count1) as u64;
    if backs(backed, addr, count1) && backs(backed, next, count2) {
        assert forall|a: u64| addr <= a < addr + count1 + count2 implies #[trigger] backed.contains(
            a,
        ) by {}
    }
}

/// Calls `Bytes::read_slice` of `vm_memory` on guest memory. Trusted: the call
/// fills the whole buffer if the regions back every address of the range, and
/// fails if they do not back one of them. What the bytes are is left open: the
/// guest may write to its memory at any time.
#[verifier::external_body]
fn read_slice(mem: &GuestMemoryMmap, addr: u64, count: usize) -> (res: Result<
    Vec<u8>,
    GuestMemoryError,
>)
    requires
        count > 0,
    ensures
        res is Ok <==> backs(backed_addresses(*mem), addr, count as nat),
        res matches Ok(bytes) ==> bytes@.len() == count,
{
    let mut buf = vec![0u8; count];
    mem.read_slice(&mut buf, GuestAddress(addr))?;
    Ok(buf)
}

/// Calls `Bytes::write_slice` of `vm_memory` on guest memory. Trusted: the call
/// succeeds if the regions back every address of the range, and fails if they
/// do not back one of them. What a later read finds there is left open: the
/// guest may write to its memory at any time.
#[verifier::external_body]
fn write_slice(mem: &GuestMemoryMmap, addr: u64, bytes: &[u8]) -> (res: Result<
    (),
    GuestMemoryError,
>)
    requires
        bytes@.len() > 0,
    ensures
        res is Ok <==> backs(backed_addresses(*mem), addr, bytes@.len()),
{
    mem.write_slice(bytes, GuestAddress(addr))
}

/// Whether `res` came of a read of `count` bytes at `addr` from `mem`.
pub closed spec fn read_replies(
    mem: GuestMemoryMmap,
    addr: u64,
    count: usize,
    res: Result<Vec<u8>, GuestMemoryError>,
) -> bool {
    call_ensures(read_slice, (&mem, addr, count), res)
}

/// Whether `res` came of a write of `bytes` at `addr` to `mem`.
pub closed spec fn write_replies(
    mem: GuestMemoryMmap,
    addr: u64,
    bytes: &[u8],
    res: Result<(), GuestMemoryError>,
) -> bool {
    call_ensures(write_slice, (&mem, addr, bytes), res)
}

/// What is known of a read: the contract of the call that it came of.
pub proof fn lemma_read_replies(
    mem: GuestMemoryMmap,
    addr: u64,
    count: usize,
    res: Result<Vec<u8>, GuestMemoryError>,
)
    requires
        read_replies(mem, addr, count, res),
    ensures
        res is Ok <==> backs(backed_addresses(mem), addr, count as nat),
        res matches Ok(bytes) ==> bytes@.len() == count,
{
    lemma_read_was_called(mem, addr, count, res);
}

/// What is known of a write: the contract of the call that it came of.
pub proof fn lemma_write_replies(
    mem: GuestMemoryMmap,
    addr: u64,
    bytes: &[u8],
    res: Result<(), GuestMemoryError>,
)
    requires
        write_replies(mem, addr, bytes, res),
    ensures
        res is Ok <==> backs(backed_addresses(mem), addr, bytes@.len()),
{
    lemma_write_was_called(mem, addr, bytes, res);
}

/// A read came of a call with its address and its number of bytes.
proof fn lemma_read_was_called(
    mem: GuestMemoryMmap,
    addr: u64,
    count: usize,
    res: Result<Vec<u8>, GuestMemoryError>,
)
    requires
        read_replies(mem, addr, count, res),
    ensures
        call_ensures(read_slice, (&mem, addr, count), res),
{
}

/// A write came of a call with its address and its bytes.
proof fn lemma_write_was_called(
    mem: GuestMemoryMmap,
    addr: u64,
    bytes: &[u8],
    res: Result<(), GuestMemoryError>,
)
    requires
        write_replies(mem, addr, bytes, res),
    ensures
        call_ensures(write_slice, (&mem, addr, bytes), res),
{
}

/// A read from guest memory, and the bytes that were found there.
pub struct GuestRead {
    pub addr: u64,
    pub bytes: Seq<u8>,
}

impl GuestRead {
    /// Whether the bytes came of a read from `mem`.
    pub open spec fn made(self, mem: GuestMemoryMmap) -> bool {
        exists|v: Vec<u8>|
            v@ == self.bytes && #[trigger] read_replies(
                mem,
                self.addr,
                self.bytes.len() as usize,
                Ok(v),
            )
    }
}

/// An attempt to write to guest memory.
pub struct GuestWrite {
    pub addr: u64,
    pub bytes: Seq<u8>,
}

impl GuestWrite {
    /// Whether `res` came of the attempt to write to `mem`.
    pub open spec fn made(self, mem: GuestMemoryMmap, res: Result<(), GuestMemoryError>) -> bool {
        exists|b: &[u8]|
            b@ == self.bytes && #[trigger] write_replies(mem, self.addr, b, res)
    }
}

/// An access to guest memory: a read that succeeded, or an attempt to write.
pub enum Access {
    Read(GuestRead),
    Write(GuestWrite),
}

/// Reads from guest memory, as accesses.
pub open spec fn read_accesses(reads: Seq<GuestRead>) -> Seq<Access> {
    reads.map_values(|read: GuestRead| Access::Read(read))
}

/// The memory of the guest, together with the history of the accesses that were
/// made through this value.
pub struct GuestMemory<'a> {
    mem: &'a GuestMemoryMmap,
    accesses: Ghost<Seq<Access>>,
}

impl<'a> GuestMemory<'a> {
    /// The memory that is accessed.
    pub closed spec fn mem(&self) -> GuestMemoryMmap {
        *self.mem
    }

    /// The accesses that were made so far, the first one first.
    pub closed spec fn accesses(&self) -> Seq<Access> {
        self.accesses@
    }

    /// Accesses the memory `mem`.
    pub fn new(mem: &'a GuestMemoryMmap) -> (memory: GuestMemory<'a>)
        ensures
            memory.mem() == *mem,
            memory.accesses() == Seq::<Access>::empty(),
    {
        GuestMemory { mem, accesses: Ghost(Seq::empty()) }
    }

    /// Reads `count` bytes at `addr`.
    pub fn read(&mut self, addr: u64, count: usize) -> (res: Result<Vec<u8>, GuestMemoryError>)
        requires
            count > 0,
        ensures
            read_replies(old(self).mem(), addr, count, res),
            res is Ok <==> backs(backed_addresses(old(self).mem()), addr, count as nat),
            final(self).mem() == old(self).mem(),
            match res {
                Ok(bytes) => {
                    let read = GuestRead { addr, bytes: bytes@ };
                    &&& bytes@.len() == count
                    &&& read.made(old(self).mem())
                    &&& final(self).accesses() == old(self).accesses().push(Access::Read(read))
                },
                Err(_) => final(self).accesses() == old(self).accesses(),
            },
    {
        let res = read_slice(self.mem, addr, count);
        match &res {
            Ok(bytes) => {
                let ghost read = GuestRead { addr, bytes: bytes@ };
                assert(read_replies(self.mem(), read.addr, read.bytes.len() as usize, Ok(*bytes)));
                self.accesses = Ghost(self.accesses@.push(Access::Read(read)));
            },
            Err(_) => {},
        }
        res
    }

    /// Writes `bytes` at `addr`.
    pub fn write(&mut self, addr: u64, bytes: &[u8]) -> (res: Result<(), GuestMemoryError>)
        requires
            bytes@.len() > 0,
        ensures
            write_replies(old(self).mem(), addr, bytes, res),
            (GuestWrite { addr, bytes: bytes@ }).made(old(self).mem(), res),
            res is Ok <==> backs(backed_addresses(old(self).mem()), addr, bytes@.len()),
            final(self).mem() == old(self).mem(),
            final(self).accesses() == old(self).accesses().push(
                Access::Write(GuestWrite { addr, bytes: bytes@ }),
            ),
    {
        let res = write_slice(self.mem, addr, bytes);
        let ghost write = GuestWrite { addr, bytes: bytes@ };
        assert(bytes@ == write.bytes && write_replies(self.mem(), write.addr, bytes, res));
        assert(write.made(self.mem(), res));
        self.accesses = Ghost(self.accesses@.push(Access::Write(write)));
        res
    }
}

} // verus!
