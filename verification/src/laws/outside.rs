//! What is known of the calls that leave the library.
use vm_memory::{GuestMemoryError, GuestMemoryMmap};
use vstd::prelude::*;

use crate::external::{DmaCall, DmaHandle};
use crate::memory::{Access, GuestRead, GuestWrite};

verus! {

/// What came of a read of guest memory: all of the bytes if they are in memory,
/// and an error otherwise.
pub proof fn law_what_a_read_gives(
    mem: GuestMemoryMmap,
    addr: u64,
    count: usize,
    res: Result<Vec<u8>, GuestMemoryError>,
)
    requires
        crate::memory::read_replies(mem, addr, count, res),
    ensures
        res is Ok <==> crate::laws::service::in_memory(mem, addr as int, count as int),
        res matches Ok(bytes) ==> bytes@.len() == count,
{
    crate::memory::lemma_read_replies(mem, addr, count, res);
}

/// What came of a write to guest memory: it succeeded if all of the bytes are in
/// memory, and failed otherwise.
pub proof fn law_what_a_write_gives(
    mem: GuestMemoryMmap,
    addr: u64,
    bytes: &[u8],
    res: Result<(), GuestMemoryError>,
)
    requires
        crate::memory::write_replies(mem, addr, bytes, res),
    ensures
        res is Ok <==> crate::laws::service::in_memory(mem, addr as int, bytes@.len() as int),
{
    crate::memory::lemma_write_replies(mem, addr, bytes, res);
}

/// A recorded access was made: a read gave its bytes, and a write was handed
/// them.
pub proof fn law_recorded_accesses_were_made(
    mem: GuestMemoryMmap,
    read: GuestRead,
    write: GuestWrite,
    res: Result<(), GuestMemoryError>,
)
    ensures
        read.made(mem) ==> exists|v: Vec<u8>|
            v@ == read.bytes && #[trigger] crate::memory::read_replies(
                mem,
                read.addr,
                read.bytes.len() as usize,
                Ok(v),
            ),
        write.made(mem, res) ==> exists|b: &[u8]|
            b@ == write.bytes && #[trigger] crate::memory::write_replies(mem, write.addr, b, res),
{
}

/// Reads are recorded as they are, in their order.
pub proof fn law_reads_are_recorded(reads: Seq<GuestRead>)
    ensures
        crate::memory::read_accesses(reads).len() == reads.len(),
        forall|i: int|
            0 <= i < reads.len() ==> #[trigger] crate::memory::read_accesses(reads)[i]
                == Access::Read(reads[i]),
{
}

/// The answer to a call of an external mapping is one that this mapping gave to
/// these arguments.
pub proof fn law_answers_of_external_mappings(
    handle: DmaHandle,
    iova: u64,
    gpa: u64,
    size: u64,
    reply: Result<(), std::io::Error>,
)
    ensures
        (DmaCall::MapRange { handle, iova, gpa, size }).replies(reply) <==> handle.inner.map_replies(
            iova,
            gpa,
            size,
            reply,
        ),
        (DmaCall::UnmapRange { handle, iova, size }).replies(reply) <==> handle.inner.unmap_replies(
            iova,
            size,
            reply,
        ),
{
}

/// Memory is there if and only if each of its addresses is backed.
pub proof fn law_memory_is_there(mem: GuestMemoryMmap, addr: u64, count: nat)
    ensures
        crate::memory::backs(crate::memory::backed_addresses(mem), addr, count)
            <==> crate::laws::service::in_memory(mem, addr as int, count as int),
{
}

} // verus!
