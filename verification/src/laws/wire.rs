//! What holds of the wire format.
use vstd::prelude::*;

use crate::byte_order::ByteOrder;
use crate::error::Error;
use crate::protocol::{
    VirtioIommuConfig, VirtioIommuReqHead, VirtioIommuReqTail, CONFIG_SIZE,
};
use crate::request::{Command, RequestType};

verus! {

/// A 32-bit number is made up of its bytes.
proof fn lemma_bytes_make_up(x: u32)
    ensures
        x == (x % 0x100) as u8 + 0x100 * ((x / 0x100 % 0x100) as u8) + 0x1_0000 * ((x / 0x1_0000
            % 0x100) as u8) + 0x100_0000 * ((x / 0x100_0000) as u8),
{
    assert(x == x % 0x100 + 0x100 * (x / 0x100 % 0x100) + 0x1_0000 * (x / 0x1_0000 % 0x100)
        + 0x100_0000 * (x / 0x100_0000)) by (bit_vector);
}

/// The bytes of a 32-bit number can be told from it.
proof fn lemma_bytes_come_back(b0: u8, b1: u8, b2: u8, b3: u8)
    ensures
        ({
            let x = (b0 + 0x100 * b1 + 0x1_0000 * b2 + 0x100_0000 * b3) as u32;
            &&& (x % 0x100) as u8 == b0
            &&& (x / 0x100 % 0x100) as u8 == b1
            &&& (x / 0x1_0000 % 0x100) as u8 == b2
            &&& (x / 0x100_0000) as u8 == b3
        }),
{
    let x = (b0 + 0x100 * b1 + 0x1_0000 * b2 + 0x100_0000 * b3) as u32;
    assert(x % 0x100 == b0 && x / 0x100 % 0x100 == b1 && x / 0x1_0000 % 0x100 == b2 && x
        / 0x100_0000 == b3) by (bit_vector)
        requires
            x == (b0 + 0x100 * b1 + 0x1_0000 * b2 + 0x100_0000 * b3) as u32,
    ;
}

/// The bytes of a 32-bit number, wherever they stand, decode to it.
pub proof fn law_u32_round_trip(order: ByteOrder, x: u32, before: Seq<u8>, after: Seq<u8>)
    ensures
        order.u32_bytes(x).len() == 4,
        order.u32_at(before + order.u32_bytes(x) + after, before.len() as int) == x,
{
    let bytes = order.u32_bytes(x);
    let b = before + bytes + after;
    let n = before.len() as int;
    lemma_bytes_make_up(x);
    assert(b[n] == bytes[0]);
    assert(b[n + 1] == bytes[1]);
    assert(b[n + 2] == bytes[2]);
    assert(b[n + 3] == bytes[3]);
}

/// The bytes of a 64-bit number, wherever they stand, decode to it.
pub proof fn law_u64_round_trip(order: ByteOrder, x: u64, before: Seq<u8>, after: Seq<u8>)
    ensures
        order.u64_bytes(x).len() == 8,
        order.u64_at(
            before + order.u64_bytes(x) + after,
            before.len() as int,
        ) == x,
{
    let low = (x % 0x1_0000_0000) as u32;
    let high = (x / 0x1_0000_0000) as u32;
    let low_bytes = order.u32_bytes(low);
    let high_bytes = order.u32_bytes(high);
    let b = before + order.u64_bytes(x) + after;
    match order {
        ByteOrder::Little => {
            law_u32_round_trip(order, low, before, high_bytes + after);
            law_u32_round_trip(order, high, before + low_bytes, after);
            assert(b =~= before + low_bytes + (high_bytes + after));
            assert(b =~= before + low_bytes + high_bytes + after);
        },
        ByteOrder::Big => {
            law_u32_round_trip(order, high, before, low_bytes + after);
            law_u32_round_trip(order, low, before + high_bytes, after);
            assert(b =~= before + high_bytes + (low_bytes + after));
            assert(b =~= before + high_bytes + low_bytes + after);
        },
    }
}

/// Four bytes are the bytes of the number that they decode to.
pub proof fn law_u32_bytes_round_trip(order: ByteOrder, b: Seq<u8>)
    requires
        b.len() == 4,
    ensures
        order.u32_bytes(order.u32_at(b, 0)) == b,
{
    match order {
        ByteOrder::Little => lemma_bytes_come_back(b[0], b[1], b[2], b[3]),
        ByteOrder::Big => lemma_bytes_come_back(b[3], b[2], b[1], b[0]),
    }
    assert(order.u32_bytes(order.u32_at(b, 0)) =~= b);
}

/// The configuration space is made up of its fields, each at its offset.
pub proof fn law_config_layout(order: ByteOrder, config: VirtioIommuConfig)
    ensures
        config.bytes(order).len() == CONFIG_SIZE,
        order.u64_at(config.bytes(order), 0) == config.page_size_mask,
        order.u64_at(config.bytes(order), 8) == config.input_range.start,
        order.u64_at(config.bytes(order), 16) == config.input_range.end,
        config.bytes(order)[24] == config.domain_bits,
        config.bytes(order).subrange(25, 28) == config.padding@,
        order.u32_at(config.bytes(order), 28) == config.probe_size,
{
    let mask = order.u64_bytes(config.page_size_mask);
    let start = order.u64_bytes(config.input_range.start);
    let end = order.u64_bytes(config.input_range.end);
    let rest = seq![config.domain_bits] + config.padding@;
    let probe = order.u32_bytes(config.probe_size);
    let none = Seq::<u8>::empty();
    let b = config.bytes(order);
    law_u64_round_trip(order, config.page_size_mask, none, start + end + rest + probe);
    law_u64_round_trip(order, config.input_range.start, mask, end + rest + probe);
    law_u64_round_trip(order, config.input_range.end, mask + start, rest + probe);
    law_u32_round_trip(order, config.probe_size, mask + start + end + rest, none);
    assert(b =~= none + mask + (start + end + rest + probe));
    assert(b =~= mask + start + (end + rest + probe));
    assert(b =~= mask + start + end + (rest + probe));
    assert(b =~= mask + start + end + rest + probe + none);
    assert(b.subrange(25, 28) =~= config.padding@);
}

/// The body of a request stands for one command only.
pub proof fn law_decoding_is_unambiguous(
    order: ByteOrder,
    body: Seq<u8>,
    command1: Command,
    command2: Command,
)
    requires
        command1.request_type() == command2.request_type(),
        command1.encoded_by(order, body),
        command2.encoded_by(order, body),
    ensures
        command1 == command2,
{
    match (command1, command2) {
        (Command::Attach(req1), Command::Attach(req2)) => {
            assert forall|i: int| 0 <= i < 8 implies req1.reserved[i] == req2.reserved[i] by {
                assert(req1.reserved@[i] == req2.reserved@[i]);
            }
            assert(req1.reserved =~= req2.reserved);
        },
        (Command::Detach(req1), Command::Detach(req2)) => {
            assert forall|i: int| 0 <= i < 8 implies req1.reserved[i] == req2.reserved[i] by {
                assert(req1.reserved@[i] == req2.reserved@[i]);
            }
            assert(req1.reserved =~= req2.reserved);
        },
        (Command::Unmap(req1), Command::Unmap(req2)) => {
            assert forall|i: int| 0 <= i < 4 implies req1.reserved[i] == req2.reserved[i] by {
                assert(req1.reserved@[i] == req2.reserved@[i]);
            }
            assert(req1.reserved =~= req2.reserved);
        },
        (Command::Probe(req1), Command::Probe(req2)) => {
            assert forall|i: int| 0 <= i < 8 implies req1.reserved[i] == req2.reserved[i] by {
                assert(req1.reserved@[i] == req2.reserved@[i]);
            }
            assert(req1.reserved =~= req2.reserved);
        },
        _ => {},
    }
}

/// What four bytes stand for: each weighs 256 times as much as its neighbour on
/// the less significant side, which is the left one in little-endian order and
/// the right one in big-endian order.
pub proof fn law_weight_of_bytes_u32(b: Seq<u8>, at: int)
    ensures
        ByteOrder::Little.u32_at(b, at) == b[at] + 256 * (b[at + 1] + 256 * (b[at + 2] + 256 * b[at
            + 3])),
        ByteOrder::Big.u32_at(b, at) == b[at + 3] + 256 * (b[at + 2] + 256 * (b[at + 1] + 256
            * b[at])),
{
}

/// What eight bytes stand for: two 32-bit numbers, of which the more significant
/// one comes last in little-endian order and first in big-endian order.
pub proof fn law_weight_of_bytes_u64(b: Seq<u8>, at: int)
    ensures
        ByteOrder::Little.u64_at(b, at) == ByteOrder::Little.u32_at(b, at) + 0x1_0000_0000
            * ByteOrder::Little.u32_at(b, at + 4),
        ByteOrder::Big.u64_at(b, at) == ByteOrder::Big.u32_at(b, at + 4) + 0x1_0000_0000
            * ByteOrder::Big.u32_at(b, at),
{
}

/// The two byte orders mirror each other.
pub proof fn law_byte_orders_mirror(x: u32, y: u64)
    ensures
        ByteOrder::Big.u32_bytes(x) == ByteOrder::Little.u32_bytes(x).reverse(),
        ByteOrder::Big.u64_bytes(y) == ByteOrder::Little.u64_bytes(y).reverse(),
{
    assert(ByteOrder::Big.u32_bytes(x) =~= ByteOrder::Little.u32_bytes(x).reverse());
    assert(ByteOrder::Big.u64_bytes(y) =~= ByteOrder::Little.u64_bytes(y).reverse());
}

/// The numbers of the request types, and the sizes of their bodies.
pub proof fn law_request_types(type_: u8)
    ensures
        RequestType::from_wire(type_) == if type_ == 1 {
            Some(RequestType::Attach)
        } else if type_ == 2 {
            Some(RequestType::Detach)
        } else if type_ == 3 {
            Some(RequestType::MapRange)
        } else if type_ == 4 {
            Some(RequestType::Unmap)
        } else if type_ == 5 {
            Some(RequestType::Probe)
        } else {
            None
        },
        RequestType::Attach.size() == 16,
        RequestType::Detach.size() == 16,
        RequestType::MapRange.size() == 32,
        RequestType::Unmap.size() == 24,
        RequestType::Probe.size() == 68,
        RequestType::Attach.invalid() is InvalidAttachRequest,
        RequestType::Detach.invalid() is InvalidDetachRequest,
        RequestType::MapRange.invalid() is InvalidMapRequest,
        RequestType::Unmap.invalid() is InvalidUnmapRequest,
        RequestType::Probe.invalid() is InvalidProbeRequest,
{
}

/// The fields of a request stand at their offsets in its body, and make up all
/// of it.
pub proof fn law_request_layout(order: ByteOrder, body: Seq<u8>, command: Command)
    requires
        command.encoded_by(order, body),
    ensures
        match command {
            Command::Attach(req) => {
                &&& command.request_type() is Attach
                &&& body.len() == 16
                &&& req.domain == order.u32_at(body, 0)
                &&& req.endpoint == order.u32_at(body, 4)
                &&& req.reserved@ == body.skip(8)
            },
            Command::Detach(req) => {
                &&& command.request_type() is Detach
                &&& body.len() == 16
                &&& req.domain == order.u32_at(body, 0)
                &&& req.endpoint == order.u32_at(body, 4)
                &&& req.reserved@ == body.skip(8)
            },
            Command::MapRange(req) => {
                &&& command.request_type() is MapRange
                &&& body.len() == 32
                &&& req.domain == order.u32_at(body, 0)
                &&& req.virt_start == order.u64_at(body, 4)
                &&& req.virt_end == order.u64_at(body, 12)
                &&& req.phys_start == order.u64_at(body, 20)
                &&& req.flags == order.u32_at(body, 28)
            },
            Command::Unmap(req) => {
                &&& command.request_type() is Unmap
                &&& body.len() == 24
                &&& req.domain == order.u32_at(body, 0)
                &&& req.virt_start == order.u64_at(body, 4)
                &&& req.virt_end == order.u64_at(body, 12)
                &&& req.reserved@ == body.skip(20)
            },
            Command::Probe(req) => {
                &&& command.request_type() is Probe
                &&& body.len() == 68
                &&& req.endpoint == order.u32_at(body, 0)
                &&& forall|i: int|
                    0 <= i < 8 ==> #[trigger] req.reserved@[i] == order.u64_at(body, 4 + 8 * i)
            },
        },
{
    match command {
        Command::Attach(req) => assert(req.reserved@ =~= body.skip(8)),
        Command::Detach(req) => assert(req.reserved@ =~= body.skip(8)),
        Command::Unmap(req) => assert(req.reserved@ =~= body.skip(20)),
        _ => {},
    }
}

/// The head of a request starts with its type, and its tail with its status.
pub proof fn law_head_and_tail(head: VirtioIommuReqHead, b: Seq<u8>, tail: VirtioIommuReqTail)
    ensures
        head.encoded_by(b) ==> b.len() == 4 && b == seq![head.type_] + head.reserved@,
        tail.bytes().len() == 4,
        tail.bytes()[0] == tail.status,
        tail.bytes().skip(1) == tail.reserved@,
{
    if head.encoded_by(b) {
        assert(b =~= seq![head.type_] + head.reserved@);
    }
    assert(tail.bytes().skip(1) =~= tail.reserved@);
}

/// What describes an error: a fixed text, or the fixed start of a text that goes
/// on with the cause.
pub proof fn law_error_texts(error: Error, text: Seq<char>)
    requires
        error.described_by(text),
    ensures
        match error {
            Error::BufferLengthTooSmall => text == "buffer length too small"@,
            Error::DescriptorChainTooShort => text == "descriptor chain too short"@,
            Error::InvalidRequest => text == "invalid request"@,
            Error::InvalidAttachRequest => text == "invalid attach request"@,
            Error::InvalidDetachRequest => text == "invalid detach request"@,
            Error::InvalidMapRequest => text == "invalid map request"@,
            Error::InvalidUnmapRequest => text == "invalid unmap request"@,
            Error::InvalidProbeRequest => text == "invalid probe request"@,
            Error::UnexpectedReadOnlyDescriptor => text == "unexpected read-only descriptor"@,
            Error::UnexpectedWriteOnlyDescriptor => text == "unexpected write-only descriptor"@,
            Error::GuestMemory(e) => exists|shown: String|
                #![trigger vstd::string::to_string_from_display_ensures(&e, shown)]
                vstd::string::to_string_from_display_ensures(&e, shown) && text
                    == "bad guest memory address: "@ + shown@,
            Error::ExternalMapping(e) => exists|shown: String|
                #![trigger vstd::string::to_string_from_display_ensures(&e, shown)]
                vstd::string::to_string_from_display_ensures(&e, shown) && text
                    == "failed performing external mapping: "@ + shown@,
            Error::ExternalUnmapping(e) => exists|shown: String|
                #![trigger vstd::string::to_string_from_display_ensures(&e, shown)]
                vstd::string::to_string_from_display_ensures(&e, shown) && text
                    == "failed performing external unmapping: "@ + shown@,
        },
{
}

/// The configuration space is 32 bytes long, and that of a new device holds the
/// page sizes in its first eight bytes and zeros behind them.
pub proof fn law_config_of_a_new_device(order: ByteOrder)
    ensures
        ({
            let bytes = crate::device::default_config().bytes(order);
            &&& bytes.len() == 32
            &&& order.u64_at(bytes, 0) == 0x20_1000
            &&& forall|i: int| 8 <= i < 32 ==> #[trigger] bytes[i] == 0
        }),
{
    let config = crate::device::default_config();
    lemma_zeros(order);
    law_config_layout(order, config);
    assert(config.padding@ =~= seq![0u8, 0u8, 0u8]);
    let mask = order.u64_bytes(config.page_size_mask);
    law_u64_round_trip(order, config.page_size_mask, Seq::empty(), Seq::empty());
    assert(config.bytes(order) =~= mask + seq![0u8; 24]);
}

/// The bytes of zero are zeros.
proof fn lemma_zeros(order: ByteOrder)
    ensures
        order.u32_bytes(0) == seq![0u8; 4],
        order.u64_bytes(0) == seq![0u8; 8],
{
    assert(order.u32_bytes(0) =~= seq![0u8; 4]);
    assert(order.u64_bytes(0) =~= seq![0u8; 8]);
}

} // verus!
