use virtio_iommu::byte_order::ByteOrder;
use virtio_iommu::protocol::{
    VirtioIommuConfig, VirtioIommuRange, VirtioIommuReqAttach,
    VirtioIommuReqDetach, VirtioIommuReqHead, VirtioIommuReqMap, VirtioIommuReqProbe,
    VirtioIommuReqTail, VirtioIommuReqUnmap, CONFIG_SIZE, REQ_ATTACH_SIZE, REQ_DETACH_SIZE,
    REQ_HEAD_SIZE, REQ_MAP_SIZE, REQ_PROBE_SIZE, REQ_TAIL_SIZE, REQ_UNMAP_SIZE,
    VIRTIO_IOMMU_PAGE_SIZE_MASK,
};
use virtio_iommu::request::{Command, RequestType};

fn counting(len: usize) -> Vec<u8> {
    (0..len).map(|i| i as u8).collect()
}

const LITTLE: ByteOrder = ByteOrder::Little;
const BIG: ByteOrder = ByteOrder::Big;

#[test]
fn byte_order_of_the_machine_is_found_out() {
    let expected = if 1u16.to_ne_bytes() == [1, 0] { LITTLE } else { BIG };
    assert_eq!(ByteOrder::native(), expected);
}

#[test]
fn numbers_are_read_in_both_orders() {
    let bytes = counting(12);
    assert_eq!(LITTLE.get_u32(&bytes, 0), 0x0302_0100);
    assert_eq!(LITTLE.get_u32(&bytes, 8), 0x0b0a_0908);
    assert_eq!(LITTLE.get_u64(&bytes, 0), 0x0706_0504_0302_0100);
    assert_eq!(LITTLE.get_u64(&bytes, 4), 0x0b0a_0908_0706_0504);
    assert_eq!(BIG.get_u32(&bytes, 0), 0x0001_0203);
    assert_eq!(BIG.get_u32(&bytes, 8), 0x0809_0a0b);
    assert_eq!(BIG.get_u64(&bytes, 0), 0x0001_0203_0405_0607);
    assert_eq!(BIG.get_u64(&bytes, 4), 0x0405_0607_0809_0a0b);
}

#[test]
fn numbers_survive_a_round_trip() {
    for x in [0u64, 1, 0xff, 0x1234_5678, 0x8000_0000, 0xdead_beef_0bad_cafe, u64::MAX] {
        for (order, long, short) in [
            (LITTLE, x.to_le_bytes(), (x as u32).to_le_bytes()),
            (BIG, x.to_be_bytes(), (x as u32).to_be_bytes()),
            (ByteOrder::native(), x.to_ne_bytes(), (x as u32).to_ne_bytes()),
        ] {
            let mut bytes = vec![0xaa];
            order.put_u64(&mut bytes, x);
            assert_eq!(bytes[1..], long);
            assert_eq!(order.get_u64(&bytes, 1), x);
            let mut bytes = vec![0xaa];
            order.put_u32(&mut bytes, x as u32);
            assert_eq!(bytes[1..], short);
            assert_eq!(order.get_u32(&bytes, 1), x as u32);
        }
    }
}

#[test]
fn page_sizes_are_2_mib_and_4_kib() {
    assert_eq!(VIRTIO_IOMMU_PAGE_SIZE_MASK, (2 << 20) | (4 << 10));
}

#[test]
fn structures_have_their_packed_sizes() {
    assert_eq!(REQ_HEAD_SIZE, 4);
    assert_eq!(REQ_TAIL_SIZE, 4);
    assert_eq!(REQ_ATTACH_SIZE, 16);
    assert_eq!(REQ_DETACH_SIZE, 16);
    assert_eq!(REQ_MAP_SIZE, 32);
    assert_eq!(REQ_UNMAP_SIZE, 24);
    assert_eq!(REQ_PROBE_SIZE, 68);
    assert_eq!(CONFIG_SIZE, 32);
}

#[test]
fn head_is_decoded() {
    let head = VirtioIommuReqHead::decode(&[3, 1, 2, 4]);
    assert_eq!(head, VirtioIommuReqHead { type_: 3, reserved: [1, 2, 4] });
}

#[test]
fn tail_is_encoded() {
    let tail = VirtioIommuReqTail { status: 5, reserved: [1, 2, 3] };
    assert_eq!(tail.encode(), vec![5, 1, 2, 3]);
}

#[test]
fn attach_and_detach_are_decoded() {
    let bytes = counting(16);
    let reserved = [8, 9, 10, 11, 12, 13, 14, 15];
    assert_eq!(
        VirtioIommuReqAttach::decode(LITTLE, &bytes),
        VirtioIommuReqAttach { domain: 0x0302_0100, endpoint: 0x0706_0504, reserved }
    );
    assert_eq!(
        VirtioIommuReqDetach::decode(LITTLE, &bytes),
        VirtioIommuReqDetach { domain: 0x0302_0100, endpoint: 0x0706_0504, reserved }
    );
}

#[test]
fn map_is_decoded() {
    assert_eq!(
        VirtioIommuReqMap::decode(LITTLE, &counting(32)),
        VirtioIommuReqMap {
            domain: 0x0302_0100,
            virt_start: 0x0b0a_0908_0706_0504,
            virt_end: 0x1312_1110_0f0e_0d0c,
            phys_start: 0x1b1a_1918_1716_1514,
            flags: 0x1f1e_1d1c,
        }
    );
}

#[test]
fn unmap_is_decoded() {
    assert_eq!(
        VirtioIommuReqUnmap::decode(LITTLE, &counting(24)),
        VirtioIommuReqUnmap {
            domain: 0x0302_0100,
            virt_start: 0x0b0a_0908_0706_0504,
            virt_end: 0x1312_1110_0f0e_0d0c,
            reserved: [20, 21, 22, 23],
        }
    );
}

#[test]
fn probe_is_decoded() {
    let probe = VirtioIommuReqProbe::decode(LITTLE, &counting(68));
    assert_eq!(probe.endpoint, 0x0302_0100);
    assert_eq!(probe.reserved[0], 0x0b0a_0908_0706_0504);
    assert_eq!(probe.reserved[7], 0x4342_4140_3f3e_3d3c);
}

#[test]
fn body_is_decoded_according_to_its_type() {
    let bytes = counting(16);
    match Command::decode(LITTLE, RequestType::Attach, &bytes) {
        Command::Attach(req) => assert_eq!(req, VirtioIommuReqAttach::decode(LITTLE, &bytes)),
        other => panic!("unexpected {:?}", other),
    }
    match Command::decode(LITTLE, RequestType::Detach, &bytes) {
        Command::Detach(req) => assert_eq!(req, VirtioIommuReqDetach::decode(LITTLE, &bytes)),
        other => panic!("unexpected {:?}", other),
    }
}

#[test]
fn configuration_space_is_laid_out_by_its_fields() {
    let config = VirtioIommuConfig {
        page_size_mask: 0x0706_0504_0302_0100,
        input_range: VirtioIommuRange { start: 0x0f0e_0d0c_0b0a_0908, end: 0x1716_1514_1312_1110 },
        domain_bits: 24,
        padding: [25, 26, 27],
        probe_size: 0x1f1e_1d1c,
    };
    assert_eq!(config.encode(LITTLE), counting(32));
    let big = config.encode(BIG);
    assert_eq!(big[..8], [7, 6, 5, 4, 3, 2, 1, 0]);
    assert_eq!(big[24..], [24, 25, 26, 27, 31, 30, 29, 28]);
}

#[test]
fn request_types_have_their_numbers() {
    assert_eq!(RequestType::decode(0), None);
    assert_eq!(RequestType::decode(1), Some(RequestType::Attach));
    assert_eq!(RequestType::decode(2), Some(RequestType::Detach));
    assert_eq!(RequestType::decode(3), Some(RequestType::MapRange));
    assert_eq!(RequestType::decode(4), Some(RequestType::Unmap));
    assert_eq!(RequestType::decode(5), Some(RequestType::Probe));
    assert_eq!(RequestType::decode(6), None);
    assert_eq!(RequestType::decode(255), None);
}

#[test]
fn requests_are_decoded_in_both_orders() {
    let bytes = counting(32);
    let req = VirtioIommuReqMap::decode(BIG, &bytes);
    assert_eq!(req.domain, 0x0001_0203);
    assert_eq!(req.virt_start, 0x0405_0607_0809_0a0b);
    assert_eq!(req.virt_end, 0x0c0d_0e0f_1011_1213);
    assert_eq!(req.phys_start, 0x1415_1617_1819_1a1b);
    assert_eq!(req.flags, 0x1c1d_1e1f);
    let req = VirtioIommuReqAttach::decode(BIG, &bytes[..16]);
    assert_eq!((req.domain, req.endpoint), (0x0001_0203, 0x0405_0607));
}
