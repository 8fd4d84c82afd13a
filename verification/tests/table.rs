use vhost::codec::{read_u32_le, read_u64_le, write_u32_le, write_u64_le};
use vhost::table::{
    Error, VhostMemory, __IncompleteArrayField, vhost_memory_region, HEADER_SIZE, MAX_REGIONS,
    REGION_SIZE,
};

fn sample_region() -> vhost_memory_region {
    vhost_memory_region {
        guest_phys_addr: 0x1000u64,
        memory_size: 0x2000u64,
        userspace_addr: 0x300000u64,
        flags_padding: 0u64,
    }
}

#[test]
fn test_vhostmemory_custom() {
    let mut obj = VhostMemory::new(2);

    let region = vhost_memory_region {
        guest_phys_addr: 0x1000u64,
        memory_size: 0x2000u64,
        userspace_addr: 0x300000u64,
        flags_padding: 0u64,
    };

    assert!(obj.get_region(2).is_none());

    {
        let header = obj.get_header().unwrap();
        assert_eq!(header.nregions, 2u32);
    }
    {
        assert!(obj.set_region(0, &region).is_ok());
        assert!(obj.set_region(1, &region).is_ok());
        assert!(obj.set_region(2, &region).is_err());
    }

    let region1 = obj.get_region(1).unwrap();
    assert_eq!(region1.guest_phys_addr, 0x1000u64);
    assert_eq!(region1.memory_size, 0x2000u64);
    assert_eq!(region1.userspace_addr, 0x300000u64);
}

#[test]
fn header_reports_capacity() {
    for capacity in [1u16, 2, 37, 1024, MAX_REGIONS] {
        let table = VhostMemory::new(capacity);
        let header = table.get_header().unwrap();
        assert_eq!(header.nregions, capacity as u32);
        assert_eq!(header.padding, 0u32);
    }
    let empty = VhostMemory::new(0);
    assert!(empty.get_header().is_none());
}

#[test]
fn out_of_range_access_is_rejected() {
    let mut table = VhostMemory::new(3);
    let region = sample_region();
    assert!(table.get_region(3).is_none());
    assert!(table.get_region(4).is_none());
    assert!(table.get_region(u32::MAX).is_none());
    assert_eq!(
        table.set_region(3, &region),
        Err(Error::InvalidMemoryTableIndex)
    );
    assert_eq!(
        table.set_region(u32::MAX, &region),
        Err(Error::InvalidMemoryTableIndex)
    );
    // A failed write leaves every slot as it was.
    for index in 0..3u32 {
        assert_eq!(table.get_region(index).unwrap(), zeroed());
    }
}

fn zeroed() -> vhost_memory_region {
    vhost_memory_region {
        guest_phys_addr: 0,
        memory_size: 0,
        userspace_addr: 0,
        flags_padding: 0,
    }
}

#[test]
fn slots_start_zeroed() {
    let table = VhostMemory::new(3);
    for index in 0..3u32 {
        assert_eq!(table.get_region(index).unwrap(), zeroed());
    }
}

#[test]
fn write_read_round_trip_is_exact() {
    let mut table = VhostMemory::new(2);
    let region = vhost_memory_region {
        guest_phys_addr: 0x1000,
        memory_size: 0x2000,
        userspace_addr: 0x300000,
        flags_padding: 0,
    };
    assert!(table.set_region(1, &region).is_ok());
    let back = table.get_region(1).unwrap();
    assert_eq!(back.guest_phys_addr, 0x1000);
    assert_eq!(back.memory_size, 0x2000);
    assert_eq!(back.userspace_addr, 0x300000);
    assert_eq!(back.flags_padding, 0);
    // The untouched slot is still zero, and the count did not move.
    assert_eq!(table.get_region(0).unwrap(), zeroed());
    assert_eq!(table.get_header().unwrap().nregions, 2);
}

#[test]
fn writing_twice_is_idempotent() {
    let mut table = VhostMemory::new(2);
    let region = sample_region();
    assert!(table.set_region(0, &region).is_ok());
    let first = table.get_region(0).unwrap();
    assert!(table.set_region(0, &region).is_ok());
    let second = table.get_region(0).unwrap();
    assert_eq!(first, second);
    assert_eq!(second, region);
}

#[test]
fn empty_table_exports_nothing() {
    let mut table = VhostMemory::new(0);
    assert!(table.get_header().is_none());
    assert!(table.get_region(0).is_none());
    assert_eq!(
        table.set_region(0, &sample_region()),
        Err(Error::InvalidMemoryTableIndex)
    );
    assert!(table.as_ptr().is_none());
    assert!(table.raw_header_ptr().is_none());
    assert!(table.raw_header_mut_ptr().is_empty());
}

#[test]
fn export_is_one_contiguous_record() {
    let mut table = VhostMemory::new(2);
    let region = sample_region();
    assert!(table.set_region(1, &region).is_ok());

    let bytes = table.raw_header_ptr().unwrap();
    assert_eq!(bytes.len(), HEADER_SIZE + 2 * REGION_SIZE);
    // Header: the count, little-endian, then zero padding.
    assert_eq!(&bytes[0..4], &2u32.to_le_bytes());
    assert_eq!(&bytes[4..8], &[0u8; 4]);
    // Slot 0 is still all zero.
    assert_eq!(&bytes[HEADER_SIZE..HEADER_SIZE + REGION_SIZE], &[0u8; 32]);
    // Slot 1 holds the written descriptor, field after field, little-endian.
    let base = HEADER_SIZE + REGION_SIZE;
    assert_eq!(&bytes[base..base + 8], &0x1000u64.to_le_bytes());
    assert_eq!(&bytes[base + 8..base + 16], &0x2000u64.to_le_bytes());
    assert_eq!(&bytes[base + 16..base + 24], &0x300000u64.to_le_bytes());
    assert_eq!(&bytes[base + 24..base + 32], &0u64.to_le_bytes());

    let whole = table.as_ptr().unwrap();
    assert_eq!(whole.len(), HEADER_SIZE + 2 * REGION_SIZE);
}

#[test]
fn mutable_export_sees_the_same_record() {
    let mut table = VhostMemory::new(1);
    {
        let bytes = table.raw_header_mut_ptr();
        assert_eq!(bytes.len(), HEADER_SIZE + REGION_SIZE);
        assert_eq!(&bytes[0..4], &1u32.to_le_bytes());
    }
    // Leaving the bytes alone leaves the table usable and unchanged.
    assert_eq!(table.get_header().unwrap().nregions, 1);
    assert_eq!(table.get_region(0).unwrap(), zeroed());
}

#[test]
fn tables_do_not_share_storage() {
    let mut first = VhostMemory::new(2);
    let second = VhostMemory::new(2);
    assert!(first.set_region(0, &sample_region()).is_ok());
    // The write to one table is invisible in the other.
    assert_eq!(second.get_region(0).unwrap(), zeroed());
    assert_eq!(first.get_region(0).unwrap(), sample_region());
}

#[test]
fn largest_capacity_table_works() {
    let mut table = VhostMemory::new(MAX_REGIONS);
    assert_eq!(table.get_header().unwrap().nregions, 65535u32);
    let region = sample_region();
    assert!(table.set_region(65534, &region).is_ok());
    assert_eq!(table.get_region(65534).unwrap(), region);
    assert_eq!(
        table.set_region(65535, &region),
        Err(Error::InvalidMemoryTableIndex)
    );
    let bytes = table.raw_header_ptr().unwrap();
    assert_eq!(bytes.len(), HEADER_SIZE + 65535 * REGION_SIZE);
}

#[test]
fn trailing_array_tag_is_empty() {
    let tag: __IncompleteArrayField<vhost_memory_region> = __IncompleteArrayField::new();
    assert_eq!(std::mem::size_of_val(&tag), 0);
    let header = VhostMemory::new(1).get_header().unwrap();
    let _tag_in_header = header.regions;
}

#[test]
fn codec_round_trips_fields() {
    let mut buf = vec![0xaau8; 20];
    write_u32_le(&mut buf, 2, 0xdead_beef);
    assert_eq!(read_u32_le(&buf, 2), 0xdead_beef);
    assert_eq!(&buf[2..6], &0xdead_beefu32.to_le_bytes());
    // Bytes outside the written window keep their values.
    assert_eq!(buf[0], 0xaa);
    assert_eq!(buf[1], 0xaa);
    assert_eq!(buf[6], 0xaa);

    write_u64_le(&mut buf, 8, 0x0123_4567_89ab_cdef);
    assert_eq!(read_u64_le(&buf, 8), 0x0123_4567_89ab_cdef);
    assert_eq!(&buf[8..16], &0x0123_4567_89ab_cdefu64.to_le_bytes());
    assert_eq!(buf[7], 0xaa);
    assert_eq!(buf[16], 0xaa);
    // The u32 written earlier is untouched.
    assert_eq!(read_u32_le(&buf, 2), 0xdead_beef);
}
