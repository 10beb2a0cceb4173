//! Tests for the validated value types.

use hyperv::types::{
    BandwidthWeight, BlockSize, DiskLocation, DiskSize, MacAddress, MemoryBufferPercent, MemoryMB,
    MemoryWeight, ProcessorCount, ProcessorPercent, ProcessorWeight, SectorSize, VlanId,
};

// ========== MemoryMB Tests ==========

#[test]
fn test_memory_mb_valid_range() {
    assert!(MemoryMB::new(32).is_some());
    assert!(MemoryMB::new(1024).is_some());
    assert!(MemoryMB::new(12 * 1024 * 1024).is_some());
    assert!(MemoryMB::new(31).is_none());
    assert!(MemoryMB::new(12 * 1024 * 1024 + 1).is_none());
}

#[test]
fn test_memory_mb_from_gb() {
    assert_eq!(MemoryMB::from_gb(1).unwrap().as_mb(), 1024);
    assert_eq!(MemoryMB::from_gb(4).unwrap().as_mb(), 4096);
}

#[test]
fn test_memory_mb_as_bytes() {
    let mem = MemoryMB::new(1024).unwrap();
    assert_eq!(mem.as_bytes(), 1024 * 1024 * 1024);
}

#[test]
fn test_memory_mb_as_gb() {
    let mem = MemoryMB::new(2048).unwrap();
    assert_eq!(mem.as_gb(), 2);
}

#[test]
fn test_memory_mb_presets() {
    assert_eq!(MemoryMB::mb_512().as_mb(), 512);
    assert_eq!(MemoryMB::gb_1().as_mb(), 1024);
    assert_eq!(MemoryMB::gb_2().as_mb(), 2048);
    assert_eq!(MemoryMB::gb_4().as_mb(), 4096);
    assert_eq!(MemoryMB::gb_8().as_mb(), 8192);
    assert_eq!(MemoryMB::gb_16().as_mb(), 16384);
    assert_eq!(MemoryMB::gb_32().as_mb(), 32768);
}

#[test]
fn test_memory_mb_default() {
    assert_eq!(MemoryMB::default().as_mb(), 1024);
}

#[test]
fn test_memory_mb_display() {
    assert_eq!(MemoryMB::new(512).unwrap().display_string(), "512 MB");
    assert_eq!(MemoryMB::new(1024).unwrap().display_string(), "1 GB");
    assert_eq!(MemoryMB::new(2048).unwrap().display_string(), "2 GB");
    assert_eq!(MemoryMB::new(1536).unwrap().display_string(), "1536 MB"); // Not exact GB
}

#[test]
fn test_memory_mb_constants() {
    assert_eq!(MemoryMB::MIN, 32);
    assert_eq!(MemoryMB::MAX, 12 * 1024 * 1024);
}

// ========== ProcessorCount Tests ==========

#[test]
fn test_processor_count_valid_range() {
    assert!(ProcessorCount::new(1).is_some());
    assert!(ProcessorCount::new(240).is_some());
    assert!(ProcessorCount::new(0).is_none());
    assert!(ProcessorCount::new(241).is_none());
}

#[test]
fn test_processor_count_get() {
    let pc = ProcessorCount::new(4).unwrap();
    assert_eq!(pc.get(), 4);
}

#[test]
fn test_processor_count_presets() {
    assert_eq!(ProcessorCount::one().get(), 1);
    assert_eq!(ProcessorCount::two().get(), 2);
    assert_eq!(ProcessorCount::four().get(), 4);
    assert_eq!(ProcessorCount::eight().get(), 8);
}

#[test]
fn test_processor_count_default() {
    assert_eq!(ProcessorCount::default().get(), 1);
}

#[test]
fn test_processor_count_display() {
    assert_eq!(ProcessorCount::one().display_string(), "1 vCPU");
    assert_eq!(ProcessorCount::two().display_string(), "2 vCPUs");
    assert_eq!(ProcessorCount::four().display_string(), "4 vCPUs");
}

#[test]
fn test_processor_count_constants() {
    assert_eq!(ProcessorCount::MIN, 1);
    assert_eq!(ProcessorCount::MAX, 240);
}

// ========== MemoryBufferPercent Tests ==========

#[test]
fn test_memory_buffer_percent_valid() {
    assert!(MemoryBufferPercent::new(0).is_some());
    assert!(MemoryBufferPercent::new(50).is_some());
    assert!(MemoryBufferPercent::new(100).is_some());
    assert!(MemoryBufferPercent::new(101).is_none());
}

#[test]
fn test_memory_buffer_percent_get() {
    let mbp = MemoryBufferPercent::new(25).unwrap();
    assert_eq!(mbp.get(), 25);
}

#[test]
fn test_memory_buffer_percent_default() {
    assert_eq!(MemoryBufferPercent::default().get(), 0);
}

#[test]
fn test_memory_buffer_percent_preset() {
    assert_eq!(MemoryBufferPercent::default_20().get(), 20);
}

#[test]
fn test_memory_buffer_percent_display() {
    assert_eq!(MemoryBufferPercent::new(50).unwrap().display_string(), "50%");
}

// ========== MemoryWeight Tests ==========

#[test]
fn test_memory_weight_valid() {
    assert!(MemoryWeight::new(0).is_some());
    assert!(MemoryWeight::new(5000).is_some());
    assert!(MemoryWeight::new(10000).is_some());
    assert!(MemoryWeight::new(10001).is_none());
}

#[test]
fn test_memory_weight_get() {
    let mw = MemoryWeight::new(5000).unwrap();
    assert_eq!(mw.get(), 5000);
}

#[test]
fn test_memory_weight_default() {
    assert_eq!(MemoryWeight::default().get(), 5000);
}

#[test]
fn test_memory_weight_constants() {
    assert_eq!(MemoryWeight::MIN, 0);
    assert_eq!(MemoryWeight::MAX, 10000);
    assert_eq!(MemoryWeight::DEFAULT, 5000);
}

// ========== ProcessorWeight Tests ==========

#[test]
fn test_processor_weight_valid() {
    assert!(ProcessorWeight::new(0).is_some());
    assert!(ProcessorWeight::new(100).is_some());
    assert!(ProcessorWeight::new(10000).is_some());
    assert!(ProcessorWeight::new(10001).is_none());
}

#[test]
fn test_processor_weight_get() {
    let pw = ProcessorWeight::new(200).unwrap();
    assert_eq!(pw.get(), 200);
}

#[test]
fn test_processor_weight_default() {
    assert_eq!(ProcessorWeight::default().get(), 100);
}

#[test]
fn test_processor_weight_constants() {
    assert_eq!(ProcessorWeight::MIN, 0);
    assert_eq!(ProcessorWeight::MAX, 10000);
    assert_eq!(ProcessorWeight::DEFAULT, 100);
}

// ========== ProcessorPercent Tests ==========

#[test]
fn test_processor_percent_valid() {
    assert!(ProcessorPercent::new(0).is_some());
    assert!(ProcessorPercent::new(50000).is_some());
    assert!(ProcessorPercent::new(100000).is_some());
    assert!(ProcessorPercent::new(100001).is_none());
}

#[test]
fn test_processor_percent_from_percent() {
    let pp = ProcessorPercent::from_percent(50).unwrap();
    assert_eq!(pp.get(), 50000);

    let pp100 = ProcessorPercent::from_percent(100).unwrap();
    assert_eq!(pp100.get(), 100000);

    assert!(ProcessorPercent::from_percent(101).is_none());
}

#[test]
fn test_processor_percent_default() {
    assert_eq!(ProcessorPercent::default().get(), 100000);
}

#[test]
fn test_processor_percent_constant() {
    assert_eq!(ProcessorPercent::MAX, 100000);
}

// ========== DiskLocation Tests ==========

#[test]
fn test_disk_location_scsi() {
    assert!(DiskLocation::scsi(0).is_some());
    assert!(DiskLocation::scsi(63).is_some());
    assert!(DiskLocation::scsi(64).is_none());
}

#[test]
fn test_disk_location_ide() {
    assert!(DiskLocation::ide(0).is_some());
    assert!(DiskLocation::ide(1).is_some());
    assert!(DiskLocation::ide(2).is_none());
}

#[test]
fn test_disk_location_get() {
    assert_eq!(DiskLocation::scsi(10).unwrap().get(), 10);
    assert_eq!(DiskLocation::ide(1).unwrap().get(), 1);
}

#[test]
fn test_disk_location_default() {
    assert_eq!(DiskLocation::default().get(), 0);
}

#[test]
fn test_disk_location_display() {
    assert_eq!(DiskLocation::scsi(5).unwrap().display_string(), "Location 5");
}

#[test]
fn test_disk_location_constants() {
    assert_eq!(DiskLocation::MAX_SCSI, 63);
    assert_eq!(DiskLocation::MAX_IDE, 1);
}

// ========== SectorSize Tests ==========

#[test]
fn test_sector_size_as_bytes() {
    assert_eq!(SectorSize::Bytes512.as_bytes(), 512);
    assert_eq!(SectorSize::Bytes4K.as_bytes(), 4096);
}

#[test]
fn test_sector_size_from_bytes() {
    assert_eq!(SectorSize::from_bytes(512), Some(SectorSize::Bytes512));
    assert_eq!(SectorSize::from_bytes(4096), Some(SectorSize::Bytes4K));
    assert_eq!(SectorSize::from_bytes(1024), None);
    assert_eq!(SectorSize::from_bytes(0), None);
}

#[test]
fn test_sector_size_default() {
    assert_eq!(SectorSize::default(), SectorSize::Bytes512);
}

#[test]
fn test_sector_size_display() {
    assert_eq!(SectorSize::Bytes512.display_string(), "512 bytes");
    assert_eq!(SectorSize::Bytes4K.display_string(), "4K");
}

// ========== BlockSize Tests ==========

#[test]
fn test_block_size_from_bytes() {
    assert_eq!(BlockSize::from_bytes(512 * 1024), Some(BlockSize::kb_512()));
    assert_eq!(BlockSize::from_bytes(1024 * 1024), Some(BlockSize::mb_1()));
    assert_eq!(BlockSize::from_bytes(2 * 1024 * 1024), Some(BlockSize::mb_2()));
    assert_eq!(BlockSize::from_bytes(16 * 1024 * 1024), Some(BlockSize::mb_16()));
    assert_eq!(BlockSize::from_bytes(32 * 1024 * 1024), Some(BlockSize::mb_32()));
    assert_eq!(BlockSize::from_bytes(64 * 1024 * 1024), Some(BlockSize::mb_64()));
    assert_eq!(BlockSize::from_bytes(128 * 1024 * 1024), Some(BlockSize::mb_128()));
    assert_eq!(BlockSize::from_bytes(256 * 1024 * 1024), Some(BlockSize::mb_256()));
    assert_eq!(BlockSize::from_bytes(1234), None);
}

#[test]
fn test_block_size_as_bytes() {
    assert_eq!(BlockSize::kb_512().as_bytes(), 512 * 1024);
    assert_eq!(BlockSize::mb_32().as_bytes(), 32 * 1024 * 1024);
}

#[test]
fn test_block_size_default() {
    assert_eq!(BlockSize::default(), BlockSize::mb_32());
}

#[test]
fn test_block_size_display() {
    assert_eq!(BlockSize::kb_512().display_string(), "512 KB");
    assert_eq!(BlockSize::mb_1().display_string(), "1 MB");
    assert_eq!(BlockSize::mb_32().display_string(), "32 MB");
}

// ========== DiskSize Tests ==========

#[test]
fn test_disk_size() {
    let size = DiskSize::from_gb(100);
    assert_eq!(size.as_gb(), 100);
    assert!(size.is_valid_vhd());
    assert!(size.is_valid_vhdx());

    let large = DiskSize::from_tb(3);
    assert!(!large.is_valid_vhd());
    assert!(large.is_valid_vhdx());
}

#[test]
fn test_disk_size_from_bytes() {
    let size = DiskSize::from_bytes(1024 * 1024 * 1024);
    assert_eq!(size.as_bytes(), 1024 * 1024 * 1024);
    assert_eq!(size.as_gb(), 1);
}

#[test]
fn test_disk_size_from_tb() {
    let size = DiskSize::from_tb(2);
    assert_eq!(size.as_bytes(), 2 * 1024 * 1024 * 1024 * 1024);
}

#[test]
fn test_disk_size_vhd_max() {
    let max_vhd = DiskSize::from_bytes(DiskSize::MAX_VHD);
    assert!(max_vhd.is_valid_vhd());
    let over_vhd = DiskSize::from_bytes(DiskSize::MAX_VHD + 1);
    assert!(!over_vhd.is_valid_vhd());
}

#[test]
fn test_disk_size_vhdx_max() {
    let max_vhdx = DiskSize::from_bytes(DiskSize::MAX_VHDX);
    assert!(max_vhdx.is_valid_vhdx());
    let over_vhdx = DiskSize::from_bytes(DiskSize::MAX_VHDX + 1);
    assert!(!over_vhdx.is_valid_vhdx());
}

#[test]
fn test_disk_size_zero_invalid() {
    let zero = DiskSize::from_bytes(0);
    assert!(!zero.is_valid_vhd());
    assert!(!zero.is_valid_vhdx());
}

#[test]
fn test_disk_size_display() {
    assert_eq!(DiskSize::from_tb(1).display_string(), "1 TB");
    assert_eq!(DiskSize::from_gb(100).display_string(), "100 GB");
    assert_eq!(DiskSize::from_bytes(1234567).display_string(), "1234567 bytes");
}

#[test]
fn test_disk_size_constants() {
    assert_eq!(DiskSize::MAX_VHD, 2 * 1024 * 1024 * 1024 * 1024);
    assert_eq!(DiskSize::MAX_VHDX, 64 * 1024 * 1024 * 1024 * 1024);
}

// ========== VlanId Tests ==========

#[test]
fn test_vlan_id_valid_range() {
    assert!(VlanId::new(0).is_some());
    assert!(VlanId::new(4094).is_some());
    assert!(VlanId::new(4095).is_none());
}

#[test]
fn test_vlan_id_get() {
    let vlan = VlanId::new(100).unwrap();
    assert_eq!(vlan.get(), 100);
}

#[test]
fn test_vlan_id_display() {
    assert_eq!(VlanId::new(100).unwrap().display_string(), "VLAN 100");
}

#[test]
fn test_vlan_id_constant() {
    assert_eq!(VlanId::MAX, 4094);
}

// ========== MacAddress Tests ==========

#[test]
fn test_mac_address_parse() {
    assert!(MacAddress::parse("00:11:22:33:44:55").is_some());
    assert!(MacAddress::parse("00-11-22-33-44-55").is_some());
    assert!(MacAddress::parse("001122334455").is_some());
    assert!(MacAddress::parse("invalid").is_none());
}

#[test]
fn test_mac_address_parse_invalid_length() {
    assert!(MacAddress::parse("00:11:22:33:44").is_none()); // Too short
    assert!(MacAddress::parse("00:11:22:33:44:55:66").is_none()); // Too long
    assert!(MacAddress::parse("").is_none());
}

#[test]
fn test_mac_address_parse_invalid_chars() {
    assert!(MacAddress::parse("GG:11:22:33:44:55").is_none());
    assert!(MacAddress::parse("00:XX:22:33:44:55").is_none());
}

#[test]
fn test_mac_address_new() {
    let mac = MacAddress::new([0x00, 0x11, 0x22, 0x33, 0x44, 0x55]);
    assert_eq!(mac.as_bytes(), &[0x00, 0x11, 0x22, 0x33, 0x44, 0x55]);
}

#[test]
fn test_mac_address_to_colon_string() {
    let mac = MacAddress::parse("001122334455").unwrap();
    assert_eq!(mac.to_colon_string(), "00:11:22:33:44:55");
}

#[test]
fn test_mac_address_to_hyperv_string() {
    let mac = MacAddress::parse("00:11:22:33:44:55").unwrap();
    assert_eq!(mac.to_hyperv_string(), "001122334455");
}

#[test]
fn test_mac_address_display() {
    let mac = MacAddress::parse("00:11:22:33:44:55").unwrap();
    assert_eq!(mac.display_string(), "00:11:22:33:44:55");
}

#[test]
fn test_mac_address_uppercase() {
    let mac = MacAddress::parse("AA:BB:CC:DD:EE:FF").unwrap();
    assert_eq!(mac.to_colon_string(), "AA:BB:CC:DD:EE:FF");
}

#[test]
fn test_mac_address_mixed_case() {
    let mac = MacAddress::parse("aA:bB:cC:dD:eE:fF").unwrap();
    assert_eq!(mac.as_bytes(), &[0xAA, 0xBB, 0xCC, 0xDD, 0xEE, 0xFF]);
}

// ========== BandwidthWeight Tests ==========

#[test]
fn test_bandwidth_weight() {
    assert!(BandwidthWeight::new(1).is_some());
    assert!(BandwidthWeight::new(100).is_some());
    assert!(BandwidthWeight::new(0).is_none());
    assert!(BandwidthWeight::new(101).is_none());
}

#[test]
fn test_bandwidth_weight_get() {
    let bw = BandwidthWeight::new(75).unwrap();
    assert_eq!(bw.get(), 75);
}

#[test]
fn test_bandwidth_weight_default() {
    assert_eq!(BandwidthWeight::default().get(), 50);
}

#[test]
fn test_bandwidth_weight_display() {
    assert_eq!(BandwidthWeight::new(50).unwrap().display_string(), "50%");
}

#[test]
fn test_bandwidth_weight_constants() {
    assert_eq!(BandwidthWeight::MIN, 1);
    assert_eq!(BandwidthWeight::MAX, 100);
}
