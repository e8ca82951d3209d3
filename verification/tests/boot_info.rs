use unikernel_core::boot_info::{
    get_base_address, get_cmdline, get_cmdsize, get_image_size, get_limit, get_mbinfo,
    get_processor_count, get_tls_filesz, get_tls_memsz, get_tls_start, has_ipdevice,
    is_single_kernel, is_uhyve, is_uhyve_with_pci, sys_uhyve_get_gateway, sys_uhyve_get_ip,
    sys_uhyve_get_mask, BootInfo, BootRecord, BOOTINFO_MAGIC_NUMBER, BOOT_INFO_SIZE,
};

fn sample() -> BootInfo {
    BootInfo {
        magic_number: 0xC0DE_CAFE,
        version: 1,
        base: 0x20_0000,
        limit: 0x4000_0000,
        image_size: 0x12_3456,
        tls_start: 0x30_0000,
        tls_filesz: 64,
        tls_memsz: 128,
        current_stack_address: 0x50_0000,
        current_percore_address: 0x60_0000,
        host_logical_addr: 0,
        boot_gtod: 1_600_000_000,
        mb_info: 0x9000,
        cmdline: 0x7000,
        cmdsize: 11,
        cpu_freq: 2400,
        boot_processor: 0,
        cpu_online: 2,
        possible_cpus: 4,
        current_boot_id: 2,
        uartport: 0x3f8,
        single_kernel: 1,
        uhyve: 0,
        hcip: [10, 0, 5, 2],
        hcgateway: [10, 0, 5, 1],
        hcmask: [255, 255, 255, 0],
    }
}

#[test]
fn magic_number_is_the_documented_constant() {
    assert_eq!(BOOTINFO_MAGIC_NUMBER, 0xC0DECAFE);
}

#[test]
fn record_with_wrong_magic_is_refused() {
    let mut info = sample();
    info.magic_number = 0xC0DE_CAFF;
    assert!(BootRecord::new(info).is_none());
    info.magic_number = 0;
    assert!(BootRecord::new(info).is_none());
}

#[test]
fn valid_record_gives_its_fields() {
    let record = BootRecord::new(sample()).unwrap();
    assert_eq!(get_base_address(&record), 0x20_0000);
    assert_eq!(get_limit(&record), 0x4000_0000);
    assert_eq!(get_image_size(&record), 0x12_3456);
    assert_eq!(get_tls_start(&record), 0x30_0000);
    assert_eq!(get_tls_filesz(&record), 64);
    assert_eq!(get_tls_memsz(&record), 128);
    assert_eq!(get_mbinfo(&record), 0x9000);
    assert_eq!(get_cmdline(&record), 0x7000);
    assert_eq!(get_cmdsize(&record), 11);
    assert_eq!(sys_uhyve_get_ip(&record), [10, 0, 5, 2]);
    assert_eq!(sys_uhyve_get_gateway(&record), [10, 0, 5, 1]);
    assert_eq!(sys_uhyve_get_mask(&record), [255, 255, 255, 0]);
    assert_eq!(record.info().uartport, 0x3f8);
}

#[test]
fn processor_count_is_one_without_smp() {
    let record = BootRecord::new(sample()).unwrap();
    assert_eq!(get_processor_count(&record, true), 2);
    assert_eq!(get_processor_count(&record, false), 1);
}

#[test]
fn ip_device_is_absent_only_for_the_broadcast_address() {
    let mut info = sample();
    assert!(has_ipdevice(&BootRecord::new(info).unwrap()));
    info.hcip = [255, 255, 255, 255];
    assert!(!has_ipdevice(&BootRecord::new(info).unwrap()));
    info.hcip = [255, 255, 255, 254];
    assert!(has_ipdevice(&BootRecord::new(info).unwrap()));
}

#[test]
fn hypervisor_flags_are_read_from_the_low_bits() {
    let mut info = sample();
    let cases =
        [(0u8, false, false), (1, true, false), (2, false, false), (3, true, true), (5, true, false)];
    for (uhyve, plain, with_pci) in cases {
        info.uhyve = uhyve;
        let record = BootRecord::new(info).unwrap();
        assert_eq!(is_uhyve(&record), plain);
        assert_eq!(is_uhyve_with_pci(&record), with_pci);
    }
}

#[test]
fn single_kernel_is_any_value_but_zero() {
    let mut info = sample();
    info.single_kernel = 0;
    assert!(!is_single_kernel(&BootRecord::new(info).unwrap()));
    info.single_kernel = 2;
    assert!(is_single_kernel(&BootRecord::new(info).unwrap()));
}

#[test]
fn online_count_goes_up_by_one() {
    let mut record = BootRecord::new(sample()).unwrap();
    assert_eq!(record.add_online_cpu(), 2);
    assert_eq!(record.info().cpu_online, 3);
    assert_eq!(record.info().possible_cpus, 4);
    assert_eq!(record.info().base, 0x20_0000);
}

#[test]
fn stack_address_stands_at_offset_56() {
    assert_eq!(BootInfo::current_stack_address_offset(), 56);
}

#[test]
fn record_is_read_from_its_bytes() {
    let mut bytes = vec![0u8; BOOT_INFO_SIZE];
    bytes[0..4].copy_from_slice(&0xC0DE_CAFEu32.to_le_bytes());
    bytes[4..8].copy_from_slice(&7u32.to_le_bytes());
    bytes[8..16].copy_from_slice(&0x1122_3344_5566_7788u64.to_le_bytes());
    bytes[56..64].copy_from_slice(&0xFFFF_FFFF_FFFF_FFF0u64.to_le_bytes());
    bytes[104..112].copy_from_slice(&13u64.to_le_bytes());
    bytes[120..124].copy_from_slice(&1u32.to_le_bytes());
    bytes[124..128].copy_from_slice(&0xFFFF_FFFFu32.to_le_bytes());
    bytes[132..134].copy_from_slice(&0x3f8u16.to_le_bytes());
    bytes[134] = 1;
    bytes[135] = 3;
    bytes[136..140].copy_from_slice(&[192, 168, 0, 9]);
    bytes[140..144].copy_from_slice(&[192, 168, 0, 1]);
    bytes[144..148].copy_from_slice(&[255, 255, 0, 0]);
    let info = BootInfo::from_bytes(&bytes).unwrap();
    assert_eq!(info.magic_number, 0xC0DE_CAFE);
    assert_eq!(info.version, 7);
    assert_eq!(info.base, 0x1122_3344_5566_7788);
    assert_eq!(info.limit, 0);
    assert_eq!(info.current_stack_address, 0xFFFF_FFFF_FFFF_FFF0);
    assert_eq!(info.cmdsize, 13);
    assert_eq!(info.cpu_online, 1);
    assert_eq!(info.possible_cpus, 0xFFFF_FFFF);
    assert_eq!(info.uartport, 0x3f8);
    assert_eq!(info.single_kernel, 1);
    assert_eq!(info.uhyve, 3);
    assert_eq!(info.hcip, [192, 168, 0, 9]);
    assert_eq!(info.hcgateway, [192, 168, 0, 1]);
    assert_eq!(info.hcmask, [255, 255, 0, 0]);
    assert!(BootRecord::new(info).is_some());
}

#[test]
fn too_few_bytes_are_no_record() {
    assert!(BootInfo::from_bytes(&[0u8; 151]).is_none());
    assert!(BootInfo::from_bytes(&[]).is_none());
    assert!(BootInfo::from_bytes(&[0u8; 200]).is_some());
}
