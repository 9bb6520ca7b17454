use asmedia_xhc_trace::registry::lookup;
use asmedia_xhc_trace::registry::DeviceInfo;

#[test]
fn lookup_asm1042() {
    let info = lookup(0x1b21, 0x1042);
    assert_eq!(info.name, "ASM1042");
    assert!(!info.has_config);
    assert!(!info.has_mmio);
}

#[test]
fn lookup_asm1042a() {
    let info = lookup(0x1b21, 0x1142);
    assert_eq!(info.name, "ASM1042A");
    assert!(info.has_config);
    assert!(info.has_mmio);
}

#[test]
fn lookup_asm1142() {
    let info = lookup(0x1b21, 0x1242);
    assert_eq!(info.name, "ASM1142");
    assert!(info.has_config);
    assert!(info.has_mmio);
}

#[test]
fn lookup_asm2142() {
    let info = lookup(0x1b21, 0x2142);
    assert_eq!(info.name, "ASM2142/ASM3142");
    assert!(!info.has_config);
    assert!(info.has_mmio);
}

#[test]
fn lookup_asm3242() {
    let info = lookup(0x1b21, 0x3242);
    assert_eq!(info.name, "ASM3242");
    assert!(!info.has_config);
    assert!(info.has_mmio);
}

#[test]
fn lookup_unknown_device_id() {
    let info = lookup(0x1b21, 0x9999);
    assert_eq!(info.name, "Unknown");
    assert!(!info.has_config);
    assert!(!info.has_mmio);
}

#[test]
fn lookup_unknown_vendor() {
    let info = lookup(0x8086, 0x1142);
    assert_eq!(info.name, "Unknown");
    assert!(!info.has_config);
    assert!(!info.has_mmio);
}

#[test]
fn device_info_new_keeps_fields() {
    let info = DeviceInfo::new("ASM1042A", true, false);
    assert_eq!(info.name, "ASM1042A");
    assert!(info.has_config);
    assert!(!info.has_mmio);
}
