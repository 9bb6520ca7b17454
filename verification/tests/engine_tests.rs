use asmedia_xhc_trace::engine::run;
use asmedia_xhc_trace::engine::throughput;
use asmedia_xhc_trace::engine::SampleBuffer;
use asmedia_xhc_trace::errors::TraceError;
use asmedia_xhc_trace::registry::lookup;
use asmedia_xhc_trace::selector::select_access_mode;
use asmedia_xhc_trace::selector::AccessMode;
use asmedia_xhc_trace::transport::MemoryMappedAccessor;

/// An anonymous mapping standing in for a BAR window, with the 16-bit
/// status mirror at its fixed offset set to `status`.
fn test_window(status: u16) -> memmap::MmapMut {
    let mut window = memmap::MmapMut::map_anon(0x4000).unwrap();
    let bytes = status.to_le_bytes();
    window[0x300a] = bytes[0];
    window[0x300b] = bytes[1];
    window
}

#[test]
fn sample_buffer_appends_in_order() {
    let mut buf = SampleBuffer::new(3);
    assert_eq!(buf.len(), 0);
    assert_eq!(buf.target(), 3);
    assert!(!buf.is_complete());
    buf.push(10);
    buf.push(20);
    assert!(!buf.is_complete());
    buf.push(30);
    assert!(buf.is_complete());
    assert_eq!(buf.samples(), &vec![10, 20, 30]);
}

#[test]
fn empty_buffer_is_complete_at_count_zero() {
    let buf = SampleBuffer::new(0);
    assert!(buf.is_complete());
    assert_eq!(buf.len(), 0);
    assert!(buf.samples().is_empty());
}

#[test]
fn run_returns_exactly_count_samples() {
    let window = test_window(0x1234);
    let accessor = MemoryMappedAccessor::new(window).unwrap();
    let (buf, _elapsed) = run(&accessor, 3);
    assert!(buf.is_complete());
    assert_eq!(buf.samples(), &vec![0x1234, 0x1234, 0x1234]);
}

#[test]
fn run_zero_extends_the_half_word() {
    let window = test_window(0xbeef);
    let accessor = MemoryMappedAccessor::new(window).unwrap();
    let (buf, _elapsed) = run(&accessor, 2);
    assert_eq!(buf.samples(), &vec![0x0000beef_u32, 0x0000beef_u32]);
    for value in buf.samples().iter() {
        assert_eq!(format!("{:#06x}", value & 0xffff), "0xbeef");
    }
}

#[test]
fn run_count_zero_reads_nothing() {
    let window = test_window(0x1234);
    let accessor = MemoryMappedAccessor::new(window).unwrap();
    let (buf, _elapsed) = run(&accessor, 0);
    assert!(buf.is_complete());
    assert_eq!(buf.len(), 0);
}

#[test]
fn accessor_rejects_a_window_below_the_status_mirror() {
    let window = memmap::MmapMut::map_anon(0x1000).unwrap();
    match MemoryMappedAccessor::new(window) {
        Err(e) => assert_eq!(e, TraceError::ResourceOpenFailure),
        Ok(_) => panic!("a window too small for the status mirror was accepted"),
    }
}

#[test]
fn try_read_respects_the_window_bounds() {
    let window = test_window(0x5aa5);
    let accessor = MemoryMappedAccessor::new(window).unwrap();
    let len = accessor.len();
    assert_eq!(len, 0x4000);
    assert_eq!(accessor.try_read_register16(0x300a), Some(0x5aa5));
    assert_eq!(accessor.try_read_register16(len - 2), Some(0));
    assert_eq!(accessor.try_read_register16(len - 1), None);
    assert_eq!(accessor.try_read_register16(len), None);
    assert_eq!(accessor.try_read_register16(usize::MAX), None);
}

#[test]
fn read_register16_is_little_endian() {
    let mut window = memmap::MmapMut::map_anon(0x4000).unwrap();
    window[0x100] = 0xcd;
    window[0x101] = 0xab;
    let accessor = MemoryMappedAccessor::new(window).unwrap();
    assert_eq!(accessor.read_register16(0x100), 0xabcd);
}

#[test]
fn throughput_is_guarded_against_zero_elapsed_time() {
    assert_eq!(throughput(1_000_000, 0), None);
    assert_eq!(throughput(0, 0), None);
}

#[test]
fn throughput_is_whole_samples_per_second() {
    assert_eq!(throughput(1000, 500), Some(2_000_000));
    assert_eq!(throughput(0, 7), Some(0));
    assert_eq!(throughput(3, 1_000_000), Some(3));
    assert_eq!(throughput(1, 3_000_000), Some(0));
}

#[test]
fn scenario_asm2142_unbound_samples_three_values() {
    let info = lookup(0x1b21, 0x2142);
    let mode = select_access_mode(&info, false).unwrap();
    assert_eq!(mode, AccessMode::MemoryMapped);
    let window = test_window(0x0042);
    let accessor = MemoryMappedAccessor::new(window).unwrap();
    let (buf, _elapsed) = run(&accessor, 3);
    let lines: Vec<String> =
        buf.samples().iter().map(|v| format!("{:#06x}", v & 0xffff)).collect();
    assert_eq!(lines, vec!["0x0042", "0x0042", "0x0042"]);
}
