use dos_std::random::DefaultRandomSource;
use dos_std::sys::Service;
use dos_std::sys::Version;

#[test]
fn fill_bytes_is_the_xorshift_stream() {
    let mut src = DefaultRandomSource::new();
    let mut buf = vec![0u8; 8];
    src.fill_bytes(0x12345678, &mut buf);
    // Two rounds of the xorshift from that seed, little-endian.
    assert_eq!(buf, vec![165, 90, 152, 135, 163, 36, 91, 21]);
}

#[test]
fn fill_bytes_truncates_last_chunk() {
    let mut src = DefaultRandomSource::new();
    let mut buf = vec![0u8; 6];
    src.fill_bytes(1, &mut buf);
    assert_eq!(buf.len(), 6);
    assert_eq!(&buf[0..4], &[33, 32, 4, 0]);
}

#[test]
fn fill_bytes_of_empty_buffer_is_empty() {
    let mut src = DefaultRandomSource::new();
    let mut buf: Vec<u8> = Vec::new();
    src.fill_bytes(42, &mut buf);
    assert!(buf.is_empty());
}

#[test]
fn fill_bytes_is_deterministic_in_the_seed() {
    let mut src = DefaultRandomSource::new();
    let mut a = vec![0u8; 12];
    let mut b = vec![0u8; 12];
    src.fill_bytes(7, &mut a);
    src.fill_bytes(7, &mut b);
    assert_eq!(a, b);
    let mut c = vec![0u8; 12];
    src.fill_bytes(8, &mut c);
    assert_ne!(a, c);
}

#[test]
fn service_codes() {
    assert_eq!(Service::Print.code(), 0x09);
    assert_eq!(Service::PrintChar.code(), 0x02);
    assert_eq!(Service::Terminate.code(), 0x4C);
    assert_eq!(Service::Version.code(), 0x30);
}

#[test]
fn version_carries_registers() {
    let v = Version::new(6, 22);
    assert_eq!(v.major, 6);
    assert_eq!(v.minor, 22);
}
