use bytes::BytesMut;
use resume_frame::frame::version::Version;
use resume_frame::frame::Writeable;

#[test]
fn version_keeps_its_numbers() {
    let v = Version::new(1, 2);
    assert_eq!(v.get_major(), 1);
    assert_eq!(v.get_minor(), 2);
    assert_eq!(v, Version { major: 1, minor: 2 });
    assert_ne!(v, Version::new(2, 1));
}

#[test]
fn default_version_is_zero() {
    let v = Version::default();
    assert_eq!(v.get_major(), 0);
    assert_eq!(v.get_minor(), 0);
}

#[test]
fn version_is_written_as_four_bytes() {
    let v = Version::new(0x0102, 0xFFFE);
    assert_eq!(v.len(), 4);
    let mut buf = BytesMut::new();
    v.write_to(&mut buf);
    assert_eq!(&buf[..], &[0x01, 0x02, 0xFF, 0xFE]);
}

#[test]
fn version_is_appended() {
    let mut buf = BytesMut::from(vec![9u8]);
    Version::new(1, 0).write_to(&mut buf);
    Version::new(0, 1).write_to(&mut buf);
    assert_eq!(&buf[..], &[9, 0, 1, 0, 0, 0, 0, 0, 1]);
}
