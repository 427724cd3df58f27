use bytes::{Bytes, BytesMut};
use resume_frame::put::{put, put_u16_be, put_u64_be};

#[test]
fn put_u16_be_appends_two_bytes() {
    let mut buf = BytesMut::new();
    put_u16_be(&mut buf, 0x0102);
    put_u16_be(&mut buf, 0);
    put_u16_be(&mut buf, u16::MAX);
    assert_eq!(&buf[..], &[0x01, 0x02, 0x00, 0x00, 0xFF, 0xFF]);
}

#[test]
fn put_u64_be_appends_eight_bytes() {
    let mut buf = BytesMut::from(vec![0x77u8]);
    put_u64_be(&mut buf, 0x0102_0304_0506_0708);
    put_u64_be(&mut buf, 100);
    assert_eq!(
        &buf[..],
        &[0x77, 0x01, 0x02, 0x03, 0x04, 0x05, 0x06, 0x07, 0x08, 0, 0, 0, 0, 0, 0, 0, 0x64]
    );
}

#[test]
fn put_appends_the_bytes_held() {
    let mut buf = BytesMut::from(vec![1u8, 2]);
    put(&mut buf, &Bytes::from(vec![3u8, 4, 5]));
    put(&mut buf, &Bytes::new());
    put(&mut buf, &Bytes::from(vec![6u8; 40]));
    let mut expected = vec![1u8, 2, 3, 4, 5];
    expected.extend_from_slice(&[6u8; 40]);
    assert_eq!(buf.to_vec(), expected);
}
