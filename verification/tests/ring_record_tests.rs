use ebpf_trace::ring_record::{DataType, RECORD_LEN};

fn image(d: &DataType) -> Vec<u8> {
    let mut v = Vec::new();
    v.extend_from_slice(&d.pid.to_le_bytes());
    v.extend_from_slice(&d.uid.to_le_bytes());
    v.extend_from_slice(&d.command);
    v.extend_from_slice(&d.message);
    v
}

#[test]
fn from_bytes_reads_little_endian_fields() {
    let mut bytes = vec![0u8; RECORD_LEN];
    bytes[0..4].copy_from_slice(&[0x78, 0x56, 0x34, 0x12]);
    bytes[4..8].copy_from_slice(&[0xe8, 0x03, 0x00, 0x00]);
    bytes[8..12].copy_from_slice(b"bash");
    bytes[24..29].copy_from_slice(b"hello");
    let d = DataType::from_bytes(&bytes);
    assert_eq!(d.pid, 0x1234_5678);
    assert_eq!(d.uid, 1000);
    assert_eq!(&d.command[..4], b"bash");
    assert_eq!(&d.command[4..], &[0u8; 12]);
    assert_eq!(&d.message[..5], b"hello");
    assert_eq!(&d.message[5..], &[0u8; 7]);
}

#[test]
fn from_bytes_ignores_trailing_bytes() {
    let mut bytes: Vec<u8> = (0..RECORD_LEN as u8).collect();
    bytes.extend_from_slice(&[0xff; 8]);
    let d = DataType::from_bytes(&bytes);
    assert_eq!(d.pid, u32::from_le_bytes([0, 1, 2, 3]));
    assert_eq!(d.uid, u32::from_le_bytes([4, 5, 6, 7]));
    let expected_command: Vec<u8> = (8..24).collect();
    let expected_message: Vec<u8> = (24..36).collect();
    assert_eq!(d.command.to_vec(), expected_command);
    assert_eq!(d.message.to_vec(), expected_message);
}

#[test]
fn from_bytes_of_maximal_ids() {
    let bytes = [0xffu8; RECORD_LEN];
    let d = DataType::from_bytes(&bytes);
    assert_eq!(d.pid, u32::MAX);
    assert_eq!(d.uid, u32::MAX);
}

#[test]
fn record_image_round_trip() {
    let d = DataType::new(4242, 0, *b"sshd\0\0\0\0\0\0\0\0\0\0\0\0", *b"message12345");
    let back = DataType::from_bytes(&image(&d));
    assert_eq!(back.pid, d.pid);
    assert_eq!(back.uid, d.uid);
    assert_eq!(back.command, d.command);
    assert_eq!(back.message, d.message);
}

#[test]
fn new_keeps_fields() {
    let d = DataType::new(1, 2, [3u8; 16], [4u8; 12]);
    assert_eq!(d.pid, 1);
    assert_eq!(d.uid, 2);
    assert_eq!(d.command, [3u8; 16]);
    assert_eq!(d.message, [4u8; 12]);
}

#[test]
fn default_is_all_zero() {
    let d = DataType::default();
    assert_eq!(d.pid, 0);
    assert_eq!(d.uid, 0);
    assert_eq!(d.command, [0u8; 16]);
    assert_eq!(d.message, [0u8; 12]);
}
