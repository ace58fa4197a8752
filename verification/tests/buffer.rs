use led_speakers::buffer::Buffer;

#[test]
fn buffer_write() {
    let mut buffer = Buffer::new(100);
    let bytes: [u8; 10] = [0; 10];
    buffer.write(&bytes);
    assert_eq!(buffer.available(), 10);
    buffer.write(&bytes);
    assert_eq!(buffer.available(), 20);
}

#[test]
fn buffer_reserve() {
    let mut buffer = Buffer::new(1000);
    let reserved = buffer.reserve(10);
    let bytes: [u8; 10] = [0; 10];
    buffer.write(&bytes);
    assert_eq!(buffer.reserve(10), reserved - 10);
}

#[test]
fn buffer_read() {
    let mut buffer = Buffer::new(1000);
    let bytes: [u8; 10] = [0; 10];
    buffer.write(&bytes);
    assert_eq!(buffer.read(10), bytes.to_vec());
}

#[test]
fn buffer_read_consumes_oldest_first() {
    let mut buffer = Buffer::new(8);
    buffer.write(&[1, 2, 3, 4]);
    buffer.write(&[5, 6]);
    assert_eq!(buffer.read(3), vec![1, 2, 3]);
    assert_eq!(buffer.available(), 3);
    assert_eq!(buffer.read(3), vec![4, 5, 6]);
    assert_eq!(buffer.available(), 0);
}

#[test]
fn buffer_reserve_grants_at_least_requested() {
    let mut buffer = Buffer::new(0);
    let spare = buffer.reserve(42);
    assert!(spare >= 42);
}
