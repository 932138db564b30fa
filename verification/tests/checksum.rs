use state_bridge::checksum::calculate_crc32c;

#[test]
fn known_check_value() {
    // The standard CRC-32C check value for the nine digits.
    let chunks = vec![b"123456789".to_vec()];
    assert_eq!(calculate_crc32c(&chunks), 0xE306_9283u64);
}

#[test]
fn known_value_hello() {
    let chunks = vec![b"Hello world!".to_vec()];
    assert_eq!(calculate_crc32c(&chunks), 0x7B98_E751u64);
}

#[test]
fn empty_input_digest() {
    let chunks: Vec<Vec<u8>> = vec![];
    assert_eq!(calculate_crc32c(&chunks), 0u64);
}

#[test]
fn chunking_does_not_change_the_digest() {
    let whole = vec![b"123456789".to_vec()];
    let split = vec![b"12".to_vec(), b"3456".to_vec(), b"".to_vec(), b"789".to_vec()];
    assert_eq!(calculate_crc32c(&split), calculate_crc32c(&whole));
}

#[test]
fn matches_the_library_digest() {
    let data = b"This is a very long string which is used to test the CRC-32-Castagnoli function.";
    let chunks = vec![data.to_vec()];
    assert_eq!(calculate_crc32c(&chunks), crc32c::crc32c(data) as u64);
}
