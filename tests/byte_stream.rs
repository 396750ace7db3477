use realmode::byte_stream::ByteStream;
use realmode::error::EmuError;

#[test]
fn reads_little_endian() {
    let mut bst = ByteStream::new(vec![0x34, 0x12, 0x78, 0x56, 0xFF]);
    assert_eq!(bst.peek_word(), Ok(0x1234));
    assert_eq!(bst.read_word(), Ok(0x1234));
    assert_eq!(bst.pos(), 2);
    bst.set_pos(0);
    assert_eq!(bst.read_dword(), Ok(0x5678_1234));
    assert_eq!(bst.read_sbyte(), Ok(-1));
    assert!(!bst.available());
    assert_eq!(bst.read_byte(), Err(EmuError::BufferUnderrun));
    assert_eq!(bst.pos(), 5);
}

#[test]
fn signed_word() {
    let mut bst = ByteStream::new(vec![0xFE, 0xFF]);
    assert_eq!(bst.read_sword(), Ok(-2));
}

#[test]
fn absolute_access() {
    let mut bst = ByteStream::new(vec![0, 0, 0, 0]);
    assert_eq!(bst.replace_word(1, 0xBEEF), Ok(()));
    assert_eq!(bst.read_byte_at(1), Ok(0xEF));
    assert_eq!(bst.read_byte_at(2), Ok(0xBE));
    assert_eq!(bst.read_word_at(1), Ok(0xBEEF));
    assert_eq!(bst.replace_word(3, 1), Err(EmuError::BufferUnderrun));
    assert_eq!(bst.replace_byte(3, 7), Ok(()));
    assert_eq!(bst.read_bytes_at(2, 2), Ok(vec![0xBE, 7]));
    assert_eq!(bst.read_word_at(3), Err(EmuError::BufferUnderrun));
    assert_eq!(bst.pos(), 0);
}

#[test]
fn sequential_bytes() {
    let mut bst = ByteStream::new(b"HELLO".to_vec());
    assert_eq!(bst.peek_bytes(2), Ok(b"HE".to_vec()));
    assert_eq!(bst.read_bytes(3), Ok(b"HEL".to_vec()));
    assert_eq!(bst.peek_byte(), Ok(b'L'));
    assert_eq!(bst.read_bytes(3), Err(EmuError::BufferUnderrun));
    assert_eq!(bst.pos(), 3);
}

#[test]
fn strings() {
    let mut bst = ByteStream::new(b"HI$there".to_vec());
    assert_eq!(bst.read_string(2), Ok("HI".to_string()));
    assert_eq!(bst.read_string_from_to(3, 8), Ok("there".to_string()));
    assert_eq!(bst.read_string_from_to(5, 3), Err(EmuError::BufferUnderrun));
    let bad = ByteStream::new(vec![0x41, 0xFF, 0x42]);
    assert_eq!(bad.read_string_from_to(0, 3), Ok("A\u{FFFD}B".to_string()));
}

#[test]
fn scan_until_terminator() {
    let bst = ByteStream::new(b"ab$cd$".to_vec());
    assert_eq!(bst.find_first_byte_from(0, b'$'), Ok(2));
    assert_eq!(bst.find_first_byte_from(3, b'$'), Ok(5));
    assert_eq!(bst.find_first_byte_from(0, b'#'), Err(EmuError::TerminatorNotFound));
    assert_eq!(bst.find_first_byte_from(9, b'$'), Err(EmuError::TerminatorNotFound));
}

#[test]
fn reserved_bytes() {
    let mut bst = ByteStream::new(vec![0, 0, 1, 0]);
    assert_eq!(bst.check_reserved(2), Ok(true));
    assert_eq!(bst.pos(), 2);
    assert_eq!(bst.check_reserved(2), Ok(false));
    assert_eq!(bst.pos(), 4);
    assert_eq!(bst.check_reserved(1), Err(EmuError::BufferUnderrun));
    bst.set_pos(0);
    assert_eq!(bst.skip_reserved(3), Ok(()));
    assert_eq!(bst.pos(), 3);
    assert_eq!(bst.skip_reserved(2), Err(EmuError::BufferUnderrun));
    assert_eq!(bst.len(), 4);
}
