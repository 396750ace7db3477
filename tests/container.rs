use realmode::byte_stream::ByteStream;
use realmode::error::EmuError;
use realmode::executable::{format_after_header, ExecutableType, NewExecutable, Signature};
use realmode::mz::{RelocationTable, MZ};
use realmode::x86_16::parse_code_lenient;

fn put(buf: &mut Vec<u8>, at: usize, w: u16) {
    buf[at] = (w & 0xFF) as u8;
    buf[at + 1] = (w >> 8) as u8;
}

fn sample_header() -> Vec<u8> {
    let mut buf = vec![0u8; 0x60];
    put(&mut buf, 0x00, 0x90);
    put(&mut buf, 0x02, 3);
    put(&mut buf, 0x04, 2);
    put(&mut buf, 0x06, 6);
    put(&mut buf, 0x0C, 0x1000);
    put(&mut buf, 0x0E, 0xFFFE);
    put(&mut buf, 0x12, 0x0100);
    put(&mut buf, 0x14, 0x0020);
    put(&mut buf, 0x16, 50);
    put(&mut buf, 0x22, 0x1111);
    put(&mut buf, 0x24, 0x2222);
    put(&mut buf, 0x2E, 0x0080);
    put(&mut buf, 0x32, 0x0010);
    put(&mut buf, 0x34, 0x0001);
    put(&mut buf, 0x36, 0x0020);
    put(&mut buf, 0x38, 0x0002);
    buf
}

#[test]
fn reads_mz_header() {
    let mut bst = ByteStream::new(sample_header());
    let h = MZ::read(&mut bst).unwrap();
    assert_eq!(h.last_page_bytes, 0x90);
    assert_eq!(h.page_count, 3);
    assert_eq!(h.relocation_table_entry_count, 2);
    assert_eq!(h.header_size, 6);
    assert_eq!(h.init_ss, 0x1000);
    assert_eq!(h.init_sp, 0xFFFE);
    assert_eq!(h.init_ip, 0x0100);
    assert_eq!(h.init_cs, 0x0020);
    assert_eq!(h.relocation_table_offset, 50);
    assert_eq!(h.oem_id, Some(0x1111));
    assert_eq!(h.oem_info, Some(0x2222));
    assert_eq!(h.new_header_start, Some(0x80));
    assert_eq!(
        h.relocation_tables,
        vec![
            RelocationTable { offset: 0x10, segment: 1 },
            RelocationTable { offset: 0x20, segment: 2 }
        ]
    );
    assert!(h.header_code.is_empty());
    assert_eq!(bst.pos(), 0x60);
    assert_eq!(MZ::signature(), Signature::MZ);
}

#[test]
fn mz_header_without_following_relocations() {
    let mut buf = sample_header();
    put(&mut buf, 0x16, 0x40);
    put(&mut buf, 0x06, 0);
    let mut bst = ByteStream::new(buf);
    let h = MZ::read(&mut bst).unwrap();
    assert!(h.relocation_tables.is_empty());
    assert_eq!(bst.pos(), 50);
}

#[test]
fn format_detection() {
    let mut bst = ByteStream::new(b"xxNE".to_vec());
    assert_eq!(format_after_header(&bst), None);
    bst.set_pos(2);
    assert_eq!(format_after_header(&bst), Some(Signature::NE));
    bst.set_pos(3);
    assert_eq!(format_after_header(&bst), None);
}

#[test]
fn truncated_mz_header() {
    let mut buf = sample_header();
    buf.truncate(0x30);
    let mut bst = ByteStream::new(buf);
    assert!(matches!(MZ::read(&mut bst), Err(EmuError::BufferUnderrun)));
}

#[test]
fn relocation_entry() {
    let mut bst = ByteStream::new(vec![0x34, 0x12, 0x78, 0x56, 0x00]);
    assert_eq!(RelocationTable::read(&mut bst), Ok(RelocationTable { offset: 0x1234, segment: 0x5678 }));
    assert_eq!(RelocationTable::read(&mut bst), Err(EmuError::BufferUnderrun));
}

#[test]
fn new_executable_signature() {
    let mut bst = ByteStream::new(b"NE".to_vec());
    let ne = NewExecutable::read(&mut bst);
    assert_eq!(ne.signature(), Signature::NE);
}

#[test]
fn lenient_listing_skips_bad_bytes() {
    let lines = parse_code_lenient(&vec![0x90, 0x50, 0xB8, 0x01]);
    assert_eq!(lines, vec!["db 0x90", "push ax", "db 0xB8", "db 0x1"]);
}
