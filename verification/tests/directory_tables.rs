use sfnt_reader::cursor::ByteCursor;
use sfnt_reader::directory::{tag_code, FontTable, TableDirectory};
use sfnt_reader::error::FontError;

fn push_u16(v: &mut Vec<u8>, x: u16) {
    v.push((x >> 8) as u8);
    v.push(x as u8);
}

fn push_u32(v: &mut Vec<u8>, x: u32) {
    v.push((x >> 24) as u8);
    v.push((x >> 16) as u8);
    v.push((x >> 8) as u8);
    v.push(x as u8);
}

fn directory_bytes(records: &[(u32, u32, u32, u32)]) -> Vec<u8> {
    let mut v = Vec::new();
    push_u32(&mut v, 0x0001_0000);
    push_u16(&mut v, records.len() as u16);
    push_u16(&mut v, 0);
    push_u16(&mut v, 0);
    push_u16(&mut v, 0);
    for &(tag, checksum, offset, length) in records {
        push_u32(&mut v, tag);
        push_u32(&mut v, checksum);
        push_u32(&mut v, offset);
        push_u32(&mut v, length);
    }
    v
}

#[test]
fn recovers_as_many_entries_as_announced() {
    let maxp = tag_code(b'm', b'a', b'x', b'p');
    let glyf = tag_code(b'g', b'l', b'y', b'f');
    let head = tag_code(b'h', b'e', b'a', b'd');
    let bytes = directory_bytes(&[(maxp, 7, 60, 6), (glyf, 8, 66, 20), (head, 9, 86, 4)]);
    let mut c = ByteCursor::new(bytes);
    let d = TableDirectory::parse(&mut c).unwrap();
    assert_eq!(d.num_tables, 3);
    assert_eq!(d.entry_count(), 3);
    assert_eq!(d.sfnt_version, 0x0001_0000);
}

#[test]
fn found_entry_carries_its_record_fields() {
    let maxp = tag_code(b'm', b'a', b'x', b'p');
    let glyf = tag_code(b'g', b'l', b'y', b'f');
    let bytes = directory_bytes(&[(maxp, 0xDEADBEEF, 44, 6), (glyf, 0x01020304, 50, 19)]);
    let mut c = ByteCursor::new(bytes);
    let d = TableDirectory::parse(&mut c).unwrap();
    let t = d.find(glyf).unwrap();
    assert_eq!(t.tag, glyf);
    assert_eq!(t.checksum, 0x01020304);
    assert_eq!(t.offset, 50);
    assert_eq!(t.length, 19);
}

#[test]
fn missing_tag_is_table_not_found() {
    let maxp = tag_code(b'm', b'a', b'x', b'p');
    let loca = tag_code(b'l', b'o', b'c', b'a');
    let bytes = directory_bytes(&[(maxp, 0, 44, 6)]);
    let mut c = ByteCursor::new(bytes);
    let d = TableDirectory::parse(&mut c).unwrap();
    assert_eq!(d.find(loca).unwrap_err(), FontError::TableNotFound);
}

#[test]
fn later_duplicate_tag_wins() {
    let maxp = tag_code(b'm', b'a', b'x', b'p');
    let bytes = directory_bytes(&[(maxp, 1, 100, 6), (maxp, 2, 200, 6)]);
    let mut c = ByteCursor::new(bytes);
    let d = TableDirectory::parse(&mut c).unwrap();
    assert_eq!(d.entry_count(), 2);
    let t = d.find(maxp).unwrap();
    assert_eq!(t.checksum, 2);
    assert_eq!(t.offset, 200);
}

#[test]
fn empty_directory_parses_and_finds_nothing() {
    let bytes = directory_bytes(&[]);
    let mut c = ByteCursor::new(bytes);
    let d = TableDirectory::parse(&mut c).unwrap();
    assert_eq!(d.num_tables, 0);
    assert_eq!(d.entry_count(), 0);
    assert_eq!(d.find(0).unwrap_err(), FontError::TableNotFound);
}

#[test]
fn short_header_is_truncated_input() {
    for len in 0..12 {
        let bytes = directory_bytes(&[])[..len].to_vec();
        let mut c = ByteCursor::new(bytes);
        assert_eq!(
            TableDirectory::parse(&mut c).unwrap_err(),
            FontError::TruncatedInput,
            "header cut at byte {len}"
        );
    }
}

#[test]
fn record_cut_at_any_boundary_is_truncated_input() {
    let maxp = tag_code(b'm', b'a', b'x', b'p');
    let glyf = tag_code(b'g', b'l', b'y', b'f');
    let whole = directory_bytes(&[(maxp, 7, 60, 6), (glyf, 8, 66, 20)]);
    for len in 12..whole.len() {
        let mut c = ByteCursor::new(whole[..len].to_vec());
        assert_eq!(
            TableDirectory::parse(&mut c).unwrap_err(),
            FontError::TruncatedInput,
            "records cut at byte {len}"
        );
    }
}

#[test]
fn table_record_constructor_keeps_fields() {
    let t = FontTable::new(5, 6, 7, 8);
    assert_eq!(t.tag, 5);
    assert_eq!(t.checksum, 6);
    assert_eq!(t.offset, 7);
    assert_eq!(t.length, 8);
}

#[test]
fn tag_code_packs_big_endian() {
    assert_eq!(tag_code(b'g', b'l', b'y', b'f'), 0x676c7966);
    assert_eq!(tag_code(0, 0, 0, 1), 1);
}
