use neutron::frontend::proto::{Cursor, WT_FIXED64, WT_LEN};

#[test]
fn reads_varint() {
    let mut c = Cursor::new(&[0x96, 0x01]);
    assert_eq!(c.read_varint().unwrap(), 150);
}

#[test]
fn reads_length_delimited() {
    let mut c = Cursor::new(&[0x03, b'a', b'b', b'c']);
    let s = c.read_length_delimited().unwrap();
    assert_eq!(s, b"abc");
}

#[test]
fn reads_tag() {
    let mut c = Cursor::new(&[10]);
    let (field, wt) = c.read_tag().unwrap();
    assert_eq!(field, 1);
    assert_eq!(wt, WT_LEN);
}

#[test]
fn skips_fixed64() {
    let mut c = Cursor::new(&[0u8; 8]);
    c.skip_field(WT_FIXED64).unwrap();
    assert!(c.eof());
}
