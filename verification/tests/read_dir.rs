use crosvm_macos::read_dir::{strip_padding, ReadDir};

#[test]
fn read_dir_padded_cstrings() {
    assert_eq!(strip_padding(b".\0\0\0\0\0\0\0"), b".");
    assert_eq!(strip_padding(b"..\0\0\0\0\0\0"), b"..");
    assert_eq!(strip_padding(b"normal cstring\0"), b"normal cstring");
    assert_eq!(strip_padding(b"\0\0\0\0"), b"");
    assert_eq!(strip_padding(b"interior\0nul bytes\0\0\0"), b"interior");
}

#[test]
fn padded_cstrings() {
    assert_eq!(strip_padding(b".\0\0\0\0\0\0\0"), b".");
    assert_eq!(strip_padding(b"..\0\0\0\0\0\0"), b"..");
    assert_eq!(strip_padding(b"normal cstring\0"), b"normal cstring");
    assert_eq!(strip_padding(b"\0\0\0\0"), b"");
    assert_eq!(strip_padding(b"interior\0nul bytes\0\0\0"), b"interior");
}

fn entry(ino: u64, offset: u64, type_: u8, name: &[u8]) -> Vec<u8> {
    let mut record = Vec::new();
    record.extend_from_slice(&ino.to_le_bytes());
    record.extend_from_slice(&offset.to_le_bytes());
    let len = (19 + name.len() + 1 + 7) / 8 * 8;
    record.extend_from_slice(&(len as u16).to_le_bytes());
    record.push(type_);
    record.extend_from_slice(name);
    record.resize(len, 0);
    record
}

#[test]
fn entries_in_order() {
    let mut buf = entry(7, 1, 4, b".");
    buf.extend_from_slice(&entry(8, 2, 8, b"file"));
    let end = buf.len();
    let mut dir = ReadDir::new(buf, end);
    assert_eq!(dir.remaining(), end);
    let first = dir.next().unwrap();
    assert_eq!((first.ino, first.offset, first.type_), (7, 1, 4));
    assert_eq!(first.name, b".");
    let second = dir.next().unwrap();
    assert_eq!((second.ino, second.offset, second.type_), (8, 2, 8));
    assert_eq!(second.name, b"file");
    assert!(dir.next().is_none());
    assert_eq!(dir.remaining(), 0);
}
