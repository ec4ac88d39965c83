use feather_md::text::{decode_file_contents, text_from_read};

#[test]
fn utf8_contents_are_kept() {
    assert_eq!(decode_file_contents("# 标题\n".as_bytes().to_vec()), Some("# 标题\n".to_string()));
    assert_eq!(decode_file_contents(Vec::new()), Some(String::new()));
}

#[test]
fn other_contents_are_read_as_gbk() {
    assert_eq!(decode_file_contents(vec![0xD6, 0xD0, 0xCE, 0xC4]), Some("中文".to_string()));
    assert_eq!(decode_file_contents(vec![b'#', b' ', 0xB2, 0xE2, 0xCA, 0xD4]), Some("# 测试".to_string()));
}

#[test]
fn neither_utf8_nor_gbk_is_an_error() {
    assert_eq!(decode_file_contents(vec![0xFF]), None);
    assert_eq!(decode_file_contents(vec![b'a', 0x81]), None);
    assert_eq!(
        text_from_read(Ok(vec![0xFF])),
        Err("Cannot detect the file's encoding (tried UTF-8 and GBK)".to_string())
    );
}

#[test]
fn a_byte_order_mark_selects_utf16() {
    assert_eq!(decode_file_contents(vec![0xFF, 0xFE, 0x41, 0x00]), Some("A".to_string()));
}

#[test]
fn read_outcomes() {
    assert_eq!(text_from_read(Ok(b"hello".to_vec())), Ok("hello".to_string()));
    assert_eq!(
        text_from_read(Err("No such file or directory (os error 2)".to_string())),
        Err("Cannot read file: No such file or directory (os error 2)".to_string())
    );
}
