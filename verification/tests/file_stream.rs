use text_editor::file_stream::{FileStream, IoError};

#[test]
fn save_writes_the_utf8_bytes_of_the_text() {
    assert_eq!(FileStream::save(""), Vec::<u8>::new());
    assert_eq!(FileStream::save("abc\n"), vec![0x61, 0x62, 0x63, 0x0a]);
    assert_eq!(
        FileStream::save("h\u{e9} \u{20ac} \u{1f600}"),
        vec![0x68, 0xc3, 0xa9, 0x20, 0xe2, 0x82, 0xac, 0x20, 0xf0, 0x9f, 0x98, 0x80]
    );
}

#[test]
fn open_reads_utf8_bytes_as_text() {
    assert_eq!(FileStream::open(Vec::new()), Ok(String::new()));
    assert_eq!(FileStream::open(vec![0x61, 0x62, 0x63, 0x0a]), Ok(String::from("abc\n")));
    assert_eq!(
        FileStream::open(vec![0x68, 0xc3, 0xa9, 0x20, 0xe2, 0x82, 0xac, 0x20, 0xf0, 0x9f, 0x98, 0x80]),
        Ok(String::from("h\u{e9} \u{20ac} \u{1f600}"))
    );
}

#[test]
fn open_refuses_bytes_that_are_not_utf8() {
    // A byte that never occurs in UTF-8.
    assert_eq!(FileStream::open(vec![0x61, 0xff, 0x62]), Err(IoError::Unreadable));
    // A continuation byte with nothing before it.
    assert_eq!(FileStream::open(vec![0x80]), Err(IoError::Unreadable));
    // A sequence that is cut short.
    assert_eq!(FileStream::open(vec![0xe2, 0x82]), Err(IoError::Unreadable));
    // An overlong encoding of NUL.
    assert_eq!(FileStream::open(vec![0xc0, 0x80]), Err(IoError::Unreadable));
    // A surrogate.
    assert_eq!(FileStream::open(vec![0xed, 0xa0, 0x80]), Err(IoError::Unreadable));
    // A value beyond the last scalar.
    assert_eq!(FileStream::open(vec![0xf4, 0x90, 0x80, 0x80]), Err(IoError::Unreadable));
}

#[test]
fn what_is_saved_is_opened_as_the_same_text() {
    let texts = [
        "",
        "plain",
        "two\nlines\r\n",
        "tabs\tand\0nul",
        "gr\u{fc}\u{df}e, \u{4e16}\u{754c}, \u{1f980}",
        "\u{feff}with a byte order mark",
    ];
    for text in texts {
        assert_eq!(FileStream::open(FileStream::save(text)), Ok(String::from(text)));
    }
}

#[test]
fn what_is_opened_is_saved_as_the_same_bytes() {
    let files: [&[u8]; 3] = [b"", b"plain\n", &[0xe4, 0xb8, 0x96, 0xe7, 0x95, 0x8c]];
    for bytes in files {
        let text = FileStream::open(bytes.to_vec()).unwrap();
        assert_eq!(FileStream::save(&text), bytes.to_vec());
    }
}

#[test]
fn the_two_errors_differ() {
    assert_ne!(IoError::Unreadable, IoError::Unwritable);
    assert_eq!(format!("{:?}", IoError::Unwritable), "Unwritable");
}
