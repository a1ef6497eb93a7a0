use rftp::commands::{parse_host_port, HostPort};
use rftp::listing::{file_path_to_list_item, get_list_lines, list_line, list_time, stamp_time, Entry};
use rftp::reply::{Reply, DENIED, FILE_EXISTS, GREETING, NOT_FOUND, TRANSFER_ABORTED, DATA_FAILED};
use rftp::text::{
    append, append_str, bytes_of, copy_range, index_of, is_word, parse_decimal, push_decimal,
    same_bytes, starts_with, to_upper, trimmed_end, trimmed_start,
};

fn text(r: Reply) -> String {
    String::from_utf8(r.render()).unwrap()
}

#[test]
fn replies_of_one_line() {
    assert_eq!(text(Reply::canned(GREETING)), "220 FTP server ready.\r\n");
    assert_eq!(text(Reply::canned(DENIED)), "550 Permission denied.\r\n");
    assert_eq!(text(Reply::canned(NOT_FOUND)), "553 Not found.\r\n");
    assert_eq!(text(Reply::canned(FILE_EXISTS)), "550 Permission denied, the file exists.\r\n");
    assert_eq!(text(Reply::canned(TRANSFER_ABORTED)), "226 Connection closed; transfer aborted.\r\n");
    assert_eq!(text(Reply::canned(DATA_FAILED)), "426 Connection closed; transfer aborted.\r\n");
    assert_eq!(text(Reply::plain(200, "ok")), "200 ok\r\n");
    assert_eq!(text(Reply::new(599, Vec::new())), "599 \r\n");
    assert_eq!(text(Reply::pwd(b"/")), "257 \"/\" is the current directory.\r\n");
    assert_eq!(text(Reply::pwd(b"a/b")), "257 \"a/b\" is the current directory.\r\n");
    assert_eq!(text(Reply::created(b"d")), "257 \"d\" created.\r\n");
    assert_eq!(text(Reply::stamp(b"20240102030405".to_vec())), "213 20240102030405\r\n");
    assert_eq!(
        text(Reply::opening(b"f.bin")),
        "150 Opening BINARY mode data connection for f.bin.\r\n"
    );
    assert_eq!(text(Reply::stored(b"n")), "226 Transfer complete. Stored as n\r\n");
}

#[test]
fn the_address_of_pasv() {
    let at = |port| HostPort { h1: 127, h2: 0, h3: 0, h4: 1, port };
    assert_eq!(text(Reply::passive(at(49152))), "227 Entering Passive Mode (127,0,0,1,192,0)\r\n");
    assert_eq!(text(Reply::passive(at(65534))), "227 Entering Passive Mode (127,0,0,1,255,254)\r\n");
    assert_eq!(text(Reply::passive(at(0))), "227 Entering Passive Mode (127,0,0,1,0,0)\r\n");
    assert_eq!(
        text(Reply::passive(HostPort { h1: 10, h2: 20, h3: 230, h4: 255, port: 21 })),
        "227 Entering Passive Mode (10,20,230,255,0,21)\r\n"
    );
}

#[test]
fn replies_of_several_lines() {
    assert_eq!(text(Reply::features()), "211-Features:\r\n REST STREAM\r\n MDTM\r\n211 End.\r\n");
    assert_eq!(
        text(Reply::status(b"bob", b"a", false)),
        "211-Status of the server:\r\nUser: bob\r\nCurrent directory: a\r\nTYPE: ASCII\r\n211 End of status.\r\n"
    );
    assert_eq!(
        text(Reply::file_status(b"x y", b"one\r\ntwo\r\n".to_vec())),
        "213-Status of x y:\r\none\r\ntwo\r\n213 End of status.\r\n"
    );
    assert_eq!(
        text(Reply::multi(299, b"a".to_vec(), Vec::new(), "z")),
        "299-a\r\n299 z\r\n"
    );
    let r = Reply::features();
    assert_eq!(r.code, 211);
    assert_eq!(r.last, Some(b"End.".to_vec()));
}

fn entry(name: &str, is_dir: bool, size: u64, mtime: i64) -> Entry {
    Entry { name: name.as_bytes().to_vec(), is_dir, size, mtime }
}

#[test]
fn lines_of_a_listing() {
    let f = entry("f.txt", false, 1234, 0);
    let d = entry("dir", true, 4096, 0);
    assert_eq!(
        list_line(&f, b"Jan 02 03:04", false),
        b"-rw-r--r-- 1 owner group          1234 Jan 02 03:04 f.txt\r\n".to_vec()
    );
    assert_eq!(
        list_line(&d, b"Dec 31 23:59", false),
        b"drwxr-xr-x 1 owner group          4096 Dec 31 23:59 dir\r\n".to_vec()
    );
    assert_eq!(
        list_line(&entry("z", false, 0, 0), b"", false),
        b"-rw-r--r-- 1 owner group             0  z\r\n".to_vec()
    );
    assert_eq!(
        list_line(&entry("z", false, 1234567890123, 0), b"T", false),
        b"-rw-r--r-- 1 owner group 1234567890123 T z\r\n".to_vec()
    );
    assert_eq!(
        list_line(&entry("z", false, u64::MAX, 0), b"T", false),
        b"-rw-r--r-- 1 owner group 18446744073709551615 T z\r\n".to_vec()
    );
    assert_eq!(list_line(&f, b"Jan 02 03:04", true), b"f.txt\r\n".to_vec());
    assert_eq!(file_path_to_list_item(&d, true), b"dir\r\n".to_vec());
    let line = file_path_to_list_item(&f, false);
    assert!(line.starts_with(b"-rw-r--r-- 1 owner group          1234 "));
    assert!(line.ends_with(b" f.txt\r\n"));
    assert_eq!(line.len(), 39 + 12 + 8);
}

#[test]
fn listings() {
    assert_eq!(get_list_lines(&[], false), Vec::<u8>::new());
    assert_eq!(get_list_lines(&[], true), Vec::<u8>::new());
    let entries = [entry("b", false, 1, 0), entry("a", true, 2, 0), entry("c c", false, 3, 0)];
    assert_eq!(get_list_lines(&entries, true), b"b\r\na\r\nc c\r\n".to_vec());
    let long = String::from_utf8(get_list_lines(&entries, false)).unwrap();
    let lines: Vec<&str> = long.split("\r\n").collect();
    assert_eq!(lines.len(), 4);
    assert!(lines[0].starts_with("-rw-r--r-- 1 owner group             1 "));
    assert!(lines[0].ends_with(" b"));
    assert!(lines[1].starts_with("drwxr-xr-x 1 owner group             2 "));
    assert!(lines[1].ends_with(" a"));
    assert!(lines[2].ends_with(" c c"));
    assert_eq!(lines[3], "");
}

#[test]
fn times_are_written_by_the_clock_of_this_machine() {
    let day = 86_400;
    let t = list_time(200 * day);
    assert_eq!(t.len(), 12);
    assert_eq!(t[3], b' ');
    assert_eq!(t[6], b' ');
    assert_eq!(t[9], b':');
    assert!(t[..3].iter().all(|b| b.is_ascii_alphabetic()));
    let s = stamp_time(20_000 * day + 12 * 3600);
    assert_eq!(s.len(), 14);
    assert!(s.iter().all(|b| b.is_ascii_digit()));
    assert_eq!(&s[..4], b"2024");
    assert_ne!(stamp_time(20_000 * day), stamp_time(20_400 * day));
    assert_ne!(list_time(20_000 * day), list_time(20_100 * day));
    assert_eq!(stamp_time(-5), stamp_time(0));
    assert_eq!(stamp_time(i64::MAX), stamp_time(0));
    assert_eq!(stamp_time(i64::MIN), stamp_time(0));
    assert_eq!(list_time(253_402_300_800), list_time(0));
    assert_eq!(stamp_time(253_402_300_799 - day).len(), 14);
    assert_eq!(&stamp_time(253_402_300_799 - day)[..4], b"9999");
}

#[test]
fn numbers() {
    let mut out = b"n=".to_vec();
    push_decimal(&mut out, 0);
    push_decimal(&mut out, 7);
    push_decimal(&mut out, 10);
    push_decimal(&mut out, u64::MAX);
    assert_eq!(out, b"n=071018446744073709551615".to_vec());
    assert_eq!(parse_decimal(b"0", 255), Some(0));
    assert_eq!(parse_decimal(b"255", 255), Some(255));
    assert_eq!(parse_decimal(b"256", 255), None);
    assert_eq!(parse_decimal(b"0255", 255), Some(255));
    assert_eq!(parse_decimal(b"", 255), None);
    assert_eq!(parse_decimal(b"1a", 255), None);
    assert_eq!(parse_decimal(b" 1", 255), None);
    assert_eq!(parse_decimal(b"7", 0), None);
    assert_eq!(parse_decimal(b"0", 0), Some(0));
    assert_eq!(parse_decimal(b"18446744073709551615", u64::MAX), Some(u64::MAX));
    assert_eq!(parse_decimal(b"18446744073709551616", u64::MAX), None);
    assert_eq!(parse_decimal(b"28446744073709551615", u64::MAX), None);
}

#[test]
fn bytes() {
    assert_eq!(bytes_of("a\"b"), b"a\"b".to_vec());
    assert!(same_bytes(b"", b""));
    assert!(same_bytes(b"ab", b"ab"));
    assert!(!same_bytes(b"ab", b"aB"));
    assert!(!same_bytes(b"ab", b"abc"));
    assert!(is_word(b"USER", "USER"));
    assert!(!is_word(b"USE", "USER"));
    let mut out = b"x".to_vec();
    append(&mut out, b"yz");
    append_str(&mut out, "!");
    assert_eq!(out, b"xyz!".to_vec());
    assert_eq!(copy_range(b"abcdef", 2, 4), b"cd".to_vec());
    assert_eq!(copy_range(b"abcdef", 6, 6), b"".to_vec());
    assert!(starts_with(b"abc", b"ab"));
    assert!(starts_with(b"abc", b""));
    assert!(!starts_with(b"abc", b"abcd"));
    assert!(!starts_with(b"abc", b"b"));
    assert_eq!(to_upper(b"aZ09{`z\xe9"), b"AZ09{`Z\xe9".to_vec());
    assert_eq!(index_of(b"a b c", b' '), 1);
    assert_eq!(index_of(b"abc", b' '), 3);
    assert_eq!(index_of(b"", b' '), 0);
    assert_eq!(trimmed_end(b"a//", b'/'), 1);
    assert_eq!(trimmed_end(b"//", b'/'), 0);
    assert_eq!(trimmed_end(b"/a", b'/'), 2);
    assert_eq!(trimmed_start(b"//a/", b'/'), 2);
    assert_eq!(trimmed_start(b"//", b'/'), 2);
    assert_eq!(trimmed_start(b"a", b'/'), 0);
}

#[test]
fn what_pasv_announces_reads_back_as_port_reads_it() {
    for at in [
        HostPort { h1: 0, h2: 0, h3: 0, h4: 0, port: 0 },
        HostPort { h1: 127, h2: 0, h3: 0, h4: 1, port: 49152 },
        HostPort { h1: 255, h2: 255, h3: 255, h4: 255, port: 65535 },
        HostPort { h1: 9, h2: 10, h3: 99, h4: 100, port: 256 },
        HostPort { h1: 1, h2: 2, h3: 3, h4: 4, port: 255 },
    ] {
        let reply = Reply::passive(at);
        let text = reply.text;
        let open = text.iter().position(|b| *b == b'(').unwrap();
        assert_eq!(text[text.len() - 1], b')');
        assert_eq!(parse_host_port(&text[open + 1..text.len() - 1]), Some(at));
    }
}
