use rftp::commands::{
    empty_to_some, lookup_verb, make_command, parse_command, parse_host_port, split_at_byte,
    FtpCommand, HostPort, ProtocolError, Verb,
};

fn parsed(line: &str) -> FtpCommand {
    parse_command(line.as_bytes()).unwrap()
}

#[test]
fn commands_with_an_argument() {
    assert_eq!(parsed("USER anonymous\r\n"), FtpCommand::USER(b"anonymous".to_vec()));
    assert_eq!(parsed("PASS x@y\r\n"), FtpCommand::PASS(b"x@y".to_vec()));
    assert_eq!(parsed("ACCT a"), FtpCommand::ACCT(b"a".to_vec()));
    assert_eq!(parsed("CWD /a/b"), FtpCommand::CWD(b"/a/b".to_vec()));
    assert_eq!(parsed("TYPE I"), FtpCommand::TYPE(b"I".to_vec()));
    assert_eq!(parsed("STRU F"), FtpCommand::STRU(b"F".to_vec()));
    assert_eq!(parsed("MODE S"), FtpCommand::MODE(b"S".to_vec()));
    assert_eq!(parsed("RETR f"), FtpCommand::RETR(b"f".to_vec()));
    assert_eq!(parsed("STOR f"), FtpCommand::STOR(b"f".to_vec()));
    assert_eq!(parsed("APPE f"), FtpCommand::APPE(b"f".to_vec()));
    assert_eq!(parsed("RNFR f"), FtpCommand::RNFR(b"f".to_vec()));
    assert_eq!(parsed("RNTO f"), FtpCommand::RNTO(b"f".to_vec()));
    assert_eq!(parsed("DELE f"), FtpCommand::DELE(b"f".to_vec()));
    assert_eq!(parsed("RMD d"), FtpCommand::RMD(b"d".to_vec()));
    assert_eq!(parsed("MKD d"), FtpCommand::MKD(b"d".to_vec()));
    assert_eq!(parsed("SITE CHMOD 1"), FtpCommand::SITE(b"CHMOD 1".to_vec()));
    assert_eq!(parsed("MDTM f"), FtpCommand::MDTM(b"f".to_vec()));
    assert_eq!(parsed("USER"), FtpCommand::USER(Vec::new()));
    assert_eq!(parsed("USER "), FtpCommand::USER(Vec::new()));
}

#[test]
fn commands_without_an_argument() {
    assert_eq!(parsed("CDUP\r\n"), FtpCommand::CDUP);
    assert_eq!(parsed("QUIT\r\n"), FtpCommand::QUIT);
    assert_eq!(parsed("REIN"), FtpCommand::REIN);
    assert_eq!(parsed("PASV"), FtpCommand::PASV);
    assert_eq!(parsed("STOU"), FtpCommand::STOU);
    assert_eq!(parsed("ABOR"), FtpCommand::ABOR);
    assert_eq!(parsed("PWD"), FtpCommand::PWD);
    assert_eq!(parsed("SYST"), FtpCommand::SYST);
    assert_eq!(parsed("NOOP"), FtpCommand::NOOP);
    assert_eq!(parsed("FEAT"), FtpCommand::FEAT);
    assert_eq!(parsed("PWD ignored"), FtpCommand::PWD);
}

#[test]
fn commands_whose_path_may_be_left_out() {
    assert_eq!(parsed("LIST"), FtpCommand::LIST(None));
    assert_eq!(parsed("LIST "), FtpCommand::LIST(None));
    assert_eq!(parsed("LIST -la x"), FtpCommand::LIST(Some(b"-la x".to_vec())));
    assert_eq!(parsed("NLST"), FtpCommand::NLST(None));
    assert_eq!(parsed("NLST d"), FtpCommand::NLST(Some(b"d".to_vec())));
    assert_eq!(parsed("STAT"), FtpCommand::STAT(None));
    assert_eq!(parsed("STAT d"), FtpCommand::STAT(Some(b"d".to_vec())));
    assert_eq!(parsed("HELP"), FtpCommand::HELP(None));
    assert_eq!(parsed("HELP me"), FtpCommand::HELP(Some(b"me".to_vec())));
}

#[test]
fn the_verb_is_read_without_regard_to_case() {
    assert_eq!(parsed("user Bob"), FtpCommand::USER(b"Bob".to_vec()));
    assert_eq!(parsed("qUiT"), FtpCommand::QUIT);
    assert_eq!(parsed("retr MiXed.TXT\r\n"), FtpCommand::RETR(b"MiXed.TXT".to_vec()));
}

#[test]
fn the_argument_is_kept_as_it_stands() {
    assert_eq!(parsed("STOR  two  spaces \r\n"), FtpCommand::STOR(b" two  spaces ".to_vec()));
    assert_eq!(parsed("STOR a\rb\r\n"), FtpCommand::STOR(b"a\rb".to_vec()));
    assert_eq!(parsed("STOR a\n"), FtpCommand::STOR(b"a".to_vec()));
    assert_eq!(parsed("STOR a\r"), FtpCommand::STOR(b"a\r".to_vec()));
    assert_eq!(parsed("STOR a\n\r\n"), FtpCommand::STOR(b"a\n".to_vec()));
    assert_eq!(
        parse_command(b"MKD \xff\xfe\r\n").unwrap(),
        FtpCommand::MKD(vec![0xff, 0xfe])
    );
}

#[test]
fn an_unknown_verb_reads_as_noop() {
    assert_eq!(parsed("XYZZY 1 2 3\r\n"), FtpCommand::NOOP);
    assert_eq!(parsed(""), FtpCommand::NOOP);
    assert_eq!(parsed("\r\n"), FtpCommand::NOOP);
    assert_eq!(parsed(" USER x"), FtpCommand::NOOP);
    assert_eq!(parsed("USERS x"), FtpCommand::NOOP);
    assert_eq!(parsed("USE"), FtpCommand::NOOP);
    assert_eq!(parsed("USER\tx"), FtpCommand::NOOP);
}

#[test]
fn port_reads_six_numbers() {
    assert_eq!(
        parsed("PORT 127,0,0,1,4,1\r\n"),
        FtpCommand::PORT(HostPort { h1: 127, h2: 0, h3: 0, h4: 1, port: 1025 })
    );
    assert_eq!(
        parsed("PORT 255,255,255,255,255,255"),
        FtpCommand::PORT(HostPort { h1: 255, h2: 255, h3: 255, h4: 255, port: 65535 })
    );
    assert_eq!(
        parsed("PORT 0,0,0,0,0,0"),
        FtpCommand::PORT(HostPort { h1: 0, h2: 0, h3: 0, h4: 0, port: 0 })
    );
    assert_eq!(
        parsed("port 010,001,0,00000000000000000000000000002,1,2"),
        FtpCommand::PORT(HostPort { h1: 10, h2: 1, h3: 0, h4: 2, port: 258 })
    );
    assert_eq!(
        parse_host_port(b"192,168,1,20,200,10"),
        Some(HostPort { h1: 192, h2: 168, h3: 1, h4: 20, port: 200 * 256 + 10 })
    );
}

#[test]
fn port_refuses_what_is_not_six_numbers_below_256() {
    for bad in [
        "PORT", "PORT ", "PORT 1,2,3,4,5", "PORT 1,2,3,4,5,6,7", "PORT 256,0,0,1,1,1", "PORT 1,2,3,4,5,256",
        "PORT 1,2,3,4,5,", "PORT ,1,2,3,4,5", "PORT 1,2,3,4,5,x", "PORT 1,2,3,4, 5,6", "PORT 1.2.3.4:5",
        "PORT +1,2,3,4,5,6", "PORT -1,2,3,4,5,6", "PORT 1,2,3,4,5,6 ",
    ] {
        assert_eq!(parse_command(bad.as_bytes()), Err(ProtocolError::BadHostPort), "{}", bad);
    }
    assert_eq!(parse_host_port(b""), None);
}

#[test]
fn allo_and_rest_read_a_number() {
    assert_eq!(parsed("ALLO 0"), FtpCommand::ALLO(0));
    assert_eq!(parsed("ALLO 1024\r\n"), FtpCommand::ALLO(1024));
    assert_eq!(parsed("REST 4\r\n"), FtpCommand::REST(4));
    assert_eq!(parsed("REST 007"), FtpCommand::REST(7));
    assert_eq!(parsed("REST 18446744073709551615"), FtpCommand::REST(u64::MAX));
    assert_eq!(parsed("rest 18446744073709551614"), FtpCommand::REST(u64::MAX - 1));
    assert_eq!(parsed("ALLO 000018446744073709551615"), FtpCommand::ALLO(u64::MAX));
}

#[test]
fn allo_and_rest_refuse_what_is_no_number() {
    for bad in [
        "REST", "REST ", "REST x", "REST 4 ", "REST  4", "REST -4", "REST +4", "REST 4.0", "REST 0x10",
        "REST 18446744073709551616", "REST 99999999999999999999999", "REST 1844674407370955161a",
    ] {
        assert_eq!(parse_command(bad.as_bytes()), Err(ProtocolError::BadNumber), "{}", bad);
    }
    assert_eq!(parse_command(b"ALLO 10 R 20"), Err(ProtocolError::BadNumber));
    assert_eq!(parse_command(b"ALLO"), Err(ProtocolError::BadNumber));
}

#[test]
fn an_empty_argument_is_none() {
    assert_eq!(empty_to_some(Vec::new()), None);
    assert_eq!(empty_to_some(b" ".to_vec()), Some(b" ".to_vec()));
    assert_eq!(empty_to_some(b"abc".to_vec()), Some(b"abc".to_vec()));
}

#[test]
fn splitting_at_commas() {
    assert_eq!(split_at_byte(b"", b','), vec![Vec::<u8>::new()]);
    assert_eq!(split_at_byte(b"a", b','), vec![b"a".to_vec()]);
    assert_eq!(split_at_byte(b"a,b", b','), vec![b"a".to_vec(), b"b".to_vec()]);
    assert_eq!(
        split_at_byte(b",a,,b,", b','),
        vec![b"".to_vec(), b"a".to_vec(), b"".to_vec(), b"b".to_vec(), b"".to_vec()]
    );
}

#[test]
fn verbs_are_looked_up_in_upper_case_only() {
    assert_eq!(lookup_verb(b"USER"), Verb::USER);
    assert_eq!(lookup_verb(b"user"), Verb::Other);
    assert_eq!(lookup_verb(b"MDTM"), Verb::MDTM);
    assert_eq!(lookup_verb(b"CWD"), Verb::CWD);
    assert_eq!(lookup_verb(b""), Verb::Other);
    assert_eq!(make_command(Verb::Other, b"x".to_vec()), Ok(FtpCommand::NOOP));
    assert_eq!(make_command(Verb::REST, b"x".to_vec()), Err(ProtocolError::BadNumber));
    assert_eq!(make_command(Verb::LIST, b"".to_vec()), Ok(FtpCommand::LIST(None)));
}
