use rftp::arg_parser::Args;
use rftp::commands::{FtpCommand, HostPort};
use rftp::ftp::FtpServer;
use rftp::listing::Entry;
use rftp::protocol::{Action, Event, FileStat, Probe, Task};
use rftp::server::{ConfigError, Connection, Server};
use rftp::session::TransferMode;
use rftp::user::UserStatus;
use std::collections::BTreeMap;

/// A file system and a network in memory, which carry out what the server
/// asks for.
struct World {
    files: BTreeMap<Vec<u8>, Vec<u8>>,
    dirs: Vec<Vec<u8>>,
    /// What the client sends on the control channel, chunk by chunk.
    input: Vec<Vec<u8>>,
    /// What the client sends on the control channel once a block has moved.
    urgent: Option<Vec<u8>>,
    /// What the client sends on the data channel.
    upload: Vec<u8>,
    /// What the client received on the data channel.
    download: Vec<u8>,
    /// The replies on the control channel, as they went out.
    replies: Vec<String>,
    /// Ports that cannot be bound.
    taken_ports: Vec<u16>,
    client_dials: bool,
    waiting_client: bool,
    reading: Option<(Vec<u8>, usize)>,
    writing: Option<Vec<u8>>,
    blocks: usize,
    closed: bool,
}

fn split(path: &[u8]) -> Vec<Vec<u8>> {
    path.split(|b| *b == b'/').filter(|c| !c.is_empty()).map(|c| c.to_vec()).collect()
}

fn unsplit(parts: &[Vec<u8>]) -> Vec<u8> {
    if parts.is_empty() {
        return b"/".to_vec();
    }
    let mut out = Vec::new();
    for p in parts {
        out.push(b'/');
        out.extend_from_slice(p);
    }
    out
}

impl World {
    fn new() -> World {
        World {
            files: BTreeMap::new(),
            dirs: vec![b"/".to_vec(), b"/etc".to_vec(), b"/srv".to_vec(), b"/srv/ftp".to_vec()],
            input: Vec::new(),
            urgent: None,
            upload: Vec::new(),
            download: Vec::new(),
            replies: Vec::new(),
            taken_ports: Vec::new(),
            client_dials: true,
            waiting_client: false,
            reading: None,
            writing: None,
            blocks: 0,
            closed: false,
        }
    }

    fn is_dir(&self, path: &[u8]) -> bool {
        self.dirs.iter().any(|d| d.as_slice() == path)
    }

    /// The canonical form of a path, as far as its every step exists.
    fn canonical(&self, path: &[u8]) -> Option<Vec<u8>> {
        let mut at: Vec<Vec<u8>> = Vec::new();
        for part in split(path) {
            if part == b"." {
                continue;
            }
            if part == b".." {
                at.pop();
                continue;
            }
            if !self.is_dir(&unsplit(&at)) {
                return None;
            }
            at.push(part);
        }
        let found = unsplit(&at);
        if self.is_dir(&found) || self.files.contains_key(&found) {
            Some(found)
        } else {
            None
        }
    }

    fn stat(&self, path: &[u8]) -> Option<FileStat> {
        let found = self.canonical(path)?;
        let is_dir = self.is_dir(&found);
        let size = self.files.get(&found).map(|f| f.len() as u64).unwrap_or(0);
        Some(FileStat { path: found, is_dir, size, mtime: 86_400 })
    }

    fn entries(&self, dir: &[u8]) -> Vec<Entry> {
        let mut out = Vec::new();
        for d in &self.dirs {
            if d.len() > 1 && unsplit(&split(d)[..split(d).len() - 1]) == dir {
                out.push(Entry {
                    name: split(d).last().unwrap().clone(),
                    is_dir: true,
                    size: 0,
                    mtime: 86_400,
                });
            }
        }
        for (f, data) in &self.files {
            if unsplit(&split(f)[..split(f).len() - 1]) == dir {
                out.push(Entry {
                    name: split(f).last().unwrap().clone(),
                    is_dir: false,
                    size: data.len() as u64,
                    mtime: 86_400,
                });
            }
        }
        out
    }

    fn say(&mut self, reply: &rftp::reply::Reply) {
        self.replies.push(String::from_utf8(reply.render()).unwrap());
    }

    /// Carries out one action and reports what came of it; `None` once the
    /// connection has ended or the client has no more to say.
    fn perform(&mut self, action: Action) -> Option<Event<u32, u32>> {
        match action {
            Action::Read => {
                if self.waiting_client && self.client_dials {
                    self.waiting_client = false;
                    return Some(Event::Accepted(Some(3)));
                }
                if self.input.is_empty() {
                    None
                } else {
                    Some(Event::Received(self.input.remove(0)))
                }
            }
            Action::Reply(r) => {
                self.say(&r);
                Some(Event::Resume)
            }
            Action::Close(r) => {
                self.say(&r);
                self.closed = true;
                None
            }
            Action::Hangup => {
                self.closed = true;
                None
            }
            Action::Probe { path, parent } => {
                let target = self.stat(&path);
                let parent = self.canonical(&parent).filter(|p| self.is_dir(p));
                Some(Event::Probed(Probe { target, parent }))
            }
            Action::ReadDir { path } => Some(Event::Listed(Some(self.entries(&path)))),
            Action::MakeDir { path } => {
                self.dirs.push(path);
                Some(Event::Done(true))
            }
            Action::RemoveDir { path } => {
                let empty = self.entries(&path).is_empty();
                if empty {
                    self.dirs.retain(|d| *d != path);
                }
                Some(Event::Done(empty))
            }
            Action::RemoveFile { path } => Some(Event::Done(self.files.remove(&path).is_some())),
            Action::Rename { from, to } => match self.files.remove(&from) {
                Some(data) => {
                    self.files.insert(to, data);
                    Some(Event::Done(true))
                }
                None => Some(Event::Done(false)),
            },
            Action::Connect(_) => Some(Event::Connected(Some(1))),
            Action::Bind { port } => {
                if self.taken_ports.contains(&port) {
                    Some(Event::Bound(None))
                } else {
                    self.waiting_client = true;
                    Some(Event::Bound(Some((
                        2,
                        HostPort { h1: 127, h2: 0, h3: 0, h4: 1, port },
                    ))))
                }
            }
            Action::Accept => {
                self.waiting_client = false;
                if self.client_dials {
                    Some(Event::Accepted(Some(3)))
                } else {
                    Some(Event::Accepted(None))
                }
            }
            Action::OpenRead { reply, path, offset } => {
                self.say(&reply);
                if self.files.contains_key(&path) {
                    self.reading = Some((path, offset as usize));
                    Some(Event::Done(true))
                } else {
                    Some(Event::Done(false))
                }
            }
            Action::OpenWrite { reply, path, offset } => {
                self.say(&reply);
                let file = self.files.entry(path.clone()).or_default();
                file.truncate(offset as usize);
                self.writing = Some(path);
                Some(Event::Done(true))
            }
            Action::SendList { reply, data } => {
                self.say(&reply);
                let n = data.len() as u64;
                self.download.extend_from_slice(&data);
                Some(Event::Moved(n))
            }
            Action::Block => {
                if self.blocks > 0 {
                    if let Some(bytes) = self.urgent.take() {
                        return Some(Event::Received(bytes));
                    }
                }
                self.blocks += 1;
                if let Some((path, at)) = self.reading.take() {
                    let file = &self.files[&path];
                    let end = (at + 4).min(file.len());
                    self.download.extend_from_slice(&file[at..end]);
                    self.reading = Some((path, end));
                    return Some(Event::Moved((end - at) as u64));
                }
                if let Some(path) = self.writing.clone() {
                    let n = self.upload.len().min(4);
                    let block: Vec<u8> = self.upload.drain(..n).collect();
                    self.files.get_mut(&path).unwrap().extend_from_slice(&block);
                    return Some(Event::Moved(n as u64));
                }
                Some(Event::DataFailed)
            }
            Action::Finish(r) => {
                self.reading = None;
                self.writing = None;
                self.blocks = 0;
                self.say(&r);
                Some(Event::Resume)
            }
        }
    }
}

fn server() -> Server {
    Server::new(
        Args::default(),
        Some(FileStat { path: b"/srv/ftp".to_vec(), is_dir: true, size: 0, mtime: 0 }),
    )
    .unwrap()
}

/// Runs a connection from its greeting until the client has no more to say
/// or the connection has ended.
fn run(world: &mut World, lines: &[&str]) -> Connection<u32, u32> {
    let server = server();
    let (mut conn, first) = server.accept::<u32, u32>().unwrap();
    go_on(world, &server, &mut conn, first, lines);
    conn
}

fn go_on(
    world: &mut World,
    server: &Server,
    conn: &mut Connection<u32, u32>,
    first: Action,
    lines: &[&str],
) {
    for l in lines {
        world.input.push(l.as_bytes().to_vec());
    }
    let mut action = first;
    let mut steps = 0;
    while let Some(event) = world.perform(action) {
        action = server.handle(conn, event);
        steps += 1;
        assert!(steps < 10_000);
    }
}

#[test]
fn anonymous_login_syst_quit() {
    let mut world = World::new();
    let conn = run(
        &mut world,
        &["USER anonymous\r\n", "PASS x@y\r\n", "SYST\r\n", "QUIT\r\n", "NOOP\r\n"],
    );
    assert_eq!(
        world.replies,
        vec![
            "220 FTP server ready.\r\n",
            "331 User name okay, need password.\r\n",
            "230 User logged in, proceed.\r\n",
            "215 UNIX Type: L8\r\n",
            "221 Goodbye.\r\n",
        ]
    );
    assert!(world.closed);
    assert!(conn.user.session.is_none());
    assert_eq!(conn.user.username, b"anonymous".to_vec());
    assert_eq!(conn.user.status, UserStatus::Active);
}

#[test]
fn pasv_list_of_empty_directory() {
    let mut world = World::new();
    let conn = run(&mut world, &["PASV\r\n", "LIST\r\n"]);
    assert_eq!(
        world.replies,
        vec![
            "220 FTP server ready.\r\n",
            "227 Entering Passive Mode (127,0,0,1,192,0)\r\n",
            "150 Opening ASCII mode data connection for file list\r\n",
            "226 Transfer complete.\r\n",
        ]
    );
    assert!(world.download.is_empty());
    let session = conn.user.session.as_ref().unwrap();
    assert!(session.finished);
    assert!(!session.aborted);
    assert!(matches!(session.mode, TransferMode::Passive(3)));
}

#[test]
fn list_before_the_client_has_dialled_waits_for_it() {
    let mut world = World::new();
    let server = server();
    let (mut conn, first) = server.accept::<u32, u32>().unwrap();
    world.client_dials = false;
    go_on(&mut world, &server, &mut conn, first, &["PASV\r\n"]);
    assert!(matches!(
        conn.user.session.as_ref().unwrap().mode,
        TransferMode::PendingPassive(2)
    ));
    let action = server.handle(&mut conn, Event::Received(b"NLST\r\n".to_vec()));
    assert!(matches!(action, Action::Probe { .. }));
    let event = world.perform(action).unwrap();
    let action = server.handle(&mut conn, event);
    assert_eq!(action, Action::ReadDir { path: b"/srv/ftp".to_vec() });
    let action = server.handle(
        &mut conn,
        Event::Listed(Some(vec![Entry { name: b"a".to_vec(), is_dir: false, size: 1, mtime: 0 }])),
    );
    assert_eq!(action, Action::Accept);
    assert!(matches!(conn.task, Task::Awaiting(_)));
    let action = server.handle(&mut conn, Event::Accepted(Some(8)));
    match action {
        Action::SendList { reply, data } => {
            assert_eq!(reply.code, 150);
            assert_eq!(data, b"a\r\n".to_vec());
        }
        other => panic!("{:?}", other),
    }
    assert!(matches!(conn.user.session.as_ref().unwrap().mode, TransferMode::Passive(8)));
}

#[test]
fn the_wait_for_the_client_can_run_out() {
    let mut world = World::new();
    world.client_dials = false;
    run(&mut world, &["PASV\r\n", "LIST\r\n", "NOOP\r\n"]);
    assert_eq!(
        world.replies[2..],
        ["425 Can't open data connection.\r\n".to_string(), "200 NOOP ok.\r\n".to_string()]
    );
}

#[test]
fn stor_then_retr() {
    let mut world = World::new();
    world.upload = b"ABCD".to_vec();
    let conn = run(&mut world, &["PASV\r\n", "STOR hello.bin\r\n", "PASV\r\n", "RETR hello.bin\r\n"]);
    assert_eq!(
        world.replies,
        vec![
            "220 FTP server ready.\r\n",
            "227 Entering Passive Mode (127,0,0,1,192,0)\r\n",
            "150 Opening BINARY mode data connection for hello.bin.\r\n",
            "226 Transfer complete.\r\n",
            "227 Entering Passive Mode (127,0,0,1,192,0)\r\n",
            "150 Opening BINARY mode data connection for hello.bin.\r\n",
            "226 Transfer complete.\r\n",
        ]
    );
    assert_eq!(world.files[&b"/srv/ftp/hello.bin".to_vec()], b"ABCD".to_vec());
    assert_eq!(world.download, b"ABCD".to_vec());
    let session = conn.user.session.as_ref().unwrap();
    assert_eq!(session.finished_size, 4);
    assert_eq!(session.file_name, b"hello.bin".to_vec());
    assert!(session.finished);
}

#[test]
fn stor_of_an_existing_file_is_refused() {
    let mut world = World::new();
    world.files.insert(b"/srv/ftp/f".to_vec(), b"old".to_vec());
    world.upload = b"new".to_vec();
    run(&mut world, &["PASV\r\n", "STOR f\r\n"]);
    assert_eq!(world.replies[2], "550 Permission denied, the file exists.\r\n");
    assert_eq!(world.files[&b"/srv/ftp/f".to_vec()], b"old".to_vec());
}

#[test]
fn stor_onto_a_directory_is_refused() {
    let mut world = World::new();
    world.dirs.push(b"/srv/ftp/d".to_vec());
    run(&mut world, &["PASV\r\n", "STOR d\r\n", "APPE d\r\n"]);
    assert_eq!(world.replies[2], "550 Permission denied, the path is a directory.\r\n");
    assert_eq!(world.replies[3], "550 Permission denied, the path is a directory.\r\n");
}

#[test]
fn stor_with_an_offset_past_the_end_goes_on_at_the_end() {
    let mut world = World::new();
    world.files.insert(b"/srv/ftp/f".to_vec(), b"0123456789".to_vec());
    world.upload = b"AB".to_vec();
    run(&mut world, &["PASV\r\n", "REST 400\r\n", "STOR f\r\n"]);
    assert_eq!(world.replies[2], "350 Restart marker accepted.\r\n");
    assert_eq!(world.replies[4], "226 Transfer complete.\r\n");
    assert_eq!(world.files[&b"/srv/ftp/f".to_vec()], b"0123456789AB".to_vec());
}

#[test]
fn stor_with_an_offset_cuts_the_file_there() {
    let mut world = World::new();
    world.files.insert(b"/srv/ftp/f".to_vec(), b"0123456789".to_vec());
    world.upload = b"AB".to_vec();
    run(&mut world, &["PASV\r\n", "REST 3\r\n", "STOR f\r\n"]);
    assert_eq!(world.files[&b"/srv/ftp/f".to_vec()], b"012AB".to_vec());
}

#[test]
fn appe_writes_behind_what_is_there() {
    let mut world = World::new();
    world.files.insert(b"/srv/ftp/f".to_vec(), b"0123".to_vec());
    world.upload = b"AB".to_vec();
    run(&mut world, &["PASV\r\n", "APPE f\r\n", "PASV\r\n", "APPE g\r\n"]);
    assert_eq!(world.files[&b"/srv/ftp/f".to_vec()], b"0123AB".to_vec());
    assert_eq!(world.files[&b"/srv/ftp/g".to_vec()], b"".to_vec());
}

#[test]
fn stou_stores_under_a_fresh_name() {
    let mut world = World::new();
    world.upload = b"ABCD".to_vec();
    let conn = run(&mut world, &["PASV\r\n", "STOU\r\n"]);
    assert_eq!(world.files.len(), 1);
    let (path, data) = world.files.iter().next().unwrap();
    assert_eq!(data, &b"ABCD".to_vec());
    assert!(path.starts_with(b"/srv/ftp/"));
    let name = &path[b"/srv/ftp/".len()..];
    assert_eq!(name.len(), 36);
    assert!(name.iter().all(|b| *b == b'-' || b.is_ascii_digit() || (b'a'..=b'f').contains(b)));
    assert_eq!(name[8], b'-');
    assert_eq!(conn.user.session.as_ref().unwrap().file_name, name.to_vec());
    assert_eq!(
        world.replies[3],
        format!("226 Transfer complete. Stored as {}\r\n", String::from_utf8(name.to_vec()).unwrap())
    );
}

#[test]
fn two_stou_get_two_names() {
    let server = server();
    let (mut conn, _) = server.accept::<u32, u32>().unwrap();
    let a = server.store_unique(&mut conn.user);
    let b = server.store_unique(&mut conn.user);
    match (a.action, b.action) {
        (Action::Probe { path: p1, .. }, Action::Probe { path: p2, .. }) => assert_ne!(p1, p2),
        other => panic!("{:?}", other),
    }
}

#[test]
fn path_escape_is_denied() {
    let mut world = World::new();
    let conn = run(&mut world, &["CWD ../../etc\r\n", "PWD\r\n"]);
    assert_eq!(
        world.replies[1..],
        [
            "550 Permission denied.\r\n".to_string(),
            "257 \"/\" is the current directory.\r\n".to_string()
        ]
    );
    assert_eq!(conn.user.pwd(), b"".to_vec());
}

#[test]
fn a_missing_directory_is_denied_like_an_escape() {
    let mut world = World::new();
    run(&mut world, &["CWD nowhere\r\n", "CWD ../../../../x\r\n"]);
    assert_eq!(world.replies[1], "550 Permission denied.\r\n");
    assert_eq!(world.replies[2], "550 Permission denied.\r\n");
}

#[test]
fn cwd_then_pwd() {
    let mut world = World::new();
    world.dirs.push(b"/srv/ftp/a".to_vec());
    world.dirs.push(b"/srv/ftp/a/b".to_vec());
    let conn = run(
        &mut world,
        &[
            "CWD a/./b/../b/\r\n",
            "PWD\r\n",
            "CWD .\r\n",
            "PWD\r\n",
            "CDUP\r\n",
            "PWD\r\n",
            "CWD /\r\n",
            "PWD\r\n",
            "CDUP\r\n",
            "PWD\r\n",
        ],
    );
    assert_eq!(
        world.replies[1..],
        [
            "250 Requested file action okay, completed.\r\n".to_string(),
            "257 \"a/b\" is the current directory.\r\n".to_string(),
            "250 Requested file action okay, completed.\r\n".to_string(),
            "257 \"a/b\" is the current directory.\r\n".to_string(),
            "250 Requested file action okay, completed.\r\n".to_string(),
            "257 \"a\" is the current directory.\r\n".to_string(),
            "250 Requested file action okay, completed.\r\n".to_string(),
            "257 \"/\" is the current directory.\r\n".to_string(),
            "550 Permission denied.\r\n".to_string(),
            "257 \"/\" is the current directory.\r\n".to_string(),
        ]
    );
    assert_eq!(conn.user.rendering_pwd(), b"/".to_vec());
}

#[test]
fn rest_and_retr_resume_at_the_offset() {
    let mut world = World::new();
    world.files.insert(b"/srv/ftp/f".to_vec(), b"0123456789".to_vec());
    let conn = run(&mut world, &["PASV\r\n", "REST 4\r\n", "RETR f\r\n"]);
    assert_eq!(world.replies[2], "350 Restart marker accepted.\r\n");
    assert_eq!(world.replies[3], "150 Opening BINARY mode data connection for f.\r\n");
    assert_eq!(world.replies[4], "226 Transfer complete.\r\n");
    assert_eq!(world.download.len(), 6);
    assert_eq!(world.download, b"456789".to_vec());
    assert_eq!(conn.user.session.as_ref().unwrap().offset, 0);
}

#[test]
fn retr_at_or_past_the_end_is_out_of_range() {
    let mut world = World::new();
    world.files.insert(b"/srv/ftp/f".to_vec(), b"0123456789".to_vec());
    run(&mut world, &["PASV\r\n", "REST 10\r\n", "RETR f\r\n"]);
    assert_eq!(world.replies[3], "550 Offset out of range.\r\n");
    assert!(world.download.is_empty());
}

#[test]
fn rest_needs_a_data_channel() {
    let mut world = World::new();
    run(&mut world, &["REST 4\r\n"]);
    assert_eq!(world.replies[1], "503 Bad sequence of commands.\r\n");
}

#[test]
fn abor_during_stor() {
    let mut world = World::new();
    world.upload = b"0123456789ABCDEF".to_vec();
    world.urgent = Some(b"ABOR\r\n".to_vec());
    let conn = run(&mut world, &["PORT 127,0,0,1,4,1\r\n", "STOR big\r\n", "NOOP\r\n"]);
    assert_eq!(
        world.replies,
        vec![
            "220 FTP server ready.\r\n",
            "200 PORT command successful.\r\n",
            "150 Opening BINARY mode data connection for big.\r\n",
            "226 ABOR command processed.\r\n",
            "226 Connection closed; transfer aborted.\r\n",
            "200 NOOP ok.\r\n",
        ]
    );
    assert_eq!(world.files[&b"/srv/ftp/big".to_vec()], b"0123".to_vec());
    let session = conn.user.session.as_ref().unwrap();
    assert!(session.aborted);
    assert!(!session.finished);
    assert_eq!(session.finished_size, 4);
    assert!(!world.closed);
}

#[test]
fn a_command_that_comes_during_a_transfer_waits_for_its_end() {
    let mut world = World::new();
    world.upload = b"0123456789".to_vec();
    world.urgent = Some(b"NOOP\r\nSY".to_vec());
    run(&mut world, &["PORT 127,0,0,1,4,1\r\n", "STOR big\r\n", "ST\r\n"]);
    assert_eq!(
        world.replies[2..],
        [
            "150 Opening BINARY mode data connection for big.\r\n".to_string(),
            "226 Transfer complete.\r\n".to_string(),
            "200 NOOP ok.\r\n".to_string(),
            "215 UNIX Type: L8\r\n".to_string(),
        ]
    );
    assert_eq!(world.files[&b"/srv/ftp/big".to_vec()], b"0123456789".to_vec());
}

#[test]
fn abor_before_a_transfer_ends_it_at_once() {
    let mut world = World::new();
    world.files.insert(b"/srv/ftp/f".to_vec(), b"0123456789".to_vec());
    run(&mut world, &["PASV\r\n", "ABOR\r\n", "RETR f\r\n"]);
    assert_eq!(world.replies[2], "226 ABOR command processed.\r\n");
    assert_eq!(world.replies[3], "226 Connection closed; transfer aborted.\r\n");
    assert!(world.download.is_empty());
}

#[test]
fn abor_without_a_session_is_answered() {
    let mut world = World::new();
    let conn = run(&mut world, &["ABOR\r\n"]);
    assert_eq!(world.replies[1], "226 ABOR command processed.\r\n");
    assert!(conn.user.session.is_none());
}

#[test]
fn a_failing_data_channel_gives_426_and_drops_the_session() {
    let server = server();
    let (mut conn, _) = server.accept::<u32, u32>().unwrap();
    assert_eq!(server.handle(&mut conn, Event::Received(b"PORT 10,0,0,2,1,2\r\n".to_vec())),
        Action::Connect(HostPort { h1: 10, h2: 0, h3: 0, h4: 2, port: 258 }));
    let action = server.handle(&mut conn, Event::Connected(Some(5)));
    assert!(matches!(action, Action::Reply(_)));
    assert!(matches!(conn.user.session.as_ref().unwrap().mode, TransferMode::Port(5)));
    assert_eq!(conn.user.get_session().unwrap().get_stream(), Some(&5));
    assert_eq!(server.handle(&mut conn, Event::Resume), Action::Read);
    let action = server.handle(&mut conn, Event::Received(b"RETR f\r\n".to_vec()));
    assert_eq!(
        action,
        Action::Probe { path: b"/srv/ftp/f".to_vec(), parent: b"/srv/ftp".to_vec() }
    );
    let action = server.handle(
        &mut conn,
        Event::Probed(Probe {
            target: Some(FileStat { path: b"/srv/ftp/f".to_vec(), is_dir: false, size: 9, mtime: 1 }),
            parent: Some(b"/srv/ftp".to_vec()),
        }),
    );
    assert!(matches!(action, Action::OpenRead { offset: 0, .. }));
    assert_eq!(server.handle(&mut conn, Event::Done(true)), Action::Block);
    assert_eq!(server.handle(&mut conn, Event::Moved(5)), Action::Block);
    match server.handle(&mut conn, Event::DataFailed) {
        Action::Finish(r) => assert_eq!(r.render(), b"426 Connection closed; transfer aborted.\r\n".to_vec()),
        other => panic!("{:?}", other),
    }
    assert!(conn.user.session.is_none());
    assert!(conn.user.get_session().is_err());
    assert_eq!(conn.task, Task::Idle);
}

#[test]
fn a_transfer_without_a_data_channel_is_425() {
    let mut world = World::new();
    world.files.insert(b"/srv/ftp/f".to_vec(), b"0123456789".to_vec());
    run(&mut world, &["RETR f\r\n", "LIST\r\n", "PASV\r\n", "RETR f\r\n", "RETR f\r\n"]);
    assert_eq!(world.replies[1], "425 Can't open data connection.\r\n");
    assert_eq!(world.replies[2], "425 Can't open data connection.\r\n");
    assert_eq!(world.replies[5], "226 Transfer complete.\r\n");
    assert_eq!(world.replies[6], "425 Can't open data connection.\r\n");
}

#[test]
fn a_file_that_cannot_be_opened_is_550() {
    let server = server();
    let (mut conn, _) = server.accept::<u32, u32>().unwrap();
    server.handle(&mut conn, Event::Received(b"PORT 10,0,0,2,1,2\r\nRETR f\r\n".to_vec()));
    server.handle(&mut conn, Event::Connected(Some(5)));
    let action = server.handle(&mut conn, Event::Resume);
    assert!(matches!(action, Action::Probe { .. }));
    server.handle(
        &mut conn,
        Event::Probed(Probe {
            target: Some(FileStat { path: b"/srv/ftp/f".to_vec(), is_dir: false, size: 9, mtime: 1 }),
            parent: None,
        }),
    );
    match server.handle(&mut conn, Event::Done(false)) {
        Action::Finish(r) => assert_eq!(r.render(), b"550 Failed to open file.\r\n".to_vec()),
        other => panic!("{:?}", other),
    }
    assert!(conn.user.session.as_ref().unwrap().finished);
}

#[test]
fn retr_of_what_is_missing_outside_or_a_directory() {
    let mut world = World::new();
    world.dirs.push(b"/srv/ftp/d".to_vec());
    world.files.insert(b"/etc/passwd".to_vec(), b"root".to_vec());
    run(&mut world, &["PASV\r\n", "RETR nothing\r\n", "RETR ../../etc/passwd\r\n", "RETR d\r\n"]);
    assert_eq!(world.replies[2], "553 Not found.\r\n");
    assert_eq!(world.replies[3], "550 Permission denied.\r\n");
    assert_eq!(world.replies[4], "550 Permission denied.\r\n");
    assert!(world.download.is_empty());
}

#[test]
fn commands_need_a_login_once_user_is_given() {
    let mut world = World::new();
    let conn = run(
        &mut world,
        &["USER bob\r\n", "PWD\r\n", "FEAT\r\n", "SYST\r\n", "NOOP\r\n", "PASV\r\n", "PASS s\r\n", "PWD\r\n"],
    );
    assert_eq!(
        world.replies[1..],
        [
            "331 User name okay, need password.\r\n".to_string(),
            "530 Not logged in.\r\n".to_string(),
            "211-Features:\r\n REST STREAM\r\n MDTM\r\n211 End.\r\n".to_string(),
            "215 UNIX Type: L8\r\n".to_string(),
            "200 NOOP ok.\r\n".to_string(),
            "530 Not logged in.\r\n".to_string(),
            "230 User logged in, proceed.\r\n".to_string(),
            "257 \"/\" is the current directory.\r\n".to_string(),
        ]
    );
    assert_eq!(conn.user.username, b"bob".to_vec());
}

#[test]
fn type_and_other_plain_commands() {
    let mut world = World::new();
    let conn = run(
        &mut world,
        &[
            "TYPE I\r\n", "type a\r\n", "TYPE i\r\n", "TYPE E\r\n", "ALLO 100\r\n", "ALLO x\r\n",
            "PORT 1,2,3\r\n", "REST -1\r\n", "MODE S\r\n", "STRU F\r\n", "SITE x\r\n", "HELP\r\n",
            "ACCT x\r\n", "REIN\r\n", "XYZZY\r\n", "\r\n",
        ],
    );
    assert_eq!(
        world.replies[1..],
        [
            "200 Type set to Binary.\r\n".to_string(),
            "200 Type set to ASCII.\r\n".to_string(),
            "200 Type set to Binary.\r\n".to_string(),
            "504 Command not implemented for that parameter.\r\n".to_string(),
            "200 ALLO command okay.\r\n".to_string(),
            "501 Syntax error in parameters or arguments.\r\n".to_string(),
            "501 Syntax error in parameters or arguments.\r\n".to_string(),
            "501 Syntax error in parameters or arguments.\r\n".to_string(),
            "502 Command not implemented.\r\n".to_string(),
            "502 Command not implemented.\r\n".to_string(),
            "502 Command not implemented.\r\n".to_string(),
            "502 Command not implemented.\r\n".to_string(),
            "502 Command not implemented.\r\n".to_string(),
            "502 Command not implemented.\r\n".to_string(),
            "200 NOOP ok.\r\n".to_string(),
            "200 NOOP ok.\r\n".to_string(),
        ]
    );
    assert_eq!(conn.user.trans_type, rftp::user::TransferType::Binary);
}

#[test]
fn mkd_rmd_dele_and_rename() {
    let mut world = World::new();
    world.files.insert(b"/srv/ftp/f".to_vec(), b"x".to_vec());
    let conn = run(
        &mut world,
        &[
            "MKD d\r\n", "MKD d\r\n", "MKD ../x\r\n", "MKD no/where\r\n", "RNTO g\r\n", "RNFR f\r\n",
            "RNTO d/g\r\n", "RMD d\r\n", "DELE d/g\r\n", "DELE d/g\r\n", "RMD d\r\n", "RMD d\r\n",
            "RNFR f\r\n", "DELE ../../etc\r\n", "RMD /../..\r\n",
        ],
    );
    assert_eq!(
        world.replies[1..],
        [
            "257 \"d\" created.\r\n".to_string(),
            "550 Permission denied.\r\n".to_string(),
            "550 Permission denied.\r\n".to_string(),
            "550 Permission denied.\r\n".to_string(),
            "503 Bad sequence of commands.\r\n".to_string(),
            "350 Requested file action pending further information.\r\n".to_string(),
            "250 Requested file action okay, completed.\r\n".to_string(),
            "550 Failed to remove directory.\r\n".to_string(),
            "250 Requested file action okay, completed.\r\n".to_string(),
            "553 Not found.\r\n".to_string(),
            "250 Requested file action okay, completed.\r\n".to_string(),
            "553 Not found.\r\n".to_string(),
            "553 Not found.\r\n".to_string(),
            "550 Permission denied.\r\n".to_string(),
            "550 Permission denied.\r\n".to_string(),
        ]
    );
    assert!(world.files.is_empty());
    assert!(conn.user.rename_from.is_none());
    assert!(!world.is_dir(b"/srv/ftp/d"));
    assert!(world.is_dir(b"/etc"));
}

#[test]
fn a_failed_rename_is_550() {
    let server = server();
    let (mut conn, _) = server.accept::<u32, u32>().unwrap();
    conn.user.rename_from = Some(b"/srv/ftp/a".to_vec());
    server.handle(&mut conn, Event::Received(b"RNTO b\r\n".to_vec()));
    let action = server.handle(
        &mut conn,
        Event::Probed(Probe { target: None, parent: Some(b"/srv/ftp".to_vec()) }),
    );
    assert_eq!(
        action,
        Action::Rename { from: b"/srv/ftp/a".to_vec(), to: b"/srv/ftp/b".to_vec() }
    );
    match server.handle(&mut conn, Event::Done(false)) {
        Action::Reply(r) => assert_eq!(r.render(), b"550 Failed to rename.\r\n".to_vec()),
        other => panic!("{:?}", other),
    }
    assert_eq!(server.handle(&mut conn, Event::Resume), Action::Read);
    server.handle(&mut conn, Event::Received(b"DELE a\r\n".to_vec()));
    let action = server.handle(
        &mut conn,
        Event::Probed(Probe {
            target: Some(FileStat { path: b"/srv/ftp/a".to_vec(), is_dir: false, size: 0, mtime: 0 }),
            parent: None,
        }),
    );
    assert_eq!(action, Action::RemoveFile { path: b"/srv/ftp/a".to_vec() });
    match server.handle(&mut conn, Event::Done(false)) {
        Action::Reply(r) => assert_eq!(r.render(), b"550 Failed to remove file.\r\n".to_vec()),
        other => panic!("{:?}", other),
    }
}

#[test]
fn list_of_a_missing_path_opens_no_data_connection() {
    let mut world = World::new();
    run(&mut world, &["PASV\r\n", "LIST nothing\r\n", "NLST ../..\r\n", "STAT nothing\r\n"]);
    assert_eq!(
        world.replies[2..],
        [
            "550 No such file or directory.\r\n".to_string(),
            "550 Permission denied.\r\n".to_string(),
            "553 Not found.\r\n".to_string(),
        ]
    );
    assert!(world.download.is_empty());
}

#[test]
fn nlst_and_list_of_a_directory_and_of_a_file() {
    let mut world = World::new();
    world.dirs.push(b"/srv/ftp/d".to_vec());
    world.files.insert(b"/srv/ftp/f".to_vec(), b"0123456789".to_vec());
    run(&mut world, &["PASV\r\n", "NLST\r\n", "PASV\r\n", "NLST f\r\n", "PASV\r\n", "LIST f\r\n"]);
    let text = String::from_utf8(world.download.clone()).unwrap();
    let lines: Vec<&str> = text.split("\r\n").collect();
    assert_eq!(lines.len(), 5);
    assert_eq!(lines[0], "d");
    assert_eq!(lines[1], "f");
    assert_eq!(lines[2], "f");
    assert!(lines[3].starts_with("-rw-r--r-- 1 owner group            10 "));
    assert!(lines[3].ends_with(" f"));
    assert_eq!(lines[3].len(), "-rw-r--r-- 1 owner group            10 ".len() + 12 + 2);
    assert_eq!(lines[4], "");
}

#[test]
fn stat_with_and_without_a_path() {
    let mut world = World::new();
    world.dirs.push(b"/srv/ftp/d".to_vec());
    run(&mut world, &["TYPE I\r\n", "STAT\r\n", "STAT /\r\n"]);
    assert_eq!(
        world.replies[2],
        "211-Status of the server:\r\nUser: anonymous\r\nCurrent directory: /\r\nTYPE: Binary\r\n211 End of status.\r\n"
    );
    let listing = &world.replies[3];
    assert!(listing.starts_with("213-Status of /:\r\ndrwxr-xr-x 1 owner group             0 "));
    assert!(listing.ends_with(" d\r\n213 End of status.\r\n"));
}

#[test]
fn a_directory_that_cannot_be_read_is_550() {
    let server = server();
    let (mut conn, _) = server.accept::<u32, u32>().unwrap();
    server.handle(&mut conn, Event::Received(b"STAT .\r\n".to_vec()));
    let action = server.handle(
        &mut conn,
        Event::Probed(Probe {
            target: Some(FileStat { path: b"/srv/ftp".to_vec(), is_dir: true, size: 0, mtime: 0 }),
            parent: None,
        }),
    );
    assert_eq!(action, Action::ReadDir { path: b"/srv/ftp".to_vec() });
    match server.handle(&mut conn, Event::Listed(None)) {
        Action::Reply(r) => assert_eq!(r.render(), b"550 Failed to read directory.\r\n".to_vec()),
        other => panic!("{:?}", other),
    }
}

#[test]
fn mdtm_answers_fourteen_digits() {
    let mut world = World::new();
    world.files.insert(b"/srv/ftp/f".to_vec(), b"x".to_vec());
    run(&mut world, &["MDTM f\r\n", "MDTM g\r\n", "MDTM /../x\r\n"]);
    let reply = &world.replies[1];
    assert!(reply.starts_with("213 "));
    assert_eq!(reply.len(), 4 + 14 + 2);
    assert!(reply[4..18].bytes().all(|b| b.is_ascii_digit()));
    assert!(reply[4..8] == *"1970" || reply[4..8] == *"1969");
    assert_eq!(world.replies[2], "553 Not found.\r\n");
    assert_eq!(world.replies[3], "553 Not found.\r\n");
}

#[test]
fn pasv_tries_the_next_port_and_gives_up_at_the_end_of_the_range() {
    let mut world = World::new();
    world.taken_ports = vec![49152, 49153];
    run(&mut world, &["PASV\r\n"]);
    assert_eq!(world.replies[1], "227 Entering Passive Mode (127,0,0,1,192,2)\r\n");

    let server = server();
    let (mut conn, _) = server.accept::<u32, u32>().unwrap();
    assert_eq!(
        server.handle(&mut conn, Event::Received(b"PASV\r\n".to_vec())),
        Action::Bind { port: 49152 }
    );
    let mut tried = 1;
    let mut action = server.handle(&mut conn, Event::Bound(None));
    while let Action::Bind { port } = action {
        assert_eq!(port as u32, 49152 + tried);
        tried += 1;
        action = server.handle(&mut conn, Event::Bound(None));
    }
    assert_eq!(tried, 16383);
    match action {
        Action::Reply(r) => assert_eq!(r.render(), b"425 Can't open data connection.\r\n".to_vec()),
        other => panic!("{:?}", other),
    }
    assert!(conn.user.session.is_none());
}

#[test]
fn a_second_pasv_replaces_the_session() {
    let mut world = World::new();
    world.client_dials = false;
    let conn = run(&mut world, &["PORT 127,0,0,1,4,1\r\n", "REST 5\r\n", "PASV\r\n"]);
    let session = conn.user.session.as_ref().unwrap();
    assert!(matches!(session.mode, TransferMode::PendingPassive(2)));
    assert_eq!(session.offset, 0);
    assert_eq!(session.get_stream(), None);
    assert_eq!(session.get_listener(), Some(&2));
}

#[test]
fn a_failed_port_keeps_what_was() {
    let server = server();
    let (mut conn, _) = server.accept::<u32, u32>().unwrap();
    server.handle(&mut conn, Event::Received(b"PORT 127,0,0,1,4,1\r\n".to_vec()));
    match server.handle(&mut conn, Event::Connected(None)) {
        Action::Reply(r) => assert_eq!(r.render(), b"425 Can't open data connection.\r\n".to_vec()),
        other => panic!("{:?}", other),
    }
    assert!(conn.user.session.is_none());
}

#[test]
fn lines_are_put_together_from_pieces_and_cut_at_their_end() {
    let mut world = World::new();
    run(&mut world, &["NO", "OP\r", "\nSYST\r\nNOOP\nPW", "D\r\nQUIT"]);
    assert_eq!(
        world.replies[1..],
        [
            "200 NOOP ok.\r\n".to_string(),
            "215 UNIX Type: L8\r\n".to_string(),
            "200 NOOP ok.\r\n".to_string(),
            "257 \"/\" is the current directory.\r\n".to_string(),
        ]
    );
    assert!(!world.closed);
}

#[test]
fn a_line_without_an_end_is_cut_at_2048_bytes() {
    let server = server();
    let (mut conn, _) = server.accept::<u32, u32>().unwrap();
    let mut long = b"USER ".to_vec();
    long.extend(std::iter::repeat(b'a').take(2047));
    assert_eq!(server.handle(&mut conn, Event::Received(long[..2047].to_vec())), Action::Read);
    let action = server.handle(&mut conn, Event::Received(long[2047..].to_vec()));
    assert!(matches!(action, Action::Reply(_)));
    assert_eq!(conn.user.username.len(), 2043);
    assert_eq!(conn.inbox.len(), 4);
}

#[test]
fn the_end_of_the_control_channel_ends_the_connection() {
    let server = server();
    let (mut conn, _) = server.accept::<u32, u32>().unwrap();
    server.handle(&mut conn, Event::Received(b"PORT 127,0,0,1,4,1\r\n".to_vec()));
    server.handle(&mut conn, Event::Connected(Some(1)));
    assert!(conn.user.session.is_some());
    assert_eq!(server.handle(&mut conn, Event::Closed), Action::Hangup);
    assert!(conn.user.session.is_none());
    assert_eq!(conn.task, Task::Idle);
}

#[test]
fn an_event_that_nothing_waits_for_gives_the_connection_up() {
    let server = server();
    let (mut conn, _) = server.accept::<u32, u32>().unwrap();
    assert_eq!(server.handle(&mut conn, Event::Done(true)), Action::Hangup);
    let (mut conn, _) = server.accept::<u32, u32>().unwrap();
    server.handle(&mut conn, Event::Received(b"CWD x\r\n".to_vec()));
    assert_eq!(server.handle(&mut conn, Event::Received(b"NOOP\r\n".to_vec())), Action::Hangup);
    assert_eq!(conn.task, Task::Idle);
}

#[test]
fn every_reply_begins_with_its_code() {
    let mut world = World::new();
    world.files.insert(b"/srv/ftp/f".to_vec(), b"0123456789".to_vec());
    run(
        &mut world,
        &[
            "USER a\r\n", "PASS b\r\n", "PASV\r\n", "LIST\r\n", "FEAT\r\n", "STAT\r\n", "STAT f\r\n",
            "MDTM f\r\n", "RETR f\r\n", "PORT 1,1,1,1,1,1\r\n", "RETR f\r\n", "QUIT\r\n",
        ],
    );
    assert_eq!(world.replies.len(), 15);
    for r in &world.replies {
        let code: u16 = r[..3].parse().unwrap();
        assert!((100..600).contains(&code));
        assert!(&r[3..4] == " " || &r[3..4] == "-");
        assert!(r.ends_with("\r\n"));
    }
}

#[test]
fn the_server_needs_a_canonical_directory() {
    let stat = |path: &[u8], is_dir: bool| Some(FileStat { path: path.to_vec(), is_dir, size: 0, mtime: 0 });
    assert_eq!(Server::new(Args::default(), None).unwrap_err(), ConfigError::RootNotFound);
    assert_eq!(
        Server::new(Args::default(), stat(b"/srv/ftp", false)).unwrap_err(),
        ConfigError::RootNotDirectory
    );
    for bad in [&b"srv"[..], b"", b"/srv/", b"/srv//ftp", b"/srv/./ftp", b"/srv/../ftp", b"/srv/..", b"/."] {
        assert_eq!(
            Server::new(Args::default(), stat(bad, true)).unwrap_err(),
            ConfigError::RootNotCanonical
        );
    }
    let server = Server::new(Args::default(), stat(b"/", true)).unwrap();
    assert_eq!(server.root, b"/".to_vec());
    assert_eq!(server.host, "127.0.0.1");
    assert_eq!(server.port, 8180);
    let args = Args { folder: "x".to_string(), host: "0.0.0.0".to_string(), port: 21 };
    let server = Server::new(args, stat(b"/srv/.ftp/..x", true)).unwrap();
    assert_eq!(server.host, "0.0.0.0");
    assert_eq!(server.port, 21);
    assert_eq!(server.generate_pasv_addr(None), Some(49152));
    assert_eq!(server.generate_pasv_addr(Some(49152)), Some(49153));
    assert_eq!(server.generate_pasv_addr(Some(65533)), Some(65534));
    assert_eq!(server.generate_pasv_addr(Some(65534)), None);
    assert_eq!(server.generate_pasv_addr(Some(65535)), None);
    assert_eq!(server.generate_pasv_addr(Some(80)), None);
}

#[test]
fn a_server_with_a_bad_root_accepts_nobody() {
    let server = Server { host: String::new(), port: 1, root: b"relative".to_vec() };
    assert!(server.accept::<u32, u32>().is_err());
}

#[test]
fn defaults() {
    let args = Args::default();
    assert_eq!(args.folder, "./");
    assert_eq!(args.host, "127.0.0.1");
    assert_eq!(args.port, 8180);
}

#[test]
fn dispatch_and_resume_step_by_step() {
    let server = server();
    let (mut conn, _) = server.accept::<u32, u32>().unwrap();
    let step = server.dispatch(&mut conn.user, FtpCommand::MKD(b"d".to_vec()));
    assert_eq!(
        step.action,
        Action::Probe { path: b"/srv/ftp/d".to_vec(), parent: b"/srv/ftp".to_vec() }
    );
    assert_eq!(step.task, Task::Probing { cmd: FtpCommand::MKD(b"d".to_vec()), unique: false });
    let step = server.resume(
        &mut conn.user,
        step.task,
        Event::Probed(Probe { target: None, parent: Some(b"/srv/ftp".to_vec()) }),
    );
    assert_eq!(step.action, Action::MakeDir { path: b"/srv/ftp/d".to_vec() });
    assert_eq!(step.task, Task::Changing(FtpCommand::MKD(b"d".to_vec())));
    let step = server.resume(&mut conn.user, step.task, Event::Done(true));
    match step.action {
        Action::Reply(r) => assert_eq!(r.render(), b"257 \"d\" created.\r\n".to_vec()),
        other => panic!("{:?}", other),
    }
    assert_eq!(step.task, Task::Idle);

    let step = server.dispatch(&mut conn.user, FtpCommand::PWD);
    match step.action {
        Action::Reply(r) => {
            assert_eq!(r.code, 257);
            assert_eq!(r.text, b"\"/\" is the current directory.".to_vec());
        }
        other => panic!("{:?}", other),
    }
    let step = server.dispatch(&mut conn.user, FtpCommand::STOU);
    assert!(matches!(step.task, Task::Probing { cmd: FtpCommand::STOR(_), unique: true }));
    let step = server.resume(&mut conn.user, Task::Idle, Event::Moved(1));
    assert_eq!(step.action, Action::Hangup);
    assert!(conn.is_sound());
}
