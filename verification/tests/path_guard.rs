use rftp::path::{
    check_canonical, check_plain_name, is_within, join_paths, leaf_name, make_candidate,
    parent_path, relative_to,
};
use rftp::user::{PathError, PathGuard, SessionError, TransferType, User, UserStatus};
use rftp::session::{TransferMode, TransferSession};

/// The directories of the tree that the guard is tried on.
const DIRS: [&str; 5] = ["/", "/tmp", "/tmp/test_root", "/tmp/test_root/test", "/tmp/test_root/test/test"];

/// What a file system with those directories and no links finds for a path.
fn canonical(path: &[u8]) -> Option<Vec<u8>> {
    let mut at: Vec<&[u8]> = Vec::new();
    for part in path.split(|b| *b == b'/') {
        if part.is_empty() || part == b"." {
            continue;
        }
        if part == b".." {
            at.pop();
            continue;
        }
        at.push(part);
        let so_far = format!("/{}", String::from_utf8(at.join(&b'/')).unwrap());
        if !DIRS.contains(&so_far.as_str()) {
            return None;
        }
    }
    let mut out = Vec::new();
    for part in &at {
        out.push(b'/');
        out.extend_from_slice(part);
    }
    if out.is_empty() {
        out.push(b'/');
    }
    Some(out)
}

fn cwd(pg: &mut PathGuard, path: &str) -> Result<(), PathError> {
    let found = canonical(&pg.join(path.as_bytes()));
    pg.cwd(path.as_bytes(), found.as_deref())
}

#[test]
fn test_path_guard() {
    let test_root = String::from("/tmp/test_root");

    let mut pg = PathGuard::new(test_root.as_bytes()).unwrap();
    assert_eq!(pg.pwd(), b"/");

    cwd(&mut pg, "test").unwrap();
    assert_eq!(pg.pwd(), b"test");
    cwd(&mut pg, "test").unwrap();
    assert_eq!(pg.pwd(), b"test/test");
    cwd(&mut pg, "..").unwrap();
    assert_eq!(pg.pwd(), b"test");
    cwd(&mut pg, "..").unwrap();
    assert_eq!(pg.pwd(), b"/");
    cwd(&mut pg, "test").unwrap();
    assert_eq!(pg.pwd(), b"test");
    cwd(&mut pg, "/").unwrap();
    assert_eq!(pg.pwd(), b"/");
    cwd(&mut pg, "test").unwrap();
    assert_eq!(pg.pwd(), b"test");
    cwd(&mut pg, "/test").unwrap();
    assert_eq!(pg.pwd(), b"test");
    cwd(&mut pg, "/").unwrap();
    assert_eq!(pg.pwd(), b"/");
    cwd(&mut pg, "test").unwrap();
    assert_eq!(pg.pwd(), b"test");
    cwd(&mut pg, "/test/test").unwrap();
    assert_eq!(pg.pwd(), b"test/test");
    cwd(&mut pg, "/test/..").unwrap();
    assert_eq!(pg.pwd(), b"/");

    cwd(&mut pg, "test3").unwrap_err();
    cwd(&mut pg, "/tmp").unwrap_err();
}

#[test]
fn the_guard_says_why_it_refuses() {
    let mut pg = PathGuard::new(b"/tmp/test_root").unwrap();
    assert_eq!(cwd(&mut pg, "test3"), Err(PathError::NotFound));
    assert_eq!(cwd(&mut pg, ".."), Err(PathError::OutsideRoot));
    assert_eq!(cwd(&mut pg, "../.."), Err(PathError::OutsideRoot));
    assert_eq!(cwd(&mut pg, "../test_root/../../tmp"), Err(PathError::OutsideRoot));
    assert_eq!(pg.pwd, b"".to_vec());
    cwd(&mut pg, "test").unwrap();
    assert_eq!(cwd(&mut pg, "../.."), Err(PathError::OutsideRoot));
    assert_eq!(cwd(&mut pg, "nothing"), Err(PathError::NotFound));
    assert_eq!(pg.pwd, b"test".to_vec());
    assert_eq!(pg.cwd(b".", None), Ok(()));
    assert_eq!(pg.pwd, b"test".to_vec());
    assert_eq!(pg.enter(None), Err(PathError::NotFound));
    assert_eq!(pg.resolve(None), Err(PathError::NotFound));
    assert_eq!(pg.resolve(Some(b"/tmp/test_root")), Ok(b"/tmp/test_root".to_vec()));
    assert_eq!(pg.resolve(Some(b"/tmp/test_root/x/y")), Ok(b"/tmp/test_root/x/y".to_vec()));
    assert_eq!(pg.resolve(Some(b"/tmp/test_rootx")), Err(PathError::OutsideRoot));
    assert_eq!(pg.resolve(Some(b"/tmp/test_roo")), Err(PathError::OutsideRoot));
    assert_eq!(pg.resolve(Some(b"/tmp/test_root/../x")), Err(PathError::OutsideRoot));
    assert_eq!(pg.resolve(Some(b"/tmp/test_root/")), Err(PathError::OutsideRoot));
    assert_eq!(pg.resolve(Some(b"/tmp/test_root//x")), Err(PathError::OutsideRoot));
    assert_eq!(pg.resolve(Some(b"/tmp/test_root/./x")), Err(PathError::OutsideRoot));
    assert_eq!(pg.resolve(Some(b"tmp/test_root/x")), Err(PathError::OutsideRoot));
    assert_eq!(pg.resolve(Some(b"")), Err(PathError::OutsideRoot));
    assert_eq!(pg.resolve(Some(b"/")), Err(PathError::OutsideRoot));
    assert_eq!(PathError::NotFound.message(), "Path not found");
    assert_eq!(PathError::OutsideRoot.message(), "Path not allowed");
    assert_eq!(PathError::InvalidRoot.message(), "Invalid root path");
}

#[test]
fn the_root_must_be_canonical() {
    for bad in [&b""[..], b"tmp", b"./", b"/tmp/", b"//", b"/a//b", b"/a/./b", b"/a/../b", b"/a/.", b"/a/..", b"/..", b"/."] {
        assert_eq!(PathGuard::new(bad).unwrap_err(), PathError::InvalidRoot);
        assert!(!check_canonical(bad));
    }
    for good in [&b"/"[..], b"/a", b"/a/b", b"/.a", b"/a./..b/...", b"/a b/\xff"] {
        let pg = PathGuard::new(good).unwrap();
        assert_eq!(pg.root, good.to_vec());
        assert_eq!(pg.pwd, b"".to_vec());
        assert!(check_canonical(good));
    }
}

#[test]
fn the_file_system_root_as_root() {
    let mut pg = PathGuard::new(b"/").unwrap();
    assert_eq!(pg.join(b"tmp"), b"/tmp".to_vec());
    assert_eq!(pg.join(b"/tmp/"), b"/tmp".to_vec());
    assert_eq!(pg.join(b""), b"/".to_vec());
    assert_eq!(pg.cwd(b"tmp", Some(b"/tmp")), Ok(()));
    assert_eq!(pg.pwd(), b"tmp".to_vec());
    assert_eq!(pg.join(b"x"), b"/tmp/x".to_vec());
    assert_eq!(pg.cwd(b"..", Some(b"/")), Ok(()));
    assert_eq!(pg.pwd(), b"/".to_vec());
}

#[test]
fn paths_are_joined_below_the_root() {
    let mut pg = PathGuard::new(b"/srv/ftp").unwrap();
    assert_eq!(pg.join(b""), b"/srv/ftp".to_vec());
    assert_eq!(pg.join(b"a"), b"/srv/ftp/a".to_vec());
    assert_eq!(pg.join(b"a/"), b"/srv/ftp/a".to_vec());
    assert_eq!(pg.join(b"a///"), b"/srv/ftp/a".to_vec());
    assert_eq!(pg.join(b"/"), b"/srv/ftp".to_vec());
    assert_eq!(pg.join(b"///"), b"/srv/ftp".to_vec());
    assert_eq!(pg.join(b"/a"), b"/srv/ftp/a".to_vec());
    assert_eq!(pg.join(b"//a/b//"), b"/srv/ftp/a/b".to_vec());
    assert_eq!(pg.join(b"../../etc"), b"/srv/ftp/../../etc".to_vec());
    assert_eq!(pg.join(b"/etc/passwd"), b"/srv/ftp/etc/passwd".to_vec());
    pg.enter(Some(b"/srv/ftp/x/y")).unwrap();
    assert_eq!(pg.pwd, b"x/y".to_vec());
    assert_eq!(pg.join(b""), b"/srv/ftp/x/y".to_vec());
    assert_eq!(pg.join(b"a"), b"/srv/ftp/x/y/a".to_vec());
    assert_eq!(pg.join(b".."), b"/srv/ftp/x/y/..".to_vec());
    assert_eq!(pg.join(b"/a"), b"/srv/ftp/a".to_vec());
    assert_eq!(make_candidate(b"/r", b"p", b"t/"), b"/r/p/t".to_vec());
}

#[test]
fn path_pieces() {
    assert_eq!(join_paths(b"/a", b"b"), b"/a/b".to_vec());
    assert_eq!(join_paths(b"/", b"b"), b"/b".to_vec());
    assert_eq!(join_paths(b"/a", b""), b"/a".to_vec());
    assert_eq!(join_paths(b"", b"b"), b"/b".to_vec());
    assert_eq!(parent_path(b"/a/b"), b"/a".to_vec());
    assert_eq!(parent_path(b"/a"), b"/".to_vec());
    assert_eq!(parent_path(b"/"), b"/".to_vec());
    assert_eq!(parent_path(b"a"), b"/".to_vec());
    assert_eq!(parent_path(b"/a/b/.."), b"/a/b".to_vec());
    assert_eq!(leaf_name(b"/a/b"), b"b".to_vec());
    assert_eq!(leaf_name(b"/a/"), b"".to_vec());
    assert_eq!(leaf_name(b"a"), b"a".to_vec());
    assert_eq!(leaf_name(b"/"), b"".to_vec());
    assert!(check_plain_name(b"a"));
    assert!(check_plain_name(b"..."));
    assert!(check_plain_name(b".a"));
    assert!(!check_plain_name(b""));
    assert!(!check_plain_name(b"."));
    assert!(!check_plain_name(b".."));
    assert!(!check_plain_name(b"a/b"));
    assert!(!check_plain_name(b"/"));
    assert!(is_within(b"/a", b"/a"));
    assert!(is_within(b"/a", b"/a/b"));
    assert!(!is_within(b"/a", b"/ab"));
    assert!(!is_within(b"/a", b"/"));
    assert!(is_within(b"/", b"/a"));
    assert!(is_within(b"/", b"/"));
    assert_eq!(relative_to(b"/a", b"/a/b/c"), b"b/c".to_vec());
    assert_eq!(relative_to(b"/a", b"/a"), b"".to_vec());
    assert_eq!(relative_to(b"/", b"/b/c"), b"b/c".to_vec());
}

#[test]
fn users() {
    let user: User<u8, u8> = User::new(b"bob".to_vec(), b"/srv").unwrap();
    assert_eq!(user.username, b"bob".to_vec());
    assert_eq!(user.status, UserStatus::Logging);
    assert_eq!(user.trans_type, TransferType::ASCII);
    assert!(user.session.is_none());
    assert!(user.rename_from.is_none());
    assert_eq!(user.pwd(), b"".to_vec());
    assert_eq!(user.rendering_pwd(), b"/".to_vec());
    assert_eq!(User::<u8, u8>::new(b"bob".to_vec(), b"srv").unwrap_err(), PathError::InvalidRoot);
    assert_eq!(User::<u8, u8>::new_anonymous(b"/srv/").unwrap_err(), PathError::InvalidRoot);

    let mut user: User<u8, u8> = User::new_anonymous(b"/srv").unwrap();
    assert_eq!(user.username, b"anonymous".to_vec());
    assert_eq!(user.status, UserStatus::Active);
    assert_eq!(user.get_session().unwrap_err(), SessionError::NoSession);
    user.cwd(b"a/b", Some(b"/srv/a/b")).unwrap();
    assert_eq!(user.pwd(), b"a/b".to_vec());
    assert_eq!(user.rendering_pwd(), b"a/b".to_vec());
    assert_eq!(user.cwd(b"/x", Some(b"/x")), Err(PathError::OutsideRoot));
    assert_eq!(user.cwd(b".", Some(b"/x")), Ok(()));
    assert_eq!(user.pwd(), b"a/b".to_vec());

    user.set_new_session(TransferSession::new(TransferMode::Port(1)));
    {
        let session = user.get_session().unwrap();
        assert_eq!(session.get_stream(), Some(&1));
        assert_eq!(session.get_listener(), None);
        assert_eq!(session.total_size, 0);
        assert_eq!(session.finished_size, 0);
        assert_eq!(session.offset, 0);
        assert!(session.file_name.is_empty());
        assert!(!session.finished);
        assert!(!session.aborted);
    }
    user.set_new_session(TransferSession::new(TransferMode::Passive(2)));
    assert_eq!(user.get_session().unwrap().get_stream(), Some(&2));
    user.set_new_session(TransferSession::new(TransferMode::PendingPassive(3)));
    assert_eq!(user.get_session().unwrap().get_stream(), None);
    assert_eq!(user.get_session().unwrap().get_listener(), Some(&3));
}

#[test]
fn a_guard_that_was_tampered_with_is_not_sound() {
    let mut pg = PathGuard::new(b"/srv/ftp").unwrap();
    assert!(pg.is_sound());
    pg.enter(Some(b"/srv/ftp/a/b")).unwrap();
    assert!(pg.is_sound());
    pg.pwd = b"../..".to_vec();
    assert!(!pg.is_sound());
    pg.pwd = b"a/".to_vec();
    assert!(!pg.is_sound());
    pg.pwd = b"/a".to_vec();
    assert!(!pg.is_sound());
    pg.pwd = b"a".to_vec();
    assert!(pg.is_sound());
    pg.root = b"/srv/ftp/".to_vec();
    assert!(!pg.is_sound());
    pg.root = b"/".to_vec();
    assert!(pg.is_sound());
}
