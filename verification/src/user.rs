//! The login state of one connection and the guard that keeps its working
//! directory, and every path it asks for, inside the served root.

use crate::path::{
    below, candidate, check_canonical, is_canonical, is_within, join, lemma_below_joins_back,
    join_paths, make_candidate, relative_to, within,
};
use crate::session::{SessionView, TransferSession};
use crate::text::{bytes_of, copy_range, lit, same_bytes, DOT, SLASH};
use vstd::prelude::*;

verus! {

/// How far the login has come.
#[derive(Debug, Clone, Copy, PartialEq, Eq, Structural)]
pub enum UserStatus {
    Inactive,
    Logging,
    Active,
}

/// The representation that TYPE has set.
#[derive(Debug, Clone, Copy, PartialEq, Eq, Structural)]
pub enum TransferType {
    ASCII,
    Binary,
}

/// Why the guard refuses a path.
#[derive(Debug, Clone, Copy, PartialEq, Eq, Structural)]
pub enum PathError {
    /// The file system could not resolve the path.
    NotFound,
    /// The resolved path does not lie within the root.
    OutsideRoot,
    /// The root is not a canonical absolute path.
    InvalidRoot,
}

/// Why there is no session to hand out.
#[derive(Debug, Clone, Copy, PartialEq, Eq, Structural)]
pub enum SessionError {
    /// Neither PORT nor PASV has set up a data channel.
    NoSession,
}

impl PathError {
    /// The refusal in words.
    pub fn message(&self) -> (text: &'static str)
        ensures
            text@ == (match *self {
                PathError::NotFound => "Path not found"@,
                PathError::OutsideRoot => "Path not allowed"@,
                PathError::InvalidRoot => "Invalid root path"@,
            }),
    {
        match self {
            PathError::NotFound => "Path not found",
            PathError::OutsideRoot => "Path not allowed",
            PathError::InvalidRoot => "Invalid root path",
        }
    }
}

/// A root for the guard: canonical, and short enough that an index past its
/// end is still a machine number.
pub open spec fn valid_root(root: Seq<u8>) -> bool {
    is_canonical(root) && root.len() < usize::MAX
}

/// What holds of a root and a working directory below it at all times: the
/// root is canonical, and so is the working directory, which lies within it.
pub open spec fn guarded(root: Seq<u8>, pwd: Seq<u8>) -> bool {
    &&& valid_root(root)
    &&& is_canonical(join(root, pwd))
    &&& within(root, join(root, pwd))
    &&& pwd == below(root, join(root, pwd))
}

/// What the guard makes of the file system's answer for a path: `None`
/// where it could not resolve it, else its canonical form.
pub open spec fn resolved(root: Seq<u8>, canonical: Option<Seq<u8>>) -> Result<Seq<u8>, PathError> {
    match canonical {
        None => Err(PathError::NotFound),
        Some(c) => if is_canonical(c) && within(root, c) {
            Ok(c)
        } else {
            Err(PathError::OutsideRoot)
        },
    }
}

/// The working directory as PWD shows it: a slash for the root itself.
pub open spec fn shown(pwd: Seq<u8>) -> Seq<u8> {
    if pwd.len() == 0 {
        seq![SLASH]
    } else {
        pwd
    }
}

/// The bytes of a path that may be missing.
pub open spec fn view_slice(o: Option<&[u8]>) -> Option<Seq<u8>> {
    match o {
        Some(s) => Some(s@),
        None => None,
    }
}

/// The bytes of a path that may be missing.
pub open spec fn view_bytes(o: Option<Vec<u8>>) -> Option<Seq<u8>> {
    match o {
        Some(s) => Some(s@),
        None => None,
    }
}

/// The outcome of the guard with the path as a sequence of bytes.
pub open spec fn view_path(r: Result<Vec<u8>, PathError>) -> Result<Seq<u8>, PathError> {
    match r {
        Ok(p) => Ok(p@),
        Err(e) => Err(e),
    }
}

/// The rule that keeps a connection inside the root: the root itself and
/// the working directory below it.
#[derive(Debug)]
pub struct PathGuard {
    pub root: Vec<u8>,
    /// The working directory below the root; empty for the root itself.
    pub pwd: Vec<u8>,
}

impl PathGuard {
    /// The working directory as an absolute path.
    pub open spec fn here(&self) -> Seq<u8> {
        join(self.root@, self.pwd@)
    }

    /// The root is canonical and the working directory lies within it.
    pub open spec fn wf(&self) -> bool {
        guarded(self.root@, self.pwd@)
    }

    /// A guard for `root`, with the root as working directory. The root is
    /// taken as the file system gave it: it is not resolved here.
    pub fn new(root: &[u8]) -> (out: Result<Self, PathError>)
        ensures
            match out {
                Ok(guard) => valid_root(root@) && guard.root@ == root@ && guard.pwd@.len() == 0
                    && guard.wf(),
                Err(e) => e == PathError::InvalidRoot && !valid_root(root@),
            },
    {
        if root.len() == usize::MAX || !check_canonical(root) {
            return Err(PathError::InvalidRoot);
        }
        let guard = PathGuard { root: copy_range(root, 0, root.len()), pwd: Vec::new() };
        assert(guard.root@ =~= root@);
        assert(root@.take(root@.len() as int) =~= root@);
        assert(guard.pwd@ =~= below(root@, root@));
        Ok(guard)
    }

    /// Whether the guard is as every guard is that `new` made and `cwd`
    /// changed.
    pub fn is_sound(&self) -> (yes: bool)
        ensures
            yes == self.wf(),
    {
        if self.root.len() == usize::MAX || !check_canonical(self.root.as_slice()) {
            return false;
        }
        let here = join_paths(self.root.as_slice(), self.pwd.as_slice());
        if !check_canonical(here.as_slice()) || !is_within(self.root.as_slice(), here.as_slice()) {
            return false;
        }
        let rest = relative_to(self.root.as_slice(), here.as_slice());
        same_bytes(rest.as_slice(), self.pwd.as_slice())
    }

    /// The path to hand to the file system for `target`.
    pub fn join(&self, target: &[u8]) -> (out: Vec<u8>)
        ensures
            out@ == candidate(self.root@, self.pwd@, target@),
    {
        make_candidate(self.root.as_slice(), self.pwd.as_slice(), target)
    }

    /// Accepts the canonical form that the file system found for a path, or
    /// says why not. What is accepted is the root or lies below it.
    pub fn resolve(&self, canonical: Option<&[u8]>) -> (out: Result<Vec<u8>, PathError>)
        ensures
            view_path(out) == resolved(self.root@, view_slice(canonical)),
            out is Ok ==> is_canonical(out->Ok_0@) && within(self.root@, out->Ok_0@),
    {
        match canonical {
            None => Err(PathError::NotFound),
            Some(c) => {
                if check_canonical(c) && is_within(self.root.as_slice(), c) {
                    let p = copy_range(c, 0, c.len());
                    assert(p@ =~= c@);
                    Ok(p)
                } else {
                    Err(PathError::OutsideRoot)
                }
            },
        }
    }

    /// Changes the working directory to the canonical form that the file
    /// system found, where the guard accepts it.
    pub fn enter(&mut self, canonical: Option<&[u8]>) -> (out: Result<(), PathError>)
        requires
            old(self).wf(),
        ensures
            final(self).wf(),
            final(self).root@ == old(self).root@,
            match resolved(old(self).root@, view_slice(canonical)) {
                Ok(c) => out is Ok && final(self).pwd@ == below(old(self).root@, c)
                    && final(self).here() == c,
                Err(e) => out == Err::<(), PathError>(e) && final(self).pwd@ == old(self).pwd@,
            },
    {
        match self.resolve(canonical) {
            Ok(c) => {
                proof {
                    lemma_below_joins_back(self.root@, c@);
                }
                self.pwd = relative_to(self.root.as_slice(), c.as_slice());
                Ok(())
            },
            Err(e) => Err(e),
        }
    }

    /// Changes the working directory to what the file system found for
    /// `path`. A lone dot changes nothing and asks nothing of the answer.
    pub fn cwd(&mut self, path: &[u8], canonical: Option<&[u8]>) -> (out: Result<(), PathError>)
        requires
            old(self).wf(),
        ensures
            final(self).wf(),
            final(self).root@ == old(self).root@,
            path@ == seq![DOT] ==> out is Ok && final(self).pwd@ == old(self).pwd@,
            path@ != seq![DOT] ==> match resolved(old(self).root@, view_slice(canonical)) {
                Ok(c) => out is Ok && final(self).pwd@ == below(old(self).root@, c)
                    && final(self).here() == c,
                Err(e) => out == Err::<(), PathError>(e) && final(self).pwd@ == old(self).pwd@,
            },
    {
        if path.len() == 1 && path[0] == DOT {
            assert(path@ =~= seq![DOT]);
            return Ok(());
        }
        assert(path@ != seq![DOT]) by {
            if path@ == seq![DOT] {
                assert(path@.len() == 1 && path@[0] == DOT);
            }
        }
        self.enter(canonical)
    }

    /// The working directory as it is shown to the client.
    pub fn pwd(&self) -> (out: Vec<u8>)
        ensures
            out@ == shown(self.pwd@),
    {
        if self.pwd.len() == 0 {
            let mut out: Vec<u8> = Vec::new();
            out.push(SLASH);
            assert(out@ =~= seq![SLASH]);
            out
        } else {
            let out = copy_range(self.pwd.as_slice(), 0, self.pwd.len());
            assert(out@ =~= self.pwd@);
            out
        }
    }
}

/// The state of a login: who, how far, where, and with what data channel.
#[derive(Debug)]
pub struct User<S, L> {
    pub username: Vec<u8>,
    pub status: UserStatus,
    pub session: Option<TransferSession<S, L>>,
    pub trans_type: TransferType,
    /// The source that RNFR named, until RNTO takes it.
    pub rename_from: Option<Vec<u8>>,
    pub path: PathGuard,
}

/// A user as a value of the model.
pub struct UserView<S, L> {
    pub username: Seq<u8>,
    pub status: UserStatus,
    pub session: Option<SessionView<S, L>>,
    pub trans_type: TransferType,
    pub rename_from: Option<Seq<u8>>,
    pub root: Seq<u8>,
    pub pwd: Seq<u8>,
}

impl<S, L> View for User<S, L> {
    type V = UserView<S, L>;

    open spec fn view(&self) -> UserView<S, L> {
        UserView {
            username: self.username@,
            status: self.status,
            session: match self.session {
                Some(s) => Some(s@),
                None => None,
            },
            trans_type: self.trans_type,
            rename_from: view_bytes(self.rename_from),
            root: self.path.root@,
            pwd: self.path.pwd@,
        }
    }
}

impl<S, L> UserView<S, L> {
    /// The working directory lies within the root.
    pub open spec fn wf(self) -> bool {
        guarded(self.root, self.pwd)
    }

    /// The user of a connection that has just been accepted.
    pub open spec fn fresh(username: Seq<u8>, status: UserStatus, root: Seq<u8>) -> Self {
        UserView {
            username,
            status,
            session: None,
            trans_type: TransferType::ASCII,
            rename_from: None,
            root,
            pwd: Seq::empty(),
        }
    }
}

impl<S, L> User<S, L> {
    /// The working directory lies within the root.
    pub open spec fn wf(&self) -> bool {
        self@.wf()
    }

    /// A user who has given a name and still owes the password.
    pub fn new(username: Vec<u8>, root: &[u8]) -> (out: Result<Self, PathError>)
        ensures
            match out {
                Ok(user) => valid_root(root@) && user.wf() && user@ == UserView::<S, L>::fresh(
                    username@,
                    UserStatus::Logging,
                    root@,
                ),
                Err(e) => e == PathError::InvalidRoot && !valid_root(root@),
            },
    {
        match PathGuard::new(root) {
            Ok(path) => {
                let user = User {
                    username,
                    status: UserStatus::Logging,
                    session: None,
                    trans_type: TransferType::ASCII,
                    rename_from: None,
                    path,
                };
                assert(user@.pwd =~= Seq::<u8>::empty());
                Ok(user)
            },
            Err(e) => Err(e),
        }
    }

    /// The user that every new connection starts with: logged in, under the
    /// name `anonymous`.
    pub fn new_anonymous(root: &[u8]) -> (out: Result<Self, PathError>)
        ensures
            match out {
                Ok(user) => valid_root(root@) && user.wf() && user@ == UserView::<S, L>::fresh(
                    lit("anonymous"),
                    UserStatus::Active,
                    root@,
                ),
                Err(e) => e == PathError::InvalidRoot && !valid_root(root@),
            },
    {
        match PathGuard::new(root) {
            Ok(path) => {
                let user = User {
                    username: bytes_of("anonymous"),
                    status: UserStatus::Active,
                    session: None,
                    trans_type: TransferType::ASCII,
                    rename_from: None,
                    path,
                };
                assert(user@.pwd =~= Seq::<u8>::empty());
                Ok(user)
            },
            Err(e) => Err(e),
        }
    }

    /// Changes the working directory as the guard does, and nothing else.
    pub fn cwd(&mut self, path: &[u8], canonical: Option<&[u8]>) -> (out: Result<(), PathError>)
        requires
            old(self).wf(),
        ensures
            final(self).wf(),
            path@ == seq![DOT] ==> out is Ok && final(self)@ == old(self)@,
            path@ != seq![DOT] ==> match resolved(old(self)@.root, view_slice(canonical)) {
                Ok(c) => out is Ok && final(self)@ == (UserView {
                    pwd: below(old(self)@.root, c),
                    ..old(self)@
                }) && final(self).path.here() == c,
                Err(e) => out == Err::<(), PathError>(e) && final(self)@ == old(self)@,
            },
    {
        self.path.cwd(path, canonical)
    }

    /// The working directory below the root: empty for the root itself.
    pub fn pwd(&self) -> (out: Vec<u8>)
        ensures
            out@ == self@.pwd,
    {
        let out = copy_range(self.path.pwd.as_slice(), 0, self.path.pwd.len());
        assert(out@ =~= self.path.pwd@);
        out
    }

    /// The working directory as it is shown to the client.
    pub fn rendering_pwd(&self) -> (out: Vec<u8>)
        ensures
            out@ == shown(self@.pwd),
    {
        self.path.pwd()
    }

    /// Installs a data channel in place of any earlier one, which is dropped.
    pub fn set_new_session(&mut self, session: TransferSession<S, L>)
        ensures
            final(self)@ == (UserView { session: Some(session@), ..old(self)@ }),
            final(self).path == old(self).path,
    {
        self.session = Some(session);
    }

    /// The data channel, if PORT or PASV has set one up.
    pub fn get_session(&self) -> (out: Result<&TransferSession<S, L>, SessionError>)
        ensures
            match out {
                Ok(s) => self.session == Some(*s),
                Err(e) => self.session is None && e == SessionError::NoSession,
            },
    {
        match &self.session {
            Some(s) => Ok(s),
            None => Err(SessionError::NoSession),
        }
    }
}

} // verus!
