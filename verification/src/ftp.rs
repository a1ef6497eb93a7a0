//! The commands of the control channel, one handler each. A handler does
//! what can be done at once and says what is to happen next; what a command
//! needs from outside is asked for as an action and taken up again when the
//! answer is there.

use crate::commands::{CommandView, FtpCommand, HostPort};
use crate::path::{candidate, parent_of, parent_path};
use crate::protocol::{
    done, is_hex_name, outcome, Action, ActionView, Outcome, Step, Task, TaskView,
};
use crate::reply::{
    canned, features_reply, pwd_reply, status_reply, Reply, ABOR_OK, ALLO_OK, BAD_SEQUENCE,
    DENIED, FILE_ACTION_OK, GOODBYE, LOGGED_IN, NEED_PASSWORD, NOOP_OK, RESTART_OK, SYSTEM,
    TYPE_ASCII, TYPE_BINARY, TYPE_UNKNOWN,
};
use crate::server::{Server, PASV_FIRST};
use crate::session::SessionView;
use crate::text::{copy_range, is_word, lit, to_upper, upper_all, DOT};
use crate::user::{shown, TransferType, User, UserStatus, UserView};
use vstd::prelude::*;

verus! {

/// The step that hands the path of `cmd` to the file system.
pub open spec fn probe<S, L>(
    u: UserView<S, L>,
    cmd: CommandView,
    target: Seq<u8>,
    unique: bool,
) -> Outcome<S, L> {
    let path = candidate(u.root, u.pwd, target);
    Outcome {
        user: u,
        action: ActionView::Probe { path, parent: parent_of(path) },
        task: TaskView::Probing { cmd, unique },
    }
}

/// The target of a command whose path may be left out: the working
/// directory then.
pub open spec fn or_here(dir: Option<Seq<u8>>) -> Seq<u8> {
    match dir {
        Some(d) => d,
        None => Seq::empty(),
    }
}

/// USER: the name is taken and the password is owed.
pub open spec fn on_user<S, L>(u: UserView<S, L>, name: Seq<u8>) -> Outcome<S, L> {
    done(UserView { username: name, status: UserStatus::Logging, ..u }, canned(NEED_PASSWORD))
}

/// PASS: any password completes the login.
pub open spec fn on_pass<S, L>(u: UserView<S, L>) -> Outcome<S, L> {
    done(UserView { status: UserStatus::Active, ..u }, canned(LOGGED_IN))
}

/// QUIT: the data channel goes and the connection ends.
pub open spec fn on_quit<S, L>(u: UserView<S, L>) -> Outcome<S, L> {
    Outcome {
        user: UserView { session: None, ..u },
        action: ActionView::Close(canned(GOODBYE)),
        task: TaskView::Idle,
    }
}

/// TYPE: A and I are known, in either case of the letter.
pub open spec fn on_set_type<S, L>(u: UserView<S, L>, code: Seq<u8>) -> Outcome<S, L> {
    if upper_all(code) == lit("A") {
        done(UserView { trans_type: TransferType::ASCII, ..u }, canned(TYPE_ASCII))
    } else if upper_all(code) == lit("I") {
        done(UserView { trans_type: TransferType::Binary, ..u }, canned(TYPE_BINARY))
    } else {
        done(u, canned(TYPE_UNKNOWN))
    }
}

/// PWD: the working directory as it is shown.
pub open spec fn on_pwd<S, L>(u: UserView<S, L>) -> Outcome<S, L> {
    done(u, pwd_reply(shown(u.pwd)))
}

/// ABOR: the session, if there is one, is marked.
pub open spec fn on_abort<S, L>(u: UserView<S, L>) -> Outcome<S, L> {
    done(
        UserView {
            session: match u.session {
                Some(s) => Some(SessionView { aborted: true, ..s }),
                None => None,
            },
            ..u
        },
        canned(ABOR_OK),
    )
}

/// REST: the offset is kept with the session; without a session there
/// is nowhere to keep it.
pub open spec fn on_restart<S, L>(u: UserView<S, L>, offset: u64) -> Outcome<S, L> {
    match u.session {
        Some(s) => done(
            UserView { session: Some(SessionView { offset, ..s }), ..u },
            canned(RESTART_OK),
        ),
        None => done(u, canned(BAD_SEQUENCE)),
    }
}

/// STAT: the state of the connection, or the question about the path.
pub open spec fn on_status<S, L>(u: UserView<S, L>, path: Option<Seq<u8>>) -> Outcome<S, L> {
    match path {
        None => done(
            u,
            status_reply(u.username, shown(u.pwd), u.trans_type == TransferType::Binary),
        ),
        Some(p) => probe(u, CommandView::STAT(Some(p)), p, false),
    }
}

/// CWD: a lone dot is answered at once, anything else is asked about.
pub open spec fn on_cwd<S, L>(u: UserView<S, L>, dir: Seq<u8>) -> Outcome<S, L> {
    if dir == seq![DOT] {
        done(u, canned(FILE_ACTION_OK))
    } else {
        probe(u, CommandView::CWD(dir), dir, false)
    }
}

/// CDUP: refused at the root, elsewhere the directory above is asked about.
pub open spec fn on_cd_up<S, L>(u: UserView<S, L>) -> Outcome<S, L> {
    if u.pwd.len() == 0 {
        done(u, canned(DENIED))
    } else {
        probe(u, CommandView::CDUP, seq![DOT, DOT], false)
    }
}

/// RNTO: refused where RNFR has named no source.
pub open spec fn on_rename_to<S, L>(u: UserView<S, L>, name: Seq<u8>) -> Outcome<S, L> {
    if u.rename_from is None {
        done(u, canned(BAD_SEQUENCE))
    } else {
        probe(u, CommandView::RNTO(name), name, false)
    }
}

/// STOR, and STOU with the name made up for it.
pub open spec fn on_store_file<S, L>(u: UserView<S, L>, name: Seq<u8>, unique: bool) -> Outcome<
    S,
    L,
> {
    probe(u, CommandView::STOR(name), name, unique)
}

/// LIST and NLST: what is to be listed is asked about.
pub open spec fn on_list_files<S, L>(
    u: UserView<S, L>,
    dir: Option<Seq<u8>>,
    name_only: bool,
) -> Outcome<S, L> {
    if name_only {
        probe(u, CommandView::NLST(dir), or_here(dir), false)
    } else {
        probe(u, CommandView::LIST(dir), or_here(dir), false)
    }
}

/// PORT: the address is dialled.
pub open spec fn on_port_mode<S, L>(u: UserView<S, L>, at: HostPort) -> Outcome<S, L> {
    Outcome { user: u, action: ActionView::Connect(at), task: TaskView::Dialing }
}

/// PASV: the first port of the range is tried.
pub open spec fn on_passive_mode<S, L>(u: UserView<S, L>) -> Outcome<S, L> {
    Outcome {
        user: u,
        action: ActionView::Bind { port: PASV_FIRST },
        task: TaskView::Binding(PASV_FIRST),
    }
}

/// The bytes of a path that may be left out.
pub open spec fn view_dir(dir: Option<Vec<u8>>) -> Option<Seq<u8>> {
    match dir {
        Some(d) => Some(d@),
        None => None,
    }
}

/// A name that no file has yet: a random UUID as uuid's `Uuid::new_v4` makes
/// it and its `Display` writes it, which is 36 bytes long, hyphens and
/// lower-case hexadecimal digits only. Which name comes is left open.
#[verifier::external_body]
fn fresh_name() -> (name: Vec<u8>)
    ensures
        name@.len() == 36,
        is_hex_name(name@),
{
    uuid::Uuid::new_v4().to_string().into_bytes()
}

/// Asks the file system about the path that `cmd` names with `target`.
pub fn probe_step<S, L>(user: &User<S, L>, cmd: FtpCommand, target: &[u8], unique: bool) -> (step:
    Step)
    ensures
        outcome(*user, step) == probe(user@, cmd@, target@, unique),
{
    let path = user.path.join(target);
    let parent = parent_path(path.as_slice());
    Step { action: Action::Probe { path, parent }, task: Task::Probing { cmd, unique } }
}

/// A copy of the bytes.
pub fn copy_bytes(s: &Vec<u8>) -> (out: Vec<u8>)
    ensures
        out@ == s@,
{
    let out = copy_range(s.as_slice(), 0, s.len());
    assert(out@ =~= s@);
    out
}

/// The commands of the server, one method each. Every method is the
/// first step of its command: it changes the user as far as the command
/// does so at once, and returns the action to take and the task that the
/// connection is in afterwards.
pub trait FtpServer<S, L> {
    /// LIST: the long listing of a directory or file, the working directory
    /// where none is named.
    fn list(&self, user: &mut User<S, L>, optional_dir: Option<Vec<u8>>) -> (step: Step)
        requires
            old(user).wf(),
        ensures
            final(user).wf(),
            outcome(*final(user), step) == on_list_files(old(user)@, view_dir(optional_dir), false),
    ;

    /// RETR: sends a file.
    fn retrieve(&self, user: &mut User<S, L>, file_name: Vec<u8>) -> (step: Step)
        requires
            old(user).wf(),
        ensures
            final(user).wf(),
            outcome(*final(user), step) == probe(
                old(user)@,
                CommandView::RETR(file_name@),
                file_name@,
                false,
            ),
    ;

    /// STOR: receives a file.
    fn store(&self, user: &mut User<S, L>, file_name: Vec<u8>) -> (step: Step)
        requires
            old(user).wf(),
        ensures
            final(user).wf(),
            outcome(*final(user), step) == on_store_file(old(user)@, file_name@, false),
    ;

    /// MKD: makes a directory.
    fn make_dir(&self, user: &mut User<S, L>, dir_name: Vec<u8>) -> (step: Step)
        requires
            old(user).wf(),
        ensures
            final(user).wf(),
            outcome(*final(user), step) == probe(
                old(user)@,
                CommandView::MKD(dir_name@),
                dir_name@,
                false,
            ),
    ;

    /// RMD: removes a directory.
    fn remove_dir(&self, user: &mut User<S, L>, dir_name: Vec<u8>) -> (step: Step)
        requires
            old(user).wf(),
        ensures
            final(user).wf(),
            outcome(*final(user), step) == probe(
                old(user)@,
                CommandView::RMD(dir_name@),
                dir_name@,
                false,
            ),
    ;

    /// DELE: removes a file.
    fn delete(&self, user: &mut User<S, L>, file_name: Vec<u8>) -> (step: Step)
        requires
            old(user).wf(),
        ensures
            final(user).wf(),
            outcome(*final(user), step) == probe(
                old(user)@,
                CommandView::DELE(file_name@),
                file_name@,
                false,
            ),
    ;

    /// CWD: changes the working directory. A lone dot is answered at once.
    fn cwd(&self, user: &mut User<S, L>, dir_name: Vec<u8>) -> (step: Step)
        requires
            old(user).wf(),
        ensures
            final(user).wf(),
            outcome(*final(user), step) == on_cwd(old(user)@, dir_name@),
    ;

    /// PWD: shows the working directory.
    fn pwd(&self, user: &mut User<S, L>) -> (step: Step)
        requires
            old(user).wf(),
        ensures
            final(user).wf(),
            outcome(*final(user), step) == on_pwd(old(user)@),
    ;

    /// TYPE: A for ASCII, I for binary, in either case of the letter.
    fn set_type(&self, user: &mut User<S, L>, type_: Vec<u8>) -> (step: Step)
        requires
            old(user).wf(),
        ensures
            final(user).wf(),
            outcome(*final(user), step) == on_set_type(old(user)@, type_@),
    ;

    /// PASV: begins the search for a port to listen on.
    fn passive_mode(&self, user: &mut User<S, L>) -> (step: Step)
        requires
            old(user).wf(),
        ensures
            final(user).wf(),
            outcome(*final(user), step) == on_passive_mode(old(user)@),
    ;

    /// PORT: has the client's address dialled.
    fn port_mode(&self, user: &mut User<S, L>, port_addr: HostPort) -> (step: Step)
        requires
            old(user).wf(),
        ensures
            final(user).wf(),
            outcome(*final(user), step) == on_port_mode(old(user)@, port_addr),
    ;

    /// QUIT: drops the data channel and ends the connection.
    fn quit(&self, user: &mut User<S, L>) -> (step: Step)
        requires
            old(user).wf(),
        ensures
            final(user).wf(),
            outcome(*final(user), step) == on_quit(old(user)@),
    ;

    /// NOOP: answers, and nothing else.
    fn noop(&self, user: &mut User<S, L>) -> (step: Step)
        requires
            old(user).wf(),
        ensures
            final(user).wf(),
            outcome(*final(user), step) == done(old(user)@, canned(NOOP_OK)),
    ;

    /// USER: takes the name, whatever it is, and asks for the password.
    fn user(&self, user: &mut User<S, L>, username: Vec<u8>) -> (step: Step)
        requires
            old(user).wf(),
        ensures
            final(user).wf(),
            outcome(*final(user), step) == on_user(old(user)@, username@),
    ;

    /// PASS: takes any password and logs the user in.
    fn pass(&self, user: &mut User<S, L>, password: Vec<u8>) -> (step: Step)
        requires
            old(user).wf(),
        ensures
            final(user).wf(),
            outcome(*final(user), step) == on_pass(old(user)@),
    ;

    /// ABOR: marks the data channel, if there is one, as aborted. The
    /// transfer in progress sees the mark before its next block.
    fn abort(&self, user: &mut User<S, L>) -> (step: Step)
        requires
            old(user).wf(),
        ensures
            final(user).wf(),
            outcome(*final(user), step) == on_abort(old(user)@),
    ;

    /// SYST: names the kind of system.
    fn system_info(&self, user: &mut User<S, L>) -> (step: Step)
        requires
            old(user).wf(),
        ensures
            final(user).wf(),
            outcome(*final(user), step) == done(old(user)@, canned(SYSTEM)),
    ;

    /// RNFR: names the source of a rename.
    fn rename_from(&self, user: &mut User<S, L>, file_name: Vec<u8>) -> (step: Step)
        requires
            old(user).wf(),
        ensures
            final(user).wf(),
            outcome(*final(user), step) == probe(
                old(user)@,
                CommandView::RNFR(file_name@),
                file_name@,
                false,
            ),
    ;

    /// RNTO: names the target of a rename, which RNFR must have begun.
    fn rename_to(&self, user: &mut User<S, L>, file_name: Vec<u8>) -> (step: Step)
        requires
            old(user).wf(),
        ensures
            final(user).wf(),
            outcome(*final(user), step) == on_rename_to(old(user)@, file_name@),
    ;

    /// REST: sets the offset at which the next transfer begins. It needs
    /// the data channel that the offset is kept with.
    fn restart(&self, user: &mut User<S, L>, offset: u64) -> (step: Step)
        requires
            old(user).wf(),
        ensures
            final(user).wf(),
            outcome(*final(user), step) == on_restart(old(user)@, offset),
    ;

    /// STAT: the state of the connection, or with a path its listing on
    /// the control channel.
    fn status(&self, user: &mut User<S, L>, optional_path: Option<Vec<u8>>) -> (step: Step)
        requires
            old(user).wf(),
        ensures
            final(user).wf(),
            outcome(*final(user), step) == on_status(old(user)@, view_dir(optional_path)),
    ;

    /// STOU: receives a file under a fresh name in the working directory.
    /// Which name is left to chance; it is 36 bytes of hyphens and
    /// hexadecimal digits.
    fn store_unique(&self, user: &mut User<S, L>) -> (step: Step)
        requires
            old(user).wf(),
        ensures
            final(user).wf(),
            exists|name: Seq<u8>|
                name.len() == 36 && is_hex_name(name) && outcome(*final(user), step)
                    == #[trigger] on_store_file(old(user)@, name, true),
    ;

    /// APPE: receives a file and writes it behind what the file holds.
    fn append(&self, user: &mut User<S, L>, file_name: Vec<u8>) -> (step: Step)
        requires
            old(user).wf(),
        ensures
            final(user).wf(),
            outcome(*final(user), step) == probe(
                old(user)@,
                CommandView::APPE(file_name@),
                file_name@,
                false,
            ),
    ;

    /// ALLO: nothing needs to be set aside.
    fn allocate(&self, user: &mut User<S, L>, size: u64) -> (step: Step)
        requires
            old(user).wf(),
        ensures
            final(user).wf(),
            outcome(*final(user), step) == done(old(user)@, canned(ALLO_OK)),
    ;

    /// FEAT: lists what goes beyond the basic commands.
    fn feat(&self, user: &mut User<S, L>) -> (step: Step)
        requires
            old(user).wf(),
        ensures
            final(user).wf(),
            outcome(*final(user), step) == done(old(user)@, features_reply()),
    ;

    /// CDUP: changes to the directory above. At the root that is refused
    /// at once, and the working directory stays.
    fn cd_up(&self, user: &mut User<S, L>) -> (step: Step)
        requires
            old(user).wf(),
        ensures
            final(user).wf(),
            outcome(*final(user), step) == on_cd_up(old(user)@),
    ;

    /// MDTM: the time at which a file was last changed.
    fn get_modify_timestamp(&self, user: &mut User<S, L>, file_name: Vec<u8>) -> (step: Step)
        requires
            old(user).wf(),
        ensures
            final(user).wf(),
            outcome(*final(user), step) == probe(
                old(user)@,
                CommandView::MDTM(file_name@),
                file_name@,
                false,
            ),
    ;

    /// NLST: the names in a directory, the working directory where none is
    /// named.
    fn name_list(&self, user: &mut User<S, L>, optional_dir: Option<Vec<u8>>) -> (step: Step)
        requires
            old(user).wf(),
        ensures
            final(user).wf(),
            outcome(*final(user), step) == on_list_files(old(user)@, view_dir(optional_dir), true),
    ;
}

impl Server {
    /// LIST and NLST: asks the file system about what is to be listed.
    pub fn list_files<S, L>(
        &self,
        user: &mut User<S, L>,
        optional_dir: Option<Vec<u8>>,
        name_only: bool,
    ) -> (step: Step)
        requires
            old(user).wf(),
        ensures
            final(user).wf(),
            *final(user) == *old(user),
            outcome(*final(user), step) == on_list_files(
                old(user)@,
                view_dir(optional_dir),
                name_only,
            ),
    {
        let target: Vec<u8> = match &optional_dir {
            Some(d) => copy_bytes(d),
            None => Vec::new(),
        };
        assert(target@ =~= or_here(view_dir(optional_dir)));
        if name_only {
            probe_step(user, FtpCommand::NLST(optional_dir), target.as_slice(), false)
        } else {
            probe_step(user, FtpCommand::LIST(optional_dir), target.as_slice(), false)
        }
    }

    /// STOR and STOU: asks the file system about the file to be written.
    /// `unique` says that the name was made up here.
    pub fn store_file<S, L>(&self, user: &mut User<S, L>, file_name: Vec<u8>, unique: bool) -> (step:
        Step)
        requires
            old(user).wf(),
        ensures
            final(user).wf(),
            *final(user) == *old(user),
            outcome(*final(user), step) == on_store_file(old(user)@, file_name@, unique),
    {
        let target = copy_bytes(&file_name);
        probe_step(user, FtpCommand::STOR(file_name), target.as_slice(), unique)
    }
}

impl<S, L> FtpServer<S, L> for Server {
    fn list(&self, user: &mut User<S, L>, optional_dir: Option<Vec<u8>>) -> (step: Step) {
        self.list_files(user, optional_dir, false)
    }

    fn retrieve(&self, user: &mut User<S, L>, file_name: Vec<u8>) -> (step: Step) {
        let target = copy_bytes(&file_name);
        probe_step(user, FtpCommand::RETR(file_name), target.as_slice(), false)
    }

    fn store(&self, user: &mut User<S, L>, file_name: Vec<u8>) -> (step: Step) {
        self.store_file(user, file_name, false)
    }

    fn make_dir(&self, user: &mut User<S, L>, dir_name: Vec<u8>) -> (step: Step) {
        let target = copy_bytes(&dir_name);
        probe_step(user, FtpCommand::MKD(dir_name), target.as_slice(), false)
    }

    fn remove_dir(&self, user: &mut User<S, L>, dir_name: Vec<u8>) -> (step: Step) {
        let target = copy_bytes(&dir_name);
        probe_step(user, FtpCommand::RMD(dir_name), target.as_slice(), false)
    }

    fn delete(&self, user: &mut User<S, L>, file_name: Vec<u8>) -> (step: Step) {
        let target = copy_bytes(&file_name);
        probe_step(user, FtpCommand::DELE(file_name), target.as_slice(), false)
    }

    fn cwd(&self, user: &mut User<S, L>, dir_name: Vec<u8>) -> (step: Step) {
        if dir_name.len() == 1 && dir_name[0] == DOT {
            assert(dir_name@ =~= seq![DOT]);
            return Step::done(Reply::canned(FILE_ACTION_OK));
        }
        assert(dir_name@ != seq![DOT]) by {
            if dir_name@ == seq![DOT] {
                assert(dir_name@.len() == 1 && dir_name@[0] == DOT);
            }
        }
        let target = copy_bytes(&dir_name);
        probe_step(user, FtpCommand::CWD(dir_name), target.as_slice(), false)
    }

    fn pwd(&self, user: &mut User<S, L>) -> (step: Step) {
        let dir = user.rendering_pwd();
        Step::done(Reply::pwd(dir.as_slice()))
    }

    fn set_type(&self, user: &mut User<S, L>, type_: Vec<u8>) -> (step: Step) {
        let code = to_upper(type_.as_slice());
        if is_word(code.as_slice(), "A") {
            user.trans_type = TransferType::ASCII;
            Step::done(Reply::canned(TYPE_ASCII))
        } else if is_word(code.as_slice(), "I") {
            user.trans_type = TransferType::Binary;
            Step::done(Reply::canned(TYPE_BINARY))
        } else {
            Step::done(Reply::canned(TYPE_UNKNOWN))
        }
    }

    fn passive_mode(&self, user: &mut User<S, L>) -> (step: Step) {
        Step { action: Action::Bind { port: PASV_FIRST }, task: Task::Binding(PASV_FIRST) }
    }

    fn port_mode(&self, user: &mut User<S, L>, port_addr: HostPort) -> (step: Step) {
        Step { action: Action::Connect(port_addr), task: Task::Dialing }
    }

    fn quit(&self, user: &mut User<S, L>) -> (step: Step) {
        user.session = None;
        Step { action: Action::Close(Reply::canned(GOODBYE)), task: Task::Idle }
    }

    fn noop(&self, user: &mut User<S, L>) -> (step: Step) {
        Step::done(Reply::canned(NOOP_OK))
    }

    fn user(&self, user: &mut User<S, L>, username: Vec<u8>) -> (step: Step) {
        user.username = username;
        user.status = UserStatus::Logging;
        Step::done(Reply::canned(NEED_PASSWORD))
    }

    fn pass(&self, user: &mut User<S, L>, password: Vec<u8>) -> (step: Step) {
        user.status = UserStatus::Active;
        Step::done(Reply::canned(LOGGED_IN))
    }

    fn abort(&self, user: &mut User<S, L>) -> (step: Step) {
        let held = user.session.take();
        match held {
            Some(mut session) => {
                session.aborted = true;
                user.session = Some(session);
            },
            None => {},
        }
        Step::done(Reply::canned(ABOR_OK))
    }

    fn system_info(&self, user: &mut User<S, L>) -> (step: Step) {
        Step::done(Reply::canned(SYSTEM))
    }

    fn rename_from(&self, user: &mut User<S, L>, file_name: Vec<u8>) -> (step: Step) {
        let target = copy_bytes(&file_name);
        probe_step(user, FtpCommand::RNFR(file_name), target.as_slice(), false)
    }

    fn rename_to(&self, user: &mut User<S, L>, file_name: Vec<u8>) -> (step: Step) {
        if user.rename_from.is_none() {
            return Step::done(Reply::canned(BAD_SEQUENCE));
        }
        let target = copy_bytes(&file_name);
        probe_step(user, FtpCommand::RNTO(file_name), target.as_slice(), false)
    }

    fn restart(&self, user: &mut User<S, L>, offset: u64) -> (step: Step) {
        let held = user.session.take();
        match held {
            Some(mut session) => {
                session.offset = offset;
                user.session = Some(session);
                Step::done(Reply::canned(RESTART_OK))
            },
            None => Step::done(Reply::canned(BAD_SEQUENCE)),
        }
    }

    fn status(&self, user: &mut User<S, L>, optional_path: Option<Vec<u8>>) -> (step: Step) {
        match optional_path {
            None => {
                let dir = user.rendering_pwd();
                let binary = match user.trans_type {
                    TransferType::Binary => true,
                    TransferType::ASCII => false,
                };
                Step::done(Reply::status(user.username.as_slice(), dir.as_slice(), binary))
            },
            Some(p) => {
                let target = copy_bytes(&p);
                probe_step(user, FtpCommand::STAT(Some(p)), target.as_slice(), false)
            },
        }
    }

    fn store_unique(&self, user: &mut User<S, L>) -> (step: Step) {
        let name = fresh_name();
        let ghost made = name@;
        let step = self.store_file(user, name, true);
        assert(outcome(*user, step) == on_store_file(old(user)@, made, true));
        step
    }

    fn append(&self, user: &mut User<S, L>, file_name: Vec<u8>) -> (step: Step) {
        let target = copy_bytes(&file_name);
        probe_step(user, FtpCommand::APPE(file_name), target.as_slice(), false)
    }

    fn allocate(&self, user: &mut User<S, L>, size: u64) -> (step: Step) {
        Step::done(Reply::canned(ALLO_OK))
    }

    fn feat(&self, user: &mut User<S, L>) -> (step: Step) {
        Step::done(Reply::features())
    }

    fn cd_up(&self, user: &mut User<S, L>) -> (step: Step) {
        if user.path.pwd.len() == 0 {
            return Step::done(Reply::canned(DENIED));
        }
        let mut target: Vec<u8> = Vec::new();
        target.push(DOT);
        target.push(DOT);
        assert(target@ =~= seq![DOT, DOT]);
        probe_step(user, FtpCommand::CDUP, target.as_slice(), false)
    }

    fn get_modify_timestamp(&self, user: &mut User<S, L>, file_name: Vec<u8>) -> (step: Step) {
        let target = copy_bytes(&file_name);
        probe_step(user, FtpCommand::MDTM(file_name), target.as_slice(), false)
    }

    fn name_list(&self, user: &mut User<S, L>, optional_dir: Option<Vec<u8>>) -> (step: Step) {
        self.list_files(user, optional_dir, true)
    }
}

} // verus!
