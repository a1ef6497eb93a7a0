//! The server's settings once they are checked, and the step that takes a
//! connection from one event to the next action.

use crate::arg_parser::Args;
use crate::commands::{parse, parse_command, CommandView, FtpCommand};
use crate::ftp::{
    on_abort, on_cd_up, on_cwd, on_list_files, on_passive_mode, on_pass, on_port_mode, on_pwd,
    on_quit, on_rename_to, on_restart, on_set_type, on_status, on_store_file, on_user, probe,
    FtpServer,
};
use crate::protocol::{
    done, is_hex_name, lost, outcome, Action, ActionView, Event, FileStat, JobKind, Outcome,
    Outside, Step, Task, TaskView,
};
use crate::reply::{
    canned, features_reply, Reply, ABOR_OK, ALLO_OK, BAD_ARGUMENT, GREETING, NOOP_OK,
    NOT_IMPLEMENTED, NOT_LOGGED_IN, SYSTEM,
};
use crate::resume::{bound, changed, connected, listed_step, outside, probed, resumed};
use crate::text::{append, copy_range, find, index_of, lit, LF};
use crate::transfer::{accepted, after_block, finish_failed, install, installed, next_block, opened};
use crate::user::{valid_root, PathError, User, UserStatus, UserView};
use vstd::prelude::*;

verus! {

/// Why the settings do not make a server.
#[derive(Debug, Clone, Copy, PartialEq, Eq, Structural)]
pub enum ConfigError {
    /// The folder to serve does not exist.
    RootNotFound,
    /// The folder to serve is no directory.
    RootNotDirectory,
    /// The folder to serve was not handed over in its canonical form.
    RootNotCanonical,
}

/// The settings of a running server.
#[derive(Debug, Clone)]
pub struct Server {
    pub host: String,
    pub port: u16,
    /// The canonical path of the directory that is served.
    pub root: Vec<u8>,
}

/// The first port that PASV tries.
pub const PASV_FIRST: u16 = 49152;

/// The port at which PASV gives up: it is not tried itself.
pub const PASV_END: u16 = 65535;

/// The longest line that is read from the control channel, in bytes.
pub const MAX_LINE: usize = 2048;

/// What the settings and the file system's word on the folder make.
pub open spec fn checked_root(folder: Option<FileStat>) -> Result<Seq<u8>, ConfigError> {
    match folder {
        None => Err(ConfigError::RootNotFound),
        Some(stat) => if !stat.is_dir {
            Err(ConfigError::RootNotDirectory)
        } else if !valid_root(stat.path@) {
            Err(ConfigError::RootNotCanonical)
        } else {
            Ok(stat.path@)
        },
    }
}

/// The port that PASV tries after `previous`, or first; none once the range
/// from `PASV_FIRST` up to `PASV_END` is used up.
pub open spec fn next_pasv_port(previous: Option<u16>) -> Option<u16> {
    match previous {
        None => Some(PASV_FIRST),
        Some(p) => if PASV_FIRST <= p && p + 1 < PASV_END {
            Some((p + 1) as u16)
        } else {
            None
        },
    }
}

impl Server {
    /// The root is canonical.
    pub open spec fn wf(&self) -> bool {
        valid_root(self.root@)
    }

    /// The server for these settings. `folder` is what the file system
    /// knows of the folder to serve, resolved by the caller at startup.
    pub fn new(cfg: Args, folder: Option<FileStat>) -> (out: Result<Self, ConfigError>)
        ensures
            match out {
                Ok(server) => checked_root(folder) == Ok::<Seq<u8>, ConfigError>(server.root@)
                    && server.wf() && server.host@ == cfg.host@ && server.port == cfg.port,
                Err(e) => checked_root(folder) == Err::<Seq<u8>, ConfigError>(e),
            },
    {
        match folder {
            None => Err(ConfigError::RootNotFound),
            Some(stat) => {
                if !stat.is_dir {
                    Err(ConfigError::RootNotDirectory)
                } else if stat.path.len() == usize::MAX || !crate::path::check_canonical(
                    stat.path.as_slice(),
                ) {
                    Err(ConfigError::RootNotCanonical)
                } else {
                    Ok(Server { host: cfg.host, port: cfg.port, root: stat.path })
                }
            },
        }
    }

    /// The port on which PASV listens next: the first of the range after no
    /// attempt, the one after `previous` after a failed one.
    pub fn generate_pasv_addr(&self, previous: Option<u16>) -> (port: Option<u16>)
        ensures
            port == next_pasv_port(previous),
    {
        match previous {
            None => Some(PASV_FIRST),
            Some(p) => {
                if PASV_FIRST <= p && p < PASV_END - 1 {
                    Some(p + 1)
                } else {
                    None
                }
            },
        }
    }
}

/// One control connection: its user, the task it is in the middle of, and
/// the bytes that came on the control channel and are not read yet.
#[derive(Debug)]
pub struct Connection<S, L> {
    pub user: User<S, L>,
    pub task: Task,
    pub inbox: Vec<u8>,
}

/// A connection as a value of the model.
pub struct ConnView<S, L> {
    pub user: UserView<S, L>,
    pub task: TaskView,
    pub inbox: Seq<u8>,
}

impl<S, L> View for Connection<S, L> {
    type V = ConnView<S, L>;

    open spec fn view(&self) -> ConnView<S, L> {
        ConnView { user: self.user@, task: self.task@, inbox: self.inbox@ }
    }
}

impl<S, L> Connection<S, L> {
    /// The user's working directory lies within the root.
    pub open spec fn wf(&self) -> bool {
        self.user.wf()
    }

    /// Whether the connection is as `accept` made it and `handle` left it.
    pub fn is_sound(&self) -> (yes: bool)
        ensures
            yes == self.wf(),
    {
        self.user.path.is_sound()
    }
}

/// The commands that are taken whatever the state of the login.
pub open spec fn always_allowed(cmd: CommandView) -> bool {
    cmd is USER || cmd is PASS || cmd is QUIT || cmd is NOOP || cmd is FEAT || cmd is SYST
}

/// Whether the command is taken from a user in this state: all others
/// than those always allowed need a completed login.
pub open spec fn permitted(status: UserStatus, cmd: CommandView) -> bool {
    always_allowed(cmd) || status == UserStatus::Active
}

/// What the commands do that need neither a path nor a data channel.
pub open spec fn plain_dispatched<S, L>(u: UserView<S, L>, cmd: CommandView) -> Outcome<S, L> {
    match cmd {
        CommandView::USER(n) => on_user(u, n),
        CommandView::PASS(_) => on_pass(u),
        CommandView::QUIT => on_quit(u),
        CommandView::TYPE(code) => on_set_type(u, code),
        CommandView::ALLO(_) => done(u, canned(ALLO_OK)),
        CommandView::REST(offset) => on_restart(u, offset),
        CommandView::ABOR => on_abort(u),
        CommandView::PWD => on_pwd(u),
        CommandView::SYST => done(u, canned(SYSTEM)),
        CommandView::NOOP => done(u, canned(NOOP_OK)),
        CommandView::FEAT => done(u, features_reply()),
        _ => done(u, canned(NOT_IMPLEMENTED)),
    }
}

/// What the commands do first that name a path.
pub open spec fn path_dispatched<S, L>(u: UserView<S, L>, cmd: CommandView) -> Outcome<S, L> {
    match cmd {
        CommandView::CWD(dir) => on_cwd(u, dir),
        CommandView::CDUP => on_cd_up(u),
        CommandView::RNFR(f) => probe(u, cmd, f, false),
        CommandView::RNTO(f) => on_rename_to(u, f),
        CommandView::DELE(f) => probe(u, cmd, f, false),
        CommandView::RMD(f) => probe(u, cmd, f, false),
        CommandView::MKD(f) => probe(u, cmd, f, false),
        CommandView::STAT(path) => on_status(u, path),
        CommandView::MDTM(f) => probe(u, cmd, f, false),
        _ => done(u, canned(NOT_IMPLEMENTED)),
    }
}

/// What the commands do first that set up or use the data channel. `name`
/// is the name that STOU makes up.
pub open spec fn data_dispatched<S, L>(u: UserView<S, L>, cmd: CommandView, name: Seq<u8>) -> Outcome<
    S,
    L,
> {
    match cmd {
        CommandView::PORT(at) => on_port_mode(u, at),
        CommandView::PASV => on_passive_mode(u),
        CommandView::RETR(f) => probe(u, cmd, f, false),
        CommandView::STOR(f) => on_store_file(u, f, false),
        CommandView::STOU => on_store_file(u, name, true),
        CommandView::APPE(f) => probe(u, cmd, f, false),
        CommandView::LIST(dir) => on_list_files(u, dir, false),
        CommandView::NLST(dir) => on_list_files(u, dir, true),
        _ => done(u, canned(NOT_IMPLEMENTED)),
    }
}

/// The commands that name a path and need no data channel.
pub open spec fn names_path(cmd: CommandView) -> bool {
    cmd is CWD || cmd is CDUP || cmd is RNFR || cmd is RNTO || cmd is DELE || cmd is RMD
        || cmd is MKD || cmd is STAT || cmd is MDTM
}

/// The commands that set up or use the data channel.
pub open spec fn uses_data(cmd: CommandView) -> bool {
    cmd is PORT || cmd is PASV || cmd is RETR || cmd is STOR || cmd is STOU || cmd is APPE
        || cmd is LIST || cmd is NLST
}

/// What a command does first. `name` is the name that STOU makes up. The
/// commands that are known and not carried out (ACCT, REIN, STRU, MODE,
/// SITE and HELP) are answered 502.
pub open spec fn dispatched<S, L>(u: UserView<S, L>, cmd: CommandView, name: Seq<u8>) -> Outcome<
    S,
    L,
> {
    if names_path(cmd) {
        path_dispatched(u, cmd)
    } else if uses_data(cmd) {
        data_dispatched(u, cmd, name)
    } else {
        plain_dispatched(u, cmd)
    }
}

/// What a line of the control channel leads to: a line that cannot be read
/// is answered 501, a command that needs a login and finds none 530, and
/// every other is dispatched.
pub open spec fn command_step<S, L>(u: UserView<S, L>, line: Seq<u8>, name: Seq<u8>) -> Outcome<
    S,
    L,
> {
    match parse(line) {
        Err(_) => done(u, canned(BAD_ARGUMENT)),
        Ok(cmd) => if permitted(u.status, cmd) {
            dispatched(u, cmd, name)
        } else {
            done(u, canned(NOT_LOGGED_IN))
        },
    }
}

/// Where the first line of the inbox ends: one past its LF, or at the
/// longest length a line may have where no LF came before; nowhere yet
/// where the inbox holds less than that and no LF.
pub open spec fn line_end(inbox: Seq<u8>) -> Option<int> {
    let k = find(inbox, LF);
    if k < inbox.len() && k < MAX_LINE {
        Some(k + 1)
    } else if inbox.len() >= MAX_LINE {
        Some(MAX_LINE as int)
    } else {
        None
    }
}

/// The connection after a step that took nothing from the inbox.
pub open spec fn settled<S, L>(c: ConnView<S, L>, out: Outcome<S, L>) -> (ConnView<S, L>, ActionView) {
    (ConnView { user: out.user, task: out.task, inbox: c.inbox }, out.action)
}

/// An idle connection takes the next line from its inbox, or asks for more.
pub open spec fn next_command<S, L>(c: ConnView<S, L>, o: Outside) -> (ConnView<S, L>, ActionView) {
    match line_end(c.inbox) {
        None => (c, ActionView::Read),
        Some(n) => {
            let out = command_step(c.user, c.inbox.take(n), o.name);
            (ConnView { user: out.user, task: out.task, inbox: c.inbox.skip(n) }, out.action)
        },
    }
}

/// Whether the first line of the inbox is there and says ABOR.
pub open spec fn abort_waits(inbox: Seq<u8>) -> bool {
    line_end(inbox) is Some && parse(inbox.take(line_end(inbox)->0)) == Ok::<
        CommandView,
        crate::commands::ProtocolError,
    >(CommandView::ABOR)
}

/// A transfer looks at what came on the control channel: ABOR as the next
/// line is taken and answered, and marks the session; anything else waits
/// in the inbox until the transfer is over.
pub open spec fn interrupted<S, L>(c: ConnView<S, L>, kind: JobKind) -> (ConnView<S, L>, ActionView) {
    if abort_waits(c.inbox) {
        (
            ConnView {
                user: on_abort(c.user).user,
                task: TaskView::Moving(kind),
                inbox: c.inbox.skip(line_end(c.inbox)->0),
            },
            ActionView::Reply(canned(ABOR_OK)),
        )
    } else {
        (ConnView { task: TaskView::Moving(kind), ..c }, ActionView::Block)
    }
}

/// Bytes have come on the control channel: an idle connection reads on,
/// a transfer of a file looks for ABOR, and at any other time the caller
/// should not have read at all.
pub open spec fn received<S, L>(c: ConnView<S, L>, bytes: Seq<u8>, o: Outside) -> (
    ConnView<S, L>,
    ActionView,
) {
    let c2 = ConnView { inbox: c.inbox + bytes, ..c };
    match c.task {
        TaskView::Idle => next_command(c2, o),
        TaskView::Moving(kind) => if kind == JobKind::List {
            settled(c2, lost(c.user))
        } else {
            interrupted(c2, kind)
        },
        _ => settled(c2, lost(c.user)),
    }
}

/// The connection and the action after an event.
pub open spec fn handled<S, L>(c: ConnView<S, L>, event: Event<S, L>, o: Outside) -> (
    ConnView<S, L>,
    ActionView,
) {
    match event {
        Event::Closed => (
            ConnView { user: UserView { session: None, ..c.user }, task: TaskView::Idle, inbox: c.inbox },
            ActionView::Hangup,
        ),
        Event::Received(bytes) => received(c, bytes@, o),
        Event::Resume => if c.task is Idle {
            next_command(c, o)
        } else {
            settled(c, resumed(c.user, c.task, event, o))
        },
        Event::Accepted(stream) => if c.task is Idle {
            next_command(
                ConnView {
                    user: match stream {
                        Some(s) => installed(c.user, s),
                        None => c.user,
                    },
                    ..c
                },
                o,
            )
        } else {
            settled(c, resumed(c.user, c.task, event, o))
        },
        _ => settled(c, resumed(c.user, c.task, event, o)),
    }
}

/// The number of commands that the step takes from the inbox.
pub open spec fn taken<S, L>(c: ConnView<S, L>, event: Event<S, L>) -> nat {
    match event {
        Event::Received(bytes) => match c.task {
            TaskView::Idle => if line_end(c.inbox + bytes@) is Some {
                1
            } else {
                0
            },
            TaskView::Moving(kind) => if kind != JobKind::List && abort_waits(c.inbox + bytes@) {
                1
            } else {
                0
            },
            _ => 0,
        },
        Event::Resume | Event::Accepted(_) => if c.task is Idle && line_end(c.inbox) is Some {
            1
        } else {
            0
        },
        _ => 0,
    }
}

/// Whether the command is taken from a user in this state.
pub fn is_allowed(status: UserStatus, cmd: &FtpCommand) -> (yes: bool)
    ensures
        yes == permitted(status, cmd@),
{
    let always = match cmd {
        FtpCommand::USER(_) => true,
        FtpCommand::PASS(_) => true,
        FtpCommand::QUIT => true,
        FtpCommand::NOOP => true,
        FtpCommand::FEAT => true,
        FtpCommand::SYST => true,
        _ => false,
    };
    always || match status {
        UserStatus::Active => true,
        _ => false,
    }
}

/// Where the first line of the inbox ends, if it is whole.
pub fn line_length(inbox: &[u8]) -> (n: Option<usize>)
    ensures
        match n {
            Some(n) => line_end(inbox@) == Some(n as int) && 0 < n <= inbox@.len(),
            None => line_end(inbox@) is None,
        },
{
    let k = index_of(inbox, LF);
    if k < inbox.len() && k < MAX_LINE {
        Some(k + 1)
    } else if inbox.len() >= MAX_LINE {
        Some(MAX_LINE)
    } else {
        None
    }
}

impl Server {
    /// The commands that need neither a path nor a data channel.
    pub fn dispatch_plain<S, L>(&self, user: &mut User<S, L>, cmd: FtpCommand) -> (step: Step)
        requires
            old(user).wf(),
        ensures
            final(user).wf(),
            outcome(*final(user), step) == plain_dispatched(old(user)@, cmd@),
    {
        match cmd {
            FtpCommand::USER(username) => self.user(user, username),
            FtpCommand::PASS(pwd) => self.pass(user, pwd),
            FtpCommand::QUIT => self.quit(user),
            FtpCommand::TYPE(type_) => self.set_type(user, type_),
            FtpCommand::ALLO(size) => self.allocate(user, size),
            FtpCommand::REST(offset) => self.restart(user, offset),
            FtpCommand::ABOR => self.abort(user),
            FtpCommand::PWD => self.pwd(user),
            FtpCommand::SYST => self.system_info(user),
            FtpCommand::NOOP => self.noop(user),
            FtpCommand::FEAT => self.feat(user),
            _ => Step::done(Reply::canned(NOT_IMPLEMENTED)),
        }
    }

    /// The commands that name a path and need no data channel.
    pub fn dispatch_path<S, L>(&self, user: &mut User<S, L>, cmd: FtpCommand) -> (step: Step)
        requires
            old(user).wf(),
        ensures
            final(user).wf(),
            outcome(*final(user), step) == path_dispatched(old(user)@, cmd@),
    {
        match cmd {
            FtpCommand::CWD(dir_name) => self.cwd(user, dir_name),
            FtpCommand::CDUP => self.cd_up(user),
            FtpCommand::RNFR(file_name) => self.rename_from(user, file_name),
            FtpCommand::RNTO(file_name) => self.rename_to(user, file_name),
            FtpCommand::DELE(file_name) => self.delete(user, file_name),
            FtpCommand::RMD(dir_name) => self.remove_dir(user, dir_name),
            FtpCommand::MKD(dir_name) => self.make_dir(user, dir_name),
            FtpCommand::STAT(optional_path) => self.status(user, optional_path),
            FtpCommand::MDTM(filename) => self.get_modify_timestamp(user, filename),
            _ => Step::done(Reply::canned(NOT_IMPLEMENTED)),
        }
    }

    /// The commands that set up or use the data channel, with the name
    /// that STOU made up as second result.
    pub(crate) fn dispatch_data<S, L>(&self, user: &mut User<S, L>, cmd: FtpCommand) -> (out: (
        Step,
        Ghost<Seq<u8>>,
    ))
        requires
            old(user).wf(),
        ensures
            final(user).wf(),
            outcome(*final(user), out.0) == data_dispatched(old(user)@, cmd@, out.1@),
            out.1@.len() == 0 || (out.1@.len() == 36 && is_hex_name(out.1@)),
    {
        let ghost none = Seq::<u8>::empty();
        match cmd {
            FtpCommand::PORT(addr) => (self.port_mode(user, addr), Ghost(none)),
            FtpCommand::PASV => (self.passive_mode(user), Ghost(none)),
            FtpCommand::RETR(file_name) => (self.retrieve(user, file_name), Ghost(none)),
            FtpCommand::STOR(file_name) => (self.store(user, file_name), Ghost(none)),
            FtpCommand::STOU => {
                let step = self.store_unique(user);
                let ghost name = choose|name: Seq<u8>|
                    name.len() == 36 && is_hex_name(name) && outcome(*user, step)
                        == #[trigger] on_store_file(old(user)@, name, true);
                (step, Ghost(name))
            },
            FtpCommand::APPE(file_name) => (self.append(user, file_name), Ghost(none)),
            FtpCommand::LIST(optional_dir) => (self.list(user, optional_dir), Ghost(none)),
            FtpCommand::NLST(optional_dir) => (self.name_list(user, optional_dir), Ghost(none)),
            _ => (Step::done(Reply::canned(NOT_IMPLEMENTED)), Ghost(none)),
        }
    }

    /// What a command does first, with the name that STOU made up as
    /// second result.
    pub(crate) fn dispatch_named<S, L>(&self, user: &mut User<S, L>, cmd: FtpCommand) -> (out: (
        Step,
        Ghost<Seq<u8>>,
    ))
        requires
            old(user).wf(),
        ensures
            final(user).wf(),
            outcome(*final(user), out.0) == dispatched(old(user)@, cmd@, out.1@),
            out.1@.len() == 0 || (out.1@.len() == 36 && is_hex_name(out.1@)),
    {
        let path = match &cmd {
            FtpCommand::CWD(_) => true,
            FtpCommand::CDUP => true,
            FtpCommand::RNFR(_) => true,
            FtpCommand::RNTO(_) => true,
            FtpCommand::DELE(_) => true,
            FtpCommand::RMD(_) => true,
            FtpCommand::MKD(_) => true,
            FtpCommand::STAT(_) => true,
            FtpCommand::MDTM(_) => true,
            _ => false,
        };
        let data = match &cmd {
            FtpCommand::PORT(_) => true,
            FtpCommand::PASV => true,
            FtpCommand::RETR(_) => true,
            FtpCommand::STOR(_) => true,
            FtpCommand::STOU => true,
            FtpCommand::APPE(_) => true,
            FtpCommand::LIST(_) => true,
            FtpCommand::NLST(_) => true,
            _ => false,
        };
        if path {
            (self.dispatch_path(user, cmd), Ghost(Seq::empty()))
        } else if data {
            self.dispatch_data(user, cmd)
        } else {
            (self.dispatch_plain(user, cmd), Ghost(Seq::empty()))
        }
    }

    /// What a command does first: it is answered at once, or the file
    /// system or the network is asked and the command waits as the task of
    /// the connection. For STOU the name is made up here.
    pub fn dispatch<S, L>(&self, user: &mut User<S, L>, cmd: FtpCommand) -> (step: Step)
        requires
            old(user).wf(),
        ensures
            final(user).wf(),
            exists|name: Seq<u8>|
                (name.len() == 0 || (name.len() == 36 && is_hex_name(name))) && outcome(
                    *final(user),
                    step,
                ) == dispatched(old(user)@, cmd@, name),
    {
        let (step, Ghost(name)) = self.dispatch_named(user, cmd);
        assert(outcome(*user, step) == dispatched(old(user)@, cmd@, name));
        step
    }

    /// What a line of the control channel leads to, with the name that
    /// STOU made up as second result.
    pub(crate) fn command_named<S, L>(&self, user: &mut User<S, L>, line: &[u8]) -> (out: (
        Step,
        Ghost<Seq<u8>>,
    ))
        requires
            old(user).wf(),
        ensures
            final(user).wf(),
            outcome(*final(user), out.0) == command_step(old(user)@, line@, out.1@),
            out.1@.len() == 0 || (out.1@.len() == 36 && is_hex_name(out.1@)),
    {
        match parse_command(line) {
            Err(_) => (Step::done(Reply::canned(BAD_ARGUMENT)), Ghost(Seq::empty())),
            Ok(cmd) => {
                if is_allowed(user.status, &cmd) {
                    self.dispatch_named(user, cmd)
                } else {
                    (Step::done(Reply::canned(NOT_LOGGED_IN)), Ghost(Seq::empty()))
                }
            },
        }
    }

    /// What a connection in the middle of `task` does with an event, with
    /// what came from outside as second result.
    pub(crate) fn resume_with<S, L>(&self, user: &mut User<S, L>, task: Task, event: Event<S, L>) -> (out: (
        Step,
        Ghost<Outside>,
    ))
        requires
            old(user).wf(),
        ensures
            final(user).wf(),
            outcome(*final(user), out.0) == resumed(old(user)@, task@, event, out.1@),
            out.1@.shaped(),
    {
        let ghost nothing = outside(Seq::empty(), Seq::empty());
        match (task, event) {
            (Task::Probing { cmd, unique }, Event::Probed(p)) => probed(user, cmd, unique, p),
            (Task::Listing(cmd), Event::Listed(entries)) => {
                match entries {
                    Some(es) => {
                        let (step, Ghost(times)) = listed_step(user, cmd, es.as_slice());
                        (step, Ghost(outside(Seq::empty(), times)))
                    },
                    None => (
                        Step::done(Reply::canned(crate::reply::READ_DIR_FAILED)),
                        Ghost(nothing),
                    ),
                }
            },
            (Task::Changing(cmd), Event::Done(ok)) => (changed(user, cmd, ok), Ghost(nothing)),
            (Task::Dialing, Event::Connected(stream)) => (connected(user, stream), Ghost(nothing)),
            (Task::Binding(port), Event::Bound(got)) => (
                bound(self, user, port, got),
                Ghost(nothing),
            ),
            (Task::Awaiting(job), Event::Accepted(stream)) => (
                accepted(user, job, stream),
                Ghost(nothing),
            ),
            (Task::Opening(job), Event::Done(ok)) => (opened(user, job.kind, ok), Ghost(nothing)),
            (Task::Opening(_), Event::DataFailed) => (finish_failed(user), Ghost(nothing)),
            (Task::Moving(kind), Event::Moved(n)) => (after_block(user, kind, n), Ghost(nothing)),
            (Task::Moving(_), Event::DataFailed) => (finish_failed(user), Ghost(nothing)),
            (Task::Moving(kind), Event::Resume) => (next_block(user, kind), Ghost(nothing)),
            _ => (Step::lost(user), Ghost(nothing)),
        }
    }

    /// What a connection in the middle of `task` does with the event that
    /// answers its last action. The times that go into listings and into
    /// the answer to MDTM are written here, by this machine's clock.
    pub fn resume<S, L>(&self, user: &mut User<S, L>, task: Task, event: Event<S, L>) -> (step: Step)
        requires
            old(user).wf(),
        ensures
            final(user).wf(),
            exists|o: Outside|
                o.shaped() && outcome(*final(user), step) == resumed(old(user)@, task@, event, o),
    {
        let (step, Ghost(o)) = self.resume_with(user, task, event);
        assert(outcome(*user, step) == resumed(old(user)@, task@, event, o));
        step
    }
}

impl<S, L> ConnView<S, L> {
    /// A connection that has just been accepted: the anonymous user at the
    /// root, nothing under way, nothing read.
    pub open spec fn fresh(root: Seq<u8>) -> Self {
        ConnView {
            user: UserView::fresh(lit("anonymous"), UserStatus::Active, root),
            task: TaskView::Idle,
            inbox: Seq::empty(),
        }
    }
}

impl Server {
    /// A connection for a client that has just been accepted, and the
    /// greeting to send it.
    pub fn accept<S, L>(&self) -> (out: Result<(Connection<S, L>, Action), PathError>)
        ensures
            match out {
                Ok((conn, action)) => valid_root(self.root@) && conn.wf() && conn@
                    == ConnView::<S, L>::fresh(self.root@) && action@ == ActionView::Reply(
                    canned(GREETING),
                ),
                Err(e) => e == PathError::InvalidRoot && !valid_root(self.root@),
            },
    {
        match User::new_anonymous(self.root.as_slice()) {
            Ok(user) => Ok(
                (
                    Connection { user, task: Task::Idle, inbox: Vec::new() },
                    Action::Reply(Reply::canned(GREETING)),
                ),
            ),
            Err(e) => Err(e),
        }
    }

    /// Takes the next line from the inbox of an idle connection.
    pub(crate) fn next_line<S, L>(&self, conn: &mut Connection<S, L>) -> (out: (Action, Ghost<Outside>))
        requires
            old(conn).wf(),
        ensures
            final(conn).wf(),
            (final(conn)@, out.0@) == next_command(old(conn)@, out.1@),
            out.1@.shaped(),
    {
        let ghost nothing = outside(Seq::empty(), Seq::empty());
        match line_length(conn.inbox.as_slice()) {
            None => (Action::Read, Ghost(nothing)),
            Some(n) => {
                let line = copy_range(conn.inbox.as_slice(), 0, n);
                let rest = copy_range(conn.inbox.as_slice(), n, conn.inbox.len());
                assert(line@ =~= conn.inbox@.take(n as int));
                assert(rest@ =~= conn.inbox@.skip(n as int));
                conn.inbox = rest;
                let (step, Ghost(name)) = self.command_named(&mut conn.user, line.as_slice());
                let Step { action, task } = step;
                conn.task = task;
                (action, Ghost(Outside { name, stamp: Seq::empty(), times: Seq::empty() }))
            },
        }
    }

    /// Looks, in the middle of a transfer, at what came on the control
    /// channel.
    pub fn interrupt<S, L>(&self, conn: &mut Connection<S, L>, kind: JobKind) -> (action: Action)
        requires
            old(conn).wf(),
        ensures
            final(conn).wf(),
            (final(conn)@, action@) == interrupted(old(conn)@, kind),
    {
        conn.task = Task::Moving(kind);
        match line_length(conn.inbox.as_slice()) {
            None => Action::Block,
            Some(n) => {
                let line = copy_range(conn.inbox.as_slice(), 0, n);
                assert(line@ =~= conn.inbox@.take(n as int));
                let abort = match parse_command(line.as_slice()) {
                    Ok(FtpCommand::ABOR) => true,
                    _ => false,
                };
                if abort {
                    let rest = copy_range(conn.inbox.as_slice(), n, conn.inbox.len());
                    assert(rest@ =~= conn.inbox@.skip(n as int));
                    conn.inbox = rest;
                    let step = self.abort(&mut conn.user);
                    step.action
                } else {
                    Action::Block
                }
            },
        }
    }

    /// What a connection does with bytes from the control channel. `task`
    /// is the task it was in, which the connection itself no longer holds.
    pub(crate) fn on_received<S, L>(&self, conn: &mut Connection<S, L>, task: Task, bytes: Vec<u8>) -> (out: (
        Action,
        Ghost<Outside>,
    ))
        requires
            old(conn).wf(),
            old(conn).task@ is Idle,
        ensures
            final(conn).wf(),
            (final(conn)@, out.0@) == received(
                ConnView { task: task@, ..old(conn)@ },
                bytes@,
                out.1@,
            ),
            out.1@.shaped(),
    {
        let ghost nothing = outside(Seq::empty(), Seq::empty());
        append(&mut conn.inbox, bytes.as_slice());
        match task {
            Task::Idle => self.next_line(conn),
            Task::Moving(kind) => {
                let list = match kind {
                    JobKind::List => true,
                    _ => false,
                };
                if list {
                    let step = Step::lost(&mut conn.user);
                    (step.action, Ghost(nothing))
                } else {
                    (self.interrupt(conn, kind), Ghost(nothing))
                }
            },
            _ => {
                let step = Step::lost(&mut conn.user);
                (step.action, Ghost(nothing))
            },
        }
    }

    /// What a connection in the middle of `task` does with the event that
    /// it waited for. `task` is the task it was in, which the connection
    /// itself no longer holds.
    pub(crate) fn settle<S, L>(&self, conn: &mut Connection<S, L>, task: Task, event: Event<S, L>) -> (out: (
        Action,
        Ghost<Outside>,
    ))
        requires
            old(conn).wf(),
        ensures
            final(conn).wf(),
            (final(conn)@, out.0@) == settled(
                old(conn)@,
                resumed(old(conn)@.user, task@, event, out.1@),
            ),
            out.1@.shaped(),
    {
        let (step, o) = self.resume_with(&mut conn.user, task, event);
        let Step { action, task } = step;
        conn.task = task;
        (action, o)
    }

    /// The step of a connection, with what came from outside as second
    /// result.
    pub(crate) fn handle_with<S, L>(&self, conn: &mut Connection<S, L>, event: Event<S, L>) -> (out: (
        Action,
        Ghost<Outside>,
    ))
        requires
            old(conn).wf(),
        ensures
            final(conn).wf(),
            (final(conn)@, out.0@) == handled(old(conn)@, event, out.1@),
            out.1@.shaped(),
    {
        let ghost nothing = outside(Seq::empty(), Seq::empty());
        let mut task = Task::Idle;
        core::mem::swap(&mut conn.task, &mut task);
        let idle = match &task {
            Task::Idle => true,
            _ => false,
        };
        match event {
            Event::Closed => {
                conn.user.session = None;
                (Action::Hangup, Ghost(nothing))
            },
            Event::Received(bytes) => self.on_received(conn, task, bytes),
            Event::Resume => {
                if idle {
                    self.next_line(conn)
                } else {
                    self.settle(conn, task, Event::Resume)
                }
            },
            Event::Accepted(stream) => {
                if idle {
                    match stream {
                        Some(s) => {
                            install(&mut conn.user, s);
                        },
                        None => {},
                    }
                    self.next_line(conn)
                } else {
                    self.settle(conn, task, Event::Accepted(stream))
                }
            },
            other => self.settle(conn, task, other),
        }
    }

    /// The step of a connection: takes the event that the caller reports,
    /// changes the connection and says what the caller is to do next. The
    /// caller begins with the action that `accept` gave and goes on until
    /// the action is `Close` or `Hangup`.
    ///
    /// Bytes from the control channel are gathered until a line is whole;
    /// the line is parsed, checked against the state of the login and
    /// dispatched. While a command waits for the file system or the network
    /// no further line is taken, but for an ABOR that arrives in the middle
    /// of a transfer.
    pub fn handle<S, L>(&self, conn: &mut Connection<S, L>, event: Event<S, L>) -> (action: Action)
        requires
            old(conn).wf(),
        ensures
            final(conn).wf(),
            exists|o: Outside|
                o.shaped() && (final(conn)@, action@) == handled(old(conn)@, event, o),
    {
        let (action, Ghost(o)) = self.handle_with(conn, event);
        assert((conn@, action@) == handled(old(conn)@, event, o));
        action
    }
}

} // verus!
