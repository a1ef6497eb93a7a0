//! What passes between the protocol core and its caller: the actions that
//! the core asks for, the events that the caller reports, and the task that
//! a connection is in the middle of.

use crate::commands::{CommandView, FtpCommand, HostPort};
use crate::listing::{all_list_times, is_stamp, Entry};
use crate::reply::{Reply, ReplyView};
use crate::user::{User, UserView};
use vstd::prelude::*;

verus! {

/// The number of bytes that one block of a transfer carries at most.
pub const BLOCK_SIZE: usize = 8192;

/// What the file system knows of a path that it could resolve.
#[derive(Debug, Clone, PartialEq, Eq)]
pub struct FileStat {
    /// The canonical form of the path.
    pub path: Vec<u8>,
    pub is_dir: bool,
    pub size: u64,
    /// Seconds since 1970 at which it was last changed.
    pub mtime: i64,
}

/// The file system's answer to `Action::Probe`.
#[derive(Debug, Clone, PartialEq, Eq)]
pub struct Probe {
    /// The path, where it could be resolved.
    pub target: Option<FileStat>,
    /// The canonical form of the path's directory, where that could be.
    pub parent: Option<Vec<u8>>,
}

/// What the caller reports. `S` is its stream type, `L` its listener type.
#[derive(Debug)]
pub enum Event<S, L> {
    /// The last action is carried out and has nothing to report.
    Resume,
    /// Bytes that arrived on the control channel.
    Received(Vec<u8>),
    /// The control channel is closed or broken.
    Closed,
    /// The answer to `Action::Probe`.
    Probed(Probe),
    /// The answer to `Action::ReadDir`: the entries, unless reading failed.
    Listed(Option<Vec<Entry>>),
    /// Whether a change to the file system, or the opening of a file, succeeded.
    Done(bool),
    /// The answer to `Action::Connect`: the stream, unless dialling failed.
    Connected(Option<S>),
    /// The answer to `Action::Bind`: the listener and its IPv4 address,
    /// unless the port could not be bound.
    Bound(Option<(L, HostPort)>),
    /// The client dialled the passive listener, or the wait for it ran out.
    Accepted(Option<S>),
    /// The number of bytes that went over the data channel: none at its end.
    Moved(u64),
    /// The data channel, or the file behind it, failed.
    DataFailed,
}

/// What a transfer is for.
#[derive(Debug, Clone, Copy, PartialEq, Eq, Structural)]
pub enum JobKind {
    Retrieve,
    Store,
    StoreUnique,
    List,
}

/// What is to go over the data channel once it stands.
#[derive(Debug, Clone, PartialEq, Eq)]
pub struct Job {
    pub kind: JobKind,
    /// The file to read or write; empty for a listing.
    pub path: Vec<u8>,
    /// Where in the file to begin.
    pub offset: u64,
    /// The name under which the client knows the file.
    pub name: Vec<u8>,
    /// The listing to send; empty for a file.
    pub data: Vec<u8>,
}

/// A job with its paths and data as sequences of bytes.
pub struct JobView {
    pub kind: JobKind,
    pub path: Seq<u8>,
    pub offset: u64,
    pub name: Seq<u8>,
    pub data: Seq<u8>,
}

impl View for Job {
    type V = JobView;

    open spec fn view(&self) -> JobView {
        JobView {
            kind: self.kind,
            path: self.path@,
            offset: self.offset,
            name: self.name@,
            data: self.data@,
        }
    }
}

/// What the caller is to do next. Each action but `Close` and `Hangup` is
/// answered by an event: `Resume` where nothing else is named.
#[derive(Debug, Clone, PartialEq, Eq)]
pub enum Action {
    /// Read from the control channel: `Received` or `Closed`. While the
    /// client is awaited on a passive listener, `Accepted` may come instead.
    Read,
    /// Write the reply on the control channel.
    Reply(Reply),
    /// Write the reply and close the control channel: the connection ends.
    Close(Reply),
    /// Close everything without a word: the connection ends.
    Hangup,
    /// Resolve `path` and its directory `parent`: `Probed`.
    Probe { path: Vec<u8>, parent: Vec<u8> },
    /// Read the entries of the directory: `Listed`.
    ReadDir { path: Vec<u8> },
    /// Create the directory: `Done`.
    MakeDir { path: Vec<u8> },
    /// Remove the empty directory: `Done`.
    RemoveDir { path: Vec<u8> },
    /// Remove the file: `Done`.
    RemoveFile { path: Vec<u8> },
    /// Rename `from` to `to`: `Done`.
    Rename { from: Vec<u8>, to: Vec<u8> },
    /// Dial the address for a data channel: `Connected`.
    Connect(HostPort),
    /// Listen on the port for a data channel: `Bound`.
    Bind { port: u16 },
    /// Wait, not for ever, until the client has dialled the listener:
    /// `Accepted`.
    Accept,
    /// Write the reply, then open the file to read from `offset`: `Done`.
    OpenRead { reply: Reply, path: Vec<u8>, offset: u64 },
    /// Write the reply, then open the file, cut it at `offset` and write
    /// from there; create it where it is missing: `Done`.
    OpenWrite { reply: Reply, path: Vec<u8>, offset: u64 },
    /// Write the reply, then send `data` on the data channel: `Moved` or
    /// `DataFailed`.
    SendList { reply: Reply, data: Vec<u8> },
    /// Move one block between file and data channel: `Moved` or
    /// `DataFailed`; or, where bytes have come on the control channel
    /// meanwhile, `Received` and no block.
    Block,
    /// Close the data channel, the sending side first, then write the reply.
    Finish(Reply),
}

/// An action with its paths, data and replies as values of the model.
pub enum ActionView {
    Read,
    Reply(ReplyView),
    Close(ReplyView),
    Hangup,
    Probe { path: Seq<u8>, parent: Seq<u8> },
    ReadDir { path: Seq<u8> },
    MakeDir { path: Seq<u8> },
    RemoveDir { path: Seq<u8> },
    RemoveFile { path: Seq<u8> },
    Rename { from: Seq<u8>, to: Seq<u8> },
    Connect(HostPort),
    Bind { port: u16 },
    Accept,
    OpenRead { reply: ReplyView, path: Seq<u8>, offset: u64 },
    OpenWrite { reply: ReplyView, path: Seq<u8>, offset: u64 },
    SendList { reply: ReplyView, data: Seq<u8> },
    Block,
    Finish(ReplyView),
}

impl View for Action {
    type V = ActionView;

    open spec fn view(&self) -> ActionView {
        match *self {
            Action::Read => ActionView::Read,
            Action::Reply(r) => ActionView::Reply(r@),
            Action::Close(r) => ActionView::Close(r@),
            Action::Hangup => ActionView::Hangup,
            Action::Probe { path, parent } => ActionView::Probe { path: path@, parent: parent@ },
            Action::ReadDir { path } => ActionView::ReadDir { path: path@ },
            Action::MakeDir { path } => ActionView::MakeDir { path: path@ },
            Action::RemoveDir { path } => ActionView::RemoveDir { path: path@ },
            Action::RemoveFile { path } => ActionView::RemoveFile { path: path@ },
            Action::Rename { from, to } => ActionView::Rename { from: from@, to: to@ },
            Action::Connect(at) => ActionView::Connect(at),
            Action::Bind { port } => ActionView::Bind { port },
            Action::Accept => ActionView::Accept,
            Action::OpenRead { reply, path, offset } => ActionView::OpenRead {
                reply: reply@,
                path: path@,
                offset,
            },
            Action::OpenWrite { reply, path, offset } => ActionView::OpenWrite {
                reply: reply@,
                path: path@,
                offset,
            },
            Action::SendList { reply, data } => ActionView::SendList { reply: reply@, data: data@ },
            Action::Block => ActionView::Block,
            Action::Finish(r) => ActionView::Finish(r@),
        }
    }
}

impl ActionView {
    /// The reply that the action puts on the control channel, if any.
    pub open spec fn reply(self) -> Option<ReplyView> {
        match self {
            ActionView::Reply(r) => Some(r),
            ActionView::Close(r) => Some(r),
            ActionView::Finish(r) => Some(r),
            ActionView::OpenRead { reply, .. } => Some(reply),
            ActionView::OpenWrite { reply, .. } => Some(reply),
            ActionView::SendList { reply, .. } => Some(reply),
            _ => None,
        }
    }

    /// Every reply that goes out has a status code from 100 to 599.
    pub open spec fn wf(self) -> bool {
        self.reply() is Some ==> self.reply()->0.wf()
    }

    /// The number of replies in the action that end a command.
    pub open spec fn final_replies(self) -> nat {
        if self.reply() is Some && self.reply()->0.is_final() {
            1
        } else {
            0
        }
    }
}

/// What a connection is in the middle of.
#[derive(Debug, Clone, PartialEq, Eq)]
pub enum Task {
    /// Nothing: the next command may be read.
    Idle,
    /// The path of `cmd` is with the file system. `unique` marks the STOR
    /// that stands for a STOU.
    Probing { cmd: FtpCommand, unique: bool },
    /// The directory that `cmd` named is being read.
    Listing(FtpCommand),
    /// The change that `cmd` asked for is with the file system.
    Changing(FtpCommand),
    /// The address that PORT named is being dialled.
    Dialing,
    /// A listener for PASV is being bound to this port.
    Binding(u16),
    /// The client is awaited on the passive listener, with this job to do.
    Awaiting(Job),
    /// The file of this job is being opened.
    Opening(Job),
    /// Data of this kind is on its way.
    Moving(JobKind),
}

/// A task with its command and job as values of the model.
pub enum TaskView {
    Idle,
    Probing { cmd: CommandView, unique: bool },
    Listing(CommandView),
    Changing(CommandView),
    Dialing,
    Binding(u16),
    Awaiting(JobView),
    Opening(JobView),
    Moving(JobKind),
}

impl View for Task {
    type V = TaskView;

    open spec fn view(&self) -> TaskView {
        match *self {
            Task::Idle => TaskView::Idle,
            Task::Probing { cmd, unique } => TaskView::Probing { cmd: cmd@, unique },
            Task::Listing(cmd) => TaskView::Listing(cmd@),
            Task::Changing(cmd) => TaskView::Changing(cmd@),
            Task::Dialing => TaskView::Dialing,
            Task::Binding(port) => TaskView::Binding(port),
            Task::Awaiting(job) => TaskView::Awaiting(job@),
            Task::Opening(job) => TaskView::Opening(job@),
            Task::Moving(kind) => TaskView::Moving(kind),
        }
    }
}

/// What the handling of a command or event decides: the action for the
/// caller, and the task that the connection is in afterwards.
#[derive(Debug, Clone, PartialEq, Eq)]
pub struct Step {
    pub action: Action,
    pub task: Task,
}

/// A step together with the user as the step leaves it.
pub struct Outcome<S, L> {
    pub user: UserView<S, L>,
    pub action: ActionView,
    pub task: TaskView,
}

/// What a handler leaves behind, as one value.
pub open spec fn outcome<S, L>(user: User<S, L>, step: Step) -> Outcome<S, L> {
    Outcome { user: user@, action: step.action@, task: step.task@ }
}

/// What comes from outside the protocol and is not told by any event: the
/// name that STOU makes up and the times as this machine's clock and zone
/// write them.
pub struct Outside {
    /// The name for STOU.
    pub name: Seq<u8>,
    /// The time for MDTM.
    pub stamp: Seq<u8>,
    /// The times for the lines of a listing, one each.
    pub times: Seq<Seq<u8>>,
}

impl Outside {
    /// What holds of whatever comes from outside: the name is 36 bytes of
    /// hyphens and hexadecimal digits, the time for MDTM fourteen digits,
    /// and the times of a listing are each a month, a day, an hour and a
    /// minute; or they are empty, where none was asked for.
    pub open spec fn shaped(self) -> bool {
        &&& self.name.len() == 0 || (self.name.len() == 36 && is_hex_name(self.name))
        &&& self.stamp.len() == 0 || is_stamp(self.stamp)
        &&& all_list_times(self.times)
    }
}

/// Whether every byte of `name` is a hyphen, a digit or a letter from a to f.
pub open spec fn is_hex_name(name: Seq<u8>) -> bool {
    forall|i: int|
        0 <= i < name.len() ==> (#[trigger] name[i] == 45 || 48 <= name[i] <= 57 || 97 <= name[i]
            <= 102)
}

/// The connection is given up: nothing is said, and the data channel goes.
pub open spec fn lost<S, L>(user: UserView<S, L>) -> Outcome<S, L> {
    Outcome {
        user: UserView { session: None, ..user },
        action: ActionView::Hangup,
        task: TaskView::Idle,
    }
}

/// The number of commands that a connection with such a task still owes an
/// answer.
pub open spec fn pending(task: TaskView) -> nat {
    if task is Idle {
        0
    } else {
        1
    }
}

/// Whether a step settles what is owed: of `owed` commands each is answered
/// by one reply that ends it, or is still the task of the connection; and
/// every reply in the step has a status code from 100 to 599. A step that
/// gives the connection up owes nothing to anyone.
pub open spec fn answers<S, L>(out: Outcome<S, L>, owed: nat) -> bool {
    &&& out.action.wf()
    &&& (out.action is Hangup || owed == out.action.final_replies() + pending(out.task))
}

/// The command is answered and done.
pub open spec fn done<S, L>(user: UserView<S, L>, reply: ReplyView) -> Outcome<S, L> {
    Outcome { user, action: ActionView::Reply(reply), task: TaskView::Idle }
}

impl Step {
    /// The step that gives the connection up.
    pub fn lost<S, L>(user: &mut User<S, L>) -> (step: Step)
        ensures
            outcome(*final(user), step) == lost(old(user)@),
            final(user).path == old(user).path,
    {
        user.session = None;
        Step { action: Action::Hangup, task: Task::Idle }
    }

    /// The step that answers a command and ends it.
    pub fn done(reply: Reply) -> (step: Step)
        ensures
            step.action@ == ActionView::Reply(reply@),
            step.task@ == TaskView::Idle,
    {
        Step { action: Action::Reply(reply), task: Task::Idle }
    }
}

} // verus!
