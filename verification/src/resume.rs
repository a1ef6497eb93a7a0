//! What a command goes on with once the file system, or the network, has
//! answered.

use crate::commands::{CommandView, FtpCommand, HostPort};
use crate::ftp::copy_bytes;
use crate::listing::{
    all_list_times, entry_views, get_list_lines, is_stamp, listing, name_listing, stamp_time,
    Entry, EntryView,
};
use crate::path::{
    below, candidate, check_plain_name, is_plain_name, join, join_paths, leaf_name, leaf_of,
};
use crate::protocol::{
    done, lost, outcome, Action, ActionView, Event, FileStat, Job, JobKind, JobView, Outcome,
    Outside, Probe, Step, Task, TaskView,
};
use crate::reply::{
    canned, created_reply, file_status_reply, passive_reply, stamp_reply, Reply, ReplyView,
    BAD_SEQUENCE, DENIED, FILE_ACTION_OK, FILE_EXISTS, IS_DIRECTORY, NEED_MORE, NOT_FOUND,
    NO_DATA_CONNECTION, NO_SUCH_FILE, OFFSET_OUT_OF_RANGE, PORT_OK, READ_DIR_FAILED,
    REMOVE_DIR_FAILED, REMOVE_FILE_FAILED, RENAME_FAILED,
};
use crate::server::{next_pasv_port, Server};
use crate::session::{SessionView, TransferMode, TransferSession};
use crate::transfer::{
    after_accept, after_moved, after_open, continue_transfer, failed_outcome, transfer,
    transfer_for, view_plan,
};
use crate::user::{resolved, view_bytes, view_path, PathError, User, UserView};
use vstd::prelude::*;

verus! {

/// The canonical form of the path that was asked about, where there is one.
pub open spec fn target_path(p: Probe) -> Option<Seq<u8>> {
    match p.target {
        Some(stat) => Some(stat.path@),
        None => None,
    }
}

/// Where a command writes that may make a new entry: the path itself where
/// it exists, else its name in the directory it is to stand in. Either must
/// lie within the root, and a new name must be a plain one.
pub open spec fn destination(root: Seq<u8>, wanted: Seq<u8>, p: Probe) -> Result<
    Seq<u8>,
    PathError,
> {
    match p.target {
        Some(stat) => resolved(root, Some(stat.path@)),
        None => match resolved(root, view_bytes(p.parent)) {
            Ok(dir) => if is_plain_name(leaf_of(wanted)) {
                Ok(join(dir, leaf_of(wanted)))
            } else {
                Err(PathError::OutsideRoot)
            },
            Err(e) => Err(e),
        },
    }
}

/// The reply for a path that the guard refused.
pub open spec fn path_reply(e: PathError) -> ReplyView {
    if e == PathError::NotFound {
        canned(NOT_FOUND)
    } else {
        canned(DENIED)
    }
}

/// The reply of LIST and NLST for a path that the guard refused.
pub open spec fn list_path_reply(e: PathError) -> ReplyView {
    if e == PathError::NotFound {
        canned(NO_SUCH_FILE)
    } else {
        canned(DENIED)
    }
}

/// A file as the one entry of its own listing.
pub open spec fn entry_of(stat: FileStat) -> EntryView {
    EntryView {
        name: leaf_of(stat.path@),
        is_dir: stat.is_dir,
        size: stat.size,
        mtime: stat.mtime,
    }
}

/// The job that sends a listing.
pub open spec fn list_job(data: Seq<u8>) -> JobView {
    JobView { kind: JobKind::List, path: Seq::empty(), offset: 0, name: Seq::empty(), data }
}

/// The job that reads or writes a file.
pub open spec fn file_job(kind: JobKind, path: Seq<u8>, offset: u64, name: Seq<u8>) -> JobView {
    JobView { kind, path, offset, name, data: Seq::empty() }
}

/// The offset that REST has left with the data channel.
pub open spec fn restart_offset<S, L>(u: UserView<S, L>) -> u64 {
    match u.session {
        Some(s) => s.offset,
        None => 0,
    }
}

/// RETR: a directory is refused, and so is an offset at or past the end.
pub open spec fn retrieve_plan<S, L>(u: UserView<S, L>, name: Seq<u8>, stat: FileStat) -> Result<
    JobView,
    ReplyView,
> {
    let offset = restart_offset(u);
    if stat.is_dir {
        Err(canned(DENIED))
    } else if offset > 0 && offset >= stat.size {
        Err(canned(OFFSET_OUT_OF_RANGE))
    } else {
        Ok(file_job(JobKind::Retrieve, stat.path@, offset, name))
    }
}

/// STOR, STOU and APPE: a directory is refused; a file that exists is
/// refused unless an offset says where to go on, and the offset is cut to
/// the file's size; APPE goes on at the end; a new file begins at nought.
pub open spec fn store_plan<S, L>(
    u: UserView<S, L>,
    name: Seq<u8>,
    kind: JobKind,
    appending: bool,
    target: Option<FileStat>,
    to: Seq<u8>,
) -> Result<JobView, ReplyView> {
    let offset = restart_offset(u);
    match target {
        Some(stat) => if stat.is_dir {
            Err(canned(IS_DIRECTORY))
        } else if appending {
            Ok(file_job(kind, to, stat.size, name))
        } else if offset == 0 {
            Err(canned(FILE_EXISTS))
        } else if offset > stat.size {
            Ok(file_job(kind, to, stat.size, name))
        } else {
            Ok(file_job(kind, to, offset, name))
        },
        None => Ok(file_job(kind, to, 0, name)),
    }
}

/// What LIST, NLST and STAT do with the entries once they are known.
pub open spec fn listed<S, L>(
    u: UserView<S, L>,
    cmd: CommandView,
    entries: Seq<EntryView>,
    times: Seq<Seq<u8>>,
) -> Outcome<S, L> {
    match cmd {
        CommandView::LIST(_) => transfer_for(u, Ok(list_job(listing(entries, times, false)))),
        CommandView::NLST(_) => transfer_for(u, Ok(list_job(name_listing(entries)))),
        CommandView::STAT(Some(path)) => done(
            u,
            file_status_reply(path, listing(entries, times, false)),
        ),
        _ => lost(u),
    }
}

/// What LIST, NLST and STAT do once the directory is read, or could not be.
pub open spec fn after_listed<S, L>(
    u: UserView<S, L>,
    cmd: CommandView,
    entries: Option<Vec<Entry>>,
    times: Seq<Seq<u8>>,
) -> Outcome<S, L> {
    match entries {
        Some(es) => listed(u, cmd, entry_views(es@), times),
        None => done(u, canned(READ_DIR_FAILED)),
    }
}

/// The step that hands a change to the file system.
pub open spec fn change<S, L>(u: UserView<S, L>, action: ActionView, cmd: CommandView) -> Outcome<
    S,
    L,
> {
    Outcome { user: u, action, task: TaskView::Changing(cmd) }
}

/// CWD and CDUP: the working directory becomes what was found, where the
/// guard accepts it; every refusal reads the same.
pub open spec fn probe_cwd<S, L>(u: UserView<S, L>, p: Probe) -> Outcome<S, L> {
    match resolved(u.root, target_path(p)) {
        Ok(c) => done(UserView { pwd: below(u.root, c), ..u }, canned(FILE_ACTION_OK)),
        Err(_) => done(u, canned(DENIED)),
    }
}

/// DELE and RMD: what was found is handed over for removal.
pub open spec fn probe_remove<S, L>(u: UserView<S, L>, cmd: CommandView, p: Probe) -> Outcome<
    S,
    L,
> {
    match resolved(u.root, target_path(p)) {
        Ok(c) => change(
            u,
            if cmd is RMD {
                ActionView::RemoveDir { path: c }
            } else {
                ActionView::RemoveFile { path: c }
            },
            cmd,
        ),
        Err(e) => done(u, path_reply(e)),
    }
}

/// MDTM: the time of what was found, as `stamp` writes it.
pub open spec fn probe_stamp<S, L>(u: UserView<S, L>, p: Probe, stamp: Seq<u8>) -> Outcome<S, L> {
    match resolved(u.root, target_path(p)) {
        Ok(_) => done(u, stamp_reply(stamp)),
        Err(e) => done(u, path_reply(e)),
    }
}

/// RNFR: what was found is kept as the source of the rename.
pub open spec fn probe_rename_from<S, L>(u: UserView<S, L>, p: Probe) -> Outcome<S, L> {
    match resolved(u.root, target_path(p)) {
        Ok(c) => done(UserView { rename_from: Some(c), ..u }, canned(NEED_MORE)),
        Err(e) => done(u, path_reply(e)),
    }
}

/// RNTO: the source that RNFR kept is used up, whatever comes of it.
pub open spec fn probe_rename_to<S, L>(u: UserView<S, L>, name: Seq<u8>, p: Probe) -> Outcome<
    S,
    L,
> {
    match u.rename_from {
        None => done(u, canned(BAD_SEQUENCE)),
        Some(from) => match destination(u.root, candidate(u.root, u.pwd, name), p) {
            Ok(to) => change(
                UserView { rename_from: None, ..u },
                ActionView::Rename { from, to },
                CommandView::RNTO(name),
            ),
            Err(e) => done(UserView { rename_from: None, ..u }, path_reply(e)),
        },
    }
}

/// MKD: what exists already is refused, and so is every place outside the
/// root.
pub open spec fn probe_make_dir<S, L>(u: UserView<S, L>, name: Seq<u8>, p: Probe) -> Outcome<
    S,
    L,
> {
    if p.target is Some {
        done(u, canned(DENIED))
    } else {
        match destination(u.root, candidate(u.root, u.pwd, name), p) {
            Ok(to) => change(u, ActionView::MakeDir { path: to }, CommandView::MKD(name)),
            Err(_) => done(u, canned(DENIED)),
        }
    }
}

/// LIST, NLST and STAT with a path: a directory is read first, a file is
/// its own single entry.
pub open spec fn probe_list<S, L>(
    u: UserView<S, L>,
    cmd: CommandView,
    p: Probe,
    times: Seq<Seq<u8>>,
) -> Outcome<S, L> {
    match resolved(u.root, target_path(p)) {
        Ok(c) => if p.target->0.is_dir {
            Outcome {
                user: u,
                action: ActionView::ReadDir { path: c },
                task: TaskView::Listing(cmd),
            }
        } else {
            listed(u, cmd, seq![entry_of(p.target->0)], times)
        },
        Err(e) => done(
            u,
            if cmd is STAT {
                path_reply(e)
            } else {
                list_path_reply(e)
            },
        ),
    }
}

/// RETR: what was found is sent, if a session and the offset allow it.
pub open spec fn probe_retrieve<S, L>(u: UserView<S, L>, name: Seq<u8>, p: Probe) -> Outcome<
    S,
    L,
> {
    match resolved(u.root, target_path(p)) {
        Ok(_) => transfer_for(u, retrieve_plan(u, name, p.target->0)),
        Err(e) => done(u, path_reply(e)),
    }
}

/// STOR, STOU and APPE: the place to write to is settled first, then the
/// session and the file that may stand there already.
pub open spec fn probe_store<S, L>(
    u: UserView<S, L>,
    name: Seq<u8>,
    kind: JobKind,
    appending: bool,
    p: Probe,
) -> Outcome<S, L> {
    match destination(u.root, candidate(u.root, u.pwd, name), p) {
        Ok(to) => transfer_for(u, store_plan(u, name, kind, appending, p.target, to)),
        Err(e) => done(u, path_reply(e)),
    }
}

/// What a command does once the file system has said what it knows of the
/// command's path.
pub open spec fn after_probe<S, L>(
    u: UserView<S, L>,
    cmd: CommandView,
    unique: bool,
    p: Probe,
    o: Outside,
) -> Outcome<S, L> {
    match cmd {
        CommandView::CWD(_) | CommandView::CDUP => probe_cwd(u, p),
        CommandView::DELE(_) | CommandView::RMD(_) => probe_remove(u, cmd, p),
        CommandView::MDTM(_) => probe_stamp(u, p, o.stamp),
        CommandView::RNFR(_) => probe_rename_from(u, p),
        CommandView::RNTO(name) => probe_rename_to(u, name, p),
        CommandView::MKD(name) => probe_make_dir(u, name, p),
        CommandView::LIST(_) | CommandView::NLST(_) | CommandView::STAT(Some(_)) => probe_list(
            u,
            cmd,
            p,
            o.times,
        ),
        CommandView::RETR(name) => probe_retrieve(u, name, p),
        CommandView::STOR(name) => probe_store(
            u,
            name,
            if unique {
                JobKind::StoreUnique
            } else {
                JobKind::Store
            },
            false,
            p,
        ),
        CommandView::APPE(name) => probe_store(u, name, JobKind::Store, true, p),
        _ => lost(u),
    }
}

/// What MKD, RMD, DELE and RNTO answer once the file system has made the
/// change, or has not.
pub open spec fn after_change<S, L>(u: UserView<S, L>, cmd: CommandView, ok: bool) -> Outcome<S, L> {
    match cmd {
        CommandView::MKD(name) => done(
            u,
            if ok {
                created_reply(name)
            } else {
                canned(DENIED)
            },
        ),
        CommandView::RMD(_) => done(
            u,
            if ok {
                canned(FILE_ACTION_OK)
            } else {
                canned(REMOVE_DIR_FAILED)
            },
        ),
        CommandView::DELE(_) => done(
            u,
            if ok {
                canned(FILE_ACTION_OK)
            } else {
                canned(REMOVE_FILE_FAILED)
            },
        ),
        CommandView::RNTO(_) => done(
            u,
            if ok {
                canned(FILE_ACTION_OK)
            } else {
                canned(RENAME_FAILED)
            },
        ),
        _ => lost(u),
    }
}

/// PORT: the stream that was dialled becomes the data channel, in place of
/// any earlier one.
pub open spec fn after_connect<S, L>(u: UserView<S, L>, stream: Option<S>) -> Outcome<S, L> {
    match stream {
        Some(s) => done(
            UserView { session: Some(SessionView::fresh(TransferMode::Port(s))), ..u },
            canned(PORT_OK),
        ),
        None => done(u, canned(NO_DATA_CONNECTION)),
    }
}

/// PASV: the listener that was bound becomes the data channel, in place of
/// any earlier one, and its address is the answer. A port that could not be
/// bound is followed by the next, and the last by 425.
pub open spec fn after_bind<S, L>(
    u: UserView<S, L>,
    port: u16,
    bound: Option<(L, HostPort)>,
) -> Outcome<S, L> {
    match bound {
        Some((listener, at)) => done(
            UserView {
                session: Some(SessionView::fresh(TransferMode::PendingPassive(listener))),
                ..u
            },
            passive_reply(at),
        ),
        None => match next_pasv_port(Some(port)) {
            Some(next) => Outcome {
                user: u,
                action: ActionView::Bind { port: next },
                task: TaskView::Binding(next),
            },
            None => done(u, canned(NO_DATA_CONNECTION)),
        },
    }
}

/// What a connection in the middle of `task` does with an event. An event
/// that the task does not wait for gives the connection up.
pub open spec fn resumed<S, L>(
    u: UserView<S, L>,
    task: TaskView,
    event: Event<S, L>,
    o: Outside,
) -> Outcome<S, L> {
    match (task, event) {
        (TaskView::Probing { cmd, unique }, Event::Probed(p)) => after_probe(u, cmd, unique, p, o),
        (TaskView::Listing(cmd), Event::Listed(entries)) => after_listed(u, cmd, entries, o.times),
        (TaskView::Changing(cmd), Event::Done(ok)) => after_change(u, cmd, ok),
        (TaskView::Dialing, Event::Connected(stream)) => after_connect(u, stream),
        (TaskView::Binding(port), Event::Bound(bound)) => after_bind(u, port, bound),
        (TaskView::Awaiting(job), Event::Accepted(stream)) => after_accept(u, job, stream),
        (TaskView::Opening(job), Event::Done(ok)) => after_open(u, job.kind, ok),
        (TaskView::Opening(_), Event::DataFailed) => failed_outcome(u),
        (TaskView::Moving(kind), Event::Moved(n)) => after_moved(u, kind, n),
        (TaskView::Moving(_), Event::DataFailed) => failed_outcome(u),
        (TaskView::Moving(kind), Event::Resume) => continue_transfer(u, kind),
        _ => lost(u),
    }
}

/// The reply for a path that the guard refused.
pub fn path_reply_for(e: PathError) -> (r: Reply)
    ensures
        r@ == path_reply(e),
{
    match e {
        PathError::NotFound => Reply::canned(NOT_FOUND),
        _ => Reply::canned(DENIED),
    }
}

/// What the guard makes of the path that was asked about.
pub fn found_path<S, L>(user: &User<S, L>, p: &Probe) -> (out: Result<Vec<u8>, PathError>)
    ensures
        view_path(out) == resolved(user@.root, target_path(*p)),
{
    match &p.target {
        Some(stat) => user.path.resolve(Some(stat.path.as_slice())),
        None => user.path.resolve(None),
    }
}

/// Where a command writes that may make a new entry.
pub fn destination_for<S, L>(user: &User<S, L>, wanted: &[u8], p: &Probe) -> (out: Result<
    Vec<u8>,
    PathError,
>)
    ensures
        view_path(out) == destination(user@.root, wanted@, *p),
{
    match &p.target {
        Some(stat) => user.path.resolve(Some(stat.path.as_slice())),
        None => {
            let dir = match &p.parent {
                Some(d) => user.path.resolve(Some(d.as_slice())),
                None => user.path.resolve(None),
            };
            match dir {
                Ok(d) => {
                    let leaf = leaf_name(wanted);
                    if check_plain_name(leaf.as_slice()) {
                        Ok(join_paths(d.as_slice(), leaf.as_slice()))
                    } else {
                        Err(PathError::OutsideRoot)
                    }
                },
                Err(e) => Err(e),
            }
        },
    }
}

/// The offset that REST has left with the data channel.
pub fn offset_of<S, L>(user: &User<S, L>) -> (offset: u64)
    ensures
        offset == restart_offset(user@),
{
    match &user.session {
        Some(s) => s.offset,
        None => 0,
    }
}

/// The job of RETR, or the reply that refuses it.
pub fn plan_retrieve<S, L>(user: &User<S, L>, name: Vec<u8>, stat: &FileStat) -> (plan: Result<
    Job,
    Reply,
>)
    ensures
        view_plan(plan) == retrieve_plan(user@, name@, *stat),
{
    let offset = offset_of(user);
    if stat.is_dir {
        Err(Reply::canned(DENIED))
    } else if offset > 0 && offset >= stat.size {
        Err(Reply::canned(OFFSET_OUT_OF_RANGE))
    } else {
        Ok(
            Job {
                kind: JobKind::Retrieve,
                path: copy_bytes(&stat.path),
                offset,
                name,
                data: Vec::new(),
            },
        )
    }
}

/// The job of STOR, STOU or APPE, or the reply that refuses it.
pub fn plan_store<S, L>(
    user: &User<S, L>,
    name: Vec<u8>,
    kind: JobKind,
    appending: bool,
    target: &Option<FileStat>,
    to: Vec<u8>,
) -> (plan: Result<Job, Reply>)
    ensures
        view_plan(plan) == store_plan(user@, name@, kind, appending, *target, to@),
{
    let offset = offset_of(user);
    match target {
        Some(stat) => {
            if stat.is_dir {
                Err(Reply::canned(IS_DIRECTORY))
            } else if appending {
                Ok(Job { kind, path: to, offset: stat.size, name, data: Vec::new() })
            } else if offset == 0 {
                Err(Reply::canned(FILE_EXISTS))
            } else if offset > stat.size {
                Ok(Job { kind, path: to, offset: stat.size, name, data: Vec::new() })
            } else {
                Ok(Job { kind, path: to, offset, name, data: Vec::new() })
            }
        },
        None => Ok(Job { kind, path: to, offset: 0, name, data: Vec::new() }),
    }
}

/// The job that sends a listing.
pub fn list_job_for(data: Vec<u8>) -> (job: Job)
    ensures
        job@ == list_job(data@),
{
    Job { kind: JobKind::List, path: Vec::new(), offset: 0, name: Vec::new(), data }
}

/// LIST, NLST and STAT once the entries are known. The second result is
/// the times as they were written into the lines.
pub(crate) fn listed_step<S, L>(user: &mut User<S, L>, cmd: FtpCommand, entries: &[Entry]) -> (out: (
    Step,
    Ghost<Seq<Seq<u8>>>,
))
    requires
        old(user).wf(),
    ensures
        final(user).wf(),
        outcome(*final(user), out.0) == listed(old(user)@, cmd@, entry_views(entries@), out.1@),
        all_list_times(out.1@),
{
    match cmd {
        FtpCommand::LIST(_) => {
            let data = get_list_lines(entries, false);
            let ghost times = choose|times: Seq<Seq<u8>>|
                all_list_times(times) && data@ == #[trigger] listing(
                    entry_views(entries@),
                    times,
                    false,
                );
            let step = transfer(user, Ok(list_job_for(data)));
            (step, Ghost(times))
        },
        FtpCommand::NLST(_) => {
            let data = get_list_lines(entries, true);
            let step = transfer(user, Ok(list_job_for(data)));
            (step, Ghost(Seq::empty()))
        },
        FtpCommand::STAT(Some(path)) => {
            let data = get_list_lines(entries, false);
            let ghost times = choose|times: Seq<Seq<u8>>|
                all_list_times(times) && data@ == #[trigger] listing(
                    entry_views(entries@),
                    times,
                    false,
                );
            let step = Step::done(Reply::file_status(path.as_slice(), data));
            (step, Ghost(times))
        },
        _ => {
            let step = Step::lost(user);
            (step, Ghost(Seq::empty()))
        },
    }
}

/// A file as the one entry of its own listing.
pub fn entry_for(stat: &FileStat) -> (entry: Entry)
    ensures
        entry@ == entry_of(*stat),
{
    Entry {
        name: leaf_name(stat.path.as_slice()),
        is_dir: stat.is_dir,
        size: stat.size,
        mtime: stat.mtime,
    }
}

/// LIST, NLST and STAT once the path is found.
pub(crate) fn list_found<S, L>(user: &mut User<S, L>, cmd: FtpCommand, path: Vec<u8>, stat: &FileStat) -> (out:
    (Step, Ghost<Seq<Seq<u8>>>))
    requires
        old(user).wf(),
    ensures
        final(user).wf(),
        outcome(*final(user), out.0) == (if stat.is_dir {
            Outcome {
                user: old(user)@,
                action: ActionView::ReadDir { path: path@ },
                task: TaskView::Listing(cmd@),
            }
        } else {
            listed(old(user)@, cmd@, seq![entry_of(*stat)], out.1@)
        }),
        all_list_times(out.1@),
{
    if stat.is_dir {
        (Step { action: Action::ReadDir { path }, task: Task::Listing(cmd) }, Ghost(Seq::empty()))
    } else {
        let mut entries: Vec<Entry> = Vec::new();
        entries.push(entry_for(stat));
        assert(entry_views(entries@) =~= seq![entry_of(*stat)]);
        listed_step(user, cmd, entries.as_slice())
    }
}

/// What came from outside where no name was made up.
pub open spec fn outside(stamp: Seq<u8>, times: Seq<Seq<u8>>) -> Outside {
    Outside { name: Seq::empty(), stamp, times }
}

/// CWD and CDUP once the path is asked about.
pub fn cwd_found<S, L>(user: &mut User<S, L>, p: &Probe) -> (step: Step)
    requires
        old(user).wf(),
    ensures
        final(user).wf(),
        outcome(*final(user), step) == probe_cwd(old(user)@, *p),
{
    let r = match &p.target {
        Some(stat) => user.path.enter(Some(stat.path.as_slice())),
        None => user.path.enter(None),
    };
    match r {
        Ok(_) => Step::done(Reply::canned(FILE_ACTION_OK)),
        Err(_) => Step::done(Reply::canned(DENIED)),
    }
}

/// DELE and RMD once the path is asked about.
pub fn remove_found<S, L>(user: &mut User<S, L>, cmd: FtpCommand, p: &Probe) -> (step: Step)
    requires
        old(user).wf(),
    ensures
        final(user).wf(),
        outcome(*final(user), step) == probe_remove(old(user)@, cmd@, *p),
{
    match found_path(user, p) {
        Ok(path) => {
            let dir = match &cmd {
                FtpCommand::RMD(_) => true,
                _ => false,
            };
            if dir {
                Step { action: Action::RemoveDir { path }, task: Task::Changing(cmd) }
            } else {
                Step { action: Action::RemoveFile { path }, task: Task::Changing(cmd) }
            }
        },
        Err(e) => Step::done(path_reply_for(e)),
    }
}

/// MDTM once the path is found. The second result is the time as it was
/// written.
pub(crate) fn stamp_found<S, L>(user: &mut User<S, L>, p: &Probe) -> (out: (Step, Ghost<Seq<u8>>))
    requires
        old(user).wf(),
    ensures
        final(user).wf(),
        outcome(*final(user), out.0) == probe_stamp(old(user)@, *p, out.1@),
        out.1@.len() == 0 || is_stamp(out.1@),
{
    match found_path(user, p) {
        Ok(_) => {
            let mtime = match &p.target {
                Some(stat) => stat.mtime,
                None => 0,
            };
            let stamp = stamp_time(mtime);
            let ghost written = stamp@;
            (Step::done(Reply::stamp(stamp)), Ghost(written))
        },
        Err(e) => (Step::done(path_reply_for(e)), Ghost(Seq::empty())),
    }
}

/// RNFR once the path is asked about.
pub fn rename_from_found<S, L>(user: &mut User<S, L>, p: &Probe) -> (step: Step)
    requires
        old(user).wf(),
    ensures
        final(user).wf(),
        outcome(*final(user), step) == probe_rename_from(old(user)@, *p),
{
    match found_path(user, p) {
        Ok(path) => {
            user.rename_from = Some(path);
            Step::done(Reply::canned(NEED_MORE))
        },
        Err(e) => Step::done(path_reply_for(e)),
    }
}

/// RNTO once the path is asked about.
pub fn rename_to_found<S, L>(user: &mut User<S, L>, name: Vec<u8>, p: &Probe) -> (step: Step)
    requires
        old(user).wf(),
    ensures
        final(user).wf(),
        outcome(*final(user), step) == probe_rename_to(old(user)@, name@, *p),
{
    let held = user.rename_from.take();
    match held {
        None => Step::done(Reply::canned(BAD_SEQUENCE)),
        Some(from) => {
            let wanted = user.path.join(name.as_slice());
            match destination_for(user, wanted.as_slice(), p) {
                Ok(to) => Step {
                    action: Action::Rename { from, to },
                    task: Task::Changing(FtpCommand::RNTO(name)),
                },
                Err(e) => Step::done(path_reply_for(e)),
            }
        },
    }
}

/// MKD once the path is asked about.
pub fn make_dir_found<S, L>(user: &mut User<S, L>, name: Vec<u8>, p: &Probe) -> (step: Step)
    requires
        old(user).wf(),
    ensures
        final(user).wf(),
        outcome(*final(user), step) == probe_make_dir(old(user)@, name@, *p),
{
    if p.target.is_some() {
        return Step::done(Reply::canned(DENIED));
    }
    let wanted = user.path.join(name.as_slice());
    match destination_for(user, wanted.as_slice(), p) {
        Ok(to) => Step {
            action: Action::MakeDir { path: to },
            task: Task::Changing(FtpCommand::MKD(name)),
        },
        Err(_) => Step::done(Reply::canned(DENIED)),
    }
}

/// LIST, NLST and STAT once the path is found. The second result is the
/// times as they were written into the lines.
pub(crate) fn list_probed<S, L>(user: &mut User<S, L>, cmd: FtpCommand, p: &Probe) -> (out: (
    Step,
    Ghost<Seq<Seq<u8>>>,
))
    requires
        old(user).wf(),
    ensures
        final(user).wf(),
        outcome(*final(user), out.0) == probe_list(old(user)@, cmd@, *p, out.1@),
        all_list_times(out.1@),
{
    match found_path(user, p) {
        Ok(path) => {
            match &p.target {
                Some(stat) => list_found(user, cmd, path, stat),
                None => (Step::lost(user), Ghost(Seq::empty())),
            }
        },
        Err(e) => {
            let status = match &cmd {
                FtpCommand::STAT(_) => true,
                _ => false,
            };
            let reply = if status {
                path_reply_for(e)
            } else {
                match e {
                    PathError::NotFound => Reply::canned(NO_SUCH_FILE),
                    _ => Reply::canned(DENIED),
                }
            };
            (Step::done(reply), Ghost(Seq::empty()))
        },
    }
}

/// RETR once the path is asked about.
pub fn retrieve_found<S, L>(user: &mut User<S, L>, name: Vec<u8>, p: &Probe) -> (step: Step)
    requires
        old(user).wf(),
    ensures
        final(user).wf(),
        outcome(*final(user), step) == probe_retrieve(old(user)@, name@, *p),
{
    match found_path(user, p) {
        Ok(_) => {
            match &p.target {
                Some(stat) => {
                    let plan = plan_retrieve(user, name, stat);
                    transfer(user, plan)
                },
                None => Step::lost(user),
            }
        },
        Err(e) => Step::done(path_reply_for(e)),
    }
}

/// STOR, STOU and APPE once the path is asked about.
pub fn store_found<S, L>(
    user: &mut User<S, L>,
    name: Vec<u8>,
    kind: JobKind,
    appending: bool,
    p: &Probe,
) -> (step: Step)
    requires
        old(user).wf(),
    ensures
        final(user).wf(),
        outcome(*final(user), step) == probe_store(old(user)@, name@, kind, appending, *p),
{
    let wanted = user.path.join(name.as_slice());
    match destination_for(user, wanted.as_slice(), p) {
        Ok(to) => {
            let plan = plan_store(user, name, kind, appending, &p.target, to);
            transfer(user, plan)
        },
        Err(e) => Step::done(path_reply_for(e)),
    }
}

/// The step after `Probed`, with what came from outside as second result.
pub(crate) fn probed<S, L>(user: &mut User<S, L>, cmd: FtpCommand, unique: bool, p: Probe) -> (out: (
    Step,
    Ghost<Outside>,
))
    requires
        old(user).wf(),
    ensures
        final(user).wf(),
        outcome(*final(user), out.0) == after_probe(old(user)@, cmd@, unique, p, out.1@),
        out.1@.shaped(),
{
    let ghost nothing = outside(Seq::empty(), Seq::empty());
    match cmd {
        FtpCommand::CWD(_) | FtpCommand::CDUP => (cwd_found(user, &p), Ghost(nothing)),
        FtpCommand::DELE(_) | FtpCommand::RMD(_) => (remove_found(user, cmd, &p), Ghost(nothing)),
        FtpCommand::MDTM(_) => {
            let (step, Ghost(stamp)) = stamp_found(user, &p);
            (step, Ghost(outside(stamp, Seq::empty())))
        },
        FtpCommand::RNFR(_) => (rename_from_found(user, &p), Ghost(nothing)),
        FtpCommand::RNTO(name) => (rename_to_found(user, name, &p), Ghost(nothing)),
        FtpCommand::MKD(name) => (make_dir_found(user, name, &p), Ghost(nothing)),
        FtpCommand::LIST(_) | FtpCommand::NLST(_) | FtpCommand::STAT(Some(_)) => {
            let (step, Ghost(times)) = list_probed(user, cmd, &p);
            (step, Ghost(outside(Seq::empty(), times)))
        },
        FtpCommand::RETR(name) => (retrieve_found(user, name, &p), Ghost(nothing)),
        FtpCommand::STOR(name) => {
            let kind = if unique {
                JobKind::StoreUnique
            } else {
                JobKind::Store
            };
            (store_found(user, name, kind, false, &p), Ghost(nothing))
        },
        FtpCommand::APPE(name) => (store_found(user, name, JobKind::Store, true, &p), Ghost(nothing)),
        _ => (Step::lost(user), Ghost(nothing)),
    }
}

/// MKD, RMD, DELE and RNTO once the file system has made the change, or
/// has not.
pub fn changed<S, L>(user: &mut User<S, L>, cmd: FtpCommand, ok: bool) -> (step: Step)
    requires
        old(user).wf(),
    ensures
        final(user).wf(),
        outcome(*final(user), step) == after_change(old(user)@, cmd@, ok),
{
    match cmd {
        FtpCommand::MKD(name) => {
            if ok {
                Step::done(Reply::created(name.as_slice()))
            } else {
                Step::done(Reply::canned(DENIED))
            }
        },
        FtpCommand::RMD(_) => {
            if ok {
                Step::done(Reply::canned(FILE_ACTION_OK))
            } else {
                Step::done(Reply::canned(REMOVE_DIR_FAILED))
            }
        },
        FtpCommand::DELE(_) => {
            if ok {
                Step::done(Reply::canned(FILE_ACTION_OK))
            } else {
                Step::done(Reply::canned(REMOVE_FILE_FAILED))
            }
        },
        FtpCommand::RNTO(_) => {
            if ok {
                Step::done(Reply::canned(FILE_ACTION_OK))
            } else {
                Step::done(Reply::canned(RENAME_FAILED))
            }
        },
        _ => Step::lost(user),
    }
}

/// PORT once the address is dialled, or could not be.
pub fn connected<S, L>(user: &mut User<S, L>, stream: Option<S>) -> (step: Step)
    requires
        old(user).wf(),
    ensures
        final(user).wf(),
        outcome(*final(user), step) == after_connect(old(user)@, stream),
{
    match stream {
        Some(s) => {
            user.set_new_session(TransferSession::new(TransferMode::Port(s)));
            Step::done(Reply::canned(PORT_OK))
        },
        None => Step::done(Reply::canned(NO_DATA_CONNECTION)),
    }
}

/// PASV once a port is bound, or could not be.
pub fn bound<S, L>(server: &Server, user: &mut User<S, L>, port: u16, got: Option<(L, HostPort)>) -> (step:
    Step)
    requires
        old(user).wf(),
    ensures
        final(user).wf(),
        outcome(*final(user), step) == after_bind(old(user)@, port, got),
{
    match got {
        Some((listener, at)) => {
            user.set_new_session(TransferSession::new(TransferMode::PendingPassive(listener)));
            Step::done(Reply::passive(at))
        },
        None => {
            match server.generate_pasv_addr(Some(port)) {
                Some(next) => Step {
                    action: Action::Bind { port: next },
                    task: Task::Binding(next),
                },
                None => Step::done(Reply::canned(NO_DATA_CONNECTION)),
            }
        },
    }
}

} // verus!
