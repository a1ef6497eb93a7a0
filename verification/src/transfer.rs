//! The data phase of a command: from the moment its path is settled to the
//! reply that ends it. The mark that ABOR leaves on a session is looked at
//! before anything else, at every step.

use crate::ftp::copy_bytes;
use crate::protocol::{
    done, outcome, Action, ActionView, Job, JobKind, JobView, Outcome, Step, Task, TaskView,
};
use crate::reply::{
    canned, opening_reply, stored_reply, Reply, ReplyView, DATA_FAILED, NO_DATA_CONNECTION,
    OPENING_LIST, OPEN_FAILED, TRANSFER_ABORTED, TRANSFER_COMPLETE,
};
use crate::session::{SessionView, TransferMode, TransferSession};
use crate::user::{User, UserView};
use vstd::prelude::*;

verus! {

/// Whether there is a data channel that has not carried a transfer to its
/// end yet.
pub open spec fn usable<S, L>(u: UserView<S, L>) -> bool {
    u.session is Some && !u.session->0.finished
}

/// Whether ABOR has marked the data channel.
pub open spec fn aborted<S, L>(u: UserView<S, L>) -> bool {
    u.session is Some && u.session->0.aborted
}

/// The transfer ends because ABOR asked for it.
pub open spec fn aborted_outcome<S, L>(u: UserView<S, L>) -> Outcome<S, L> {
    Outcome { user: u, action: ActionView::Finish(canned(TRANSFER_ABORTED)), task: TaskView::Idle }
}

/// The user once the data channel has carried what it was for.
pub open spec fn ended<S, L>(u: UserView<S, L>) -> UserView<S, L> {
    match u.session {
        Some(s) => UserView { session: Some(SessionView { finished: true, ..s }), ..u },
        None => u,
    }
}

/// The transfer ends because the data channel failed: the session goes.
pub open spec fn failed_outcome<S, L>(u: UserView<S, L>) -> Outcome<S, L> {
    Outcome {
        user: UserView { session: None, ..u },
        action: ActionView::Finish(canned(DATA_FAILED)),
        task: TaskView::Idle,
    }
}

/// What ends a transfer that went through.
pub open spec fn closing_reply<S, L>(u: UserView<S, L>, kind: JobKind) -> ReplyView {
    if kind == JobKind::StoreUnique && u.session is Some {
        stored_reply(u.session->0.file_name)
    } else {
        canned(TRANSFER_COMPLETE)
    }
}

/// The transfer ends because all is moved.
pub open spec fn completed_outcome<S, L>(u: UserView<S, L>, kind: JobKind) -> Outcome<S, L> {
    Outcome {
        user: ended(u),
        action: ActionView::Finish(closing_reply(u, kind)),
        task: TaskView::Idle,
    }
}

/// The next block is asked for.
pub open spec fn block_outcome<S, L>(u: UserView<S, L>, kind: JobKind) -> Outcome<S, L> {
    Outcome { user: u, action: ActionView::Block, task: TaskView::Moving(kind) }
}

/// The session as a transfer finds it and as it leaves it for the job:
/// named after the file, nothing moved yet, the restart offset used up.
pub open spec fn engaged<S, L>(s: SessionView<S, L>, job: JobView) -> SessionView<S, L> {
    SessionView { file_name: job.name, finished_size: 0, offset: 0, ..s }
}

/// What opens the transfer once the stream stands.
pub open spec fn opening_action(job: JobView) -> ActionView {
    match job.kind {
        JobKind::List => ActionView::SendList { reply: canned(OPENING_LIST), data: job.data },
        JobKind::Retrieve => ActionView::OpenRead {
            reply: opening_reply(job.name),
            path: job.path,
            offset: job.offset,
        },
        _ => ActionView::OpenWrite {
            reply: opening_reply(job.name),
            path: job.path,
            offset: job.offset,
        },
    }
}

/// The task after the opening: a listing is on its way at once, a file is
/// opened first.
pub open spec fn opening_task(job: JobView) -> TaskView {
    match job.kind {
        JobKind::List => TaskView::Moving(JobKind::List),
        _ => TaskView::Opening(job),
    }
}

/// Starts the job on the data channel. Without a channel that is still to
/// be used the answer is 425; a channel that ABOR has marked ends the
/// transfer before it has begun; a channel that waits for the client has
/// the client awaited first.
pub open spec fn start_transfer<S, L>(u: UserView<S, L>, job: JobView) -> Outcome<S, L> {
    if aborted(u) {
        aborted_outcome(u)
    } else if !usable(u) {
        done(u, canned(NO_DATA_CONNECTION))
    } else if u.session->0.mode is PendingPassive {
        Outcome { user: u, action: ActionView::Accept, task: TaskView::Awaiting(job) }
    } else {
        Outcome {
            user: UserView { session: Some(engaged(u.session->0, job)), ..u },
            action: opening_action(job),
            task: opening_task(job),
        }
    }
}

/// What a command of the data channel comes to once its path is settled:
/// `plan` is its job, or the reply that says why there is none.
pub open spec fn transfer_for<S, L>(u: UserView<S, L>, plan: Result<JobView, ReplyView>) -> Outcome<
    S,
    L,
> {
    if aborted(u) {
        aborted_outcome(u)
    } else if !usable(u) {
        done(u, canned(NO_DATA_CONNECTION))
    } else {
        match plan {
            Ok(job) => start_transfer(u, job),
            Err(reply) => done(u, reply),
        }
    }
}

/// The user once the client has dialled the passive listener: the stream
/// takes the listener's place. Where no listener waits, nothing changes.
pub open spec fn installed<S, L>(u: UserView<S, L>, stream: S) -> UserView<S, L> {
    if u.session is Some && u.session->0.mode is PendingPassive {
        UserView {
            session: Some(SessionView { mode: TransferMode::Passive(stream), ..u.session->0 }),
            ..u
        }
    } else {
        u
    }
}

/// After the wait for the client: with the stream the job starts, without
/// it the answer is 425.
pub open spec fn after_accept<S, L>(u: UserView<S, L>, job: JobView, stream: Option<S>) -> Outcome<
    S,
    L,
> {
    match stream {
        Some(s) => start_transfer(installed(u, s), job),
        None => if aborted(u) {
            aborted_outcome(u)
        } else {
            done(u, canned(NO_DATA_CONNECTION))
        },
    }
}

/// After the opening of the file: the first block, or 550.
pub open spec fn after_open<S, L>(u: UserView<S, L>, kind: JobKind, ok: bool) -> Outcome<S, L> {
    if aborted(u) {
        aborted_outcome(u)
    } else if ok {
        block_outcome(u, kind)
    } else {
        Outcome {
            user: ended(u),
            action: ActionView::Finish(canned(OPEN_FAILED)),
            task: TaskView::Idle,
        }
    }
}

/// The sum of what was moved before and now, as far as 64 bits count.
pub open spec fn counted(before: u64, n: u64) -> u64 {
    if before + n > u64::MAX {
        u64::MAX
    } else {
        (before + n) as u64
    }
}

/// The user once `n` more bytes are counted.
pub open spec fn moved<S, L>(u: UserView<S, L>, n: u64) -> UserView<S, L> {
    match u.session {
        Some(s) => UserView {
            session: Some(SessionView { finished_size: counted(s.finished_size, n), ..s }),
            ..u
        },
        None => u,
    }
}

/// After a block: the mark of ABOR is looked at first; a block of no bytes,
/// and the one block of a listing, end the transfer.
pub open spec fn after_moved<S, L>(u: UserView<S, L>, kind: JobKind, n: u64) -> Outcome<S, L> {
    if aborted(u) {
        aborted_outcome(moved(u, n))
    } else if kind == JobKind::List || n == 0 {
        completed_outcome(moved(u, n), kind)
    } else {
        block_outcome(moved(u, n), kind)
    }
}

/// Before the next block: the mark of ABOR is looked at first.
pub open spec fn continue_transfer<S, L>(u: UserView<S, L>, kind: JobKind) -> Outcome<S, L> {
    if aborted(u) {
        aborted_outcome(u)
    } else {
        block_outcome(u, kind)
    }
}

/// The step that ends a transfer because ABOR asked for it.
pub fn finish_aborted() -> (step: Step)
    ensures
        step.action@ == ActionView::Finish(canned(TRANSFER_ABORTED)),
        step.task@ == TaskView::Idle,
{
    Step { action: Action::Finish(Reply::canned(TRANSFER_ABORTED)), task: Task::Idle }
}

/// The step that ends a transfer because the data channel failed.
pub fn finish_failed<S, L>(user: &mut User<S, L>) -> (step: Step)
    requires
        old(user).wf(),
    ensures
        final(user).wf(),
        outcome(*final(user), step) == failed_outcome(old(user)@),
{
    user.session = None;
    Step { action: Action::Finish(Reply::canned(DATA_FAILED)), task: Task::Idle }
}

/// Whether ABOR has marked the data channel.
pub fn is_aborted<S, L>(user: &User<S, L>) -> (yes: bool)
    ensures
        yes == aborted(user@),
{
    match &user.session {
        Some(s) => s.aborted,
        None => false,
    }
}

/// Whether there is a data channel still to be used.
pub fn is_usable<S, L>(user: &User<S, L>) -> (yes: bool)
    ensures
        yes == usable(user@),
{
    match &user.session {
        Some(s) => !s.finished,
        None => false,
    }
}

/// The step that opens the transfer once the stream stands.
pub fn opening_step(job: Job) -> (step: Step)
    ensures
        step.action@ == opening_action(job@),
        step.task@ == opening_task(job@),
{
    match job.kind {
        JobKind::List => Step {
            action: Action::SendList { reply: Reply::canned(OPENING_LIST), data: job.data },
            task: Task::Moving(JobKind::List),
        },
        JobKind::Retrieve => {
            let reply = Reply::opening(job.name.as_slice());
            let path = copy_bytes(&job.path);
            let offset = job.offset;
            Step { action: Action::OpenRead { reply, path, offset }, task: Task::Opening(job) }
        },
        _ => {
            let reply = Reply::opening(job.name.as_slice());
            let path = copy_bytes(&job.path);
            let offset = job.offset;
            Step { action: Action::OpenWrite { reply, path, offset }, task: Task::Opening(job) }
        },
    }
}

/// Starts the job on the data channel.
pub fn begin<S, L>(user: &mut User<S, L>, job: Job) -> (step: Step)
    requires
        old(user).wf(),
    ensures
        final(user).wf(),
        outcome(*final(user), step) == start_transfer(old(user)@, job@),
{
    if is_aborted(user) {
        return finish_aborted();
    }
    if !is_usable(user) {
        return Step::done(Reply::canned(NO_DATA_CONNECTION));
    }
    let held = user.session.take();
    match held {
        Some(mut session) => {
            let pending = match &session.mode {
                TransferMode::PendingPassive(_) => true,
                _ => false,
            };
            if pending {
                user.session = Some(session);
                Step { action: Action::Accept, task: Task::Awaiting(job) }
            } else {
                session.file_name = copy_bytes(&job.name);
                session.finished_size = 0;
                session.offset = 0;
                user.session = Some(session);
                opening_step(job)
            }
        },
        None => Step::done(Reply::canned(NO_DATA_CONNECTION)),
    }
}

/// A plan as a value of the model.
pub open spec fn view_plan(plan: Result<Job, Reply>) -> Result<JobView, ReplyView> {
    match plan {
        Ok(job) => Ok(job@),
        Err(reply) => Err(reply@),
    }
}

/// What a command of the data channel comes to once its path is settled.
pub fn transfer<S, L>(user: &mut User<S, L>, plan: Result<Job, Reply>) -> (step: Step)
    requires
        old(user).wf(),
    ensures
        final(user).wf(),
        outcome(*final(user), step) == transfer_for(old(user)@, view_plan(plan)),
{
    if is_aborted(user) {
        return finish_aborted();
    }
    if !is_usable(user) {
        return Step::done(Reply::canned(NO_DATA_CONNECTION));
    }
    match plan {
        Ok(job) => begin(user, job),
        Err(reply) => Step::done(reply),
    }
}

/// Puts the stream in the place of the listener that waited for it.
pub fn install<S, L>(user: &mut User<S, L>, stream: S)
    requires
        old(user).wf(),
    ensures
        final(user).wf(),
        final(user)@ == installed(old(user)@, stream),
{
    let held = user.session.take();
    match held {
        Some(session) => {
            let TransferSession {
                mode,
                total_size,
                finished_size,
                file_name,
                finished,
                aborted,
                offset,
            } = session;
            match mode {
                TransferMode::PendingPassive(_) => {
                    user.session = Some(
                        TransferSession {
                            mode: TransferMode::Passive(stream),
                            total_size,
                            finished_size,
                            file_name,
                            finished,
                            aborted,
                            offset,
                        },
                    );
                },
                other => {
                    user.session = Some(
                        TransferSession {
                            mode: other,
                            total_size,
                            finished_size,
                            file_name,
                            finished,
                            aborted,
                            offset,
                        },
                    );
                },
            }
        },
        None => {},
    }
}

/// The step after the wait for the client.
pub fn accepted<S, L>(user: &mut User<S, L>, job: Job, stream: Option<S>) -> (step: Step)
    requires
        old(user).wf(),
    ensures
        final(user).wf(),
        outcome(*final(user), step) == after_accept(old(user)@, job@, stream),
{
    match stream {
        Some(s) => {
            install(user, s);
            begin(user, job)
        },
        None => {
            if is_aborted(user) {
                finish_aborted()
            } else {
                Step::done(Reply::canned(NO_DATA_CONNECTION))
            }
        },
    }
}

/// Marks the data channel as used up.
pub fn mark_ended<S, L>(user: &mut User<S, L>)
    requires
        old(user).wf(),
    ensures
        final(user).wf(),
        final(user)@ == ended(old(user)@),
{
    let held = user.session.take();
    match held {
        Some(mut session) => {
            session.finished = true;
            user.session = Some(session);
        },
        None => {},
    }
}

/// The step after the opening of the file.
pub fn opened<S, L>(user: &mut User<S, L>, kind: JobKind, ok: bool) -> (step: Step)
    requires
        old(user).wf(),
    ensures
        final(user).wf(),
        outcome(*final(user), step) == after_open(old(user)@, kind, ok),
{
    if is_aborted(user) {
        finish_aborted()
    } else if ok {
        Step { action: Action::Block, task: Task::Moving(kind) }
    } else {
        mark_ended(user);
        Step { action: Action::Finish(Reply::canned(OPEN_FAILED)), task: Task::Idle }
    }
}

/// Counts `n` more bytes as moved.
pub fn count_moved<S, L>(user: &mut User<S, L>, n: u64)
    requires
        old(user).wf(),
    ensures
        final(user).wf(),
        final(user)@ == moved(old(user)@, n),
{
    let held = user.session.take();
    match held {
        Some(mut session) => {
            if session.finished_size > u64::MAX - n {
                session.finished_size = u64::MAX;
            } else {
                session.finished_size = session.finished_size + n;
            }
            user.session = Some(session);
        },
        None => {},
    }
}

/// The step after a block.
pub fn after_block<S, L>(user: &mut User<S, L>, kind: JobKind, n: u64) -> (step: Step)
    requires
        old(user).wf(),
    ensures
        final(user).wf(),
        outcome(*final(user), step) == after_moved(old(user)@, kind, n),
{
    let stop = is_aborted(user);
    count_moved(user, n);
    if stop {
        return finish_aborted();
    }
    let list = match kind {
        JobKind::List => true,
        _ => false,
    };
    if list || n == 0 {
        let unique = match kind {
            JobKind::StoreUnique => true,
            _ => false,
        };
        let reply = match &user.session {
            Some(s) => {
                if unique {
                    Reply::stored(s.file_name.as_slice())
                } else {
                    Reply::canned(TRANSFER_COMPLETE)
                }
            },
            None => Reply::canned(TRANSFER_COMPLETE),
        };
        mark_ended(user);
        Step { action: Action::Finish(reply), task: Task::Idle }
    } else {
        Step { action: Action::Block, task: Task::Moving(kind) }
    }
}

/// The step before the next block.
pub fn next_block<S, L>(user: &mut User<S, L>, kind: JobKind) -> (step: Step)
    requires
        old(user).wf(),
    ensures
        final(user).wf(),
        *final(user) == *old(user),
        outcome(*final(user), step) == continue_transfer(old(user)@, kind),
{
    if is_aborted(user) {
        finish_aborted()
    } else {
        Step { action: Action::Block, task: Task::Moving(kind) }
    }
}

/// Once ABOR has marked a session, whatever happens on the data channel
/// ends the transfer, and the reply that ends it is 226 or 426: never one
/// of the 500s.
pub proof fn lemma_abort_ends_transfer<S, L>(
    u: UserView<S, L>,
    job: JobView,
    plan: Result<JobView, ReplyView>,
    stream: Option<S>,
    ok: bool,
    n: u64,
)
    requires
        aborted(u),
    ensures
        ends_after_abort(start_transfer(u, job)),
        ends_after_abort(transfer_for(u, plan)),
        ends_after_abort(after_accept(u, job, stream)),
        ends_after_abort(after_open(u, job.kind, ok)),
        ends_after_abort(after_moved(u, job.kind, n)),
        ends_after_abort(continue_transfer(u, job.kind)),
        ends_after_abort(failed_outcome(u)),
{
}

/// The transfer is over and the reply says 226 or 426.
pub open spec fn ends_after_abort<S, L>(o: Outcome<S, L>) -> bool {
    &&& o.task is Idle
    &&& o.action is Finish
    &&& (o.action->Finish_0.code == 226 || o.action->Finish_0.code == 426)
}

} // verus!
