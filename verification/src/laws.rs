//! What holds of the protocol as a whole, beyond the contract of any one
//! function.

use crate::commands::CommandView;
use crate::ftp::{on_cd_up, on_pwd};
use crate::path::{below, is_canonical, join, lemma_below_joins_back, within};
use crate::protocol::{
    answers, done, pending, ActionView, Event, JobKind, JobView, Outside, Probe, TaskView,
};
use crate::commands::{host_port_of, parse, split, HostPort};
use crate::reply::six_numbers;
use crate::text::{
    all_digits, decimal, find, is_digit, lemma_decimal_reads_back, lemma_find_from,
    read_decimal, COMMA,
};
use crate::reply::{
    canned, pwd_reply, ReplyView, ABOR_OK, FILE_ACTION_OK, NOT_LOGGED_IN, TRANSFER_ABORTED,
};
use crate::path::candidate;
use crate::resume::{
    after_probe, destination, restart_offset, resumed, retrieve_plan, store_plan, target_path,
};
use crate::server::{abort_waits, command_step, handled, next_command, permitted, taken, ConnView};
use crate::transfer::{
    aborted, after_accept, after_moved, after_open, continue_transfer, failed_outcome,
    start_transfer, transfer_for,
};
use crate::user::{resolved, shown, UserStatus, UserView};
use vstd::prelude::*;

verus! {

/// Whatever the data phase of a command comes to, it answers the command
/// once or leaves it as the task of the connection.
pub proof fn lemma_transfer_answers<S, L>(
    u: UserView<S, L>,
    job: JobView,
    plan: Result<JobView, ReplyView>,
    stream: Option<S>,
    ok: bool,
    n: u64,
)
    requires
        plan is Err ==> plan->Err_0.wf() && plan->Err_0.is_final(),
    ensures
        answers(start_transfer(u, job), 1),
        answers(transfer_for(u, plan), 1),
        answers(after_accept(u, job, stream), 1),
        answers(after_open(u, job.kind, ok), 1),
        answers(after_moved(u, job.kind, n), 1),
        answers(continue_transfer(u, job.kind), 1),
        answers(failed_outcome(u), 1),
{
}

/// Once the file system has answered for a path, the command is answered
/// once or goes on as the task of the connection.
pub proof fn lemma_probe_answers<S, L>(
    u: UserView<S, L>,
    cmd: CommandView,
    unique: bool,
    p: Probe,
    o: Outside,
)
    ensures
        answers(after_probe(u, cmd, unique, p, o), 1),
{
    match cmd {
        CommandView::RETR(name) => {
            if p.target is Some {
                lemma_transfer_answers(
                    u,
                    arbitrary(),
                    retrieve_plan(u, name, p.target->0),
                    None,
                    true,
                    0,
                );
            }
        },
        _ => {},
    }
}

/// A step that answers an event which a task waited for settles the one
/// command that the task stood for.
pub proof fn lemma_resumed_answers<S, L>(u: UserView<S, L>, task: TaskView, event: Event<S, L>, o: Outside)
    requires
        !(task is Idle),
    ensures
        answers(resumed(u, task, event, o), 1),
{
    match (task, event) {
        (TaskView::Probing { cmd, unique }, Event::Probed(p)) => {
            lemma_probe_answers(u, cmd, unique, p, o);
        },
        (TaskView::Awaiting(job), Event::Accepted(stream)) => {
            lemma_transfer_answers(u, job, Ok(job), stream, true, 0);
        },
        (TaskView::Opening(job), Event::Done(ok)) => {
            lemma_transfer_answers(u, job, Ok(job), None, ok, 0);
        },
        _ => {},
    }
}

/// Every command that is dispatched is answered once or becomes the task of
/// the connection.
pub proof fn lemma_command_answers<S, L>(u: UserView<S, L>, line: Seq<u8>, name: Seq<u8>)
    ensures
        answers(command_step(u, line, name), 1),
{
}

/// Every command gets exactly one reply that ends it, and every reply
/// carries a status code from 100 to 599: whatever the state of a
/// connection and whatever the event, the commands that were under way and
/// those that the step takes from the control channel are, after the step,
/// answered by a reply of the step or still under way. Only a step that
/// gives the connection up says nothing.
pub proof fn lemma_every_command_answered<S, L>(c: ConnView<S, L>, event: Event<S, L>, o: Outside)
    ensures
        handled(c, event, o).1.wf(),
        handled(c, event, o).1 is Hangup || pending(c.task) + taken(c, event) == handled(
            c,
            event,
            o,
        ).1.final_replies() + pending(handled(c, event, o).0.task),
{
    match event {
        Event::Closed => {},
        Event::Received(bytes) => {
            let c2 = ConnView { inbox: c.inbox + bytes@, ..c };
            match c.task {
                TaskView::Idle => {
                    lemma_next_answers(c2, o);
                },
                _ => {},
            }
        },
        Event::Resume => {
            if c.task is Idle {
                lemma_next_answers(c, o);
            } else {
                lemma_resumed_answers(c.user, c.task, event, o);
            }
        },
        Event::Accepted(stream) => {
            if c.task is Idle {
                lemma_next_answers(
                    ConnView {
                        user: match stream {
                            Some(s) => crate::transfer::installed(c.user, s),
                            None => c.user,
                        },
                        ..c
                    },
                    o,
                );
            } else {
                lemma_resumed_answers(c.user, c.task, event, o);
            }
        },
        _ => {
            if !(c.task is Idle) {
                lemma_resumed_answers(c.user, c.task, event, o);
            }
        },
    }
}

/// An idle connection that takes a line answers it or makes it its task.
pub proof fn lemma_next_answers<S, L>(c: ConnView<S, L>, o: Outside)
    requires
        c.task is Idle,
    ensures
        next_command(c, o).1.wf(),
        next_command(c, o).1 is Hangup || (if crate::server::line_end(c.inbox) is Some {
            1nat
        } else {
            0nat
        }) == next_command(c, o).1.final_replies() + pending(next_command(c, o).0.task),
{
    match crate::server::line_end(c.inbox) {
        Some(n) => {
            lemma_command_answers(c.user, c.inbox.take(n), o.name);
        },
        None => {},
    }
}

/// CWD, then PWD: once the guard has accepted what the file system found
/// for the directory, PWD shows that canonical path as it lies below the
/// root, and the working directory is that path.
pub proof fn lemma_cwd_then_pwd<S, L>(u: UserView<S, L>, dir: Seq<u8>, p: Probe, o: Outside)
    requires
        u.wf(),
        resolved(u.root, target_path(p)) is Ok,
    ensures
        ({
            let c = resolved(u.root, target_path(p))->Ok_0;
            let entered = after_probe(u, CommandView::CWD(dir), false, p, o);
            &&& entered.user.wf()
            &&& entered.action == ActionView::Reply(canned(FILE_ACTION_OK))
            &&& join(u.root, entered.user.pwd) == c
            &&& on_pwd(entered.user).action == ActionView::Reply(pwd_reply(shown(below(u.root, c))))
            &&& on_pwd(entered.user).user == entered.user
        }),
{
    let c = resolved(u.root, target_path(p))->Ok_0;
    lemma_below_joins_back(u.root, c);
}

/// CDUP at the root leaves the working directory at the root.
pub proof fn lemma_cd_up_at_root<S, L>(u: UserView<S, L>)
    requires
        u.pwd.len() == 0,
    ensures
        on_cd_up(u).user == u,
        on_cd_up(u).task is Idle,
        on_cd_up(u).action is Reply,
{
}

/// A refused CWD leaves the working directory where it was.
pub proof fn lemma_refused_cwd_changes_nothing<S, L>(u: UserView<S, L>, dir: Seq<u8>, p: Probe, o: Outside)
    requires
        resolved(u.root, target_path(p)) is Err,
    ensures
        after_probe(u, CommandView::CWD(dir), false, p, o).user == u,
        after_probe(u, CommandView::CWD(dir), false, p, o).action is Reply,
        after_probe(u, CommandView::CWD(dir), false, p, o).action->Reply_0.code == 550,
{
}

/// Whatever path the guard lets through is canonical and is the root or
/// lies below it: the path that was found, and just as much the place for
/// a new entry in a directory that was found.
pub proof fn lemma_accepted_paths_lie_within(
    root: Seq<u8>,
    wanted: Seq<u8>,
    canonical: Option<Seq<u8>>,
    p: Probe,
)
    requires
        is_canonical(root),
    ensures
        resolved(root, canonical) is Ok ==> is_canonical(resolved(root, canonical)->Ok_0)
            && within(root, resolved(root, canonical)->Ok_0),
        destination(root, wanted, p) is Ok ==> is_canonical(destination(root, wanted, p)->Ok_0)
            && within(root, destination(root, wanted, p)->Ok_0),
{
    if destination(root, wanted, p) is Ok && p.target is None {
        let dir = resolved(root, crate::user::view_bytes(p.parent))->Ok_0;
        let leaf = crate::path::leaf_of(wanted);
        crate::path::lemma_join_plain(dir, leaf);
        crate::path::lemma_within_within(root, dir, join(dir, leaf));
    }
}

/// A file that STOR has written without an offset is the file that RETR of
/// the same name reads from its beginning: both go to the canonical path
/// that the file system found, and both start at nought.
pub proof fn lemma_store_then_retrieve_same_file<S, L>(
    u: UserView<S, L>,
    name: Seq<u8>,
    before: Probe,
    after: Probe,
)
    requires
        restart_offset(u) == 0,
        before.target is None,
        destination(u.root, candidate(u.root, u.pwd, name), before) is Ok,
        after.target is Some,
        !after.target->0.is_dir,
        after.target->0.path@ == destination(u.root, candidate(u.root, u.pwd, name), before)->Ok_0,
        is_canonical(u.root),
    ensures
        ({
            let to = destination(u.root, candidate(u.root, u.pwd, name), before)->Ok_0;
            let stored = store_plan(u, name, JobKind::Store, false, before.target, to);
            let read = retrieve_plan(u, name, after.target->0);
            &&& stored is Ok && read is Ok
            &&& stored->Ok_0.path == read->Ok_0.path
            &&& stored->Ok_0.offset == 0 && read->Ok_0.offset == 0
            &&& resolved(u.root, target_path(after)) is Ok
        }),
{
    lemma_accepted_paths_lie_within(u.root, candidate(u.root, u.pwd, name), None, before);
}

/// A connection that is in the middle of a transfer.
pub open spec fn transferring(task: TaskView) -> bool {
    task is Awaiting || task is Opening || task is Moving
}

/// The events that a transfer waits for.
pub open spec fn of_the_data_channel<S, L>(event: Event<S, L>) -> bool {
    event is Accepted || event is Done || event is Moved || event is DataFailed || event is Resume
}

/// A transfer whose session ABOR has marked ends at its next step, whatever
/// that step is about, and the reply that ends it is 226 or 426: never one
/// of the 500s.
pub proof fn lemma_marked_transfer_ends<S, L>(c: ConnView<S, L>, event: Event<S, L>, o: Outside)
    requires
        transferring(c.task),
        aborted(c.user),
        of_the_data_channel(event),
    ensures
        handled(c, event, o).1 is Hangup || ({
            let after = handled(c, event, o);
            &&& after.0.task is Idle
            &&& after.1 is Finish
            &&& (after.1->Finish_0.code == 226 || after.1->Finish_0.code == 426)
        }),
{
}

/// ABOR in the middle of the transfer of a file: it is answered at once
/// with 226, the transfer stays the task of the connection and its session
/// is marked, and the step after the answer ends the transfer with 226.
pub proof fn lemma_abort_during_transfer<S, L>(
    c: ConnView<S, L>,
    kind: JobKind,
    bytes: Vec<u8>,
    o: Outside,
    o2: Outside,
)
    requires
        c.task == TaskView::Moving(kind),
        kind != JobKind::List,
        c.user.session is Some,
        abort_waits(c.inbox + bytes@),
    ensures
        ({
            let marked = handled(c, Event::Received(bytes), o);
            let ended = handled(marked.0, Event::Resume, o2);
            &&& marked.1 == ActionView::Reply(canned(ABOR_OK))
            &&& marked.0.task == c.task
            &&& aborted(marked.0.user)
            &&& ended.1 == ActionView::Finish(canned(TRANSFER_ABORTED))
            &&& ended.0.task is Idle
        }),
{
}

/// A command that needs a login and finds none is answered 530, and
/// nothing changes.
pub proof fn lemma_login_needed<S, L>(u: UserView<S, L>, line: Seq<u8>, name: Seq<u8>)
    requires
        parse(line) is Ok,
        !permitted(u.status, parse(line)->Ok_0),
    ensures
        command_step(u, line, name) == done(u, canned(NOT_LOGGED_IN)),
        permitted(UserStatus::Active, parse(line)->Ok_0),
{
}

/// A part without a comma, a comma and a rest split into that part and
/// the parts of the rest.
pub proof fn lemma_split_first(a: Seq<u8>, rest: Seq<u8>)
    requires
        forall|i: int| 0 <= i < a.len() ==> a[i] != COMMA,
    ensures
        split(a + seq![COMMA] + rest, COMMA) == seq![a] + split(rest, COMMA),
{
    let s = a + seq![COMMA] + rest;
    lemma_find_from(s, COMMA, 0);
    let k = find(s, COMMA);
    assert(s[a.len() as int] == COMMA);
    assert(k == a.len()) by {
        if k < a.len() {
            assert(s[k] == a[k]);
        }
    }
    assert(s.take(k) =~= a);
    assert(s.skip(k + 1) =~= rest);
}

/// What is all digits has no comma and is its own single part.
pub proof fn lemma_split_digits(a: Seq<u8>)
    requires
        all_digits(a),
    ensures
        forall|i: int| 0 <= i < a.len() ==> a[i] != COMMA,
        split(a, COMMA) == seq![a],
{
    assert forall|i: int| 0 <= i < a.len() implies a[i] != COMMA by {
        assert(is_digit(a[i]));
    }
    lemma_find_from(a, COMMA, 0);
}

/// Six runs of digits with commas between them split into those six.
pub proof fn lemma_split_six(
    d1: Seq<u8>,
    d2: Seq<u8>,
    d3: Seq<u8>,
    d4: Seq<u8>,
    d5: Seq<u8>,
    d6: Seq<u8>,
)
    requires
        all_digits(d1),
        all_digits(d2),
        all_digits(d3),
        all_digits(d4),
        all_digits(d5),
        all_digits(d6),
    ensures
        split(
            d1 + seq![COMMA] + (d2 + seq![COMMA] + (d3 + seq![COMMA] + (d4 + seq![COMMA] + (d5
                + seq![COMMA] + d6)))),
            COMMA,
        ) == seq![d1, d2, d3, d4, d5, d6],
{
    let c = seq![COMMA];
    let r5 = d5 + c + d6;
    let r4 = d4 + c + r5;
    let r3 = d3 + c + r4;
    let r2 = d2 + c + r3;
    let r1 = d1 + c + r2;
    assert(split(r5, COMMA) =~= seq![d5, d6]) by {
        lemma_split_digits(d5);
        lemma_split_digits(d6);
        lemma_split_first(d5, d6);
    }
    assert(split(r4, COMMA) =~= seq![d4, d5, d6]) by {
        lemma_split_digits(d4);
        lemma_split_first(d4, r5);
    }
    assert(split(r3, COMMA) =~= seq![d3, d4, d5, d6]) by {
        lemma_split_digits(d3);
        lemma_split_first(d3, r4);
    }
    assert(split(r2, COMMA) =~= seq![d2, d3, d4, d5, d6]) by {
        lemma_split_digits(d2);
        lemma_split_first(d2, r3);
    }
    assert(split(r1, COMMA) =~= seq![d1, d2, d3, d4, d5, d6]) by {
        lemma_split_digits(d1);
        lemma_split_first(d1, r2);
    }
}

/// Six parts that read as numbers below 256 name the address that those
/// numbers spell.
pub proof fn lemma_six_numbers_name(parts: Seq<Seq<u8>>, at: HostPort)
    requires
        parts.len() == 6,
        read_decimal(parts[0], 255) == Some(at.h1 as nat),
        read_decimal(parts[1], 255) == Some(at.h2 as nat),
        read_decimal(parts[2], 255) == Some(at.h3 as nat),
        read_decimal(parts[3], 255) == Some(at.h4 as nat),
        read_decimal(parts[4], 255) == Some((at.port / 256) as nat),
        read_decimal(parts[5], 255) == Some((at.port % 256) as nat),
    ensures
        host_port_of(parts) == Some(at),
{
    assert(at.port == (at.port / 256) * 256 + at.port % 256);
    assert forall|i: int| 0 <= i < 6 implies read_decimal(#[trigger] parts[i], 255) is Some by {
        if i == 0 {
        } else if i == 1 {
        } else if i == 2 {
        } else if i == 3 {
        } else if i == 4 {
        } else {
        }
    }
}

/// The address in the answer to PASV reads back, as PORT reads it, as the
/// address that was written.
pub proof fn lemma_passive_address_reads_back(at: HostPort)
    ensures
        host_port_of(split(six_numbers(at), COMMA)) == Some(at),
{
    let d1 = decimal(at.h1 as nat);
    let d2 = decimal(at.h2 as nat);
    let d3 = decimal(at.h3 as nat);
    let d4 = decimal(at.h4 as nat);
    let d5 = decimal((at.port / 256) as nat);
    let d6 = decimal((at.port % 256) as nat);
    let parts = seq![d1, d2, d3, d4, d5, d6];
    assert(split(six_numbers(at), COMMA) == parts) by {
        lemma_decimal_reads_back(at.h1 as nat, 255);
        lemma_decimal_reads_back(at.h2 as nat, 255);
        lemma_decimal_reads_back(at.h3 as nat, 255);
        lemma_decimal_reads_back(at.h4 as nat, 255);
        lemma_decimal_reads_back((at.port / 256) as nat, 255);
        lemma_decimal_reads_back((at.port % 256) as nat, 255);
        lemma_split_six(d1, d2, d3, d4, d5, d6);
    }
    assert(read_decimal(parts[0], 255) == Some(at.h1 as nat)) by {
        lemma_decimal_reads_back(at.h1 as nat, 255);
    }
    assert(read_decimal(parts[1], 255) == Some(at.h2 as nat)) by {
        lemma_decimal_reads_back(at.h2 as nat, 255);
    }
    assert(read_decimal(parts[2], 255) == Some(at.h3 as nat)) by {
        lemma_decimal_reads_back(at.h3 as nat, 255);
    }
    assert(read_decimal(parts[3], 255) == Some(at.h4 as nat)) by {
        lemma_decimal_reads_back(at.h4 as nat, 255);
    }
    assert(read_decimal(parts[4], 255) == Some((at.port / 256) as nat)) by {
        lemma_decimal_reads_back((at.port / 256) as nat, 255);
    }
    assert(read_decimal(parts[5], 255) == Some((at.port % 256) as nat)) by {
        lemma_decimal_reads_back((at.port % 256) as nat, 255);
    }
    lemma_six_numbers_name(parts, at);
}

} // verus!
