//! The automation queue: commands decided while the session handle was busy,
//! waiting to be sent. The exclusivity guard admits at most one primary
//! command at a time, never queues a plain poll, and always admits side
//! actions.

use vstd::prelude::*;

use crate::command::{Command, is_primary, is_primary_spec};
use crate::session::AccountStatus;

verus! {

/// How many primary commands the queue holds.
pub open spec fn primary_count(q: Seq<Command>) -> nat
    decreases q.len(),
{
    if q.len() == 0 {
        0
    } else {
        primary_count(q.drop_last()) + (if is_primary_spec(q.last()) {
            1nat
        } else {
            0nat
        })
    }
}

/// Whether the queue holds any primary command.
pub open spec fn has_primary(q: Seq<Command>) -> bool {
    exists|i: int| 0 <= i < q.len() && is_primary_spec(#[trigger] q[i])
}

pub proof fn lemma_primary_count_push(q: Seq<Command>, c: Command)
    ensures
        primary_count(q.push(c)) == primary_count(q) + (if is_primary_spec(c) {
            1nat
        } else {
            0nat
        }),
{
    assert(q.push(c).drop_last() =~= q);
}

/// `has_primary` and `primary_count` agree.
pub proof fn lemma_has_primary_iff_count(q: Seq<Command>)
    ensures
        has_primary(q) <==> primary_count(q) >= 1,
    decreases q.len(),
{
    if q.len() > 0 {
        lemma_has_primary_iff_count(q.drop_last());
        if has_primary(q.drop_last()) {
            let i = choose|i: int|
                0 <= i < q.drop_last().len() && is_primary_spec(#[trigger] q.drop_last()[i]);
            assert(q[i] == q.drop_last()[i]);
        }
        if is_primary_spec(q.last()) {
            assert(is_primary_spec(q[q.len() - 1]));
        }
        if has_primary(q) && !is_primary_spec(q.last()) {
            let i = choose|i: int| 0 <= i < q.len() && is_primary_spec(#[trigger] q[i]);
            assert(q.drop_last()[i] == q[i]);
        }
    }
}

/// What the queue looks like after one decided command is offered to it: a
/// poll is never queued, a primary command is queued only when no primary
/// command is already queued, and a side action is always queued.
pub open spec fn enqueue_spec(q: Seq<Command>, c: Command) -> Seq<Command> {
    if c is Update {
        q
    } else if is_primary_spec(c) && has_primary(q) {
        q
    } else {
        q.push(c)
    }
}

/// Offers one decided command to the queue; returns whether it was appended.
pub fn enqueue_command(queue: &mut Vec<Command>, cmd: Command) -> (queued: bool)
    ensures
        final(queue)@ == enqueue_spec(old(queue)@, cmd),
        queued <==> final(queue)@ == old(queue)@.push(cmd) && final(queue)@.len() == old(
            queue,
        )@.len() + 1,
{
    if matches!(cmd, Command::Update) {
        return false;
    }
    if is_primary(&cmd) {
        let mut i: usize = 0;
        let mut found: bool = false;
        while i < queue.len()
            invariant
                0 <= i <= queue@.len(),
                found <==> exists|j: int| 0 <= j < i && is_primary_spec(#[trigger] queue@[j]),
            decreases queue@.len() - i,
        {
            if is_primary(&queue[i]) {
                found = true;
            }
            i = i + 1;
        }
        if found {
            return false;
        }
        assert(!has_primary(queue@));
    }
    queue.push(cmd);
    true
}

/// Removes and returns the queue's head, if any.
pub fn dequeue_command(queue: &mut Vec<Command>) -> (r: Option<Command>)
    ensures
        old(queue)@.len() == 0 ==> r is None && final(queue)@ == old(queue)@,
        old(queue)@.len() > 0 ==> r == Some(old(queue)@[0]) && final(queue)@ == old(
            queue,
        )@.remove(0),
{
    if queue.len() == 0 {
        None
    } else {
        Some(queue.remove(0))
    }
}

/// Delivers one decided command: with the handle free, checks it out and
/// hands it back with the command for sending; with the handle unavailable,
/// offers the command to the queue instead, under the exclusivity rule.
pub fn dispatch_command<S>(
    status: &mut AccountStatus<S>,
    queue: &mut Vec<Command>,
    cmd: Command,
    reason: String,
) -> (r: Option<(S, Command)>)
    ensures
        match *old(status) {
            AccountStatus::Idle(s, gs) => r == Some((s, cmd)) && *final(status)
                == AccountStatus::<S>::Busy(gs, reason) && final(queue)@ == old(queue)@,
            _ => r is None && *final(status) == *old(status) && final(queue)@ == enqueue_spec(
                old(queue)@,
                cmd,
            ),
        },
{
    match status.take_session(reason) {
        Some(s) => Some((s, cmd)),
        None => {
            enqueue_command(queue, cmd);
            None
        },
    }
}

/// Drains the queue: when the handle is free and a command waits at the
/// front, checks the handle out and removes and returns that command;
/// otherwise leaves the session and the queue alone.
pub fn next_queued<S>(
    status: &mut AccountStatus<S>,
    queue: &mut Vec<Command>,
    reason: String,
) -> (r: Option<(S, Command)>)
    ensures
        old(queue)@.len() == 0 ==> r is None && *final(status) == *old(status) && final(queue)@
            == old(queue)@,
        old(queue)@.len() > 0 ==> match *old(status) {
            AccountStatus::Idle(s, gs) => r == Some((s, old(queue)@[0])) && *final(status)
                == AccountStatus::<S>::Busy(gs, reason) && final(queue)@ == old(queue)@.remove(0),
            _ => r is None && *final(status) == *old(status) && final(queue)@ == old(queue)@,
        },
{
    if queue.len() == 0 {
        return None;
    }
    match status.take_session(reason) {
        Some(s) => {
            let c = queue.remove(0);
            Some((s, c))
        },
        None => None,
    }
}

/// One offered command never raises the primary count above one.
pub proof fn lemma_enqueue_preserves_exclusivity(q: Seq<Command>, c: Command)
    requires
        primary_count(q) <= 1,
    ensures
        primary_count(enqueue_spec(q, c)) <= 1,
{
    lemma_has_primary_iff_count(q);
    if !(c is Update) && !(is_primary_spec(c) && has_primary(q)) {
        lemma_primary_count_push(q, c);
    }
}

/// The queue contents after a whole sequence of decided commands has been
/// offered, in order.
pub open spec fn run_enqueues(q: Seq<Command>, cs: Seq<Command>) -> Seq<Command>
    decreases cs.len(),
{
    if cs.len() == 0 {
        q
    } else {
        enqueue_spec(run_enqueues(q, cs.drop_last()), cs.last())
    }
}

/// Law: however many commands are decided while the session stays busy, the
/// queue never holds more than one primary command.
pub proof fn lemma_queue_exclusivity(q: Seq<Command>, cs: Seq<Command>)
    requires
        primary_count(q) <= 1,
    ensures
        primary_count(run_enqueues(q, cs)) <= 1,
    decreases cs.len(),
{
    if cs.len() > 0 {
        lemma_queue_exclusivity(q, cs.drop_last());
        lemma_enqueue_preserves_exclusivity(run_enqueues(q, cs.drop_last()), cs.last());
    }
}

} // verus!
