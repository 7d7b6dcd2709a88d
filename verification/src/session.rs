//! The account session state machine. One account owns exactly one connection
//! handle; it is either attached to the `Idle` state or checked out to exactly
//! one in-flight operation, never both, and handing it out always clears it
//! from the state until it is returned.
//!
//! The handle type `S` is the session client's connection value; this module
//! never looks inside it.

use vstd::prelude::*;

use crate::snapshot::GameStateSnapshot;

verus! {

/// The ownership state of one account's connection handle and last snapshot.
pub enum AccountStatus<S> {
    /// The session is being established; no handle exists yet.
    LoggingIn,
    /// The handle is attached and available, together with the last snapshot.
    Idle(S, GameStateSnapshot),
    /// The handle is checked out to one in-flight operation; the snapshot
    /// stays readable, tagged with the reason the handle was taken.
    Busy(GameStateSnapshot, String),
    /// The session is terminally broken until external re-authentication.
    FatalError(String),
    /// A failed send triggered a background re-login.
    LoggingInAgain,
}

impl<S> AccountStatus<S> {
    /// Checks the handle out for one in-flight operation. From `Idle` the
    /// handle is returned and the state becomes `Busy` with the given reason;
    /// from any other state nothing is returned and nothing changes.
    pub fn take_session(&mut self, reason: String) -> (r: Option<S>)
        ensures
            match *old(self) {
                AccountStatus::Idle(s, gs) => r == Some(s) && *final(self)
                    == AccountStatus::<S>::Busy(gs, reason),
                _ => r is None && *final(self) == *old(self),
            },
            (r is Some) <==> *old(self) is Idle,
    {
        let mut tmp: AccountStatus<S> = AccountStatus::LoggingInAgain;
        core::mem::swap(self, &mut tmp);
        match tmp {
            AccountStatus::Idle(s, gs) => {
                *self = AccountStatus::Busy(gs, reason);
                Some(s)
            },
            other => {
                *self = other;
                None
            },
        }
    }

    /// Returns a checked-out handle. From `Busy` the handle is re-attached
    /// and the state becomes `Idle`; from any other state the state is left
    /// alone and the handle is dropped as an inconsistency.
    pub fn put_session(&mut self, session: S)
        ensures
            match *old(self) {
                AccountStatus::Busy(gs, _) => *final(self) == AccountStatus::Idle(session, gs),
                _ => *final(self) == *old(self),
            },
    {
        let mut tmp: AccountStatus<S> = AccountStatus::LoggingInAgain;
        core::mem::swap(self, &mut tmp);
        match tmp {
            AccountStatus::Busy(gs, _) => {
                *self = AccountStatus::Idle(session, gs);
            },
            other => {
                *self = other;
            },
        }
    }

    /// Whether the handle is attached and available.
    pub fn is_idle(&self) -> (r: bool)
        ensures
            r <==> *self is Idle,
    {
        matches!(self, AccountStatus::Idle(..))
    }
}

/// The state tag of an account status, without its payload.
#[derive(Debug, Clone, Copy, PartialEq, Eq, Structural)]
pub enum StatusKind {
    LoggingIn,
    Idle,
    Busy,
    FatalError,
    LoggingInAgain,
}

pub open spec fn kind_of<S>(st: AccountStatus<S>) -> StatusKind {
    match st {
        AccountStatus::LoggingIn => StatusKind::LoggingIn,
        AccountStatus::Idle(..) => StatusKind::Idle,
        AccountStatus::Busy(..) => StatusKind::Busy,
        AccountStatus::FatalError(..) => StatusKind::FatalError,
        AccountStatus::LoggingInAgain => StatusKind::LoggingInAgain,
    }
}

/// An abstraction of where the account's connection handle lives: attached to
/// the status, or checked out to in-flight operations.
pub struct OwnershipModel {
    pub kind: StatusKind,
    /// Handles currently checked out to in-flight operations.
    pub in_flight: nat,
}

/// The `Idle` state holds the handle; no other state does.
pub open spec fn handles_in_status(k: StatusKind) -> nat {
    if k is Idle {
        1
    } else {
        0
    }
}

pub open spec fn total_handles(m: OwnershipModel) -> nat {
    handles_in_status(m.kind) + m.in_flight
}

/// The handle-ownership invariant: the handle exists in at most one of
/// {attached to the status, checked out in flight}, and whenever the status
/// is `Busy` exactly one operation holds it.
pub open spec fn ownership_ok(m: OwnershipModel) -> bool {
    &&& total_handles(m) <= 1
    &&& (m.in_flight >= 1 ==> m.kind is Busy)
}

/// A call on the state machine: `take_session` or `put_session`.
#[derive(Debug, Clone, Copy, PartialEq, Eq, Structural)]
pub enum SessionOp {
    Take,
    Restore,
}

/// What `take_session` does to the abstraction: from `Idle` the handle moves
/// into flight and the status becomes `Busy`; otherwise nothing changes.
pub open spec fn take_step(m: OwnershipModel) -> OwnershipModel {
    if m.kind is Idle {
        OwnershipModel { kind: StatusKind::Busy, in_flight: m.in_flight + 1 }
    } else {
        m
    }
}

/// What `put_session` does to the abstraction: one in-flight handle comes
/// back; a `Busy` status re-attaches it and becomes `Idle`, any other status
/// drops it.
pub open spec fn restore_step(m: OwnershipModel) -> OwnershipModel {
    let flight = (m.in_flight - 1) as nat;
    if m.kind is Busy {
        OwnershipModel { kind: StatusKind::Idle, in_flight: flight }
    } else {
        OwnershipModel { kind: m.kind, in_flight: flight }
    }
}

pub open spec fn op_step(m: OwnershipModel, op: SessionOp) -> OwnershipModel {
    match op {
        SessionOp::Take => take_step(m),
        SessionOp::Restore => restore_step(m),
    }
}

/// Only code that previously got the handle via a take may call restore, so a
/// restore needs a handle in flight.
pub open spec fn valid_op(m: OwnershipModel, op: SessionOp) -> bool {
    op is Restore ==> m.in_flight >= 1
}

pub open spec fn run_ops(m: OwnershipModel, ops: Seq<SessionOp>) -> OwnershipModel
    decreases ops.len(),
{
    if ops.len() == 0 {
        m
    } else {
        op_step(run_ops(m, ops.drop_last()), ops.last())
    }
}

pub open spec fn valid_ops(m: OwnershipModel, ops: Seq<SessionOp>) -> bool
    decreases ops.len(),
{
    if ops.len() == 0 {
        true
    } else {
        valid_ops(m, ops.drop_last()) && valid_op(run_ops(m, ops.drop_last()), ops.last())
    }
}

/// `take_session` refines `take_step`: abstracting a status to its tag and
/// counting the handles checked out, the executable transition is exactly the
/// model's. From `Idle` the status becomes `Busy` and one more handle is in
/// flight; from anywhere else nothing moves.
pub proof fn lemma_take_refines_model<S>(
    pre: AccountStatus<S>,
    post: AccountStatus<S>,
    taken: bool,
    flight: nat,
)
    requires
        (if pre is Idle {
            post is Busy && taken
        } else {
            post == pre && !taken
        }),
    ensures
        ((OwnershipModel {
            kind: kind_of(post),
            in_flight: flight + (if taken {
                1nat
            } else {
                0nat
            }),
        }) == take_step(OwnershipModel { kind: kind_of(pre), in_flight: flight })),
{
}

/// `put_session` refines `restore_step`: one in-flight handle comes back, a
/// `Busy` status becomes `Idle` with it, any other status stays and the
/// handle is gone.
pub proof fn lemma_put_refines_model<S>(pre: AccountStatus<S>, post: AccountStatus<S>, flight: nat)
    requires
        flight >= 1,
        (if pre is Busy {
            post is Idle
        } else {
            post == pre
        }),
    ensures
        ((OwnershipModel { kind: kind_of(post), in_flight: (flight - 1) as nat }) == restore_step(
            OwnershipModel { kind: kind_of(pre), in_flight: flight },
        )),
{
}

/// Law: after any sequence of take/restore calls, the handle is present in at
/// most one of {the `Idle` status, in flight} — never both — and it is never
/// lost: the number of handles in existence does not change.
pub proof fn lemma_handle_ownership(m: OwnershipModel, ops: Seq<SessionOp>)
    requires
        ownership_ok(m),
        valid_ops(m, ops),
    ensures
        ownership_ok(run_ops(m, ops)),
        total_handles(run_ops(m, ops)) == total_handles(m),
    decreases ops.len(),
{
    if ops.len() > 0 {
        lemma_handle_ownership(m, ops.drop_last());
    }
}

} // verus!
