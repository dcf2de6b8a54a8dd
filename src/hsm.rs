//! Decisions of a hardware-security-module signer: which step comes next,
//! so that every attach of the device is followed by a detach, on success and
//! on failure alike. The caller performs each action and reports whether the
//! read or the signing succeeded.
use vstd::prelude::*;

verus! {

/// A signer whose key lives in a hardware security module.
#[derive(Debug, Clone, Copy, PartialEq, Eq, Structural)]
pub struct Hsm;

/// What a session does with the device.
#[derive(Debug, Clone, Copy, PartialEq, Eq, Structural)]
pub enum HsmOperation {
    ReadPublicKey,
    SignMessage,
}

/// A notice shown to the operator.
#[derive(Debug, Clone, Copy, PartialEq, Eq, Structural)]
pub enum HostNotice {
    StartingRegistration,
    AttachingHsm,
    SendingRequest,
}

/// What the caller is to do next.
#[derive(Debug, Clone, Copy, PartialEq, Eq, Structural)]
pub enum HsmAction {
    NotifyHost(HostNotice),
    AttachHsm,
    ReadPublicKey,
    SignMessage,
    DetachHsm,
    /// The session is over; `succeeded` tells whether the read or the
    /// signing succeeded.
    Finish { succeeded: bool },
}

/// Where a session stands: named after the action last handed out.
#[derive(Debug, Clone, Copy, PartialEq, Eq, Structural)]
pub enum HsmPhase {
    Begin,
    NoticeStart,
    NoticeAttach,
    Attached,
    NoticeRequest,
    Operating,
    Detached,
    Finished,
}

/// A session of one operation on the device.
#[derive(Debug, Clone, Copy, PartialEq, Eq, Structural)]
pub struct HsmSession {
    pub operation: HsmOperation,
    pub phase: HsmPhase,
    /// Whether the read or the signing failed.
    pub failed: bool,
}

/// The device is attached in this phase.
pub open spec fn holds_device(p: HsmPhase) -> bool {
    p == HsmPhase::Attached || p == HsmPhase::NoticeRequest || p == HsmPhase::Operating
}

/// The next session state and action, given whether the last action failed
/// (which counts only for the read or the signing).
pub open spec fn next_step(s: HsmSession, last_failed: bool) -> (HsmSession, HsmAction) {
    let op = s.operation;
    match s.phase {
        HsmPhase::Begin => if op == HsmOperation::ReadPublicKey {
            (
                HsmSession { phase: HsmPhase::NoticeStart, ..s },
                HsmAction::NotifyHost(HostNotice::StartingRegistration),
            )
        } else {
            (
                HsmSession { phase: HsmPhase::NoticeAttach, ..s },
                HsmAction::NotifyHost(HostNotice::AttachingHsm),
            )
        },
        HsmPhase::NoticeStart => (
            HsmSession { phase: HsmPhase::NoticeAttach, ..s },
            HsmAction::NotifyHost(HostNotice::AttachingHsm),
        ),
        HsmPhase::NoticeAttach => (HsmSession { phase: HsmPhase::Attached, ..s }, HsmAction::AttachHsm),
        HsmPhase::Attached => if op == HsmOperation::ReadPublicKey {
            (HsmSession { phase: HsmPhase::Operating, ..s }, HsmAction::ReadPublicKey)
        } else {
            (
                HsmSession { phase: HsmPhase::NoticeRequest, ..s },
                HsmAction::NotifyHost(HostNotice::SendingRequest),
            )
        },
        HsmPhase::NoticeRequest => (
            HsmSession { phase: HsmPhase::Operating, ..s },
            HsmAction::SignMessage,
        ),
        HsmPhase::Operating => (
            HsmSession { phase: HsmPhase::Detached, failed: last_failed, ..s },
            HsmAction::DetachHsm,
        ),
        HsmPhase::Detached => (
            HsmSession { phase: HsmPhase::Finished, ..s },
            HsmAction::Finish { succeeded: !s.failed },
        ),
        HsmPhase::Finished => (s, HsmAction::Finish { succeeded: !s.failed }),
    }
}

/// The fresh session of an operation.
pub open spec fn initial(op: HsmOperation) -> HsmSession {
    HsmSession { operation: op, phase: HsmPhase::Begin, failed: false }
}

/// The state reached and the actions handed out when the caller reports
/// `outcomes` in turn, starting from `s`.
pub open spec fn run(s: HsmSession, outcomes: Seq<bool>) -> (HsmSession, Seq<HsmAction>)
    decreases outcomes.len(),
{
    if outcomes.len() == 0 {
        (s, Seq::empty())
    } else {
        let prev = run(s, outcomes.drop_last());
        let st = next_step(prev.0, outcomes.last());
        (st.0, prev.1.push(st.1))
    }
}

/// Number of occurrences of `a` in `t`.
pub open spec fn count_action(t: Seq<HsmAction>, a: HsmAction) -> nat
    decreases t.len(),
{
    if t.len() == 0 {
        0
    } else {
        count_action(t.drop_last(), a) + if t.last() == a {
            1nat
        } else {
            0nat
        }
    }
}

impl Hsm {
    /// A session that reads the device's public key.
    pub fn read_public_key_session(&self) -> (r: HsmSession)
        ensures
            r == initial(HsmOperation::ReadPublicKey),
    {
        HsmSession { operation: HsmOperation::ReadPublicKey, phase: HsmPhase::Begin, failed: false }
    }

    /// A session that signs one message.
    pub fn sign_session(&self) -> (r: HsmSession)
        ensures
            r == initial(HsmOperation::SignMessage),
    {
        HsmSession { operation: HsmOperation::SignMessage, phase: HsmPhase::Begin, failed: false }
    }
}

impl HsmSession {
    /// Advances the session: `last_failed` reports the outcome of the action
    /// handed out before; the result is the action to perform now.
    pub fn step(&mut self, last_failed: bool) -> (a: HsmAction)
        ensures
            (*final(self), a) == next_step(*old(self), last_failed),
    {
        let s = *self;
        let (n, a) = match s.phase {
            HsmPhase::Begin => if s.operation == HsmOperation::ReadPublicKey {
                (HsmPhase::NoticeStart, HsmAction::NotifyHost(HostNotice::StartingRegistration))
            } else {
                (HsmPhase::NoticeAttach, HsmAction::NotifyHost(HostNotice::AttachingHsm))
            },
            HsmPhase::NoticeStart => (HsmPhase::NoticeAttach, HsmAction::NotifyHost(HostNotice::AttachingHsm)),
            HsmPhase::NoticeAttach => (HsmPhase::Attached, HsmAction::AttachHsm),
            HsmPhase::Attached => if s.operation == HsmOperation::ReadPublicKey {
                (HsmPhase::Operating, HsmAction::ReadPublicKey)
            } else {
                (HsmPhase::NoticeRequest, HsmAction::NotifyHost(HostNotice::SendingRequest))
            },
            HsmPhase::NoticeRequest => (HsmPhase::Operating, HsmAction::SignMessage),
            HsmPhase::Operating => {
                self.failed = last_failed;
                (HsmPhase::Detached, HsmAction::DetachHsm)
            },
            HsmPhase::Detached => (HsmPhase::Finished, HsmAction::Finish { succeeded: !s.failed }),
            HsmPhase::Finished => (HsmPhase::Finished, HsmAction::Finish { succeeded: !s.failed }),
        };
        self.phase = n;
        a
    }

    /// Whether the session is over.
    pub fn is_finished(&self) -> (r: bool)
        ensures
            r == (self.phase == HsmPhase::Finished),
    {
        self.phase == HsmPhase::Finished
    }
}

/// The actions of a whole session: one attach, the read or the signing,
/// one detach after it, then the outcome.
pub open spec fn session_trace(op: HsmOperation, failed: bool) -> Seq<HsmAction> {
    if op == HsmOperation::ReadPublicKey {
        seq![
            HsmAction::NotifyHost(HostNotice::StartingRegistration),
            HsmAction::NotifyHost(HostNotice::AttachingHsm),
            HsmAction::AttachHsm,
            HsmAction::ReadPublicKey,
            HsmAction::DetachHsm,
            HsmAction::Finish { succeeded: !failed },
        ]
    } else {
        seq![
            HsmAction::NotifyHost(HostNotice::AttachingHsm),
            HsmAction::AttachHsm,
            HsmAction::NotifyHost(HostNotice::SendingRequest),
            HsmAction::SignMessage,
            HsmAction::DetachHsm,
            HsmAction::Finish { succeeded: !failed },
        ]
    }
}

/// Along any run, the attaches handed out exceed the detaches by one
/// exactly while the device is held, and the operation never changes.
pub proof fn lemma_attach_detach_balance(op: HsmOperation, outcomes: Seq<bool>)
    ensures
        ({
            let (s, t) = run(initial(op), outcomes);
            &&& s.operation == op
            &&& count_action(t, HsmAction::AttachHsm) == count_action(t, HsmAction::DetachHsm) + (
            if holds_device(s.phase) {
                1nat
            } else {
                0nat
            })
        }),
    decreases outcomes.len(),
{
    if outcomes.len() > 0 {
        lemma_attach_detach_balance(op, outcomes.drop_last());
        let prev = run(initial(op), outcomes.drop_last());
        let t = run(initial(op), outcomes).1;
        assert(t.drop_last() == prev.1);
    }
}

/// Every session is over after six steps, whatever the outcomes, and it has
/// then attached the device as often as it detached it; its result is the
/// outcome of the read or the signing. The actions are exactly those of
/// `session_trace`, on success and on failure alike.
pub proof fn lemma_session_completes(op: HsmOperation, outcomes: Seq<bool>)
    requires
        outcomes.len() == 6,
    ensures
        ({
            let (s, t) = run(initial(op), outcomes);
            &&& s.phase == HsmPhase::Finished
            &&& count_action(t, HsmAction::AttachHsm) == count_action(t, HsmAction::DetachHsm)
            &&& t.last() == HsmAction::Finish { succeeded: !outcomes[4] }
            &&& t == session_trace(op, outcomes[4])
        }),
{
    lemma_attach_detach_balance(op, outcomes);
    let o = outcomes;
    let i = initial(op);
    assert(o.take(0).len() == 0);
    assert(o.take(1).drop_last() =~= o.take(0));
    assert(o.take(2).drop_last() =~= o.take(1));
    assert(o.take(3).drop_last() =~= o.take(2));
    assert(o.take(4).drop_last() =~= o.take(3));
    assert(o.take(5).drop_last() =~= o.take(4));
    assert(o.drop_last() =~= o.take(5));
    let r1 = run(i, o.take(1));
    let r2 = run(i, o.take(2));
    let r3 = run(i, o.take(3));
    let r4 = run(i, o.take(4));
    let r5 = run(i, o.take(5));
    assert(run(i, o.take(0)) == (i, Seq::<HsmAction>::empty()));
    if op == HsmOperation::ReadPublicKey {
        assert(r1.0.phase == HsmPhase::NoticeStart && r1.0.operation == op);
        assert(r2.0.phase == HsmPhase::NoticeAttach && r2.0.operation == op);
        assert(r3.0.phase == HsmPhase::Attached && r3.0.operation == op);
    } else {
        assert(r1.0.phase == HsmPhase::NoticeAttach && r1.0.operation == op);
        assert(r2.0.phase == HsmPhase::Attached && r2.0.operation == op);
        assert(r3.0.phase == HsmPhase::NoticeRequest && r3.0.operation == op);
    }
    assert(r4.0.phase == HsmPhase::Operating);
    assert(r5.0.phase == HsmPhase::Detached && r5.0.failed == o[4]);
    let t = run(i, o).1;
    assert(t =~= session_trace(op, o[4]));
}

} // verus!
