//! The watch loop: a state machine over the messages arriving from the
//! file-change notification channel.
//!
//! The loop itself is run by the surrounding process, which blocks on the
//! channel, classifies each arrival into a [`WatchMsg`], calls [`receive`]
//! and carries out the returned [`LoopAction`]; when the action was a
//! redeploy, it calls [`finish_upload`] with the outcome once the upload is
//! done. Every decision is here; outside remains only the blocking
//! receive, the settle sleep, and the upload itself.
//!
//! The loop is single-threaded: it listens only while idle, and an upload
//! it starts is finished before the next arrival is taken, so at most one
//! upload is in flight at any time.

use vstd::prelude::*;
use crate::upload::UploadResult;

verus! {

/// How long the loop waits after a change notification before it reads and
/// uploads the file, in milliseconds. The wait lets the writer finish: a
/// change event can fire before all bytes are flushed. Best effort only.
pub const SETTLE_DELAY_MS: u64 = 100;

/// The kind of a file-system change notification, as far as the loop cares:
/// creations and modifications trigger a re-upload, everything else (a
/// removal, a metadata-only change) is ignored.
#[derive(Clone, Copy, PartialEq, Eq, Structural, Debug)]
pub enum EventKind {
    Create,
    Modify,
    Other,
}

/// One arrival on the notification channel.
#[derive(Clone, Copy, PartialEq, Eq, Structural, Debug)]
pub enum WatchMsg {
    /// A change notification for the watched path.
    Change(EventKind),
    /// The notification source reported an error for this arrival.
    SourceError,
    /// The channel closed: the producer is gone and nothing more arrives.
    Closed,
}

/// The state of the loop.
#[derive(Clone, Copy, PartialEq, Eq, Structural, Debug)]
pub enum LoopState {
    /// Waiting for the next arrival.
    Idle,
    /// Blocked on an upload it has started; no arrival is taken meanwhile.
    Uploading,
    /// The loop has ended; no arrival is handled any more.
    Terminated,
}

/// What the loop does in reaction to one arrival.
#[derive(Clone, Copy, PartialEq, Eq, Structural, Debug)]
pub enum LoopAction {
    /// Wait `delay_ms` milliseconds, then upload the file once and report
    /// the outcome to [`finish_upload`].
    Redeploy { delay_ms: u64 },
    /// Log the source's error; nothing is uploaded.
    LogError,
    /// Nothing to do.
    Ignore,
    /// Leave the loop; the process ends gracefully.
    Stop,
}

/// A change kind that triggers a re-upload: a creation or a modification.
pub open spec fn is_relevant(kind: EventKind) -> bool {
    kind is Create || kind is Modify
}

/// How one arrival is received: a relevant change sends the idle loop
/// uploading, with a redeploy after the settle delay; an irrelevant change
/// does nothing; a source error is logged and the loop stays idle; only a
/// closure of the channel terminates the loop. The loop never listens
/// while uploading or after termination, so in those states an arrival
/// changes nothing.
pub open spec fn spec_receive(state: LoopState, msg: WatchMsg) -> (LoopState, LoopAction) {
    match state {
        LoopState::Idle => match msg {
            WatchMsg::Change(kind) => if is_relevant(kind) {
                (LoopState::Uploading, LoopAction::Redeploy { delay_ms: SETTLE_DELAY_MS })
            } else {
                (LoopState::Idle, LoopAction::Ignore)
            },
            WatchMsg::SourceError => (LoopState::Idle, LoopAction::LogError),
            WatchMsg::Closed => (LoopState::Terminated, LoopAction::Stop),
        },
        LoopState::Uploading => (LoopState::Uploading, LoopAction::Ignore),
        LoopState::Terminated => (LoopState::Terminated, LoopAction::Ignore),
    }
}

/// Receives one arrival and decides the reaction.
pub fn receive(state: LoopState, msg: &WatchMsg) -> (r: (LoopState, LoopAction))
    ensures
        r == spec_receive(state, *msg),
{
    match state {
        LoopState::Idle => match msg {
            WatchMsg::Change(kind) => match kind {
                EventKind::Create | EventKind::Modify => (
                    LoopState::Uploading,
                    LoopAction::Redeploy { delay_ms: SETTLE_DELAY_MS },
                ),
                EventKind::Other => (LoopState::Idle, LoopAction::Ignore),
            },
            WatchMsg::SourceError => (LoopState::Idle, LoopAction::LogError),
            WatchMsg::Closed => (LoopState::Terminated, LoopAction::Stop),
        },
        LoopState::Uploading => (LoopState::Uploading, LoopAction::Ignore),
        LoopState::Terminated => (LoopState::Terminated, LoopAction::Ignore),
    }
}

/// Ends an uploading episode: whatever the upload came to — success, a
/// refusal by the server, or no response at all — the loop transitions
/// back to idle and watches on.
pub fn finish_upload(result: &UploadResult) -> (r: LoopState)
    ensures
        r is Idle,
{
    let _ = result;
    LoopState::Idle
}

/// The state one arrival leaves the loop in once it is handled to
/// completion: when it sent the loop uploading, the upload has also been
/// finished — however it went — and the loop is idle again.
pub open spec fn spec_settled(state: LoopState, msg: WatchMsg) -> LoopState {
    if spec_receive(state, msg).0 is Uploading {
        LoopState::Idle
    } else {
        spec_receive(state, msg).0
    }
}

/// The reaction one arrival gets from an idle loop.
pub open spec fn reaction(msg: WatchMsg) -> LoopAction {
    spec_receive(LoopState::Idle, msg).1
}

/// The state the loop is in after a whole arrival sequence, each arrival
/// handled to completion before the next.
pub open spec fn run_state(state: LoopState, msgs: Seq<WatchMsg>) -> LoopState
    decreases msgs.len(),
{
    if msgs.len() == 0 {
        state
    } else {
        run_state(spec_settled(state, msgs[0]), msgs.drop_first())
    }
}

/// The reactions a whole arrival sequence gets, in arrival order, each
/// arrival handled to completion before the next. After the loop has
/// terminated, remaining arrivals get no reaction.
pub open spec fn run_actions(state: LoopState, msgs: Seq<WatchMsg>) -> Seq<LoopAction>
    decreases msgs.len(),
{
    if msgs.len() == 0 || state is Terminated {
        Seq::empty()
    } else {
        seq![spec_receive(state, msgs[0]).1] + run_actions(
            spec_settled(state, msgs[0]),
            msgs.drop_first(),
        )
    }
}

/// Handles a backlog of already-arrived messages strictly in order, one at
/// a time and each to completion before the next: the returned actions are
/// the reactions in arrival order, and the returned state is where the
/// loop stands afterwards.
pub fn process_backlog(state: LoopState, msgs: &Vec<WatchMsg>) -> (r: (LoopState, Vec<LoopAction>))
    ensures
        r.0 == run_state(state, msgs@),
        r.1@ == run_actions(state, msgs@),
{
    let mut cur: LoopState = state;
    let mut actions: Vec<LoopAction> = Vec::new();
    let mut i: usize = 0;
    proof {
        assert(msgs@.skip(0) =~= msgs@);
        assert(actions@ + run_actions(cur, msgs@) =~= run_actions(cur, msgs@));
    }
    while i < msgs.len()
        invariant
            0 <= i <= msgs@.len(),
            run_state(state, msgs@) == run_state(cur, msgs@.skip(i as int)),
            run_actions(state, msgs@) == actions@ + run_actions(cur, msgs@.skip(i as int)),
        decreases msgs@.len() - i,
    {
        proof {
            assert(msgs@.skip(i as int)[0] == msgs@[i as int]);
            assert(msgs@.skip(i as int).drop_first() =~= msgs@.skip(i as int + 1));
        }
        let (received, act) = receive(cur, &msgs[i]);
        let ghost prev = actions@;
        if !(cur == LoopState::Terminated) {
            actions.push(act);
        }
        // an upload the arrival started is carried out and finished before
        // the next arrival is taken; its outcome never enters the state
        let next = match received {
            LoopState::Uploading => LoopState::Idle,
            other => other,
        };
        proof {
            if cur is Terminated {
                assert(run_actions(cur, msgs@.skip(i as int)) =~= run_actions(
                    next,
                    msgs@.skip(i as int + 1),
                ));
            } else {
                assert((prev + seq![act]) + run_actions(next, msgs@.skip(i as int + 1)) =~= prev
                    + (seq![act] + run_actions(next, msgs@.skip(i as int + 1))));
            }
        }
        cur = next;
        i = i + 1;
    }
    proof {
        assert(msgs@.skip(msgs@.len() as int) =~= Seq::<WatchMsg>::empty());
        assert(actions@ + Seq::<LoopAction>::empty() =~= actions@);
    }
    (cur, actions)
}

/// Law: a single file write, arriving at an idle loop as one creation or
/// modification message, gets exactly one reaction: a single redeploy, and
/// that redeploy comes no sooner than the settle delay after the arrival.
pub proof fn lemma_single_write_single_upload(kind: EventKind)
    requires
        is_relevant(kind),
    ensures
        run_actions(LoopState::Idle, seq![WatchMsg::Change(kind)]) =~= seq![
            LoopAction::Redeploy { delay_ms: SETTLE_DELAY_MS },
        ],
{
    let s = seq![WatchMsg::Change(kind)];
    assert(s[0] == WatchMsg::Change(kind));
    assert(s.drop_first() =~= Seq::<WatchMsg>::empty());
    assert(run_actions(spec_settled(LoopState::Idle, s[0]), s.drop_first())
        =~= Seq::<LoopAction>::empty());
    assert(run_actions(LoopState::Idle, s) =~= seq![spec_receive(LoopState::Idle, s[0]).1]
        + run_actions(spec_settled(LoopState::Idle, s[0]), s.drop_first()));
    assert(spec_receive(LoopState::Idle, s[0]).1 == (LoopAction::Redeploy {
        delay_ms: SETTLE_DELAY_MS,
    }));
}

/// Law: rapid successive writes form a backlog that is worked off strictly
/// in arrival order, one arrival to completion before the next and never
/// two at once: as long as the channel has not closed, every arrival gets
/// exactly one reaction, and the reaction at each position is the one that
/// its own arrival calls for — a redeploy exactly at the relevant changes.
pub proof fn lemma_backlog_in_order(msgs: Seq<WatchMsg>)
    requires
        forall|i: int| 0 <= i < msgs.len() ==> !(#[trigger] msgs[i] is Closed),
    ensures
        run_actions(LoopState::Idle, msgs).len() == msgs.len(),
        forall|i: int|
            0 <= i < msgs.len() ==> #[trigger] run_actions(LoopState::Idle, msgs)[i] == reaction(
                msgs[i],
            ),
    decreases msgs.len(),
{
    if msgs.len() > 0 {
        let rest = msgs.drop_first();
        assert(!(msgs[0] is Closed));
        assert(spec_settled(LoopState::Idle, msgs[0]) == LoopState::Idle);
        assert forall|i: int| 0 <= i < rest.len() implies !(#[trigger] rest[i] is Closed) by {
            assert(rest[i] == msgs[i + 1]);
        }
        lemma_backlog_in_order(rest);
        assert forall|i: int|
            0 <= i < msgs.len() implies #[trigger] run_actions(LoopState::Idle, msgs)[i]
            == reaction(msgs[i]) by {
            if i > 0 {
                assert(run_actions(LoopState::Idle, msgs)[i] == run_actions(
                    LoopState::Idle,
                    rest,
                )[i - 1]);
                assert(rest[i - 1] == msgs[i]);
            }
        }
    }
}

/// Law: only the closure of the channel terminates the loop. Every other
/// arrival, handled to completion, leaves an idle loop idle again; the
/// outcome of an upload never enters a transition at all, so a failed
/// redeploy leaves the loop exactly where a successful one does.
pub proof fn lemma_only_closure_terminates(msg: WatchMsg)
    ensures
        spec_settled(LoopState::Idle, msg) is Terminated <==> msg is Closed,
        !(msg is Closed) ==> spec_settled(LoopState::Idle, msg) is Idle,
{
}

/// Law: a failed redeploy does not end the watch. After any run of
/// arrivals without a channel closure — however many of the uploads they
/// triggered failed — the loop is idle again, and one more write still
/// gets its redeploy.
pub proof fn lemma_failed_redeploy_keeps_watching(msgs: Seq<WatchMsg>, later: EventKind)
    requires
        forall|i: int| 0 <= i < msgs.len() ==> !(#[trigger] msgs[i] is Closed),
        is_relevant(later),
    ensures
        run_state(LoopState::Idle, msgs) is Idle,
        reaction(WatchMsg::Change(later)) == (LoopAction::Redeploy { delay_ms: SETTLE_DELAY_MS }),
    decreases msgs.len(),
{
    if msgs.len() > 0 {
        let rest = msgs.drop_first();
        assert(!(msgs[0] is Closed));
        assert(spec_settled(LoopState::Idle, msgs[0]) == LoopState::Idle);
        assert forall|i: int| 0 <= i < rest.len() implies !(#[trigger] rest[i] is Closed) by {
            assert(rest[i] == msgs[i + 1]);
        }
        lemma_failed_redeploy_keeps_watching(rest, later);
    }
}

} // verus!
