//! The callback channel to the host.
//!
//! One process-wide bidirectional channel lets the library ask the host to
//! evaluate expressions.  A round trip serializes an `EvaluatePacket`
//! envelope onto the channel, blocks until the host answers, and strips the
//! `ReturnPacket` envelope off the reply.  The channel is not multiplexed:
//! a guard serializes all use, at most one round trip is in flight at any
//! time, and callers must be on the thread the host dispatched the call on.
//!
//! The channel state here is the verified model of that discipline: the
//! guard bit, the dispatch thread, and the transcript of completed round
//! trips.  The transport itself — writing to and reading from the host's
//! link — is host-facing work; its outcome is handed in as a
//! [`TransportEvent`], and every contract states what holds for each
//! possible outcome.

use vstd::prelude::*;

use crate::expr::{models, Expr, ExprModel};

verus! {

broadcast use vstd::std_specs::vec::group_vec_axioms;

/// Why a round trip failed.
#[derive(PartialEq, Debug)]
pub enum ChannelError {
    /// The channel write, flush or read failed; carries the transport's
    /// error message.
    Transport(String),
    /// The reply envelope did not have the expected shape; carries the
    /// unexpected expression itself, so the caller can name it when
    /// reporting the mismatch.
    Protocol(Expr),
}

/// What the transport observed while carrying one request to the host.
///
/// The transport is host-facing and unverified; the channel functions take
/// its observation as a value and state what holds for every case.
#[derive(PartialEq, Debug)]
pub enum TransportEvent {
    /// Writing or flushing the request failed; carries the error message.
    WriteFailed(String),
    /// The host reported an error while processing the request; carries
    /// the error message.
    ProcessFailed(String),
    /// Reading the reply failed; carries the error message.
    ReadFailed(String),
    /// The host answered with this reply expression.
    Replied(Expr),
}

/// The process-wide callback channel: the guard that serializes its use,
/// the thread the host dispatched on, and the transcript of completed
/// round trips (each request packet paired with its raw reply).
pub struct CallbackChannel {
    /// Whether the exclusive-access guard is currently held.
    pub locked: bool,
    /// The designated dispatch thread; all channel use must happen on it.
    pub dispatch_thread: u64,
    /// The completed round trips, in order: request packet and raw reply.
    pub completed: Ghost<Seq<(ExprModel, ExprModel)>>,
}

/// The request envelope for one evaluation: `EvaluatePacket[e]`.
pub open spec fn evaluate_packet_model(e: ExprModel) -> ExprModel {
    ExprModel::Normal(seq![ExprModel::Symbol("System`EvaluatePacket"@), e])
}

/// Whether `e` is a well-formed reply envelope: `ReturnPacket[payload]`.
pub open spec fn is_return_packet(e: ExprModel) -> bool {
    &&& e matches ExprModel::Normal(parts)
    &&& parts.len() == 2
    &&& parts[0] == ExprModel::Symbol("System`ReturnPacket"@)
}

/// The payload of a reply envelope, stripped of its head.
pub open spec fn return_payload(e: ExprModel) -> ExprModel
    recommends
        is_return_packet(e),
{
    match e {
        ExprModel::Normal(parts) => parts[1],
        _ => e,
    }
}

/// One completed round trip: the transcript grew by exactly this request
/// and reply, and the guard and dispatch thread are as before.
pub open spec fn round_trip_completes(
    pre: CallbackChannel,
    post: CallbackChannel,
    request: ExprModel,
    reply: ExprModel,
) -> bool {
    &&& post.completed@ == pre.completed@.push((request, reply))
    &&& post.dispatch_thread == pre.dispatch_thread
    &&& post.locked == pre.locked
}

/// Whether a round trip may begin: the guard is free and the caller is on
/// the dispatch thread.
pub open spec fn round_trip_enabled(ch: CallbackChannel, caller_thread: u64) -> bool {
    &&& !ch.locked
    &&& caller_thread == ch.dispatch_thread
}

impl CallbackChannel {
    /// A fresh channel for the given dispatch thread: guard free, empty
    /// transcript.
    pub fn new(dispatch_thread: u64) -> (r: CallbackChannel)
        ensures
            !r.locked,
            r.dispatch_thread == dispatch_thread,
            r.completed@ == Seq::<(ExprModel, ExprModel)>::empty(),
    {
        CallbackChannel { locked: false, dispatch_thread, completed: Ghost(Seq::empty()) }
    }

    /// Takes the exclusive-access guard for a multi-step use of the link.
    ///
    /// The guard is process-wide: while it is held no round trip can
    /// begin, and callers must already be on the dispatch thread.
    pub fn acquire(&mut self, caller_thread: u64)
        requires
            round_trip_enabled(*old(self), caller_thread),
        ensures
            final(self).locked,
            final(self).dispatch_thread == old(self).dispatch_thread,
            final(self).completed@ == old(self).completed@,
    {
        self.locked = true;
    }

    /// Releases the exclusive-access guard.
    pub fn release(&mut self)
        requires
            old(self).locked,
        ensures
            !final(self).locked,
            final(self).dispatch_thread == old(self).dispatch_thread,
            final(self).completed@ == old(self).completed@,
    {
        self.locked = false;
    }
}

/// The channel with its guard bit set as given, all else unchanged.
pub open spec fn with_guard_bit(ch: CallbackChannel, held: bool) -> CallbackChannel {
    CallbackChannel { locked: held, dispatch_thread: ch.dispatch_thread, completed: ch.completed }
}

/// Runs `f` exactly once with exclusive use of the channel.
///
/// The guard spans exactly the call: `f` receives the channel with the
/// guard held — so nothing else can begin a round trip while it runs —
/// and the channel comes back with the guard released, together with the
/// value `f` returned.  The returned pair is certified as an input/output
/// pair of `f` on the guarded channel, up to the final guard bit.
pub fn with_link<R, F: FnOnce(CallbackChannel) -> (CallbackChannel, R)>(
    ch: CallbackChannel,
    caller_thread: u64,
    f: F,
) -> (out: (CallbackChannel, R))
    requires
        round_trip_enabled(ch, caller_thread),
        call_requires(f, (with_guard_bit(ch, true),)),
    ensures
        !out.0.locked,
        exists|held: bool|
            call_ensures(f, (with_guard_bit(ch, true),), (with_guard_bit(out.0, held), out.1)),
{
    let mut guarded = ch;
    guarded.locked = true;
    let ghost guarded_snapshot = guarded;
    let (mut returned, result) = f(guarded);
    let ghost handed_back = returned;
    returned.locked = false;
    let out_pair = (returned, result);
    proof {
        assert(guarded_snapshot == with_guard_bit(ch, true));
        assert(with_guard_bit(out_pair.0, handed_back.locked) == handed_back);
        assert(call_ensures(
            f,
            (with_guard_bit(ch, true),),
            (with_guard_bit(out_pair.0, handed_back.locked), out_pair.1),
        ));
        assert(exists|held: bool|
            call_ensures(f, (with_guard_bit(ch, true),), (with_guard_bit(out_pair.0, held), out_pair.1)));
    }
    out_pair
}

/// Builds the request envelope sent for one evaluation of `expr`.
pub fn make_evaluate_packet(expr: &Expr) -> (r: Expr)
    ensures
        r@ == evaluate_packet_model(expr@),
{
    let mut args: Vec<Expr> = Vec::new();
    args.push(expr.duplicate());
    let ghost args_view = args@;
    let r = Expr::normal(Expr::symbol("System`EvaluatePacket"), args);
    proof {
        crate::expr::lemma_models_index(args_view);
        assert(seq![ExprModel::Symbol("System`EvaluatePacket"@)].add(models(args_view))
            =~= seq![ExprModel::Symbol("System`EvaluatePacket"@), expr@]);
    }
    r
}

/// Checks a reply envelope and strips it: `ReturnPacket[payload]` yields
/// the payload; any other expression is a protocol error carrying that
/// unexpected expression.
pub fn parse_return_packet(reply: Expr) -> (r: Result<Expr, ChannelError>)
    ensures
        is_return_packet(reply@) ==> (r matches Ok(p) && p@ == return_payload(reply@)),
        !is_return_packet(reply@) ==> (r matches Err(e) && e matches ChannelError::Protocol(u)
            && u@ == reply@),
{
    let ghost reply_model = reply@;
    let well_formed = match &reply {
        Expr::Normal { head, args } => {
            proof {
                crate::expr::lemma_models_index(args@);
            }
            head.is_symbol_named("System`ReturnPacket") && args.len() == 1
        },
        _ => false,
    };
    if well_formed {
        match reply {
            Expr::Normal { head: _, mut args } => {
                let ghost args_view = args@;
                proof {
                    crate::expr::lemma_models_index(args_view);
                }
                let payload = args.pop().unwrap();
                proof {
                    assert(payload@ == models(args_view)[0]);
                    assert(return_payload(reply_model) == models(args_view)[0]);
                }
                Ok(payload)
            },
            _ => vstd::pervasive::unreached(),
        }
    } else {
        Err(ChannelError::Protocol(reply))
    }
}

/// Attempts one evaluation round trip over the channel.
///
/// The caller must be on the dispatch thread and the guard must be free;
/// the guard is held for exactly the span of the round trip.  `event` is
/// what the host-facing transport observed for the request envelope
/// `EvaluatePacket[expr]`: any transport failure surfaces as a
/// [`ChannelError::Transport`]; a reply that is not a `ReturnPacket`
/// envelope surfaces as a [`ChannelError::Protocol`]; a well-formed reply
/// completes the round trip and yields its payload.
pub fn try_evaluate(
    ch: &mut CallbackChannel,
    caller_thread: u64,
    expr: &Expr,
    event: TransportEvent,
) -> (r: Result<Expr, ChannelError>)
    requires
        round_trip_enabled(*old(ch), caller_thread),
    ensures
        !final(ch).locked,
        final(ch).dispatch_thread == old(ch).dispatch_thread,
        (event matches TransportEvent::WriteFailed(m) ==> (r matches Err(e)
            && e matches ChannelError::Transport(m2) && m2@ == m@
            && final(ch).completed@ == old(ch).completed@)),
        (event matches TransportEvent::ProcessFailed(m) ==> (r matches Err(e)
            && e matches ChannelError::Transport(m2) && m2@ == m@
            && final(ch).completed@ == old(ch).completed@)),
        (event matches TransportEvent::ReadFailed(m) ==> (r matches Err(e)
            && e matches ChannelError::Transport(m2) && m2@ == m@
            && final(ch).completed@ == old(ch).completed@)),
        (event matches TransportEvent::Replied(reply) ==> (
            round_trip_completes(*old(ch), *final(ch), evaluate_packet_model(expr@), reply@)
            && (is_return_packet(reply@) ==> (r matches Ok(p) && p@ == return_payload(reply@)))
            && (!is_return_packet(reply@) ==> (r matches Err(e)
                && e matches ChannelError::Protocol(u) && u@ == reply@)))),
{
    ch.locked = true;
    let r = match event {
        TransportEvent::WriteFailed(m) => Err(ChannelError::Transport(m)),
        TransportEvent::ProcessFailed(m) => Err(ChannelError::Transport(m)),
        TransportEvent::ReadFailed(m) => Err(ChannelError::Transport(m)),
        TransportEvent::Replied(reply) => {
            ch.completed = Ghost(ch.completed@.push((evaluate_packet_model(expr@), reply@)));
            parse_return_packet(reply)
        },
    };
    ch.locked = false;
    r
}

/// One evaluation round trip that is known to have succeeded.
///
/// This is the committed form of [`try_evaluate`]: a caller that treats a
/// failed evaluation as an unwinding failure excludes the failing
/// outcomes up front, so they are ruled out here by precondition, and the
/// reply's payload is returned directly, stripped of its envelope head.
pub fn evaluate(
    ch: &mut CallbackChannel,
    caller_thread: u64,
    expr: &Expr,
    event: TransportEvent,
) -> (r: Expr)
    requires
        round_trip_enabled(*old(ch), caller_thread),
        event matches TransportEvent::Replied(reply) && is_return_packet(reply@),
    ensures
        !final(ch).locked,
        final(ch).dispatch_thread == old(ch).dispatch_thread,
        (event matches TransportEvent::Replied(reply) ==> (
            round_trip_completes(*old(ch), *final(ch), evaluate_packet_model(expr@), reply@)
            && r@ == return_payload(reply@))),
{
    match try_evaluate(ch, caller_thread, expr, event) {
        Ok(payload) => payload,
        Err(_) => vstd::pervasive::unreached(),
    }
}

/// Interprets the host's answer to a request to process the packet on the
/// link: a zero status is a failure, described by the link's error message
/// when it has one and by a fixed text when it has none.
pub fn interpret_process_result(code: i32, error_message: Option<String>) -> (r: Result<
    (),
    String,
>)
    ensures
        code != 0 ==> r is Ok,
        code == 0 ==> (r matches Err(m) && (match error_message {
            Option::Some(em) => m@ == em@,
            Option::None => m@ == "unknown error occurred on WSTP Link"@,
        })),
{
    if code != 0 {
        Ok(())
    } else {
        match error_message {
            Option::Some(m) => Err(m),
            Option::None => Err("unknown error occurred on WSTP Link".to_owned()),
        }
    }
}

/// Interprets the host's external interrupt flag: the evaluation is to be
/// aborted exactly when the freshly polled value is 1.
///
/// This is a pure function of the polled value and keeps no state, so it
/// reflects the flag's last-observed value with no caching: a caller that
/// polls again hands in the new value and gets the new answer.  Callers
/// seeing `true` should finish quickly and return up the call stack, not
/// terminate the process.
pub fn aborted(flag_value: i64) -> (r: bool)
    ensures
        r == (flag_value == 1),
{
    flag_value == 1
}

/// Whether the channel states in `states` complete the round trips in
/// `trips`, in order: state `i` completes trip `i` and becomes state
/// `i + 1`.
pub open spec fn completes_in_order(
    states: Seq<CallbackChannel>,
    trips: Seq<(ExprModel, ExprModel)>,
) -> bool {
    &&& states.len() == trips.len() + 1
    &&& forall|i: int|
        0 <= i < trips.len() ==> round_trip_completes(
            states[i],
            states[i + 1],
            (#[trigger] trips[i]).0,
            trips[i].1,
        )
}

/// Round trips never reorder: after any sequence of them, the transcript
/// is the old transcript followed by exactly those request/reply pairs, in
/// issue order — the i-th reply received answers the i-th request sent.
pub proof fn lemma_responses_in_request_order(
    states: Seq<CallbackChannel>,
    trips: Seq<(ExprModel, ExprModel)>,
)
    requires
        completes_in_order(states, trips),
    ensures
        states.last().completed@ == states.first().completed@ + trips,
    decreases trips.len(),
{
    if trips.len() == 0 {
        assert(states.last().completed@ =~= states.first().completed@ + trips);
    } else {
        let prefix_states = states.drop_last();
        let prefix_trips = trips.drop_last();
        assert(completes_in_order(prefix_states, prefix_trips));
        lemma_responses_in_request_order(prefix_states, prefix_trips);
        assert(round_trip_completes(
            states[trips.len() - 1],
            states[trips.len() as int],
            trips[trips.len() - 1].0,
            trips[trips.len() - 1].1,
        ));
        assert(states.last().completed@ =~= states.first().completed@ + trips);
    }
}

/// Round trips never overlap: while the guard is held — for the exact span
/// of a round trip — no further round trip can begin, on any thread.
pub proof fn lemma_round_trips_never_overlap(ch: CallbackChannel, caller_thread: u64)
    requires
        ch.locked,
    ensures
        !round_trip_enabled(ch, caller_thread),
{
}

} // verus!
