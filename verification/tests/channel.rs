use wolfram_library_link::channel::{
    interpret_process_result, make_evaluate_packet, parse_return_packet, with_link,
    CallbackChannel, ChannelError, TransportEvent,
};
use wolfram_library_link::expr::Expr;
use wolfram_library_link::{aborted, evaluate, try_evaluate};

const DISPATCH: u64 = 1;

fn return_packet(payload: Expr) -> Expr {
    Expr::apply("System`ReturnPacket", vec![payload])
}

#[test]
fn evaluate_packet_wraps_the_expression() {
    let expr = Expr::apply(
        "System`Plus",
        vec![Expr::integer(1), Expr::integer(2)],
    );
    let packet = make_evaluate_packet(&expr);
    let expected = Expr::apply("System`EvaluatePacket", vec![expr.duplicate()]);
    assert_eq!(packet, expected);
}

#[test]
fn parse_return_packet_strips_the_envelope() {
    let payload = Expr::integer(42);
    let reply = return_packet(payload.duplicate());
    let parsed = parse_return_packet(reply);
    assert_eq!(parsed, Ok(payload));
}

#[test]
fn parse_return_packet_rejects_other_heads() {
    let reply = Expr::apply("System`List", vec![Expr::integer(42)]);
    match parse_return_packet(reply) {
        // The protocol error names the unexpected expression itself.
        Err(ChannelError::Protocol(unexpected)) => {
            assert_eq!(
                unexpected,
                Expr::apply("System`List", vec![Expr::integer(42)])
            );
        }
        other => panic!("expected a protocol error, got {:?}", other),
    }
}

#[test]
fn parse_return_packet_rejects_wrong_arity() {
    let reply = Expr::apply(
        "System`ReturnPacket",
        vec![Expr::integer(1), Expr::integer(2)],
    );
    assert!(matches!(
        parse_return_packet(reply),
        Err(ChannelError::Protocol(_))
    ));
    let reply = Expr::apply("System`ReturnPacket", vec![]);
    assert!(matches!(
        parse_return_packet(reply),
        Err(ChannelError::Protocol(_))
    ));
    let atom = Expr::integer(3);
    assert!(matches!(
        parse_return_packet(atom),
        Err(ChannelError::Protocol(_))
    ));
}

#[test]
fn try_evaluate_returns_the_reply_payload() {
    let mut channel = CallbackChannel::new(DISPATCH);
    let request = Expr::symbol("Global`x");
    let reply = return_packet(Expr::integer(7));
    let result = try_evaluate(
        &mut channel,
        DISPATCH,
        &request,
        TransportEvent::Replied(reply),
    );
    assert_eq!(result, Ok(Expr::integer(7)));
}

// The unwrapped result comes back stripped of its reply envelope head.
#[test]
fn evaluate_strips_the_reply_envelope() {
    let mut channel = CallbackChannel::new(DISPATCH);
    let request = Expr::apply("System`Plus", vec![Expr::integer(3), Expr::integer(4)]);
    let reply = return_packet(Expr::integer(7));
    let result = evaluate(
        &mut channel,
        DISPATCH,
        &request,
        TransportEvent::Replied(reply),
    );
    assert_eq!(result, Expr::integer(7));
}

#[test]
fn try_evaluate_surfaces_transport_failures() {
    let mut channel = CallbackChannel::new(DISPATCH);
    let request = Expr::integer(1);
    for event in [
        TransportEvent::WriteFailed(String::from("write broke")),
        TransportEvent::ProcessFailed(String::from("process broke")),
        TransportEvent::ReadFailed(String::from("read broke")),
    ] {
        let expected = match &event {
            TransportEvent::WriteFailed(m)
            | TransportEvent::ProcessFailed(m)
            | TransportEvent::ReadFailed(m) => m.clone(),
            TransportEvent::Replied(_) => unreachable!(),
        };
        let result = try_evaluate(&mut channel, DISPATCH, &request, event);
        assert_eq!(result, Err(ChannelError::Transport(expected)));
        assert!(!channel.locked);
    }
}

#[test]
fn try_evaluate_flags_protocol_mismatch() {
    let mut channel = CallbackChannel::new(DISPATCH);
    let request = Expr::integer(1);
    let reply = Expr::apply("System`List", vec![Expr::integer(7)]);
    let result = try_evaluate(
        &mut channel,
        DISPATCH,
        &request,
        TransportEvent::Replied(reply),
    );
    // The protocol error carries the offending reply expression.
    assert_eq!(
        result,
        Err(ChannelError::Protocol(Expr::apply(
            "System`List",
            vec![Expr::integer(7)]
        )))
    );
}

// Responses come back in the order the requests were issued: each of two
// consecutive round trips answers its own request.
#[test]
fn round_trips_answer_in_issue_order() {
    let mut channel = CallbackChannel::new(DISPATCH);
    let first_request = Expr::symbol("Global`first");
    let second_request = Expr::symbol("Global`second");
    let first = try_evaluate(
        &mut channel,
        DISPATCH,
        &first_request,
        TransportEvent::Replied(return_packet(Expr::integer(1))),
    );
    let second = try_evaluate(
        &mut channel,
        DISPATCH,
        &second_request,
        TransportEvent::Replied(return_packet(Expr::integer(2))),
    );
    assert_eq!(first, Ok(Expr::integer(1)));
    assert_eq!(second, Ok(Expr::integer(2)));
}

// The guard spans exactly one round trip: it is free before and after, and
// while held no further round trip may begin.
#[test]
fn guard_is_released_after_each_round_trip() {
    let mut channel = CallbackChannel::new(DISPATCH);
    assert!(!channel.locked);
    let request = Expr::integer(1);
    let _ = try_evaluate(
        &mut channel,
        DISPATCH,
        &request,
        TransportEvent::Replied(return_packet(Expr::integer(2))),
    );
    assert!(!channel.locked);
    channel.acquire(DISPATCH);
    assert!(channel.locked);
    channel.release();
    assert!(!channel.locked);
}

// The closure runs exactly once, sees the guard held for its whole span,
// and its value is handed back; the guard is released afterwards.
#[test]
fn with_link_runs_the_closure_under_the_guard() {
    let channel = CallbackChannel::new(DISPATCH);
    let mut runs = 0u32;
    let (channel, value) = with_link(channel, DISPATCH, |c: CallbackChannel| {
        runs += 1;
        assert!(c.locked);
        (c, 42u64)
    });
    assert_eq!(runs, 1);
    assert_eq!(value, 42);
    assert!(!channel.locked);
    assert_eq!(channel.dispatch_thread, DISPATCH);
}

#[test]
fn process_result_zero_is_an_error() {
    assert_eq!(interpret_process_result(1, None), Ok(()));
    assert_eq!(
        interpret_process_result(0, Some(String::from("link died"))),
        Err(String::from("link died"))
    );
    assert_eq!(
        interpret_process_result(0, None),
        Err(String::from("unknown error occurred on WSTP Link"))
    );
}

// The abort poll reflects exactly the freshly observed flag value: no
// state is kept, so a cleared flag immediately reads as not aborted.
#[test]
fn aborted_tracks_the_polled_flag() {
    assert!(!aborted(0));
    assert!(aborted(1));
    assert!(!aborted(2));
    assert!(!aborted(-1));
    // A poll sequence set -> cleared never reports a stale abort.
    assert!(aborted(1));
    assert!(!aborted(0));
}
