use std::sync::Arc;
use std::task::{Context, Wake, Waker};
use std::time::{Duration, Instant};

use zmq_stream::{FlushStep, Progress, Readiness, SendOutcome, Turn, ZmqStream};

struct Quiet;

impl Wake for Quiet {
    fn wake(self: Arc<Self>) {}
}

fn quiet_waker() -> Waker {
    Waker::from(Arc::new(Quiet))
}

/// Registers `socket` with the reactor and wraps it.
fn adapter(socket: zmq::Socket) -> std::io::Result<ZmqStream> {
    ZmqStream::new(async_io::Async::new(socket))
}

/// A bound and a connected PAIR socket in one context.
fn pair(ctx: &zmq::Context, endpoint: &str, hwm: i32) -> (zmq::Socket, zmq::Socket) {
    let left = ctx.socket(zmq::PAIR).unwrap();
    left.set_sndhwm(hwm).unwrap();
    left.bind(endpoint).unwrap();
    let right = ctx.socket(zmq::PAIR).unwrap();
    right.set_rcvhwm(hwm).unwrap();
    right.connect(endpoint).unwrap();
    (left, right)
}

/// Runs one flush to its report: turns are repeated while they say `Again`.
fn flush(stream: &mut ZmqStream, cx: &mut Context<'_>) -> Progress<std::io::Result<()>> {
    for _ in 0..1000 {
        if let Turn::Done(report) = stream.poll_flush(cx) {
            return report;
        }
    }
    panic!("the drain did not end");
}

/// Runs one poll of the inbound side to its report.
fn next(
    stream: &ZmqStream,
    cx: &mut Context<'_>,
) -> Progress<Option<std::io::Result<Vec<u8>>>> {
    for _ in 0..1000 {
        if let Turn::Done(report) = stream.poll_next(cx) {
            return report;
        }
    }
    panic!("the drain did not end");
}

/// Polls the inbound side until it yields an item, for at most ten seconds.
fn await_item(stream: &ZmqStream, cx: &mut Context<'_>) -> std::io::Result<Vec<u8>> {
    let deadline = Instant::now() + Duration::from_secs(10);
    while Instant::now() < deadline {
        match next(stream, cx) {
            Progress::Ready(Some(item)) => return item,
            Progress::Ready(None) => panic!("the sequence never ends"),
            Progress::Pending => std::hint::spin_loop(),
        }
    }
    panic!("no message arrived");
}

/// Flushes until the flush reports something other than a suspension.
fn await_flushed(stream: &mut ZmqStream, cx: &mut Context<'_>) -> std::io::Result<()> {
    let deadline = Instant::now() + Duration::from_secs(10);
    while Instant::now() < deadline {
        match flush(stream, cx) {
            Progress::Ready(report) => return report,
            Progress::Pending => std::hint::spin_loop(),
        }
    }
    panic!("the flush did not finish");
}

fn round_trip(endpoint: &str, payload: Vec<u8>) {
    let ctx = zmq::Context::new();
    let (left, right) = pair(&ctx, endpoint, 4);
    let mut sender = adapter(left).unwrap();
    let receiver = adapter(right).unwrap();
    let waker = quiet_waker();
    let mut cx = Context::from_waker(&waker);

    assert!(sender.start_send(payload.clone()).is_ok());
    assert_eq!(sender.buffered(), Some(&payload));
    await_flushed(&mut sender, &mut cx).unwrap();
    assert!(sender.is_idle());
    let got = await_item(&receiver, &mut cx).unwrap();
    assert_eq!(got, payload);
}

#[test]
fn new_adapter_has_an_empty_slot() {
    let ctx = zmq::Context::new();
    let socket = ctx.socket(zmq::PAIR).unwrap();
    let stream = adapter(socket).unwrap();
    assert!(stream.is_idle());
    assert_eq!(stream.buffered(), None);
}

#[test]
fn failed_registration_is_returned_as_it_came() {
    let failure = std::io::Error::from_raw_os_error(24);
    match ZmqStream::new(Err(failure)) {
        Err(e) => assert_eq!(e.raw_os_error(), Some(24)),
        Ok(_) => panic!("a failed registration gives no adapter"),
    }
}

#[test]
fn successful_registration_gives_an_idle_adapter() {
    let ctx = zmq::Context::new();
    let socket = ctx.socket(zmq::PAIR).unwrap();
    let stream = ZmqStream::new(async_io::Async::new(socket)).unwrap();
    assert!(stream.is_idle());
}

#[test]
fn start_send_fills_the_empty_slot() {
    let ctx = zmq::Context::new();
    let mut stream = adapter(ctx.socket(zmq::PAIR).unwrap()).unwrap();
    assert_eq!(stream.start_send(vec![7, 8, 9]), Ok(()));
    assert!(!stream.is_idle());
    assert_eq!(stream.buffered(), Some(&vec![7, 8, 9]));
}

#[test]
fn second_item_is_handed_back_and_the_first_stays() {
    let ctx = zmq::Context::new();
    let mut stream = adapter(ctx.socket(zmq::PAIR).unwrap()).unwrap();
    assert_eq!(stream.start_send(b"first".to_vec()), Ok(()));
    assert_eq!(stream.start_send(b"second".to_vec()), Err(b"second".to_vec()));
    assert_eq!(stream.buffered(), Some(&b"first".to_vec()));
}

#[test]
fn sent_message_leaves_the_slot() {
    let ctx = zmq::Context::new();
    let mut stream = adapter(ctx.socket(zmq::PAIR).unwrap()).unwrap();
    stream.start_send(vec![1]).unwrap();
    assert!(matches!(stream.sent(SendOutcome::<i32>::Sent), Progress::Ready(Ok(()))));
    assert!(stream.is_idle());
}

#[test]
fn blocked_send_keeps_the_slot() {
    let ctx = zmq::Context::new();
    let mut stream = adapter(ctx.socket(zmq::PAIR).unwrap()).unwrap();
    stream.start_send(vec![1, 2]).unwrap();
    assert!(matches!(stream.sent(SendOutcome::<i32>::WouldBlock), Progress::Pending));
    assert_eq!(stream.buffered(), Some(&vec![1, 2]));
}

#[test]
fn failed_send_drops_the_message_and_reports_the_error() {
    let ctx = zmq::Context::new();
    let mut stream = adapter(ctx.socket(zmq::PAIR).unwrap()).unwrap();
    stream.start_send(vec![1, 2]).unwrap();
    assert!(matches!(stream.sent(SendOutcome::Failed(13)), Progress::Ready(Err(13))));
    assert!(stream.is_idle());
}

#[test]
fn flush_of_empty_slot_succeeds_every_time() {
    let ctx = zmq::Context::new();
    let (left, _right) = pair(&ctx, "inproc://idle-flush", 4);
    let mut stream = adapter(left).unwrap();
    let waker = quiet_waker();
    let mut cx = Context::from_waker(&waker);
    for _ in 0..50 {
        assert!(matches!(flush(&mut stream, &mut cx), Progress::Ready(Ok(()))));
        assert!(stream.is_idle());
    }
}

#[test]
fn ready_of_empty_slot_succeeds_at_once() {
    let ctx = zmq::Context::new();
    let (left, _right) = pair(&ctx, "inproc://idle-ready", 4);
    let mut stream = adapter(left).unwrap();
    let waker = quiet_waker();
    let mut cx = Context::from_waker(&waker);
    for _ in 0..1000 {
        match stream.poll_ready(&mut cx) {
            Turn::Again => {}
            Turn::Done(report) => {
                assert!(matches!(report, Progress::Ready(Ok(()))));
                return;
            }
        }
    }
    panic!("the drain did not end");
}

#[test]
fn round_trip_of_empty_payload() {
    round_trip("inproc://round-trip-empty", Vec::new());
}

#[test]
fn round_trip_of_single_byte() {
    round_trip("inproc://round-trip-one", vec![0xa5]);
}

#[test]
fn round_trip_of_multi_kilobyte_payload() {
    let payload: Vec<u8> = (0..16 * 1024).map(|i: usize| (i % 251) as u8).collect();
    round_trip("inproc://round-trip-large", payload);
}

#[test]
fn late_receiver_gets_all_messages_in_order() {
    let ctx = zmq::Context::new();
    let (left, right) = pair(&ctx, "inproc://late-receiver", 3);
    let mut sender = adapter(left).unwrap();
    let waker = quiet_waker();
    let mut cx = Context::from_waker(&waker);
    for i in 0..3 {
        let text = format!("{i}");
        assert!(sender.start_send(text.into_bytes()).is_ok());
        await_flushed(&mut sender, &mut cx).unwrap();
    }
    let receiver = adapter(right).unwrap();
    assert_eq!(await_item(&receiver, &mut cx).unwrap(), b"0".to_vec());
    assert_eq!(await_item(&receiver, &mut cx).unwrap(), b"1".to_vec());
    assert_eq!(await_item(&receiver, &mut cx).unwrap(), b"2".to_vec());
    assert!(matches!(next(&receiver, &mut cx), Progress::Pending));
}

#[test]
fn idle_socket_suspends_until_a_message_arrives() {
    let ctx = zmq::Context::new();
    let (left, right) = pair(&ctx, "inproc://idle-receive", 4);
    let mut sender = adapter(left).unwrap();
    let receiver = adapter(right).unwrap();
    let waker = quiet_waker();
    let mut cx = Context::from_waker(&waker);
    for _ in 0..20 {
        assert!(matches!(next(&receiver, &mut cx), Progress::Pending));
    }
    sender.start_send(b"wake".to_vec()).unwrap();
    await_flushed(&mut sender, &mut cx).unwrap();
    assert_eq!(await_item(&receiver, &mut cx).unwrap(), b"wake".to_vec());
}

#[test]
fn flush_without_peer_suspends_and_keeps_the_message() {
    let ctx = zmq::Context::new();
    let lonely = ctx.socket(zmq::PAIR).unwrap();
    lonely.bind("inproc://no-peer").unwrap();
    let mut sender = adapter(lonely).unwrap();
    let waker = quiet_waker();
    let mut cx = Context::from_waker(&waker);
    sender.start_send(b"kept".to_vec()).unwrap();
    for _ in 0..5 {
        assert!(matches!(flush(&mut sender, &mut cx), Progress::Pending));
        assert_eq!(sender.buffered(), Some(&b"kept".to_vec()));
    }
    assert_eq!(sender.start_send(b"next".to_vec()), Err(b"next".to_vec()));

    let peer = ctx.socket(zmq::PAIR).unwrap();
    peer.connect("inproc://no-peer").unwrap();
    let receiver = adapter(peer).unwrap();
    await_flushed(&mut sender, &mut cx).unwrap();
    assert!(sender.is_idle());
    assert_eq!(await_item(&receiver, &mut cx).unwrap(), b"kept".to_vec());
}

#[test]
fn close_leaves_nothing_buffered() {
    let ctx = zmq::Context::new();
    let (left, right) = pair(&ctx, "inproc://close", 4);
    let mut sender = adapter(left).unwrap();
    let receiver = adapter(right).unwrap();
    let waker = quiet_waker();
    let mut cx = Context::from_waker(&waker);
    sender.start_send(b"last".to_vec()).unwrap();
    let deadline = Instant::now() + Duration::from_secs(10);
    loop {
        assert!(Instant::now() < deadline);
        match sender.poll_close(&mut cx) {
            Turn::Done(Progress::Ready(report)) => {
                report.unwrap();
                break;
            }
            _ => {}
        }
    }
    assert!(sender.is_idle());
    assert_eq!(await_item(&receiver, &mut cx).unwrap(), b"last".to_vec());
}

#[test]
fn refused_send_is_reported_and_the_message_dropped() {
    let ctx = zmq::Context::new();
    let replier = ctx.socket(zmq::REP).unwrap();
    replier.bind("inproc://out-of-turn-send").unwrap();
    let mut stream = adapter(replier).unwrap();
    let waker = quiet_waker();
    let mut cx = Context::from_waker(&waker);
    stream.start_send(b"too early".to_vec()).unwrap();
    match flush(&mut stream, &mut cx) {
        Progress::Ready(Err(e)) => assert_eq!(e.kind(), std::io::ErrorKind::Other),
        _ => panic!("a reply before a request is refused"),
    }
    assert!(stream.is_idle());
}

#[test]
fn refused_receive_is_yielded_as_error() {
    let ctx = zmq::Context::new();
    let requester = ctx.socket(zmq::REQ).unwrap();
    requester.bind("inproc://out-of-turn-receive").unwrap();
    let stream = adapter(requester).unwrap();
    let waker = quiet_waker();
    let mut cx = Context::from_waker(&waker);
    match next(&stream, &mut cx) {
        Progress::Ready(Some(Err(e))) => assert_eq!(e.kind(), std::io::ErrorKind::Other),
        _ => panic!("a receive before a request is refused"),
    }
    match next(&stream, &mut cx) {
        Progress::Ready(Some(Err(_))) => {}
        _ => panic!("the sequence goes on after an error"),
    }
}

#[test]
fn listener_turn_ends_without_touching_the_slot() {
    let ctx = zmq::Context::new();
    let (left, _right) = pair(&ctx, "inproc://listener", 4);
    let mut stream = adapter(left).unwrap();
    let waker = quiet_waker();
    let mut cx = Context::from_waker(&waker);
    stream.start_send(vec![4]).unwrap();
    let mut ended = false;
    for _ in 0..1000 {
        if let Turn::Done(result) = stream.setup_listener(&mut cx) {
            result.unwrap();
            ended = true;
            break;
        }
    }
    assert!(ended);
    assert_eq!(stream.buffered(), Some(&vec![4]));
}

#[test]
fn flush_queries_again_after_a_notification() {
    let ctx = zmq::Context::new();
    let mut stream = adapter(ctx.socket(zmq::PAIR).unwrap()).unwrap();
    stream.start_send(vec![1]).unwrap();
    assert!(matches!(stream.flush_step(Readiness::<i32>::Ready), FlushStep::Again));
    assert_eq!(stream.buffered(), Some(&vec![1]));
}

#[test]
fn flush_reports_a_failed_query_and_keeps_the_slot() {
    let ctx = zmq::Context::new();
    let mut stream = adapter(ctx.socket(zmq::PAIR).unwrap()).unwrap();
    stream.start_send(vec![1]).unwrap();
    assert!(matches!(
        stream.flush_step(Readiness::Failed(4)),
        FlushStep::Report(Progress::Ready(Err(4)))
    ));
    assert_eq!(stream.buffered(), Some(&vec![1]));
}

#[test]
fn flush_of_empty_slot_reports_success_without_a_send() {
    let ctx = zmq::Context::new();
    let stream = adapter(ctx.socket(zmq::PAIR).unwrap()).unwrap();
    assert!(matches!(
        stream.flush_step(Readiness::<i32>::Pending),
        FlushStep::Report(Progress::Ready(Ok(())))
    ));
}

#[test]
fn flush_hands_over_the_buffered_message() {
    let ctx = zmq::Context::new();
    let mut stream = adapter(ctx.socket(zmq::PAIR).unwrap()).unwrap();
    stream.start_send(vec![0x30, 0x00, 0x31]).unwrap();
    match stream.flush_step(Readiness::<i32>::Pending) {
        FlushStep::Send(bytes) => assert_eq!(bytes, &vec![0x30, 0x00, 0x31]),
        _ => panic!("an occupied slot asks for a send"),
    }
}

#[test]
fn flush_hands_over_an_empty_message_as_a_message() {
    let ctx = zmq::Context::new();
    let mut stream = adapter(ctx.socket(zmq::PAIR).unwrap()).unwrap();
    stream.start_send(Vec::new()).unwrap();
    match stream.flush_step(Readiness::<i32>::Pending) {
        FlushStep::Send(bytes) => assert!(bytes.is_empty()),
        _ => panic!("a slot that holds an empty message is occupied"),
    }
}

#[test]
fn flush_hands_over_the_first_item_after_a_refused_second() {
    let ctx = zmq::Context::new();
    let mut stream = adapter(ctx.socket(zmq::PAIR).unwrap()).unwrap();
    stream.start_send(vec![1]).unwrap();
    assert_eq!(stream.start_send(vec![2]), Err(vec![2]));
    match stream.flush_step(Readiness::<i32>::Pending) {
        FlushStep::Send(bytes) => assert_eq!(bytes, &vec![1]),
        _ => panic!("an occupied slot asks for a send"),
    }
}
