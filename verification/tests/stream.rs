use document_routes::stream::{
    forward, start, step, ForwarderAction, ForwarderEvent, ForwarderState, StreamItem,
    TransportError, CHANNEL_CAPACITY,
};

fn chunk(bytes: &[u8]) -> StreamItem {
    Ok(bytes.to_vec())
}

fn failure(message: &str) -> StreamItem {
    Err(TransportError { message: message.to_string() })
}

fn shape(items: &[StreamItem]) -> Vec<Result<Vec<u8>, String>> {
    items
        .iter()
        .map(|i| match i {
            Ok(b) => Ok(b.clone()),
            Err(e) => Err(e.message.clone()),
        })
        .collect()
}

#[test]
fn channel_holds_one_chunk() {
    assert_eq!(CHANNEL_CAPACITY, 1);
}

#[test]
fn forwarder_starts_by_receiving() {
    let (state, action) = start();
    assert_eq!(state, ForwarderState::Receiving);
    assert!(matches!(action, ForwarderAction::Receive));
}

#[test]
fn received_item_is_sent_as_it_came() {
    let (state, action) = step(ForwarderState::Receiving, ForwarderEvent::Received(chunk(b"abc")));
    assert_eq!(state, ForwarderState::Sending);
    assert!(matches!(action, ForwarderAction::Send(Ok(b)) if b == b"abc".to_vec()));
    let (state, action) = step(ForwarderState::Receiving, ForwarderEvent::Received(failure("reset")));
    assert_eq!(state, ForwarderState::Sending);
    assert!(matches!(action, ForwarderAction::Send(Err(e)) if e.message == "reset"));
}

#[test]
fn next_item_is_asked_for_after_the_send() {
    let (state, action) = step(ForwarderState::Sending, ForwarderEvent::Sent);
    assert_eq!(state, ForwarderState::Receiving);
    assert!(matches!(action, ForwarderAction::Receive));
}

#[test]
fn forwarder_stops_when_consumer_is_gone() {
    let (state, action) = step(ForwarderState::Sending, ForwarderEvent::ConsumerGone);
    assert_eq!(state, ForwarderState::Stopped);
    assert!(matches!(action, ForwarderAction::Stop));
}

#[test]
fn forwarder_stops_when_body_is_exhausted() {
    let (state, action) = step(ForwarderState::Receiving, ForwarderEvent::Exhausted);
    assert_eq!(state, ForwarderState::Stopped);
    assert!(matches!(action, ForwarderAction::Stop));
}

#[test]
fn stopped_forwarder_stays_stopped() {
    for event in [
        ForwarderEvent::Received(chunk(b"x")),
        ForwarderEvent::Exhausted,
        ForwarderEvent::Sent,
        ForwarderEvent::ConsumerGone,
    ] {
        let (state, action) = step(ForwarderState::Stopped, event);
        assert_eq!(state, ForwarderState::Stopped);
        assert!(matches!(action, ForwarderAction::Stop));
    }
}

#[test]
fn unexpected_report_stops_the_forwarder() {
    let (state, action) = step(ForwarderState::Receiving, ForwarderEvent::Sent);
    assert_eq!(state, ForwarderState::Stopped);
    assert!(matches!(action, ForwarderAction::Stop));
    let (state, action) = step(ForwarderState::Sending, ForwarderEvent::Received(chunk(b"x")));
    assert_eq!(state, ForwarderState::Stopped);
    assert!(matches!(action, ForwarderAction::Stop));
}

#[test]
fn payload_larger_than_the_buffer_arrives_whole_and_in_order() {
    let source: Vec<StreamItem> = (0..50u8).map(|i| chunk(&[i, i])).collect();
    let expected = shape(&source);
    let taken = forward(source, usize::MAX);
    assert_eq!(taken.len(), 50);
    assert_eq!(shape(&taken), expected);
}

#[test]
fn transport_error_keeps_its_place() {
    let source = vec![chunk(b"a"), failure("reset"), chunk(b"b")];
    let taken = forward(source, 3);
    assert_eq!(
        shape(&taken),
        vec![Ok(b"a".to_vec()), Err("reset".to_string()), Ok(b"b".to_vec())]
    );
}

#[test]
fn consumer_that_leaves_gets_a_prefix() {
    let source = vec![chunk(b"a"), chunk(b"b"), chunk(b"c")];
    let taken = forward(source, 2);
    assert_eq!(shape(&taken), vec![Ok(b"a".to_vec()), Ok(b"b".to_vec())]);
    assert_eq!(forward(vec![chunk(b"a")], 0).len(), 0);
    assert_eq!(forward(Vec::new(), 5).len(), 0);
}

#[test]
fn at_most_one_chunk_is_in_flight() {
    let mut source: Vec<StreamItem> = (0..10u8).map(|i| chunk(&[i])).collect();
    source.reverse();
    let (mut state, mut action) = start();
    let mut in_flight = 0usize;
    let mut delivered = 0usize;
    loop {
        match action {
            ForwarderAction::Receive => {
                assert_eq!(in_flight, 0);
                let event = match source.pop() {
                    Some(item) => ForwarderEvent::Received(item),
                    None => ForwarderEvent::Exhausted,
                };
                let next = step(state, event);
                state = next.0;
                action = next.1;
            }
            ForwarderAction::Send(_) => {
                in_flight += 1;
                assert!(in_flight <= CHANNEL_CAPACITY);
                in_flight -= 1;
                delivered += 1;
                let next = step(state, ForwarderEvent::Sent);
                state = next.0;
                action = next.1;
            }
            ForwarderAction::Stop => break,
        }
    }
    assert_eq!(state, ForwarderState::Stopped);
    assert_eq!(delivered, 10);
}
