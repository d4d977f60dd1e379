use crync::negotiation::{
    get_connection_info, on_event, ConnectionInfoResult, Event, NegotiationError, Wait,
};

type TestEvent = Event<&'static str, &'static str>;

fn prepared(token: u32, result: Result<&'static str, &'static str>) -> TestEvent {
    Event::ConnectionInfoPrepared(ConnectionInfoResult { result_token: token, result })
}

#[test]
fn unrelated_event_then_prepared_returns_the_payload() {
    let events = vec![Event::Other, prepared(100, Ok("info"))];
    assert_eq!(get_connection_info(events), Ok("info"));
}

#[test]
fn unrelated_event_does_not_end_the_wait() {
    assert_eq!(on_event::<&str, &str>(Some(Event::Other)), Wait::Pending);
}

#[test]
fn prepared_event_ends_the_wait_with_its_info() {
    assert_eq!(on_event(Some(prepared(7, Ok("info")))), Wait::Done(Ok("info")));
}

#[test]
fn prepared_event_ends_the_wait_with_its_error() {
    assert_eq!(
        on_event(Some(prepared(7, Err("no route")))),
        Wait::Done(Err(NegotiationError::Transport("no route")))
    );
}

#[test]
fn end_of_stream_ends_the_wait_with_channel_closed() {
    assert_eq!(on_event::<&str, &str>(None), Wait::Done(Err(NegotiationError::ChannelClosed)));
}

#[test]
fn closed_stream_without_prepared_is_channel_closed() {
    let events: Vec<TestEvent> = vec![Event::Other, Event::Other, Event::Other];
    assert_eq!(get_connection_info(events), Err(NegotiationError::ChannelClosed));
}

#[test]
fn empty_stream_is_channel_closed() {
    let events: Vec<TestEvent> = Vec::new();
    assert_eq!(get_connection_info(events), Err(NegotiationError::ChannelClosed));
}

#[test]
fn first_prepared_event_decides() {
    let events = vec![
        Event::Other,
        prepared(1, Ok("first")),
        Event::Other,
        prepared(2, Ok("second")),
    ];
    assert_eq!(get_connection_info(events), Ok("first"));
}

#[test]
fn prepared_error_is_returned_though_info_follows() {
    let events = vec![prepared(1, Err("failed")), prepared(1, Ok("late"))];
    assert_eq!(get_connection_info(events), Err(NegotiationError::Transport("failed")));
}

#[test]
fn token_is_not_compared() {
    for token in [0, 1, 100, u32::MAX] {
        let events = vec![Event::Other, prepared(token, Ok("info"))];
        assert_eq!(get_connection_info(events), Ok("info"));
    }
}

#[test]
fn many_unrelated_events_are_passed_over() {
    let mut events: Vec<TestEvent> = Vec::new();
    for _ in 0..1000 {
        events.push(Event::Other);
    }
    events.push(prepared(100, Ok("info")));
    assert_eq!(get_connection_info(events), Ok("info"));
}

#[test]
fn whole_wait_agrees_with_its_steps() {
    let streams: Vec<Vec<TestEvent>> = vec![
        vec![],
        vec![Event::Other],
        vec![prepared(1, Ok("a"))],
        vec![Event::Other, prepared(1, Err("e")), Event::Other],
        vec![Event::Other, Event::Other, prepared(3, Ok("b")), prepared(4, Ok("c"))],
    ];
    let copies: Vec<Vec<TestEvent>> = vec![
        vec![],
        vec![Event::Other],
        vec![prepared(1, Ok("a"))],
        vec![Event::Other, prepared(1, Err("e")), Event::Other],
        vec![Event::Other, Event::Other, prepared(3, Ok("b")), prepared(4, Ok("c"))],
    ];
    for (stream, copy) in streams.into_iter().zip(copies) {
        let mut by_steps = None;
        let mut rest = copy.into_iter();
        while by_steps.is_none() {
            if let Wait::Done(result) = on_event(rest.next()) {
                by_steps = Some(result);
            }
        }
        assert_eq!(Some(get_connection_info(stream)), by_steps);
    }
}
