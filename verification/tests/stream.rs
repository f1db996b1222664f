use pyo3_async_runtimes::stream::{
    after_room, keep_fetching, next_step, send_reply, Fetched, SendReply, StreamStep,
    STREAM_BUFFER,
};

#[test]
fn each_fetch_kind() {
    assert!(matches!(next_step::<i32, &str>(Fetched::Yielded(1)), StreamStep::Emit(Ok(1))));
    assert!(matches!(next_step::<i32, &str>(Fetched::Raised("e")), StreamStep::Emit(Err("e"))));
    assert!(matches!(next_step::<i32, &str>(Fetched::StartFailed("s")), StreamStep::Emit(Err("s"))));
    assert!(matches!(next_step::<i32, &str>(Fetched::Exhausted), StreamStep::End));
}

#[test]
fn fetching_stops_when_receiver_gone() {
    assert!(keep_fetching(true));
    assert!(!keep_fetching(false));
}

// A generator yielding 0..10 then finishing gives exactly 0..10, in order.
#[test]
fn generator_items_in_order() {
    let mut fetches: Vec<Fetched<i32, String>> = (0..10).map(Fetched::Yielded).collect();
    fetches.push(Fetched::Exhausted);
    fetches.push(Fetched::Yielded(99));
    let mut out = Vec::new();
    for f in fetches {
        match next_step(f) {
            StreamStep::Emit(item) => out.push(item.unwrap()),
            StreamStep::End => break,
        }
    }
    assert_eq!(out, (0..10).collect::<Vec<i32>>());
}

#[test]
fn errors_do_not_end_the_stream() {
    let fetches = vec![
        Fetched::Yielded(1),
        Fetched::Raised("oops".to_string()),
        Fetched::Yielded(2),
        Fetched::Exhausted,
    ];
    let mut out = Vec::new();
    for f in fetches {
        match next_step(f) {
            StreamStep::Emit(item) => out.push(item),
            StreamStep::End => break,
        }
    }
    assert_eq!(out, vec![Ok(1), Err("oops".to_string()), Ok(2)]);
}

#[test]
fn send_replies() {
    assert!(send_reply(true, false) == SendReply::Accepted);
    assert!(send_reply(false, true) == SendReply::AwaitRoom);
    assert!(send_reply(false, false) == SendReply::Refused);
}

#[test]
fn room_replies() {
    assert!(after_room(true, true));
    assert!(!after_room(true, false));
    assert!(!after_room(false, false));
}

#[test]
fn buffer_of_ten() {
    assert_eq!(STREAM_BUFFER, 10);
}
