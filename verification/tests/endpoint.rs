use event_collections::room::get_event_by_timestamp::unstable::{Request, Response};
use event_collections::Direction;
use ruma_common::{MilliSecondsSinceUnixEpoch, OwnedEventId, OwnedRoomId};

fn room() -> OwnedRoomId {
    OwnedRoomId::try_from("!lobby:example.org").unwrap()
}

fn instant(millis: u32) -> MilliSecondsSinceUnixEpoch {
    MilliSecondsSinceUnixEpoch(millis.into())
}

#[test]
fn a_request_holds_what_it_was_made_with() {
    let request = Request::new(room(), instant(1_500), Direction::Forward);
    assert_eq!(request.room_id, room());
    assert_eq!(request.ts, instant(1_500));
    assert_eq!(request.dir, Direction::Forward);

    let request = Request::new(room(), instant(0), Direction::Backward);
    assert_eq!(request.ts, instant(0));
    assert_eq!(request.dir, Direction::Backward);
}

#[test]
fn until_searches_backward() {
    let request = Request::until(room(), instant(86_400_000));
    assert_eq!(request.room_id, room());
    assert_eq!(request.ts, instant(86_400_000));
    assert_eq!(request.dir, Direction::Backward);
}

#[test]
fn since_searches_forward() {
    let request = Request::since(room(), instant(86_400_000));
    assert_eq!(request.room_id, room());
    assert_eq!(request.ts, instant(86_400_000));
    assert_eq!(request.dir, Direction::Forward);
}

#[test]
fn a_response_holds_what_it_was_made_with() {
    let event_id = OwnedEventId::try_from("$found:example.org").unwrap();
    let response = Response::new(event_id.clone(), instant(42));
    assert_eq!(response.event_id, event_id);
    assert_eq!(response.origin_server_ts, instant(42));
}
