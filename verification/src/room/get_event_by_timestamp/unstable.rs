//! The request and the response of the unstable endpoint.

use crate::direction::Direction;
use ruma_common::{MilliSecondsSinceUnixEpoch, OwnedEventId, OwnedRoomId};
use vstd::prelude::*;

verus! {

/// `ruma_common::OwnedRoomId`, an owned room ID. Nothing is claimed of what
/// it holds: a value is carried from the caller into the request.
#[verifier::external_type_specification]
#[verifier::external_body]
pub struct ExOwnedRoomId(OwnedRoomId);

/// `ruma_common::OwnedEventId`, an owned event ID. Nothing is claimed of what
/// it holds: a value is carried from the caller into the response.
#[verifier::external_type_specification]
#[verifier::external_body]
pub struct ExOwnedEventId(OwnedEventId);

/// `ruma_common::MilliSecondsSinceUnixEpoch`, a timestamp. Nothing is claimed
/// of what it holds: a value is carried from the caller into the request or
/// the response.
#[verifier::external_type_specification]
#[verifier::external_body]
pub struct ExMilliSecondsSinceUnixEpoch(MilliSecondsSinceUnixEpoch);

/// Request type for the `get_event_for_timestamp` endpoint.
#[derive(Debug)]
pub struct Request {
    /// The ID of the room the event is in.
    pub room_id: OwnedRoomId,
    /// The timestamp to search from, inclusively.
    pub ts: MilliSecondsSinceUnixEpoch,
    /// The direction in which to search.
    pub dir: Direction,
}

/// Response type for the `get_event_for_timestamp` endpoint.
#[derive(Debug)]
pub struct Response {
    /// The ID of the event found.
    pub event_id: OwnedEventId,
    /// The event's timestamp.
    pub origin_server_ts: MilliSecondsSinceUnixEpoch,
}

impl Request {
    /// Creates a new `Request` with the given room ID, timestamp and direction.
    pub fn new(room_id: OwnedRoomId, ts: MilliSecondsSinceUnixEpoch, dir: Direction) -> (request:
        Self)
        ensures
            request == (Request { room_id, ts, dir }),
    {
        Self { room_id, ts, dir }
    }

    /// Creates a new `Request` with the given room ID and timestamp, and the direction set to
    /// `Backward`.
    ///
    /// Allows to have the latest event before or including the given timestamp.
    pub fn until(room_id: OwnedRoomId, ts: MilliSecondsSinceUnixEpoch) -> (request: Self)
        ensures
            request == (Request { room_id, ts, dir: Direction::Backward }),
    {
        Self::new(room_id, ts, Direction::Backward)
    }

    /// Creates a new `Request` with the given room ID and timestamp, and the direction set to
    /// `Forward`.
    ///
    /// Allows to have the earliest event including or after the given timestamp.
    pub fn since(room_id: OwnedRoomId, ts: MilliSecondsSinceUnixEpoch) -> (request: Self)
        ensures
            request == (Request { room_id, ts, dir: Direction::Forward }),
    {
        Self::new(room_id, ts, Direction::Forward)
    }
}

impl Response {
    /// Creates a new `Response` with the given event ID and timestamp.
    pub fn new(event_id: OwnedEventId, origin_server_ts: MilliSecondsSinceUnixEpoch) -> (response:
        Self)
        ensures
            response == (Response { event_id, origin_server_ts }),
    {
        Self { event_id, origin_server_ts }
    }
}

} // verus!
