//! Events of kinds that the table does not hold, one type for each tier.

use crate::kind::Tier;
use crate::raw::{copy_of, Raw};
use crate::view::EventView;
use vstd::prelude::*;

verus! {

/// An event outside of any room, of a kind that the table does not hold.
#[derive(Clone, Debug, PartialEq, Eq)]
pub struct CustomEvent {
    /// The discriminator that the event came with.
    pub kind: String,
    /// The payload that the event came with.
    pub payload: Vec<u8>,
}

/// A room event of a kind that the table does not hold.
#[derive(Clone, Debug, PartialEq, Eq)]
pub struct CustomRoomEvent {
    /// The discriminator that the event came with.
    pub kind: String,
    /// The payload that the event came with.
    pub payload: Vec<u8>,
}

/// A state event of a kind that the table does not hold.
#[derive(Clone, Debug, PartialEq, Eq)]
pub struct CustomStateEvent {
    /// The discriminator that the event came with.
    pub kind: String,
    /// The payload that the event came with.
    pub payload: Vec<u8>,
}

impl View for CustomEvent {
    type V = EventView;

    open spec fn view(&self) -> EventView {
        EventView::Custom { tier: Tier::Basic, kind: self.kind@, payload: self.payload@ }
    }
}

impl View for CustomRoomEvent {
    type V = EventView;

    open spec fn view(&self) -> EventView {
        EventView::Custom { tier: Tier::Room, kind: self.kind@, payload: self.payload@ }
    }
}

impl View for CustomStateEvent {
    type V = EventView;

    open spec fn view(&self) -> EventView {
        EventView::Custom { tier: Tier::State, kind: self.kind@, payload: self.payload@ }
    }
}

impl CustomEvent {
    /// Keeps the discriminator and the payload of `raw` as they are.
    pub fn from_raw(raw: Raw) -> (event: Self)
        ensures
            event == (CustomEvent { kind: raw.kind, payload: raw.payload }),
    {
        CustomEvent { kind: raw.kind, payload: raw.payload }
    }

    /// Gives the discriminator and the payload back as they were stored.
    pub fn to_raw(&self) -> (raw: Raw)
        ensures
            raw@ == self@.wire(),
    {
        Raw { kind: self.kind.clone(), payload: copy_of(&self.payload), tier: Tier::Basic }
    }
}

impl CustomRoomEvent {
    /// Keeps the discriminator and the payload of `raw` as they are.
    pub fn from_raw(raw: Raw) -> (event: Self)
        ensures
            event == (CustomRoomEvent { kind: raw.kind, payload: raw.payload }),
    {
        CustomRoomEvent { kind: raw.kind, payload: raw.payload }
    }

    /// Gives the discriminator and the payload back as they were stored.
    pub fn to_raw(&self) -> (raw: Raw)
        ensures
            raw@ == self@.wire(),
    {
        Raw { kind: self.kind.clone(), payload: copy_of(&self.payload), tier: Tier::Room }
    }
}

impl CustomStateEvent {
    /// Keeps the discriminator and the payload of `raw` as they are.
    pub fn from_raw(raw: Raw) -> (event: Self)
        ensures
            event == (CustomStateEvent { kind: raw.kind, payload: raw.payload }),
    {
        CustomStateEvent { kind: raw.kind, payload: raw.payload }
    }

    /// Gives the discriminator and the payload back as they were stored.
    pub fn to_raw(&self) -> (raw: Raw)
        ensures
            raw@ == self@.wire(),
    {
        Raw { kind: self.kind.clone(), payload: copy_of(&self.payload), tier: Tier::State }
    }
}

} // verus!
