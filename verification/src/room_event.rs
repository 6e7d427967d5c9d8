//! The collection of room events, state events among them.

use crate::custom::{CustomRoomEvent, CustomStateEvent};
use crate::kind::{Kind, Tier};
use crate::leaf::{convert_variant, LeafPayload};
use crate::raw::Raw;
use crate::schema::Schema;
use crate::state_event::StateEvent;
use crate::view::{converted, EventView};
use vstd::prelude::*;
use vstd::std_specs::convert::FromSpecImpl;

verus! {

/// A room event or state event.
///
/// A value comes from a raw value through [`RoomEvent::try_from_raw`], or from a
/// leaf value through the constructor of its variant, which cannot fail.
#[derive(Clone, Debug)]
pub enum RoomEvent<S: Schema> {
    /// `m.call.answer`
    CallAnswer(S::CallAnswer),
    /// `m.call.candidates`
    CallCandidates(S::CallCandidates),
    /// `m.call.hangup`
    CallHangup(S::CallHangup),
    /// `m.call.invite`
    CallInvite(S::CallInvite),
    /// `m.room.aliases`
    RoomAliases(S::RoomAliases),
    /// `m.room.avatar`
    RoomAvatar(S::RoomAvatar),
    /// `m.room.canonical_alias`
    RoomCanonicalAlias(S::RoomCanonicalAlias),
    /// `m.room.create`
    RoomCreate(S::RoomCreate),
    /// `m.room.encrypted`
    RoomEncrypted(S::RoomEncrypted),
    /// `m.room.encryption`
    RoomEncryption(S::RoomEncryption),
    /// `m.room.guest_access`
    RoomGuestAccess(S::RoomGuestAccess),
    /// `m.room.history_visibility`
    RoomHistoryVisibility(S::RoomHistoryVisibility),
    /// `m.room.join_rules`
    RoomJoinRules(S::RoomJoinRules),
    /// `m.room.member`
    RoomMember(S::RoomMember),
    /// `m.room.message`
    RoomMessage(S::RoomMessage),
    /// `m.room.message.feedback`
    RoomMessageFeedback(S::RoomMessageFeedback),
    /// `m.room.name`
    RoomName(S::RoomName),
    /// `m.room.pinned_events`
    RoomPinnedEvents(S::RoomPinnedEvents),
    /// `m.room.power_levels`
    RoomPowerLevels(S::RoomPowerLevels),
    /// `m.room.redaction`
    RoomRedaction(S::RoomRedaction),
    /// `m.room.server_acl`
    RoomServerAcl(S::RoomServerAcl),
    /// `m.room.third_party_invite`
    RoomThirdPartyInvite(S::RoomThirdPartyInvite),
    /// `m.room.tombstone`
    RoomTombstone(S::RoomTombstone),
    /// `m.room.topic`
    RoomTopic(S::RoomTopic),
    /// `m.sticker`
    Sticker(S::Sticker),
    /// Any room event of a kind that the table does not hold.
    CustomRoom(CustomRoomEvent),
    /// Any state event of a kind that the table does not hold.
    CustomState(CustomStateEvent),
}

impl<S: Schema> View for RoomEvent<S> {
    type V = EventView;

    open spec fn view(&self) -> EventView {
        match self {
            RoomEvent::CallAnswer(leaf) => EventView::Named {
                kind: Kind::CallAnswer,
                payload: leaf.rendered(),
            },
            RoomEvent::CallCandidates(leaf) => EventView::Named {
                kind: Kind::CallCandidates,
                payload: leaf.rendered(),
            },
            RoomEvent::CallHangup(leaf) => EventView::Named {
                kind: Kind::CallHangup,
                payload: leaf.rendered(),
            },
            RoomEvent::CallInvite(leaf) => EventView::Named {
                kind: Kind::CallInvite,
                payload: leaf.rendered(),
            },
            RoomEvent::RoomAliases(leaf) => EventView::Named {
                kind: Kind::RoomAliases,
                payload: leaf.rendered(),
            },
            RoomEvent::RoomAvatar(leaf) => EventView::Named {
                kind: Kind::RoomAvatar,
                payload: leaf.rendered(),
            },
            RoomEvent::RoomCanonicalAlias(leaf) => EventView::Named {
                kind: Kind::RoomCanonicalAlias,
                payload: leaf.rendered(),
            },
            RoomEvent::RoomCreate(leaf) => EventView::Named {
                kind: Kind::RoomCreate,
                payload: leaf.rendered(),
            },
            RoomEvent::RoomEncrypted(leaf) => EventView::Named {
                kind: Kind::RoomEncrypted,
                payload: leaf.rendered(),
            },
            RoomEvent::RoomEncryption(leaf) => EventView::Named {
                kind: Kind::RoomEncryption,
                payload: leaf.rendered(),
            },
            RoomEvent::RoomGuestAccess(leaf) => EventView::Named {
                kind: Kind::RoomGuestAccess,
                payload: leaf.rendered(),
            },
            RoomEvent::RoomHistoryVisibility(leaf) => EventView::Named {
                kind: Kind::RoomHistoryVisibility,
                payload: leaf.rendered(),
            },
            RoomEvent::RoomJoinRules(leaf) => EventView::Named {
                kind: Kind::RoomJoinRules,
                payload: leaf.rendered(),
            },
            RoomEvent::RoomMember(leaf) => EventView::Named {
                kind: Kind::RoomMember,
                payload: leaf.rendered(),
            },
            RoomEvent::RoomMessage(leaf) => EventView::Named {
                kind: Kind::RoomMessage,
                payload: leaf.rendered(),
            },
            RoomEvent::RoomMessageFeedback(leaf) => EventView::Named {
                kind: Kind::RoomMessageFeedback,
                payload: leaf.rendered(),
            },
            RoomEvent::RoomName(leaf) => EventView::Named {
                kind: Kind::RoomName,
                payload: leaf.rendered(),
            },
            RoomEvent::RoomPinnedEvents(leaf) => EventView::Named {
                kind: Kind::RoomPinnedEvents,
                payload: leaf.rendered(),
            },
            RoomEvent::RoomPowerLevels(leaf) => EventView::Named {
                kind: Kind::RoomPowerLevels,
                payload: leaf.rendered(),
            },
            RoomEvent::RoomRedaction(leaf) => EventView::Named {
                kind: Kind::RoomRedaction,
                payload: leaf.rendered(),
            },
            RoomEvent::RoomServerAcl(leaf) => EventView::Named {
                kind: Kind::RoomServerAcl,
                payload: leaf.rendered(),
            },
            RoomEvent::RoomThirdPartyInvite(leaf) => EventView::Named {
                kind: Kind::RoomThirdPartyInvite,
                payload: leaf.rendered(),
            },
            RoomEvent::RoomTombstone(leaf) => EventView::Named {
                kind: Kind::RoomTombstone,
                payload: leaf.rendered(),
            },
            RoomEvent::RoomTopic(leaf) => EventView::Named {
                kind: Kind::RoomTopic,
                payload: leaf.rendered(),
            },
            RoomEvent::Sticker(leaf) => EventView::Named {
                kind: Kind::Sticker,
                payload: leaf.rendered(),
            },
            RoomEvent::CustomRoom(custom) => custom@,
            RoomEvent::CustomState(custom) => custom@,
        }
    }
}

impl<S: Schema> RoomEvent<S> {
    /// Converts a raw value into the variant that its discriminator selects.
    ///
    /// Where the discriminator selects a variant of a kind of the table, the
    /// payload is parsed as the schema says for that kind; a payload of
    /// another shape fails the conversion, and the failure holds the message
    /// of the shape error and `raw` as it came. Any other discriminator, that of
    /// a basic kind too, cannot fail: it gives `CustomState` for a raw value of
    /// the state tier, and `CustomRoom` for any other.
    pub fn try_from_raw(raw: Raw) -> (outcome: Result<Self, (String, Raw)>)
        ensures
            match converted::<S>(Tier::Room, raw@) {
                Ok(view) => outcome matches Ok(event) && event@ == view,
                Err(message) => outcome matches Err(failure) && failure.0@ == message
                    && failure.1 == raw,
            },
    {
        match Kind::from_name(raw.kind.as_str()) {
            Some(Kind::CallAnswer) => {
                match convert_variant(S::CallAnswer::parse_from(&raw.payload), raw) {
                    Ok(leaf) => Ok(RoomEvent::CallAnswer(leaf)),
                    Err(failure) => Err(failure),
                }
            },
            Some(Kind::CallCandidates) => {
                match convert_variant(S::CallCandidates::parse_from(&raw.payload), raw) {
                    Ok(leaf) => Ok(RoomEvent::CallCandidates(leaf)),
                    Err(failure) => Err(failure),
                }
            },
            Some(Kind::CallHangup) => {
                match convert_variant(S::CallHangup::parse_from(&raw.payload), raw) {
                    Ok(leaf) => Ok(RoomEvent::CallHangup(leaf)),
                    Err(failure) => Err(failure),
                }
            },
            Some(Kind::CallInvite) => {
                match convert_variant(S::CallInvite::parse_from(&raw.payload), raw) {
                    Ok(leaf) => Ok(RoomEvent::CallInvite(leaf)),
                    Err(failure) => Err(failure),
                }
            },
            Some(Kind::RoomAliases) => {
                match convert_variant(S::RoomAliases::parse_from(&raw.payload), raw) {
                    Ok(leaf) => Ok(RoomEvent::RoomAliases(leaf)),
                    Err(failure) => Err(failure),
                }
            },
            Some(Kind::RoomAvatar) => {
                match convert_variant(S::RoomAvatar::parse_from(&raw.payload), raw) {
                    Ok(leaf) => Ok(RoomEvent::RoomAvatar(leaf)),
                    Err(failure) => Err(failure),
                }
            },
            Some(Kind::RoomCanonicalAlias) => {
                match convert_variant(S::RoomCanonicalAlias::parse_from(&raw.payload), raw) {
                    Ok(leaf) => Ok(RoomEvent::RoomCanonicalAlias(leaf)),
                    Err(failure) => Err(failure),
                }
            },
            Some(Kind::RoomCreate) => {
                match convert_variant(S::RoomCreate::parse_from(&raw.payload), raw) {
                    Ok(leaf) => Ok(RoomEvent::RoomCreate(leaf)),
                    Err(failure) => Err(failure),
                }
            },
            Some(Kind::RoomEncrypted) => {
                match convert_variant(S::RoomEncrypted::parse_from(&raw.payload), raw) {
                    Ok(leaf) => Ok(RoomEvent::RoomEncrypted(leaf)),
                    Err(failure) => Err(failure),
                }
            },
            Some(Kind::RoomEncryption) => {
                match convert_variant(S::RoomEncryption::parse_from(&raw.payload), raw) {
                    Ok(leaf) => Ok(RoomEvent::RoomEncryption(leaf)),
                    Err(failure) => Err(failure),
                }
            },
            Some(Kind::RoomGuestAccess) => {
                match convert_variant(S::RoomGuestAccess::parse_from(&raw.payload), raw) {
                    Ok(leaf) => Ok(RoomEvent::RoomGuestAccess(leaf)),
                    Err(failure) => Err(failure),
                }
            },
            Some(Kind::RoomHistoryVisibility) => {
                match convert_variant(S::RoomHistoryVisibility::parse_from(&raw.payload), raw) {
                    Ok(leaf) => Ok(RoomEvent::RoomHistoryVisibility(leaf)),
                    Err(failure) => Err(failure),
                }
            },
            Some(Kind::RoomJoinRules) => {
                match convert_variant(S::RoomJoinRules::parse_from(&raw.payload), raw) {
                    Ok(leaf) => Ok(RoomEvent::RoomJoinRules(leaf)),
                    Err(failure) => Err(failure),
                }
            },
            Some(Kind::RoomMember) => {
                match convert_variant(S::RoomMember::parse_from(&raw.payload), raw) {
                    Ok(leaf) => Ok(RoomEvent::RoomMember(leaf)),
                    Err(failure) => Err(failure),
                }
            },
            Some(Kind::RoomMessage) => {
                match convert_variant(S::RoomMessage::parse_from(&raw.payload), raw) {
                    Ok(leaf) => Ok(RoomEvent::RoomMessage(leaf)),
                    Err(failure) => Err(failure),
                }
            },
            Some(Kind::RoomMessageFeedback) => {
                match convert_variant(S::RoomMessageFeedback::parse_from(&raw.payload), raw) {
                    Ok(leaf) => Ok(RoomEvent::RoomMessageFeedback(leaf)),
                    Err(failure) => Err(failure),
                }
            },
            Some(Kind::RoomName) => {
                match convert_variant(S::RoomName::parse_from(&raw.payload), raw) {
                    Ok(leaf) => Ok(RoomEvent::RoomName(leaf)),
                    Err(failure) => Err(failure),
                }
            },
            Some(Kind::RoomPinnedEvents) => {
                match convert_variant(S::RoomPinnedEvents::parse_from(&raw.payload), raw) {
                    Ok(leaf) => Ok(RoomEvent::RoomPinnedEvents(leaf)),
                    Err(failure) => Err(failure),
                }
            },
            Some(Kind::RoomPowerLevels) => {
                match convert_variant(S::RoomPowerLevels::parse_from(&raw.payload), raw) {
                    Ok(leaf) => Ok(RoomEvent::RoomPowerLevels(leaf)),
                    Err(failure) => Err(failure),
                }
            },
            Some(Kind::RoomRedaction) => {
                match convert_variant(S::RoomRedaction::parse_from(&raw.payload), raw) {
                    Ok(leaf) => Ok(RoomEvent::RoomRedaction(leaf)),
                    Err(failure) => Err(failure),
                }
            },
            Some(Kind::RoomServerAcl) => {
                match convert_variant(S::RoomServerAcl::parse_from(&raw.payload), raw) {
                    Ok(leaf) => Ok(RoomEvent::RoomServerAcl(leaf)),
                    Err(failure) => Err(failure),
                }
            },
            Some(Kind::RoomThirdPartyInvite) => {
                match convert_variant(S::RoomThirdPartyInvite::parse_from(&raw.payload), raw) {
                    Ok(leaf) => Ok(RoomEvent::RoomThirdPartyInvite(leaf)),
                    Err(failure) => Err(failure),
                }
            },
            Some(Kind::RoomTombstone) => {
                match convert_variant(S::RoomTombstone::parse_from(&raw.payload), raw) {
                    Ok(leaf) => Ok(RoomEvent::RoomTombstone(leaf)),
                    Err(failure) => Err(failure),
                }
            },
            Some(Kind::RoomTopic) => {
                match convert_variant(S::RoomTopic::parse_from(&raw.payload), raw) {
                    Ok(leaf) => Ok(RoomEvent::RoomTopic(leaf)),
                    Err(failure) => Err(failure),
                }
            },
            Some(Kind::Sticker) => {
                match convert_variant(S::Sticker::parse_from(&raw.payload), raw) {
                    Ok(leaf) => Ok(RoomEvent::Sticker(leaf)),
                    Err(failure) => Err(failure),
                }
            },
            _ => match raw.tier {
                Tier::State => Ok(RoomEvent::CustomState(CustomStateEvent::from_raw(raw))),
                _ => Ok(RoomEvent::CustomRoom(CustomRoomEvent::from_raw(raw))),
            },
        }
    }

    /// Writes the event back to its raw form.
    ///
    /// A variant of a kind of the table gives the discriminator of the kind
    /// and the payload that its leaf value renders to. A custom variant gives
    /// the discriminator and the payload that it stored.
    pub fn serialize(&self) -> (raw: Raw)
        ensures
            raw@ == self@.wire(),
    {
        match self {
            RoomEvent::CallAnswer(leaf) => Raw::named(Kind::CallAnswer, leaf.render_to()),
            RoomEvent::CallCandidates(leaf) => Raw::named(Kind::CallCandidates, leaf.render_to()),
            RoomEvent::CallHangup(leaf) => Raw::named(Kind::CallHangup, leaf.render_to()),
            RoomEvent::CallInvite(leaf) => Raw::named(Kind::CallInvite, leaf.render_to()),
            RoomEvent::RoomAliases(leaf) => Raw::named(Kind::RoomAliases, leaf.render_to()),
            RoomEvent::RoomAvatar(leaf) => Raw::named(Kind::RoomAvatar, leaf.render_to()),
            RoomEvent::RoomCanonicalAlias(leaf) => {
                Raw::named(Kind::RoomCanonicalAlias, leaf.render_to())
            },
            RoomEvent::RoomCreate(leaf) => Raw::named(Kind::RoomCreate, leaf.render_to()),
            RoomEvent::RoomEncrypted(leaf) => Raw::named(Kind::RoomEncrypted, leaf.render_to()),
            RoomEvent::RoomEncryption(leaf) => Raw::named(Kind::RoomEncryption, leaf.render_to()),
            RoomEvent::RoomGuestAccess(leaf) => Raw::named(Kind::RoomGuestAccess, leaf.render_to()),
            RoomEvent::RoomHistoryVisibility(leaf) => {
                Raw::named(Kind::RoomHistoryVisibility, leaf.render_to())
            },
            RoomEvent::RoomJoinRules(leaf) => Raw::named(Kind::RoomJoinRules, leaf.render_to()),
            RoomEvent::RoomMember(leaf) => Raw::named(Kind::RoomMember, leaf.render_to()),
            RoomEvent::RoomMessage(leaf) => Raw::named(Kind::RoomMessage, leaf.render_to()),
            RoomEvent::RoomMessageFeedback(leaf) => {
                Raw::named(Kind::RoomMessageFeedback, leaf.render_to())
            },
            RoomEvent::RoomName(leaf) => Raw::named(Kind::RoomName, leaf.render_to()),
            RoomEvent::RoomPinnedEvents(leaf) => {
                Raw::named(Kind::RoomPinnedEvents, leaf.render_to())
            },
            RoomEvent::RoomPowerLevels(leaf) => Raw::named(Kind::RoomPowerLevels, leaf.render_to()),
            RoomEvent::RoomRedaction(leaf) => Raw::named(Kind::RoomRedaction, leaf.render_to()),
            RoomEvent::RoomServerAcl(leaf) => Raw::named(Kind::RoomServerAcl, leaf.render_to()),
            RoomEvent::RoomThirdPartyInvite(leaf) => {
                Raw::named(Kind::RoomThirdPartyInvite, leaf.render_to())
            },
            RoomEvent::RoomTombstone(leaf) => Raw::named(Kind::RoomTombstone, leaf.render_to()),
            RoomEvent::RoomTopic(leaf) => Raw::named(Kind::RoomTopic, leaf.render_to()),
            RoomEvent::Sticker(leaf) => Raw::named(Kind::Sticker, leaf.render_to()),
            RoomEvent::CustomRoom(custom) => custom.to_raw(),
            RoomEvent::CustomState(custom) => custom.to_raw(),
        }
    }
}

/// Widening: every state event is a room event, of the same variant and with the same
/// leaf value.
impl<S: Schema> From<StateEvent<S>> for RoomEvent<S> {
    fn from(event: StateEvent<S>) -> (wider: Self)
        ensures
            wider@ == event@,
    {
        match event {
            StateEvent::RoomAliases(leaf) => RoomEvent::RoomAliases(leaf),
            StateEvent::RoomAvatar(leaf) => RoomEvent::RoomAvatar(leaf),
            StateEvent::RoomCanonicalAlias(leaf) => RoomEvent::RoomCanonicalAlias(leaf),
            StateEvent::RoomCreate(leaf) => RoomEvent::RoomCreate(leaf),
            StateEvent::RoomEncryption(leaf) => RoomEvent::RoomEncryption(leaf),
            StateEvent::RoomGuestAccess(leaf) => RoomEvent::RoomGuestAccess(leaf),
            StateEvent::RoomHistoryVisibility(leaf) => RoomEvent::RoomHistoryVisibility(leaf),
            StateEvent::RoomJoinRules(leaf) => RoomEvent::RoomJoinRules(leaf),
            StateEvent::RoomMember(leaf) => RoomEvent::RoomMember(leaf),
            StateEvent::RoomName(leaf) => RoomEvent::RoomName(leaf),
            StateEvent::RoomPinnedEvents(leaf) => RoomEvent::RoomPinnedEvents(leaf),
            StateEvent::RoomPowerLevels(leaf) => RoomEvent::RoomPowerLevels(leaf),
            StateEvent::RoomServerAcl(leaf) => RoomEvent::RoomServerAcl(leaf),
            StateEvent::RoomThirdPartyInvite(leaf) => RoomEvent::RoomThirdPartyInvite(leaf),
            StateEvent::RoomTombstone(leaf) => RoomEvent::RoomTombstone(leaf),
            StateEvent::RoomTopic(leaf) => RoomEvent::RoomTopic(leaf),
            StateEvent::CustomState(custom) => RoomEvent::CustomState(custom),
        }
    }
}

impl<S: Schema> FromSpecImpl<StateEvent<S>> for RoomEvent<S> {
    open spec fn obeys_from_spec() -> bool {
        true
    }

    open spec fn from_spec(event: StateEvent<S>) -> Self {
        match event {
            StateEvent::RoomAliases(leaf) => RoomEvent::RoomAliases(leaf),
            StateEvent::RoomAvatar(leaf) => RoomEvent::RoomAvatar(leaf),
            StateEvent::RoomCanonicalAlias(leaf) => RoomEvent::RoomCanonicalAlias(leaf),
            StateEvent::RoomCreate(leaf) => RoomEvent::RoomCreate(leaf),
            StateEvent::RoomEncryption(leaf) => RoomEvent::RoomEncryption(leaf),
            StateEvent::RoomGuestAccess(leaf) => RoomEvent::RoomGuestAccess(leaf),
            StateEvent::RoomHistoryVisibility(leaf) => RoomEvent::RoomHistoryVisibility(leaf),
            StateEvent::RoomJoinRules(leaf) => RoomEvent::RoomJoinRules(leaf),
            StateEvent::RoomMember(leaf) => RoomEvent::RoomMember(leaf),
            StateEvent::RoomName(leaf) => RoomEvent::RoomName(leaf),
            StateEvent::RoomPinnedEvents(leaf) => RoomEvent::RoomPinnedEvents(leaf),
            StateEvent::RoomPowerLevels(leaf) => RoomEvent::RoomPowerLevels(leaf),
            StateEvent::RoomServerAcl(leaf) => RoomEvent::RoomServerAcl(leaf),
            StateEvent::RoomThirdPartyInvite(leaf) => RoomEvent::RoomThirdPartyInvite(leaf),
            StateEvent::RoomTombstone(leaf) => RoomEvent::RoomTombstone(leaf),
            StateEvent::RoomTopic(leaf) => RoomEvent::RoomTopic(leaf),
            StateEvent::CustomState(custom) => RoomEvent::CustomState(custom),
        }
    }
}

impl<S: Schema> From<CustomRoomEvent> for RoomEvent<S> {
    fn from(custom: CustomRoomEvent) -> (event: Self)
        ensures
            event@ == custom@,
    {
        RoomEvent::CustomRoom(custom)
    }
}

impl<S: Schema> FromSpecImpl<CustomRoomEvent> for RoomEvent<S> {
    open spec fn obeys_from_spec() -> bool {
        true
    }

    open spec fn from_spec(custom: CustomRoomEvent) -> Self {
        RoomEvent::CustomRoom(custom)
    }
}

impl<S: Schema> From<CustomStateEvent> for RoomEvent<S> {
    fn from(custom: CustomStateEvent) -> (event: Self)
        ensures
            event@ == custom@,
    {
        RoomEvent::CustomState(custom)
    }
}

impl<S: Schema> FromSpecImpl<CustomStateEvent> for RoomEvent<S> {
    open spec fn obeys_from_spec() -> bool {
        true
    }

    open spec fn from_spec(custom: CustomStateEvent) -> Self {
        RoomEvent::CustomState(custom)
    }
}

} // verus!
