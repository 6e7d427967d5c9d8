//! The collection of all events.

use crate::custom::{CustomEvent, CustomRoomEvent, CustomStateEvent};
use crate::kind::{Kind, Tier};
use crate::leaf::{convert_variant, LeafPayload};
use crate::raw::Raw;
use crate::room_event::RoomEvent;
use crate::schema::Schema;
use crate::state_event::StateEvent;
use crate::view::{converted, EventView};
use vstd::prelude::*;
use vstd::std_specs::convert::FromSpecImpl;

verus! {

/// A basic event, room event, or state event.
///
/// A value comes from a raw value through [`Event::try_from_raw`], or from a
/// leaf value through the constructor of its variant, which cannot fail.
#[derive(Clone, Debug)]
pub enum Event<S: Schema> {
    /// `m.call.answer`
    CallAnswer(S::CallAnswer),
    /// `m.call.candidates`
    CallCandidates(S::CallCandidates),
    /// `m.call.hangup`
    CallHangup(S::CallHangup),
    /// `m.call.invite`
    CallInvite(S::CallInvite),
    /// `m.direct`
    Direct(S::Direct),
    /// `m.dummy`
    Dummy(S::Dummy),
    /// `m.forwarded_room_key`
    ForwardedRoomKey(S::ForwardedRoomKey),
    /// `m.fully_read`
    FullyRead(S::FullyRead),
    /// `m.ignored_user_list`
    IgnoredUserList(S::IgnoredUserList),
    /// `m.key.verification.accept`
    KeyVerificationAccept(S::KeyVerificationAccept),
    /// `m.key.verification.cancel`
    KeyVerificationCancel(S::KeyVerificationCancel),
    /// `m.key.verification.key`
    KeyVerificationKey(S::KeyVerificationKey),
    /// `m.key.verification.mac`
    KeyVerificationMac(S::KeyVerificationMac),
    /// `m.key.verification.request`
    KeyVerificationRequest(S::KeyVerificationRequest),
    /// `m.key.verification.start`
    KeyVerificationStart(S::KeyVerificationStart),
    /// `m.presence`
    Presence(S::Presence),
    /// `m.push_rules`
    PushRules(S::PushRules),
    /// `m.receipt`
    Receipt(S::Receipt),
    /// `m.room.aliases`
    RoomAliases(S::RoomAliases),
    /// `m.room.avatar`
    RoomAvatar(S::RoomAvatar),
    /// `m.room.canonical_alias`
    RoomCanonicalAlias(S::RoomCanonicalAlias),
    /// `m.room.create`
    RoomCreate(S::RoomCreate),
    /// `m.room.encrypted`
    RoomEncrypted(S::RoomEncrypted),
    /// `m.room.encryption`
    RoomEncryption(S::RoomEncryption),
    /// `m.room.guest_access`
    RoomGuestAccess(S::RoomGuestAccess),
    /// `m.room.history_visibility`
    RoomHistoryVisibility(S::RoomHistoryVisibility),
    /// `m.room.join_rules`
    RoomJoinRules(S::RoomJoinRules),
    /// `m.room.member`
    RoomMember(S::RoomMember),
    /// `m.room.message`
    RoomMessage(S::RoomMessage),
    /// `m.room.message.feedback`
    RoomMessageFeedback(S::RoomMessageFeedback),
    /// `m.room.name`
    RoomName(S::RoomName),
    /// `m.room.pinned_events`
    RoomPinnedEvents(S::RoomPinnedEvents),
    /// `m.room.power_levels`
    RoomPowerLevels(S::RoomPowerLevels),
    /// `m.room.redaction`
    RoomRedaction(S::RoomRedaction),
    /// `m.room.server_acl`
    RoomServerAcl(S::RoomServerAcl),
    /// `m.room.third_party_invite`
    RoomThirdPartyInvite(S::RoomThirdPartyInvite),
    /// `m.room.tombstone`
    RoomTombstone(S::RoomTombstone),
    /// `m.room.topic`
    RoomTopic(S::RoomTopic),
    /// `m.room_key`
    RoomKey(S::RoomKey),
    /// `m.room_key_request`
    RoomKeyRequest(S::RoomKeyRequest),
    /// `m.sticker`
    Sticker(S::Sticker),
    /// `m.tag`
    Tag(S::Tag),
    /// `m.typing`
    Typing(S::Typing),
    /// Any event outside of a room, of a kind that the table does not hold.
    Custom(CustomEvent),
    /// Any room event of a kind that the table does not hold.
    CustomRoom(CustomRoomEvent),
    /// Any state event of a kind that the table does not hold.
    CustomState(CustomStateEvent),
}

impl<S: Schema> View for Event<S> {
    type V = EventView;

    open spec fn view(&self) -> EventView {
        match self {
            Event::CallAnswer(leaf) => EventView::Named {
                kind: Kind::CallAnswer,
                payload: leaf.rendered(),
            },
            Event::CallCandidates(leaf) => EventView::Named {
                kind: Kind::CallCandidates,
                payload: leaf.rendered(),
            },
            Event::CallHangup(leaf) => EventView::Named {
                kind: Kind::CallHangup,
                payload: leaf.rendered(),
            },
            Event::CallInvite(leaf) => EventView::Named {
                kind: Kind::CallInvite,
                payload: leaf.rendered(),
            },
            Event::Direct(leaf) => EventView::Named {
                kind: Kind::Direct,
                payload: leaf.rendered(),
            },
            Event::Dummy(leaf) => EventView::Named { kind: Kind::Dummy, payload: leaf.rendered() },
            Event::ForwardedRoomKey(leaf) => EventView::Named {
                kind: Kind::ForwardedRoomKey,
                payload: leaf.rendered(),
            },
            Event::FullyRead(leaf) => EventView::Named {
                kind: Kind::FullyRead,
                payload: leaf.rendered(),
            },
            Event::IgnoredUserList(leaf) => EventView::Named {
                kind: Kind::IgnoredUserList,
                payload: leaf.rendered(),
            },
            Event::KeyVerificationAccept(leaf) => EventView::Named {
                kind: Kind::KeyVerificationAccept,
                payload: leaf.rendered(),
            },
            Event::KeyVerificationCancel(leaf) => EventView::Named {
                kind: Kind::KeyVerificationCancel,
                payload: leaf.rendered(),
            },
            Event::KeyVerificationKey(leaf) => EventView::Named {
                kind: Kind::KeyVerificationKey,
                payload: leaf.rendered(),
            },
            Event::KeyVerificationMac(leaf) => EventView::Named {
                kind: Kind::KeyVerificationMac,
                payload: leaf.rendered(),
            },
            Event::KeyVerificationRequest(leaf) => EventView::Named {
                kind: Kind::KeyVerificationRequest,
                payload: leaf.rendered(),
            },
            Event::KeyVerificationStart(leaf) => EventView::Named {
                kind: Kind::KeyVerificationStart,
                payload: leaf.rendered(),
            },
            Event::Presence(leaf) => EventView::Named {
                kind: Kind::Presence,
                payload: leaf.rendered(),
            },
            Event::PushRules(leaf) => EventView::Named {
                kind: Kind::PushRules,
                payload: leaf.rendered(),
            },
            Event::Receipt(leaf) => EventView::Named {
                kind: Kind::Receipt,
                payload: leaf.rendered(),
            },
            Event::RoomAliases(leaf) => EventView::Named {
                kind: Kind::RoomAliases,
                payload: leaf.rendered(),
            },
            Event::RoomAvatar(leaf) => EventView::Named {
                kind: Kind::RoomAvatar,
                payload: leaf.rendered(),
            },
            Event::RoomCanonicalAlias(leaf) => EventView::Named {
                kind: Kind::RoomCanonicalAlias,
                payload: leaf.rendered(),
            },
            Event::RoomCreate(leaf) => EventView::Named {
                kind: Kind::RoomCreate,
                payload: leaf.rendered(),
            },
            Event::RoomEncrypted(leaf) => EventView::Named {
                kind: Kind::RoomEncrypted,
                payload: leaf.rendered(),
            },
            Event::RoomEncryption(leaf) => EventView::Named {
                kind: Kind::RoomEncryption,
                payload: leaf.rendered(),
            },
            Event::RoomGuestAccess(leaf) => EventView::Named {
                kind: Kind::RoomGuestAccess,
                payload: leaf.rendered(),
            },
            Event::RoomHistoryVisibility(leaf) => EventView::Named {
                kind: Kind::RoomHistoryVisibility,
                payload: leaf.rendered(),
            },
            Event::RoomJoinRules(leaf) => EventView::Named {
                kind: Kind::RoomJoinRules,
                payload: leaf.rendered(),
            },
            Event::RoomMember(leaf) => EventView::Named {
                kind: Kind::RoomMember,
                payload: leaf.rendered(),
            },
            Event::RoomMessage(leaf) => EventView::Named {
                kind: Kind::RoomMessage,
                payload: leaf.rendered(),
            },
            Event::RoomMessageFeedback(leaf) => EventView::Named {
                kind: Kind::RoomMessageFeedback,
                payload: leaf.rendered(),
            },
            Event::RoomName(leaf) => EventView::Named {
                kind: Kind::RoomName,
                payload: leaf.rendered(),
            },
            Event::RoomPinnedEvents(leaf) => EventView::Named {
                kind: Kind::RoomPinnedEvents,
                payload: leaf.rendered(),
            },
            Event::RoomPowerLevels(leaf) => EventView::Named {
                kind: Kind::RoomPowerLevels,
                payload: leaf.rendered(),
            },
            Event::RoomRedaction(leaf) => EventView::Named {
                kind: Kind::RoomRedaction,
                payload: leaf.rendered(),
            },
            Event::RoomServerAcl(leaf) => EventView::Named {
                kind: Kind::RoomServerAcl,
                payload: leaf.rendered(),
            },
            Event::RoomThirdPartyInvite(leaf) => EventView::Named {
                kind: Kind::RoomThirdPartyInvite,
                payload: leaf.rendered(),
            },
            Event::RoomTombstone(leaf) => EventView::Named {
                kind: Kind::RoomTombstone,
                payload: leaf.rendered(),
            },
            Event::RoomTopic(leaf) => EventView::Named {
                kind: Kind::RoomTopic,
                payload: leaf.rendered(),
            },
            Event::RoomKey(leaf) => EventView::Named {
                kind: Kind::RoomKey,
                payload: leaf.rendered(),
            },
            Event::RoomKeyRequest(leaf) => EventView::Named {
                kind: Kind::RoomKeyRequest,
                payload: leaf.rendered(),
            },
            Event::Sticker(leaf) => EventView::Named {
                kind: Kind::Sticker,
                payload: leaf.rendered(),
            },
            Event::Tag(leaf) => EventView::Named { kind: Kind::Tag, payload: leaf.rendered() },
            Event::Typing(leaf) => EventView::Named {
                kind: Kind::Typing,
                payload: leaf.rendered(),
            },
            Event::Custom(custom) => custom@,
            Event::CustomRoom(custom) => custom@,
            Event::CustomState(custom) => custom@,
        }
    }
}

impl<S: Schema> Event<S> {
    /// Converts a raw value into the variant that its discriminator selects.
    ///
    /// Where the discriminator selects a variant of a kind of the table, the
    /// payload is parsed as the schema says for that kind; a payload of
    /// another shape fails the conversion, and the failure holds the message
    /// of the shape error and `raw` as it came. Any other discriminator gives
    /// the custom variant of the raw value's tier and cannot fail.
    pub fn try_from_raw(raw: Raw) -> (outcome: Result<Self, (String, Raw)>)
        ensures
            match converted::<S>(Tier::Basic, raw@) {
                Ok(view) => outcome matches Ok(event) && event@ == view,
                Err(message) => outcome matches Err(failure) && failure.0@ == message
                    && failure.1 == raw,
            },
    {
        match Kind::from_name(raw.kind.as_str()) {
            Some(Kind::CallAnswer) => {
                match convert_variant(S::CallAnswer::parse_from(&raw.payload), raw) {
                    Ok(leaf) => Ok(Event::CallAnswer(leaf)),
                    Err(failure) => Err(failure),
                }
            },
            Some(Kind::CallCandidates) => {
                match convert_variant(S::CallCandidates::parse_from(&raw.payload), raw) {
                    Ok(leaf) => Ok(Event::CallCandidates(leaf)),
                    Err(failure) => Err(failure),
                }
            },
            Some(Kind::CallHangup) => {
                match convert_variant(S::CallHangup::parse_from(&raw.payload), raw) {
                    Ok(leaf) => Ok(Event::CallHangup(leaf)),
                    Err(failure) => Err(failure),
                }
            },
            Some(Kind::CallInvite) => {
                match convert_variant(S::CallInvite::parse_from(&raw.payload), raw) {
                    Ok(leaf) => Ok(Event::CallInvite(leaf)),
                    Err(failure) => Err(failure),
                }
            },
            Some(Kind::Direct) => {
                match convert_variant(S::Direct::parse_from(&raw.payload), raw) {
                    Ok(leaf) => Ok(Event::Direct(leaf)),
                    Err(failure) => Err(failure),
                }
            },
            Some(Kind::Dummy) => {
                match convert_variant(S::Dummy::parse_from(&raw.payload), raw) {
                    Ok(leaf) => Ok(Event::Dummy(leaf)),
                    Err(failure) => Err(failure),
                }
            },
            Some(Kind::ForwardedRoomKey) => {
                match convert_variant(S::ForwardedRoomKey::parse_from(&raw.payload), raw) {
                    Ok(leaf) => Ok(Event::ForwardedRoomKey(leaf)),
                    Err(failure) => Err(failure),
                }
            },
            Some(Kind::FullyRead) => {
                match convert_variant(S::FullyRead::parse_from(&raw.payload), raw) {
                    Ok(leaf) => Ok(Event::FullyRead(leaf)),
                    Err(failure) => Err(failure),
                }
            },
            Some(Kind::IgnoredUserList) => {
                match convert_variant(S::IgnoredUserList::parse_from(&raw.payload), raw) {
                    Ok(leaf) => Ok(Event::IgnoredUserList(leaf)),
                    Err(failure) => Err(failure),
                }
            },
            Some(Kind::KeyVerificationAccept) => {
                match convert_variant(S::KeyVerificationAccept::parse_from(&raw.payload), raw) {
                    Ok(leaf) => Ok(Event::KeyVerificationAccept(leaf)),
                    Err(failure) => Err(failure),
                }
            },
            Some(Kind::KeyVerificationCancel) => {
                match convert_variant(S::KeyVerificationCancel::parse_from(&raw.payload), raw) {
                    Ok(leaf) => Ok(Event::KeyVerificationCancel(leaf)),
                    Err(failure) => Err(failure),
                }
            },
            Some(Kind::KeyVerificationKey) => {
                match convert_variant(S::KeyVerificationKey::parse_from(&raw.payload), raw) {
                    Ok(leaf) => Ok(Event::KeyVerificationKey(leaf)),
                    Err(failure) => Err(failure),
                }
            },
            Some(Kind::KeyVerificationMac) => {
                match convert_variant(S::KeyVerificationMac::parse_from(&raw.payload), raw) {
                    Ok(leaf) => Ok(Event::KeyVerificationMac(leaf)),
                    Err(failure) => Err(failure),
                }
            },
            Some(Kind::KeyVerificationRequest) => {
                match convert_variant(S::KeyVerificationRequest::parse_from(&raw.payload), raw) {
                    Ok(leaf) => Ok(Event::KeyVerificationRequest(leaf)),
                    Err(failure) => Err(failure),
                }
            },
            Some(Kind::KeyVerificationStart) => {
                match convert_variant(S::KeyVerificationStart::parse_from(&raw.payload), raw) {
                    Ok(leaf) => Ok(Event::KeyVerificationStart(leaf)),
                    Err(failure) => Err(failure),
                }
            },
            Some(Kind::Presence) => {
                match convert_variant(S::Presence::parse_from(&raw.payload), raw) {
                    Ok(leaf) => Ok(Event::Presence(leaf)),
                    Err(failure) => Err(failure),
                }
            },
            Some(Kind::PushRules) => {
                match convert_variant(S::PushRules::parse_from(&raw.payload), raw) {
                    Ok(leaf) => Ok(Event::PushRules(leaf)),
                    Err(failure) => Err(failure),
                }
            },
            Some(Kind::Receipt) => {
                match convert_variant(S::Receipt::parse_from(&raw.payload), raw) {
                    Ok(leaf) => Ok(Event::Receipt(leaf)),
                    Err(failure) => Err(failure),
                }
            },
            Some(Kind::RoomAliases) => {
                match convert_variant(S::RoomAliases::parse_from(&raw.payload), raw) {
                    Ok(leaf) => Ok(Event::RoomAliases(leaf)),
                    Err(failure) => Err(failure),
                }
            },
            Some(Kind::RoomAvatar) => {
                match convert_variant(S::RoomAvatar::parse_from(&raw.payload), raw) {
                    Ok(leaf) => Ok(Event::RoomAvatar(leaf)),
                    Err(failure) => Err(failure),
                }
            },
            Some(Kind::RoomCanonicalAlias) => {
                match convert_variant(S::RoomCanonicalAlias::parse_from(&raw.payload), raw) {
                    Ok(leaf) => Ok(Event::RoomCanonicalAlias(leaf)),
                    Err(failure) => Err(failure),
                }
            },
            Some(Kind::RoomCreate) => {
                match convert_variant(S::RoomCreate::parse_from(&raw.payload), raw) {
                    Ok(leaf) => Ok(Event::RoomCreate(leaf)),
                    Err(failure) => Err(failure),
                }
            },
            Some(Kind::RoomEncrypted) => {
                match convert_variant(S::RoomEncrypted::parse_from(&raw.payload), raw) {
                    Ok(leaf) => Ok(Event::RoomEncrypted(leaf)),
                    Err(failure) => Err(failure),
                }
            },
            Some(Kind::RoomEncryption) => {
                match convert_variant(S::RoomEncryption::parse_from(&raw.payload), raw) {
                    Ok(leaf) => Ok(Event::RoomEncryption(leaf)),
                    Err(failure) => Err(failure),
                }
            },
            Some(Kind::RoomGuestAccess) => {
                match convert_variant(S::RoomGuestAccess::parse_from(&raw.payload), raw) {
                    Ok(leaf) => Ok(Event::RoomGuestAccess(leaf)),
                    Err(failure) => Err(failure),
                }
            },
            Some(Kind::RoomHistoryVisibility) => {
                match convert_variant(S::RoomHistoryVisibility::parse_from(&raw.payload), raw) {
                    Ok(leaf) => Ok(Event::RoomHistoryVisibility(leaf)),
                    Err(failure) => Err(failure),
                }
            },
            Some(Kind::RoomJoinRules) => {
                match convert_variant(S::RoomJoinRules::parse_from(&raw.payload), raw) {
                    Ok(leaf) => Ok(Event::RoomJoinRules(leaf)),
                    Err(failure) => Err(failure),
                }
            },
            Some(Kind::RoomMember) => {
                match convert_variant(S::RoomMember::parse_from(&raw.payload), raw) {
                    Ok(leaf) => Ok(Event::RoomMember(leaf)),
                    Err(failure) => Err(failure),
                }
            },
            Some(Kind::RoomMessage) => {
                match convert_variant(S::RoomMessage::parse_from(&raw.payload), raw) {
                    Ok(leaf) => Ok(Event::RoomMessage(leaf)),
                    Err(failure) => Err(failure),
                }
            },
            Some(Kind::RoomMessageFeedback) => {
                match convert_variant(S::RoomMessageFeedback::parse_from(&raw.payload), raw) {
                    Ok(leaf) => Ok(Event::RoomMessageFeedback(leaf)),
                    Err(failure) => Err(failure),
                }
            },
            Some(Kind::RoomName) => {
                match convert_variant(S::RoomName::parse_from(&raw.payload), raw) {
                    Ok(leaf) => Ok(Event::RoomName(leaf)),
                    Err(failure) => Err(failure),
                }
            },
            Some(Kind::RoomPinnedEvents) => {
                match convert_variant(S::RoomPinnedEvents::parse_from(&raw.payload), raw) {
                    Ok(leaf) => Ok(Event::RoomPinnedEvents(leaf)),
                    Err(failure) => Err(failure),
                }
            },
            Some(Kind::RoomPowerLevels) => {
                match convert_variant(S::RoomPowerLevels::parse_from(&raw.payload), raw) {
                    Ok(leaf) => Ok(Event::RoomPowerLevels(leaf)),
                    Err(failure) => Err(failure),
                }
            },
            Some(Kind::RoomRedaction) => {
                match convert_variant(S::RoomRedaction::parse_from(&raw.payload), raw) {
                    Ok(leaf) => Ok(Event::RoomRedaction(leaf)),
                    Err(failure) => Err(failure),
                }
            },
            Some(Kind::RoomServerAcl) => {
                match convert_variant(S::RoomServerAcl::parse_from(&raw.payload), raw) {
                    Ok(leaf) => Ok(Event::RoomServerAcl(leaf)),
                    Err(failure) => Err(failure),
                }
            },
            Some(Kind::RoomThirdPartyInvite) => {
                match convert_variant(S::RoomThirdPartyInvite::parse_from(&raw.payload), raw) {
                    Ok(leaf) => Ok(Event::RoomThirdPartyInvite(leaf)),
                    Err(failure) => Err(failure),
                }
            },
            Some(Kind::RoomTombstone) => {
                match convert_variant(S::RoomTombstone::parse_from(&raw.payload), raw) {
                    Ok(leaf) => Ok(Event::RoomTombstone(leaf)),
                    Err(failure) => Err(failure),
                }
            },
            Some(Kind::RoomTopic) => {
                match convert_variant(S::RoomTopic::parse_from(&raw.payload), raw) {
                    Ok(leaf) => Ok(Event::RoomTopic(leaf)),
                    Err(failure) => Err(failure),
                }
            },
            Some(Kind::RoomKey) => {
                match convert_variant(S::RoomKey::parse_from(&raw.payload), raw) {
                    Ok(leaf) => Ok(Event::RoomKey(leaf)),
                    Err(failure) => Err(failure),
                }
            },
            Some(Kind::RoomKeyRequest) => {
                match convert_variant(S::RoomKeyRequest::parse_from(&raw.payload), raw) {
                    Ok(leaf) => Ok(Event::RoomKeyRequest(leaf)),
                    Err(failure) => Err(failure),
                }
            },
            Some(Kind::Sticker) => {
                match convert_variant(S::Sticker::parse_from(&raw.payload), raw) {
                    Ok(leaf) => Ok(Event::Sticker(leaf)),
                    Err(failure) => Err(failure),
                }
            },
            Some(Kind::Tag) => {
                match convert_variant(S::Tag::parse_from(&raw.payload), raw) {
                    Ok(leaf) => Ok(Event::Tag(leaf)),
                    Err(failure) => Err(failure),
                }
            },
            Some(Kind::Typing) => {
                match convert_variant(S::Typing::parse_from(&raw.payload), raw) {
                    Ok(leaf) => Ok(Event::Typing(leaf)),
                    Err(failure) => Err(failure),
                }
            },
            None => match raw.tier {
                Tier::Basic => Ok(Event::Custom(CustomEvent::from_raw(raw))),
                Tier::Room => Ok(Event::CustomRoom(CustomRoomEvent::from_raw(raw))),
                Tier::State => Ok(Event::CustomState(CustomStateEvent::from_raw(raw))),
            },
        }
    }

    /// Writes the event back to its raw form.
    ///
    /// A variant of a kind of the table gives the discriminator of the kind
    /// and the payload that its leaf value renders to. A custom variant gives
    /// the discriminator and the payload that it stored.
    pub fn serialize(&self) -> (raw: Raw)
        ensures
            raw@ == self@.wire(),
    {
        match self {
            Event::CallAnswer(leaf) => Raw::named(Kind::CallAnswer, leaf.render_to()),
            Event::CallCandidates(leaf) => Raw::named(Kind::CallCandidates, leaf.render_to()),
            Event::CallHangup(leaf) => Raw::named(Kind::CallHangup, leaf.render_to()),
            Event::CallInvite(leaf) => Raw::named(Kind::CallInvite, leaf.render_to()),
            Event::Direct(leaf) => Raw::named(Kind::Direct, leaf.render_to()),
            Event::Dummy(leaf) => Raw::named(Kind::Dummy, leaf.render_to()),
            Event::ForwardedRoomKey(leaf) => Raw::named(Kind::ForwardedRoomKey, leaf.render_to()),
            Event::FullyRead(leaf) => Raw::named(Kind::FullyRead, leaf.render_to()),
            Event::IgnoredUserList(leaf) => Raw::named(Kind::IgnoredUserList, leaf.render_to()),
            Event::KeyVerificationAccept(leaf) => {
                Raw::named(Kind::KeyVerificationAccept, leaf.render_to())
            },
            Event::KeyVerificationCancel(leaf) => {
                Raw::named(Kind::KeyVerificationCancel, leaf.render_to())
            },
            Event::KeyVerificationKey(leaf) => {
                Raw::named(Kind::KeyVerificationKey, leaf.render_to())
            },
            Event::KeyVerificationMac(leaf) => {
                Raw::named(Kind::KeyVerificationMac, leaf.render_to())
            },
            Event::KeyVerificationRequest(leaf) => {
                Raw::named(Kind::KeyVerificationRequest, leaf.render_to())
            },
            Event::KeyVerificationStart(leaf) => {
                Raw::named(Kind::KeyVerificationStart, leaf.render_to())
            },
            Event::Presence(leaf) => Raw::named(Kind::Presence, leaf.render_to()),
            Event::PushRules(leaf) => Raw::named(Kind::PushRules, leaf.render_to()),
            Event::Receipt(leaf) => Raw::named(Kind::Receipt, leaf.render_to()),
            Event::RoomAliases(leaf) => Raw::named(Kind::RoomAliases, leaf.render_to()),
            Event::RoomAvatar(leaf) => Raw::named(Kind::RoomAvatar, leaf.render_to()),
            Event::RoomCanonicalAlias(leaf) => {
                Raw::named(Kind::RoomCanonicalAlias, leaf.render_to())
            },
            Event::RoomCreate(leaf) => Raw::named(Kind::RoomCreate, leaf.render_to()),
            Event::RoomEncrypted(leaf) => Raw::named(Kind::RoomEncrypted, leaf.render_to()),
            Event::RoomEncryption(leaf) => Raw::named(Kind::RoomEncryption, leaf.render_to()),
            Event::RoomGuestAccess(leaf) => Raw::named(Kind::RoomGuestAccess, leaf.render_to()),
            Event::RoomHistoryVisibility(leaf) => {
                Raw::named(Kind::RoomHistoryVisibility, leaf.render_to())
            },
            Event::RoomJoinRules(leaf) => Raw::named(Kind::RoomJoinRules, leaf.render_to()),
            Event::RoomMember(leaf) => Raw::named(Kind::RoomMember, leaf.render_to()),
            Event::RoomMessage(leaf) => Raw::named(Kind::RoomMessage, leaf.render_to()),
            Event::RoomMessageFeedback(leaf) => {
                Raw::named(Kind::RoomMessageFeedback, leaf.render_to())
            },
            Event::RoomName(leaf) => Raw::named(Kind::RoomName, leaf.render_to()),
            Event::RoomPinnedEvents(leaf) => Raw::named(Kind::RoomPinnedEvents, leaf.render_to()),
            Event::RoomPowerLevels(leaf) => Raw::named(Kind::RoomPowerLevels, leaf.render_to()),
            Event::RoomRedaction(leaf) => Raw::named(Kind::RoomRedaction, leaf.render_to()),
            Event::RoomServerAcl(leaf) => Raw::named(Kind::RoomServerAcl, leaf.render_to()),
            Event::RoomThirdPartyInvite(leaf) => {
                Raw::named(Kind::RoomThirdPartyInvite, leaf.render_to())
            },
            Event::RoomTombstone(leaf) => Raw::named(Kind::RoomTombstone, leaf.render_to()),
            Event::RoomTopic(leaf) => Raw::named(Kind::RoomTopic, leaf.render_to()),
            Event::RoomKey(leaf) => Raw::named(Kind::RoomKey, leaf.render_to()),
            Event::RoomKeyRequest(leaf) => Raw::named(Kind::RoomKeyRequest, leaf.render_to()),
            Event::Sticker(leaf) => Raw::named(Kind::Sticker, leaf.render_to()),
            Event::Tag(leaf) => Raw::named(Kind::Tag, leaf.render_to()),
            Event::Typing(leaf) => Raw::named(Kind::Typing, leaf.render_to()),
            Event::Custom(custom) => custom.to_raw(),
            Event::CustomRoom(custom) => custom.to_raw(),
            Event::CustomState(custom) => custom.to_raw(),
        }
    }
}

/// Widening: every room event is an event, of the same variant and with the same
/// leaf value.
impl<S: Schema> From<RoomEvent<S>> for Event<S> {
    fn from(event: RoomEvent<S>) -> (wider: Self)
        ensures
            wider@ == event@,
    {
        match event {
            RoomEvent::CallAnswer(leaf) => Event::CallAnswer(leaf),
            RoomEvent::CallCandidates(leaf) => Event::CallCandidates(leaf),
            RoomEvent::CallHangup(leaf) => Event::CallHangup(leaf),
            RoomEvent::CallInvite(leaf) => Event::CallInvite(leaf),
            RoomEvent::RoomAliases(leaf) => Event::RoomAliases(leaf),
            RoomEvent::RoomAvatar(leaf) => Event::RoomAvatar(leaf),
            RoomEvent::RoomCanonicalAlias(leaf) => Event::RoomCanonicalAlias(leaf),
            RoomEvent::RoomCreate(leaf) => Event::RoomCreate(leaf),
            RoomEvent::RoomEncrypted(leaf) => Event::RoomEncrypted(leaf),
            RoomEvent::RoomEncryption(leaf) => Event::RoomEncryption(leaf),
            RoomEvent::RoomGuestAccess(leaf) => Event::RoomGuestAccess(leaf),
            RoomEvent::RoomHistoryVisibility(leaf) => Event::RoomHistoryVisibility(leaf),
            RoomEvent::RoomJoinRules(leaf) => Event::RoomJoinRules(leaf),
            RoomEvent::RoomMember(leaf) => Event::RoomMember(leaf),
            RoomEvent::RoomMessage(leaf) => Event::RoomMessage(leaf),
            RoomEvent::RoomMessageFeedback(leaf) => Event::RoomMessageFeedback(leaf),
            RoomEvent::RoomName(leaf) => Event::RoomName(leaf),
            RoomEvent::RoomPinnedEvents(leaf) => Event::RoomPinnedEvents(leaf),
            RoomEvent::RoomPowerLevels(leaf) => Event::RoomPowerLevels(leaf),
            RoomEvent::RoomRedaction(leaf) => Event::RoomRedaction(leaf),
            RoomEvent::RoomServerAcl(leaf) => Event::RoomServerAcl(leaf),
            RoomEvent::RoomThirdPartyInvite(leaf) => Event::RoomThirdPartyInvite(leaf),
            RoomEvent::RoomTombstone(leaf) => Event::RoomTombstone(leaf),
            RoomEvent::RoomTopic(leaf) => Event::RoomTopic(leaf),
            RoomEvent::Sticker(leaf) => Event::Sticker(leaf),
            RoomEvent::CustomRoom(custom) => Event::CustomRoom(custom),
            RoomEvent::CustomState(custom) => Event::CustomState(custom),
        }
    }
}

impl<S: Schema> FromSpecImpl<RoomEvent<S>> for Event<S> {
    open spec fn obeys_from_spec() -> bool {
        true
    }

    open spec fn from_spec(event: RoomEvent<S>) -> Self {
        match event {
            RoomEvent::CallAnswer(leaf) => Event::CallAnswer(leaf),
            RoomEvent::CallCandidates(leaf) => Event::CallCandidates(leaf),
            RoomEvent::CallHangup(leaf) => Event::CallHangup(leaf),
            RoomEvent::CallInvite(leaf) => Event::CallInvite(leaf),
            RoomEvent::RoomAliases(leaf) => Event::RoomAliases(leaf),
            RoomEvent::RoomAvatar(leaf) => Event::RoomAvatar(leaf),
            RoomEvent::RoomCanonicalAlias(leaf) => Event::RoomCanonicalAlias(leaf),
            RoomEvent::RoomCreate(leaf) => Event::RoomCreate(leaf),
            RoomEvent::RoomEncrypted(leaf) => Event::RoomEncrypted(leaf),
            RoomEvent::RoomEncryption(leaf) => Event::RoomEncryption(leaf),
            RoomEvent::RoomGuestAccess(leaf) => Event::RoomGuestAccess(leaf),
            RoomEvent::RoomHistoryVisibility(leaf) => Event::RoomHistoryVisibility(leaf),
            RoomEvent::RoomJoinRules(leaf) => Event::RoomJoinRules(leaf),
            RoomEvent::RoomMember(leaf) => Event::RoomMember(leaf),
            RoomEvent::RoomMessage(leaf) => Event::RoomMessage(leaf),
            RoomEvent::RoomMessageFeedback(leaf) => Event::RoomMessageFeedback(leaf),
            RoomEvent::RoomName(leaf) => Event::RoomName(leaf),
            RoomEvent::RoomPinnedEvents(leaf) => Event::RoomPinnedEvents(leaf),
            RoomEvent::RoomPowerLevels(leaf) => Event::RoomPowerLevels(leaf),
            RoomEvent::RoomRedaction(leaf) => Event::RoomRedaction(leaf),
            RoomEvent::RoomServerAcl(leaf) => Event::RoomServerAcl(leaf),
            RoomEvent::RoomThirdPartyInvite(leaf) => Event::RoomThirdPartyInvite(leaf),
            RoomEvent::RoomTombstone(leaf) => Event::RoomTombstone(leaf),
            RoomEvent::RoomTopic(leaf) => Event::RoomTopic(leaf),
            RoomEvent::Sticker(leaf) => Event::Sticker(leaf),
            RoomEvent::CustomRoom(custom) => Event::CustomRoom(custom),
            RoomEvent::CustomState(custom) => Event::CustomState(custom),
        }
    }
}

/// Widening: every state event is an event, of the same variant and with the same
/// leaf value.
impl<S: Schema> From<StateEvent<S>> for Event<S> {
    fn from(event: StateEvent<S>) -> (wider: Self)
        ensures
            wider@ == event@,
    {
        match event {
            StateEvent::RoomAliases(leaf) => Event::RoomAliases(leaf),
            StateEvent::RoomAvatar(leaf) => Event::RoomAvatar(leaf),
            StateEvent::RoomCanonicalAlias(leaf) => Event::RoomCanonicalAlias(leaf),
            StateEvent::RoomCreate(leaf) => Event::RoomCreate(leaf),
            StateEvent::RoomEncryption(leaf) => Event::RoomEncryption(leaf),
            StateEvent::RoomGuestAccess(leaf) => Event::RoomGuestAccess(leaf),
            StateEvent::RoomHistoryVisibility(leaf) => Event::RoomHistoryVisibility(leaf),
            StateEvent::RoomJoinRules(leaf) => Event::RoomJoinRules(leaf),
            StateEvent::RoomMember(leaf) => Event::RoomMember(leaf),
            StateEvent::RoomName(leaf) => Event::RoomName(leaf),
            StateEvent::RoomPinnedEvents(leaf) => Event::RoomPinnedEvents(leaf),
            StateEvent::RoomPowerLevels(leaf) => Event::RoomPowerLevels(leaf),
            StateEvent::RoomServerAcl(leaf) => Event::RoomServerAcl(leaf),
            StateEvent::RoomThirdPartyInvite(leaf) => Event::RoomThirdPartyInvite(leaf),
            StateEvent::RoomTombstone(leaf) => Event::RoomTombstone(leaf),
            StateEvent::RoomTopic(leaf) => Event::RoomTopic(leaf),
            StateEvent::CustomState(custom) => Event::CustomState(custom),
        }
    }
}

impl<S: Schema> FromSpecImpl<StateEvent<S>> for Event<S> {
    open spec fn obeys_from_spec() -> bool {
        true
    }

    open spec fn from_spec(event: StateEvent<S>) -> Self {
        match event {
            StateEvent::RoomAliases(leaf) => Event::RoomAliases(leaf),
            StateEvent::RoomAvatar(leaf) => Event::RoomAvatar(leaf),
            StateEvent::RoomCanonicalAlias(leaf) => Event::RoomCanonicalAlias(leaf),
            StateEvent::RoomCreate(leaf) => Event::RoomCreate(leaf),
            StateEvent::RoomEncryption(leaf) => Event::RoomEncryption(leaf),
            StateEvent::RoomGuestAccess(leaf) => Event::RoomGuestAccess(leaf),
            StateEvent::RoomHistoryVisibility(leaf) => Event::RoomHistoryVisibility(leaf),
            StateEvent::RoomJoinRules(leaf) => Event::RoomJoinRules(leaf),
            StateEvent::RoomMember(leaf) => Event::RoomMember(leaf),
            StateEvent::RoomName(leaf) => Event::RoomName(leaf),
            StateEvent::RoomPinnedEvents(leaf) => Event::RoomPinnedEvents(leaf),
            StateEvent::RoomPowerLevels(leaf) => Event::RoomPowerLevels(leaf),
            StateEvent::RoomServerAcl(leaf) => Event::RoomServerAcl(leaf),
            StateEvent::RoomThirdPartyInvite(leaf) => Event::RoomThirdPartyInvite(leaf),
            StateEvent::RoomTombstone(leaf) => Event::RoomTombstone(leaf),
            StateEvent::RoomTopic(leaf) => Event::RoomTopic(leaf),
            StateEvent::CustomState(custom) => Event::CustomState(custom),
        }
    }
}

impl<S: Schema> From<CustomEvent> for Event<S> {
    fn from(custom: CustomEvent) -> (event: Self)
        ensures
            event@ == custom@,
    {
        Event::Custom(custom)
    }
}

impl<S: Schema> FromSpecImpl<CustomEvent> for Event<S> {
    open spec fn obeys_from_spec() -> bool {
        true
    }

    open spec fn from_spec(custom: CustomEvent) -> Self {
        Event::Custom(custom)
    }
}

impl<S: Schema> From<CustomRoomEvent> for Event<S> {
    fn from(custom: CustomRoomEvent) -> (event: Self)
        ensures
            event@ == custom@,
    {
        Event::CustomRoom(custom)
    }
}

impl<S: Schema> FromSpecImpl<CustomRoomEvent> for Event<S> {
    open spec fn obeys_from_spec() -> bool {
        true
    }

    open spec fn from_spec(custom: CustomRoomEvent) -> Self {
        Event::CustomRoom(custom)
    }
}

impl<S: Schema> From<CustomStateEvent> for Event<S> {
    fn from(custom: CustomStateEvent) -> (event: Self)
        ensures
            event@ == custom@,
    {
        Event::CustomState(custom)
    }
}

impl<S: Schema> FromSpecImpl<CustomStateEvent> for Event<S> {
    open spec fn obeys_from_spec() -> bool {
        true
    }

    open spec fn from_spec(custom: CustomStateEvent) -> Self {
        Event::CustomState(custom)
    }
}

} // verus!
