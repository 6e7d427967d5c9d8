//! The payload type of each event kind.

use crate::kind::Kind;
use crate::leaf::{LeafPayload, Verbatim};
use vstd::prelude::*;

verus! {

/// Names the payload type of each kind of the table.
///
/// The three collections take the payload type of a kind from the same
/// schema, so a kind has one payload type wherever it occurs.
pub trait Schema {
    /// The payload of `m.call.answer`.
    type CallAnswer: LeafPayload;

    /// The payload of `m.call.candidates`.
    type CallCandidates: LeafPayload;

    /// The payload of `m.call.hangup`.
    type CallHangup: LeafPayload;

    /// The payload of `m.call.invite`.
    type CallInvite: LeafPayload;

    /// The payload of `m.direct`.
    type Direct: LeafPayload;

    /// The payload of `m.dummy`.
    type Dummy: LeafPayload;

    /// The payload of `m.forwarded_room_key`.
    type ForwardedRoomKey: LeafPayload;

    /// The payload of `m.fully_read`.
    type FullyRead: LeafPayload;

    /// The payload of `m.ignored_user_list`.
    type IgnoredUserList: LeafPayload;

    /// The payload of `m.key.verification.accept`.
    type KeyVerificationAccept: LeafPayload;

    /// The payload of `m.key.verification.cancel`.
    type KeyVerificationCancel: LeafPayload;

    /// The payload of `m.key.verification.key`.
    type KeyVerificationKey: LeafPayload;

    /// The payload of `m.key.verification.mac`.
    type KeyVerificationMac: LeafPayload;

    /// The payload of `m.key.verification.request`.
    type KeyVerificationRequest: LeafPayload;

    /// The payload of `m.key.verification.start`.
    type KeyVerificationStart: LeafPayload;

    /// The payload of `m.presence`.
    type Presence: LeafPayload;

    /// The payload of `m.push_rules`.
    type PushRules: LeafPayload;

    /// The payload of `m.receipt`.
    type Receipt: LeafPayload;

    /// The payload of `m.room.aliases`.
    type RoomAliases: LeafPayload;

    /// The payload of `m.room.avatar`.
    type RoomAvatar: LeafPayload;

    /// The payload of `m.room.canonical_alias`.
    type RoomCanonicalAlias: LeafPayload;

    /// The payload of `m.room.create`.
    type RoomCreate: LeafPayload;

    /// The payload of `m.room.encrypted`.
    type RoomEncrypted: LeafPayload;

    /// The payload of `m.room.encryption`.
    type RoomEncryption: LeafPayload;

    /// The payload of `m.room.guest_access`.
    type RoomGuestAccess: LeafPayload;

    /// The payload of `m.room.history_visibility`.
    type RoomHistoryVisibility: LeafPayload;

    /// The payload of `m.room.join_rules`.
    type RoomJoinRules: LeafPayload;

    /// The payload of `m.room.member`.
    type RoomMember: LeafPayload;

    /// The payload of `m.room.message`.
    type RoomMessage: LeafPayload;

    /// The payload of `m.room.message.feedback`.
    type RoomMessageFeedback: LeafPayload;

    /// The payload of `m.room.name`.
    type RoomName: LeafPayload;

    /// The payload of `m.room.pinned_events`.
    type RoomPinnedEvents: LeafPayload;

    /// The payload of `m.room.power_levels`.
    type RoomPowerLevels: LeafPayload;

    /// The payload of `m.room.redaction`.
    type RoomRedaction: LeafPayload;

    /// The payload of `m.room.server_acl`.
    type RoomServerAcl: LeafPayload;

    /// The payload of `m.room.third_party_invite`.
    type RoomThirdPartyInvite: LeafPayload;

    /// The payload of `m.room.tombstone`.
    type RoomTombstone: LeafPayload;

    /// The payload of `m.room.topic`.
    type RoomTopic: LeafPayload;

    /// The payload of `m.room_key`.
    type RoomKey: LeafPayload;

    /// The payload of `m.room_key_request`.
    type RoomKeyRequest: LeafPayload;

    /// The payload of `m.sticker`.
    type Sticker: LeafPayload;

    /// The payload of `m.tag`.
    type Tag: LeafPayload;

    /// The payload of `m.typing`.
    type Typing: LeafPayload;
}

/// What parsing makes of `payload` under the payload type that the schema
/// names for `kind`.
pub open spec fn parsed_as<S: Schema>(kind: Kind, payload: Seq<u8>) -> Result<Seq<u8>, Seq<char>> {
    match kind {
        Kind::CallAnswer => S::CallAnswer::parsed(payload),
        Kind::CallCandidates => S::CallCandidates::parsed(payload),
        Kind::CallHangup => S::CallHangup::parsed(payload),
        Kind::CallInvite => S::CallInvite::parsed(payload),
        Kind::Direct => S::Direct::parsed(payload),
        Kind::Dummy => S::Dummy::parsed(payload),
        Kind::ForwardedRoomKey => S::ForwardedRoomKey::parsed(payload),
        Kind::FullyRead => S::FullyRead::parsed(payload),
        Kind::IgnoredUserList => S::IgnoredUserList::parsed(payload),
        Kind::KeyVerificationAccept => S::KeyVerificationAccept::parsed(payload),
        Kind::KeyVerificationCancel => S::KeyVerificationCancel::parsed(payload),
        Kind::KeyVerificationKey => S::KeyVerificationKey::parsed(payload),
        Kind::KeyVerificationMac => S::KeyVerificationMac::parsed(payload),
        Kind::KeyVerificationRequest => S::KeyVerificationRequest::parsed(payload),
        Kind::KeyVerificationStart => S::KeyVerificationStart::parsed(payload),
        Kind::Presence => S::Presence::parsed(payload),
        Kind::PushRules => S::PushRules::parsed(payload),
        Kind::Receipt => S::Receipt::parsed(payload),
        Kind::RoomAliases => S::RoomAliases::parsed(payload),
        Kind::RoomAvatar => S::RoomAvatar::parsed(payload),
        Kind::RoomCanonicalAlias => S::RoomCanonicalAlias::parsed(payload),
        Kind::RoomCreate => S::RoomCreate::parsed(payload),
        Kind::RoomEncrypted => S::RoomEncrypted::parsed(payload),
        Kind::RoomEncryption => S::RoomEncryption::parsed(payload),
        Kind::RoomGuestAccess => S::RoomGuestAccess::parsed(payload),
        Kind::RoomHistoryVisibility => S::RoomHistoryVisibility::parsed(payload),
        Kind::RoomJoinRules => S::RoomJoinRules::parsed(payload),
        Kind::RoomMember => S::RoomMember::parsed(payload),
        Kind::RoomMessage => S::RoomMessage::parsed(payload),
        Kind::RoomMessageFeedback => S::RoomMessageFeedback::parsed(payload),
        Kind::RoomName => S::RoomName::parsed(payload),
        Kind::RoomPinnedEvents => S::RoomPinnedEvents::parsed(payload),
        Kind::RoomPowerLevels => S::RoomPowerLevels::parsed(payload),
        Kind::RoomRedaction => S::RoomRedaction::parsed(payload),
        Kind::RoomServerAcl => S::RoomServerAcl::parsed(payload),
        Kind::RoomThirdPartyInvite => S::RoomThirdPartyInvite::parsed(payload),
        Kind::RoomTombstone => S::RoomTombstone::parsed(payload),
        Kind::RoomTopic => S::RoomTopic::parsed(payload),
        Kind::RoomKey => S::RoomKey::parsed(payload),
        Kind::RoomKeyRequest => S::RoomKeyRequest::parsed(payload),
        Kind::Sticker => S::Sticker::parsed(payload),
        Kind::Tag => S::Tag::parsed(payload),
        Kind::Typing => S::Typing::parsed(payload),
    }
}

/// The schema that checks no shape: every payload is kept as it came.
#[derive(Clone, Copy, Debug, PartialEq, Eq)]
pub struct Unchecked;

impl Schema for Unchecked {
    type CallAnswer = Verbatim;

    type CallCandidates = Verbatim;

    type CallHangup = Verbatim;

    type CallInvite = Verbatim;

    type Direct = Verbatim;

    type Dummy = Verbatim;

    type ForwardedRoomKey = Verbatim;

    type FullyRead = Verbatim;

    type IgnoredUserList = Verbatim;

    type KeyVerificationAccept = Verbatim;

    type KeyVerificationCancel = Verbatim;

    type KeyVerificationKey = Verbatim;

    type KeyVerificationMac = Verbatim;

    type KeyVerificationRequest = Verbatim;

    type KeyVerificationStart = Verbatim;

    type Presence = Verbatim;

    type PushRules = Verbatim;

    type Receipt = Verbatim;

    type RoomAliases = Verbatim;

    type RoomAvatar = Verbatim;

    type RoomCanonicalAlias = Verbatim;

    type RoomCreate = Verbatim;

    type RoomEncrypted = Verbatim;

    type RoomEncryption = Verbatim;

    type RoomGuestAccess = Verbatim;

    type RoomHistoryVisibility = Verbatim;

    type RoomJoinRules = Verbatim;

    type RoomMember = Verbatim;

    type RoomMessage = Verbatim;

    type RoomMessageFeedback = Verbatim;

    type RoomName = Verbatim;

    type RoomPinnedEvents = Verbatim;

    type RoomPowerLevels = Verbatim;

    type RoomRedaction = Verbatim;

    type RoomServerAcl = Verbatim;

    type RoomThirdPartyInvite = Verbatim;

    type RoomTombstone = Verbatim;

    type RoomTopic = Verbatim;

    type RoomKey = Verbatim;

    type RoomKeyRequest = Verbatim;

    type Sticker = Verbatim;

    type Tag = Verbatim;

    type Typing = Verbatim;
}

} // verus!
