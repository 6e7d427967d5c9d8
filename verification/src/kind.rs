//! The table of event kinds: every kind the protocol defines, the discriminator
//! it is written with on the wire, and the tier it is classified under.

use vstd::prelude::*;

verus! {

/// How far an event is tied to a room.
///
/// The tiers are ordered: `Basic` below `Room` below `State`. Every state
/// event is a room event, and every room event is an event.
#[derive(Clone, Copy, Debug, PartialEq, Eq, Structural)]
pub enum Tier {
    /// An event outside of any room.
    Basic,
    /// An event sent into a room.
    Room,
    /// An event that is part of a room's persisted state.
    State,
}

impl Tier {
    /// The position of the tier in the order `Basic`, `Room`, `State`.
    pub open spec fn rank(self) -> nat {
        match self {
            Tier::Basic => 0,
            Tier::Room => 1,
            Tier::State => 2,
        }
    }

    /// Whether the tier is `floor` or above it.
    pub open spec fn spec_reaches(self, floor: Tier) -> bool {
        self.rank() >= floor.rank()
    }

    /// Whether the tier is `floor` or above it.
    #[verifier::when_used_as_spec(spec_reaches)]
    pub fn reaches(self, floor: Tier) -> (b: bool)
        ensures
            b == self.spec_reaches(floor),
    {
        match floor {
            Tier::Basic => true,
            Tier::Room => match self {
                Tier::Basic => false,
                _ => true,
            },
            Tier::State => match self {
                Tier::State => true,
                _ => false,
            },
        }
    }

    /// The tier itself where it reaches `floor`, else `floor`.
    pub open spec fn spec_raised_to(self, floor: Tier) -> Tier {
        if self.spec_reaches(floor) {
            self
        } else {
            floor
        }
    }

    /// The tier itself where it reaches `floor`, else `floor`.
    #[verifier::when_used_as_spec(spec_raised_to)]
    pub fn raised_to(self, floor: Tier) -> (t: Tier)
        ensures
            t == self.spec_raised_to(floor),
    {
        if self.reaches(floor) {
            self
        } else {
            floor
        }
    }
}

/// Whether two strings hold the same characters.
pub fn same_text(a: &str, b: &str) -> (same: bool)
    ensures
        same == (a@ == b@),
{
    let x = a.as_bytes();
    let y = b.as_bytes();
    proof {
        // Characters are recovered from their encoding, so equal bytes mean equal text.
        vstd::utf8::encode_utf8_decode_utf8(a@);
        vstd::utf8::encode_utf8_decode_utf8(b@);
    }
    if x.len() != y.len() {
        return false;
    }
    let mut i: usize = 0;
    while i < x.len()
        invariant
            x.len() == y.len(),
            i <= x.len(),
            x@ == vstd::utf8::encode_utf8(a@),
            y@ == vstd::utf8::encode_utf8(b@),
            forall|j: int| 0 <= j < i ==> x@[j] == y@[j],
        decreases x.len() - i,
    {
        if x[i] != y[i] {
            return false;
        }
        i += 1;
    }
    assert(x@ =~= y@);
    true
}

/// An event kind that the protocol defines.
#[derive(Clone, Copy, Debug, PartialEq, Eq, Structural)]
pub enum Kind {
    /// `m.call.answer`
    CallAnswer,
    /// `m.call.candidates`
    CallCandidates,
    /// `m.call.hangup`
    CallHangup,
    /// `m.call.invite`
    CallInvite,
    /// `m.direct`
    Direct,
    /// `m.dummy`
    Dummy,
    /// `m.forwarded_room_key`
    ForwardedRoomKey,
    /// `m.fully_read`
    FullyRead,
    /// `m.ignored_user_list`
    IgnoredUserList,
    /// `m.key.verification.accept`
    KeyVerificationAccept,
    /// `m.key.verification.cancel`
    KeyVerificationCancel,
    /// `m.key.verification.key`
    KeyVerificationKey,
    /// `m.key.verification.mac`
    KeyVerificationMac,
    /// `m.key.verification.request`
    KeyVerificationRequest,
    /// `m.key.verification.start`
    KeyVerificationStart,
    /// `m.presence`
    Presence,
    /// `m.push_rules`
    PushRules,
    /// `m.receipt`
    Receipt,
    /// `m.room.aliases`
    RoomAliases,
    /// `m.room.avatar`
    RoomAvatar,
    /// `m.room.canonical_alias`
    RoomCanonicalAlias,
    /// `m.room.create`
    RoomCreate,
    /// `m.room.encrypted`
    RoomEncrypted,
    /// `m.room.encryption`
    RoomEncryption,
    /// `m.room.guest_access`
    RoomGuestAccess,
    /// `m.room.history_visibility`
    RoomHistoryVisibility,
    /// `m.room.join_rules`
    RoomJoinRules,
    /// `m.room.member`
    RoomMember,
    /// `m.room.message`
    RoomMessage,
    /// `m.room.message.feedback`
    RoomMessageFeedback,
    /// `m.room.name`
    RoomName,
    /// `m.room.pinned_events`
    RoomPinnedEvents,
    /// `m.room.power_levels`
    RoomPowerLevels,
    /// `m.room.redaction`
    RoomRedaction,
    /// `m.room.server_acl`
    RoomServerAcl,
    /// `m.room.third_party_invite`
    RoomThirdPartyInvite,
    /// `m.room.tombstone`
    RoomTombstone,
    /// `m.room.topic`
    RoomTopic,
    /// `m.room_key`
    RoomKey,
    /// `m.room_key_request`
    RoomKeyRequest,
    /// `m.sticker`
    Sticker,
    /// `m.tag`
    Tag,
    /// `m.typing`
    Typing,
}

impl Kind {
    /// The discriminator that the kind is written with on the wire.
    pub open spec fn name(self) -> Seq<char> {
        match self {
            Kind::CallAnswer => "m.call.answer"@,
            Kind::CallCandidates => "m.call.candidates"@,
            Kind::CallHangup => "m.call.hangup"@,
            Kind::CallInvite => "m.call.invite"@,
            Kind::Direct => "m.direct"@,
            Kind::Dummy => "m.dummy"@,
            Kind::ForwardedRoomKey => "m.forwarded_room_key"@,
            Kind::FullyRead => "m.fully_read"@,
            Kind::IgnoredUserList => "m.ignored_user_list"@,
            Kind::KeyVerificationAccept => "m.key.verification.accept"@,
            Kind::KeyVerificationCancel => "m.key.verification.cancel"@,
            Kind::KeyVerificationKey => "m.key.verification.key"@,
            Kind::KeyVerificationMac => "m.key.verification.mac"@,
            Kind::KeyVerificationRequest => "m.key.verification.request"@,
            Kind::KeyVerificationStart => "m.key.verification.start"@,
            Kind::Presence => "m.presence"@,
            Kind::PushRules => "m.push_rules"@,
            Kind::Receipt => "m.receipt"@,
            Kind::RoomAliases => "m.room.aliases"@,
            Kind::RoomAvatar => "m.room.avatar"@,
            Kind::RoomCanonicalAlias => "m.room.canonical_alias"@,
            Kind::RoomCreate => "m.room.create"@,
            Kind::RoomEncrypted => "m.room.encrypted"@,
            Kind::RoomEncryption => "m.room.encryption"@,
            Kind::RoomGuestAccess => "m.room.guest_access"@,
            Kind::RoomHistoryVisibility => "m.room.history_visibility"@,
            Kind::RoomJoinRules => "m.room.join_rules"@,
            Kind::RoomMember => "m.room.member"@,
            Kind::RoomMessage => "m.room.message"@,
            Kind::RoomMessageFeedback => "m.room.message.feedback"@,
            Kind::RoomName => "m.room.name"@,
            Kind::RoomPinnedEvents => "m.room.pinned_events"@,
            Kind::RoomPowerLevels => "m.room.power_levels"@,
            Kind::RoomRedaction => "m.room.redaction"@,
            Kind::RoomServerAcl => "m.room.server_acl"@,
            Kind::RoomThirdPartyInvite => "m.room.third_party_invite"@,
            Kind::RoomTombstone => "m.room.tombstone"@,
            Kind::RoomTopic => "m.room.topic"@,
            Kind::RoomKey => "m.room_key"@,
            Kind::RoomKeyRequest => "m.room_key_request"@,
            Kind::Sticker => "m.sticker"@,
            Kind::Tag => "m.tag"@,
            Kind::Typing => "m.typing"@,
        }
    }

    /// The tier that the kind is classified under.
    pub open spec fn spec_tier(self) -> Tier {
        match self {
            Kind::CallAnswer => Tier::Room,
            Kind::CallCandidates => Tier::Room,
            Kind::CallHangup => Tier::Room,
            Kind::CallInvite => Tier::Room,
            Kind::Direct => Tier::Basic,
            Kind::Dummy => Tier::Basic,
            Kind::ForwardedRoomKey => Tier::Basic,
            Kind::FullyRead => Tier::Basic,
            Kind::IgnoredUserList => Tier::Basic,
            Kind::KeyVerificationAccept => Tier::Basic,
            Kind::KeyVerificationCancel => Tier::Basic,
            Kind::KeyVerificationKey => Tier::Basic,
            Kind::KeyVerificationMac => Tier::Basic,
            Kind::KeyVerificationRequest => Tier::Basic,
            Kind::KeyVerificationStart => Tier::Basic,
            Kind::Presence => Tier::Basic,
            Kind::PushRules => Tier::Basic,
            Kind::Receipt => Tier::Basic,
            Kind::RoomAliases => Tier::State,
            Kind::RoomAvatar => Tier::State,
            Kind::RoomCanonicalAlias => Tier::State,
            Kind::RoomCreate => Tier::State,
            Kind::RoomEncrypted => Tier::Room,
            Kind::RoomEncryption => Tier::State,
            Kind::RoomGuestAccess => Tier::State,
            Kind::RoomHistoryVisibility => Tier::State,
            Kind::RoomJoinRules => Tier::State,
            Kind::RoomMember => Tier::State,
            Kind::RoomMessage => Tier::Room,
            Kind::RoomMessageFeedback => Tier::Room,
            Kind::RoomName => Tier::State,
            Kind::RoomPinnedEvents => Tier::State,
            Kind::RoomPowerLevels => Tier::State,
            Kind::RoomRedaction => Tier::Room,
            Kind::RoomServerAcl => Tier::State,
            Kind::RoomThirdPartyInvite => Tier::State,
            Kind::RoomTombstone => Tier::State,
            Kind::RoomTopic => Tier::State,
            Kind::RoomKey => Tier::Basic,
            Kind::RoomKeyRequest => Tier::Basic,
            Kind::Sticker => Tier::Room,
            Kind::Tag => Tier::Basic,
            Kind::Typing => Tier::Basic,
        }
    }

    /// The kind written with the discriminator `name`, if there is one.
    pub open spec fn with_name(name: Seq<char>) -> Option<Kind> {
        if exists|kind: Kind| kind.name() == name {
            Some(choose|kind: Kind| kind.name() == name)
        } else {
            None
        }
    }

    /// The discriminator that the kind is written with on the wire.
    pub fn as_str(self) -> (name: &'static str)
        ensures
            name@ == self.name(),
    {
        match self {
            Kind::CallAnswer => "m.call.answer",
            Kind::CallCandidates => "m.call.candidates",
            Kind::CallHangup => "m.call.hangup",
            Kind::CallInvite => "m.call.invite",
            Kind::Direct => "m.direct",
            Kind::Dummy => "m.dummy",
            Kind::ForwardedRoomKey => "m.forwarded_room_key",
            Kind::FullyRead => "m.fully_read",
            Kind::IgnoredUserList => "m.ignored_user_list",
            Kind::KeyVerificationAccept => "m.key.verification.accept",
            Kind::KeyVerificationCancel => "m.key.verification.cancel",
            Kind::KeyVerificationKey => "m.key.verification.key",
            Kind::KeyVerificationMac => "m.key.verification.mac",
            Kind::KeyVerificationRequest => "m.key.verification.request",
            Kind::KeyVerificationStart => "m.key.verification.start",
            Kind::Presence => "m.presence",
            Kind::PushRules => "m.push_rules",
            Kind::Receipt => "m.receipt",
            Kind::RoomAliases => "m.room.aliases",
            Kind::RoomAvatar => "m.room.avatar",
            Kind::RoomCanonicalAlias => "m.room.canonical_alias",
            Kind::RoomCreate => "m.room.create",
            Kind::RoomEncrypted => "m.room.encrypted",
            Kind::RoomEncryption => "m.room.encryption",
            Kind::RoomGuestAccess => "m.room.guest_access",
            Kind::RoomHistoryVisibility => "m.room.history_visibility",
            Kind::RoomJoinRules => "m.room.join_rules",
            Kind::RoomMember => "m.room.member",
            Kind::RoomMessage => "m.room.message",
            Kind::RoomMessageFeedback => "m.room.message.feedback",
            Kind::RoomName => "m.room.name",
            Kind::RoomPinnedEvents => "m.room.pinned_events",
            Kind::RoomPowerLevels => "m.room.power_levels",
            Kind::RoomRedaction => "m.room.redaction",
            Kind::RoomServerAcl => "m.room.server_acl",
            Kind::RoomThirdPartyInvite => "m.room.third_party_invite",
            Kind::RoomTombstone => "m.room.tombstone",
            Kind::RoomTopic => "m.room.topic",
            Kind::RoomKey => "m.room_key",
            Kind::RoomKeyRequest => "m.room_key_request",
            Kind::Sticker => "m.sticker",
            Kind::Tag => "m.tag",
            Kind::Typing => "m.typing",
        }
    }

    /// The tier that the kind is classified under.
    #[verifier::when_used_as_spec(spec_tier)]
    pub fn tier(self) -> (tier: Tier)
        ensures
            tier == self.spec_tier(),
    {
        match self {
            Kind::CallAnswer => Tier::Room,
            Kind::CallCandidates => Tier::Room,
            Kind::CallHangup => Tier::Room,
            Kind::CallInvite => Tier::Room,
            Kind::Direct => Tier::Basic,
            Kind::Dummy => Tier::Basic,
            Kind::ForwardedRoomKey => Tier::Basic,
            Kind::FullyRead => Tier::Basic,
            Kind::IgnoredUserList => Tier::Basic,
            Kind::KeyVerificationAccept => Tier::Basic,
            Kind::KeyVerificationCancel => Tier::Basic,
            Kind::KeyVerificationKey => Tier::Basic,
            Kind::KeyVerificationMac => Tier::Basic,
            Kind::KeyVerificationRequest => Tier::Basic,
            Kind::KeyVerificationStart => Tier::Basic,
            Kind::Presence => Tier::Basic,
            Kind::PushRules => Tier::Basic,
            Kind::Receipt => Tier::Basic,
            Kind::RoomAliases => Tier::State,
            Kind::RoomAvatar => Tier::State,
            Kind::RoomCanonicalAlias => Tier::State,
            Kind::RoomCreate => Tier::State,
            Kind::RoomEncrypted => Tier::Room,
            Kind::RoomEncryption => Tier::State,
            Kind::RoomGuestAccess => Tier::State,
            Kind::RoomHistoryVisibility => Tier::State,
            Kind::RoomJoinRules => Tier::State,
            Kind::RoomMember => Tier::State,
            Kind::RoomMessage => Tier::Room,
            Kind::RoomMessageFeedback => Tier::Room,
            Kind::RoomName => Tier::State,
            Kind::RoomPinnedEvents => Tier::State,
            Kind::RoomPowerLevels => Tier::State,
            Kind::RoomRedaction => Tier::Room,
            Kind::RoomServerAcl => Tier::State,
            Kind::RoomThirdPartyInvite => Tier::State,
            Kind::RoomTombstone => Tier::State,
            Kind::RoomTopic => Tier::State,
            Kind::RoomKey => Tier::Basic,
            Kind::RoomKeyRequest => Tier::Basic,
            Kind::Sticker => Tier::Room,
            Kind::Tag => Tier::Basic,
            Kind::Typing => Tier::Basic,
        }
    }

    /// Looks a discriminator up in the table.
    ///
    /// Returns the kind written with `name`, and `None` for a discriminator
    /// that no kind is written with.
    pub fn from_name(name: &str) -> (found: Option<Kind>)
        ensures
            found == Kind::with_name(name@),
    {
        proof {
            lemma_names_differ();
        }
        if same_text(name, "m.call.answer") {
            assert(Kind::CallAnswer.name() == name@);
            Some(Kind::CallAnswer)
        } else if same_text(name, "m.call.candidates") {
            assert(Kind::CallCandidates.name() == name@);
            Some(Kind::CallCandidates)
        } else if same_text(name, "m.call.hangup") {
            assert(Kind::CallHangup.name() == name@);
            Some(Kind::CallHangup)
        } else if same_text(name, "m.call.invite") {
            assert(Kind::CallInvite.name() == name@);
            Some(Kind::CallInvite)
        } else if same_text(name, "m.direct") {
            assert(Kind::Direct.name() == name@);
            Some(Kind::Direct)
        } else if same_text(name, "m.dummy") {
            assert(Kind::Dummy.name() == name@);
            Some(Kind::Dummy)
        } else if same_text(name, "m.forwarded_room_key") {
            assert(Kind::ForwardedRoomKey.name() == name@);
            Some(Kind::ForwardedRoomKey)
        } else if same_text(name, "m.fully_read") {
            assert(Kind::FullyRead.name() == name@);
            Some(Kind::FullyRead)
        } else if same_text(name, "m.ignored_user_list") {
            assert(Kind::IgnoredUserList.name() == name@);
            Some(Kind::IgnoredUserList)
        } else if same_text(name, "m.key.verification.accept") {
            assert(Kind::KeyVerificationAccept.name() == name@);
            Some(Kind::KeyVerificationAccept)
        } else if same_text(name, "m.key.verification.cancel") {
            assert(Kind::KeyVerificationCancel.name() == name@);
            Some(Kind::KeyVerificationCancel)
        } else if same_text(name, "m.key.verification.key") {
            assert(Kind::KeyVerificationKey.name() == name@);
            Some(Kind::KeyVerificationKey)
        } else if same_text(name, "m.key.verification.mac") {
            assert(Kind::KeyVerificationMac.name() == name@);
            Some(Kind::KeyVerificationMac)
        } else if same_text(name, "m.key.verification.request") {
            assert(Kind::KeyVerificationRequest.name() == name@);
            Some(Kind::KeyVerificationRequest)
        } else if same_text(name, "m.key.verification.start") {
            assert(Kind::KeyVerificationStart.name() == name@);
            Some(Kind::KeyVerificationStart)
        } else if same_text(name, "m.presence") {
            assert(Kind::Presence.name() == name@);
            Some(Kind::Presence)
        } else if same_text(name, "m.push_rules") {
            assert(Kind::PushRules.name() == name@);
            Some(Kind::PushRules)
        } else if same_text(name, "m.receipt") {
            assert(Kind::Receipt.name() == name@);
            Some(Kind::Receipt)
        } else if same_text(name, "m.room.aliases") {
            assert(Kind::RoomAliases.name() == name@);
            Some(Kind::RoomAliases)
        } else if same_text(name, "m.room.avatar") {
            assert(Kind::RoomAvatar.name() == name@);
            Some(Kind::RoomAvatar)
        } else if same_text(name, "m.room.canonical_alias") {
            assert(Kind::RoomCanonicalAlias.name() == name@);
            Some(Kind::RoomCanonicalAlias)
        } else if same_text(name, "m.room.create") {
            assert(Kind::RoomCreate.name() == name@);
            Some(Kind::RoomCreate)
        } else if same_text(name, "m.room.encrypted") {
            assert(Kind::RoomEncrypted.name() == name@);
            Some(Kind::RoomEncrypted)
        } else if same_text(name, "m.room.encryption") {
            assert(Kind::RoomEncryption.name() == name@);
            Some(Kind::RoomEncryption)
        } else if same_text(name, "m.room.guest_access") {
            assert(Kind::RoomGuestAccess.name() == name@);
            Some(Kind::RoomGuestAccess)
        } else if same_text(name, "m.room.history_visibility") {
            assert(Kind::RoomHistoryVisibility.name() == name@);
            Some(Kind::RoomHistoryVisibility)
        } else if same_text(name, "m.room.join_rules") {
            assert(Kind::RoomJoinRules.name() == name@);
            Some(Kind::RoomJoinRules)
        } else if same_text(name, "m.room.member") {
            assert(Kind::RoomMember.name() == name@);
            Some(Kind::RoomMember)
        } else if same_text(name, "m.room.message") {
            assert(Kind::RoomMessage.name() == name@);
            Some(Kind::RoomMessage)
        } else if same_text(name, "m.room.message.feedback") {
            assert(Kind::RoomMessageFeedback.name() == name@);
            Some(Kind::RoomMessageFeedback)
        } else if same_text(name, "m.room.name") {
            assert(Kind::RoomName.name() == name@);
            Some(Kind::RoomName)
        } else if same_text(name, "m.room.pinned_events") {
            assert(Kind::RoomPinnedEvents.name() == name@);
            Some(Kind::RoomPinnedEvents)
        } else if same_text(name, "m.room.power_levels") {
            assert(Kind::RoomPowerLevels.name() == name@);
            Some(Kind::RoomPowerLevels)
        } else if same_text(name, "m.room.redaction") {
            assert(Kind::RoomRedaction.name() == name@);
            Some(Kind::RoomRedaction)
        } else if same_text(name, "m.room.server_acl") {
            assert(Kind::RoomServerAcl.name() == name@);
            Some(Kind::RoomServerAcl)
        } else if same_text(name, "m.room.third_party_invite") {
            assert(Kind::RoomThirdPartyInvite.name() == name@);
            Some(Kind::RoomThirdPartyInvite)
        } else if same_text(name, "m.room.tombstone") {
            assert(Kind::RoomTombstone.name() == name@);
            Some(Kind::RoomTombstone)
        } else if same_text(name, "m.room.topic") {
            assert(Kind::RoomTopic.name() == name@);
            Some(Kind::RoomTopic)
        } else if same_text(name, "m.room_key") {
            assert(Kind::RoomKey.name() == name@);
            Some(Kind::RoomKey)
        } else if same_text(name, "m.room_key_request") {
            assert(Kind::RoomKeyRequest.name() == name@);
            Some(Kind::RoomKeyRequest)
        } else if same_text(name, "m.sticker") {
            assert(Kind::Sticker.name() == name@);
            Some(Kind::Sticker)
        } else if same_text(name, "m.tag") {
            assert(Kind::Tag.name() == name@);
            Some(Kind::Tag)
        } else if same_text(name, "m.typing") {
            assert(Kind::Typing.name() == name@);
            Some(Kind::Typing)
        } else {
            assert forall|kind: Kind| kind.name() != name@ by {
                match kind {
                    Kind::CallAnswer => {},
                    Kind::CallCandidates => {},
                    Kind::CallHangup => {},
                    Kind::CallInvite => {},
                    Kind::Direct => {},
                    Kind::Dummy => {},
                    Kind::ForwardedRoomKey => {},
                    Kind::FullyRead => {},
                    Kind::IgnoredUserList => {},
                    Kind::KeyVerificationAccept => {},
                    Kind::KeyVerificationCancel => {},
                    Kind::KeyVerificationKey => {},
                    Kind::KeyVerificationMac => {},
                    Kind::KeyVerificationRequest => {},
                    Kind::KeyVerificationStart => {},
                    Kind::Presence => {},
                    Kind::PushRules => {},
                    Kind::Receipt => {},
                    Kind::RoomAliases => {},
                    Kind::RoomAvatar => {},
                    Kind::RoomCanonicalAlias => {},
                    Kind::RoomCreate => {},
                    Kind::RoomEncrypted => {},
                    Kind::RoomEncryption => {},
                    Kind::RoomGuestAccess => {},
                    Kind::RoomHistoryVisibility => {},
                    Kind::RoomJoinRules => {},
                    Kind::RoomMember => {},
                    Kind::RoomMessage => {},
                    Kind::RoomMessageFeedback => {},
                    Kind::RoomName => {},
                    Kind::RoomPinnedEvents => {},
                    Kind::RoomPowerLevels => {},
                    Kind::RoomRedaction => {},
                    Kind::RoomServerAcl => {},
                    Kind::RoomThirdPartyInvite => {},
                    Kind::RoomTombstone => {},
                    Kind::RoomTopic => {},
                    Kind::RoomKey => {},
                    Kind::RoomKeyRequest => {},
                    Kind::Sticker => {},
                    Kind::Tag => {},
                    Kind::Typing => {},
                }
            }
            None
        }
    }
}

/// The character of `name` at `position`, and a blank where `name` is shorter.
spec fn char_at(name: Seq<char>, position: int) -> char {
    if 0 <= position < name.len() {
        name[position]
    } else {
        ' '
    }
}

/// The length of `name` and its characters at three positions. No two
/// discriminators of the table agree in all four.
spec fn mark(name: Seq<char>) -> (nat, char, char, char) {
    (name.len(), char_at(name, 2), char_at(name, 7), char_at(name, 19))
}

/// The mark of each discriminator of the table.
spec fn mark_of(kind: Kind) -> (nat, char, char, char) {
    match kind {
        Kind::CallAnswer => (13, 'c', 'a', ' '),
        Kind::CallCandidates => (17, 'c', 'c', ' '),
        Kind::CallHangup => (13, 'c', 'h', ' '),
        Kind::CallInvite => (13, 'c', 'i', ' '),
        Kind::Direct => (8, 'd', 't', ' '),
        Kind::Dummy => (7, 'd', ' ', ' '),
        Kind::ForwardedRoomKey => (20, 'f', 'r', 'y'),
        Kind::FullyRead => (12, 'f', '_', ' '),
        Kind::IgnoredUserList => (19, 'i', 'e', ' '),
        Kind::KeyVerificationAccept => (25, 'k', 'e', 'a'),
        Kind::KeyVerificationCancel => (25, 'k', 'e', 'c'),
        Kind::KeyVerificationKey => (22, 'k', 'e', 'k'),
        Kind::KeyVerificationMac => (22, 'k', 'e', 'm'),
        Kind::KeyVerificationRequest => (26, 'k', 'e', 'r'),
        Kind::KeyVerificationStart => (24, 'k', 'e', 's'),
        Kind::Presence => (10, 'p', 'n', ' '),
        Kind::PushRules => (12, 'p', 'r', ' '),
        Kind::Receipt => (9, 'r', 'p', ' '),
        Kind::RoomAliases => (14, 'r', 'a', ' '),
        Kind::RoomAvatar => (13, 'r', 'a', ' '),
        Kind::RoomCanonicalAlias => (22, 'r', 'c', 'i'),
        Kind::RoomCreate => (13, 'r', 'c', ' '),
        Kind::RoomEncrypted => (16, 'r', 'e', ' '),
        Kind::RoomEncryption => (17, 'r', 'e', ' '),
        Kind::RoomGuestAccess => (19, 'r', 'g', ' '),
        Kind::RoomHistoryVisibility => (25, 'r', 'h', 'b'),
        Kind::RoomJoinRules => (17, 'r', 'j', ' '),
        Kind::RoomMember => (13, 'r', 'm', ' '),
        Kind::RoomMessage => (14, 'r', 'm', ' '),
        Kind::RoomMessageFeedback => (23, 'r', 'm', 'b'),
        Kind::RoomName => (11, 'r', 'n', ' '),
        Kind::RoomPinnedEvents => (20, 'r', 'p', 's'),
        Kind::RoomPowerLevels => (19, 'r', 'p', ' '),
        Kind::RoomRedaction => (16, 'r', 'r', ' '),
        Kind::RoomServerAcl => (17, 'r', 's', ' '),
        Kind::RoomThirdPartyInvite => (25, 'r', 't', 'i'),
        Kind::RoomTombstone => (16, 'r', 't', ' '),
        Kind::RoomTopic => (12, 'r', 't', ' '),
        Kind::RoomKey => (10, 'r', 'k', ' '),
        Kind::RoomKeyRequest => (18, 'r', 'k', ' '),
        Kind::Sticker => (9, 's', 'e', ' '),
        Kind::Tag => (5, 't', ' ', ' '),
        Kind::Typing => (8, 't', 'g', ' '),
    }
}

proof fn lemma_mark(kind: Kind)
    ensures
        mark(kind.name()) == mark_of(kind),
{
    match kind {
        Kind::CallAnswer => {
            reveal_strlit("m.call.answer");
        },
        Kind::CallCandidates => {
            reveal_strlit("m.call.candidates");
        },
        Kind::CallHangup => {
            reveal_strlit("m.call.hangup");
        },
        Kind::CallInvite => {
            reveal_strlit("m.call.invite");
        },
        Kind::Direct => {
            reveal_strlit("m.direct");
        },
        Kind::Dummy => {
            reveal_strlit("m.dummy");
        },
        Kind::ForwardedRoomKey => {
            reveal_strlit("m.forwarded_room_key");
        },
        Kind::FullyRead => {
            reveal_strlit("m.fully_read");
        },
        Kind::IgnoredUserList => {
            reveal_strlit("m.ignored_user_list");
        },
        Kind::KeyVerificationAccept => {
            reveal_strlit("m.key.verification.accept");
        },
        Kind::KeyVerificationCancel => {
            reveal_strlit("m.key.verification.cancel");
        },
        Kind::KeyVerificationKey => {
            reveal_strlit("m.key.verification.key");
        },
        Kind::KeyVerificationMac => {
            reveal_strlit("m.key.verification.mac");
        },
        Kind::KeyVerificationRequest => {
            reveal_strlit("m.key.verification.request");
        },
        Kind::KeyVerificationStart => {
            reveal_strlit("m.key.verification.start");
        },
        Kind::Presence => {
            reveal_strlit("m.presence");
        },
        Kind::PushRules => {
            reveal_strlit("m.push_rules");
        },
        Kind::Receipt => {
            reveal_strlit("m.receipt");
        },
        Kind::RoomAliases => {
            reveal_strlit("m.room.aliases");
        },
        Kind::RoomAvatar => {
            reveal_strlit("m.room.avatar");
        },
        Kind::RoomCanonicalAlias => {
            reveal_strlit("m.room.canonical_alias");
        },
        Kind::RoomCreate => {
            reveal_strlit("m.room.create");
        },
        Kind::RoomEncrypted => {
            reveal_strlit("m.room.encrypted");
        },
        Kind::RoomEncryption => {
            reveal_strlit("m.room.encryption");
        },
        Kind::RoomGuestAccess => {
            reveal_strlit("m.room.guest_access");
        },
        Kind::RoomHistoryVisibility => {
            reveal_strlit("m.room.history_visibility");
        },
        Kind::RoomJoinRules => {
            reveal_strlit("m.room.join_rules");
        },
        Kind::RoomMember => {
            reveal_strlit("m.room.member");
        },
        Kind::RoomMessage => {
            reveal_strlit("m.room.message");
        },
        Kind::RoomMessageFeedback => {
            reveal_strlit("m.room.message.feedback");
        },
        Kind::RoomName => {
            reveal_strlit("m.room.name");
        },
        Kind::RoomPinnedEvents => {
            reveal_strlit("m.room.pinned_events");
        },
        Kind::RoomPowerLevels => {
            reveal_strlit("m.room.power_levels");
        },
        Kind::RoomRedaction => {
            reveal_strlit("m.room.redaction");
        },
        Kind::RoomServerAcl => {
            reveal_strlit("m.room.server_acl");
        },
        Kind::RoomThirdPartyInvite => {
            reveal_strlit("m.room.third_party_invite");
        },
        Kind::RoomTombstone => {
            reveal_strlit("m.room.tombstone");
        },
        Kind::RoomTopic => {
            reveal_strlit("m.room.topic");
        },
        Kind::RoomKey => {
            reveal_strlit("m.room_key");
        },
        Kind::RoomKeyRequest => {
            reveal_strlit("m.room_key_request");
        },
        Kind::Sticker => {
            reveal_strlit("m.sticker");
        },
        Kind::Tag => {
            reveal_strlit("m.tag");
        },
        Kind::Typing => {
            reveal_strlit("m.typing");
        },
    }
}

/// No two kinds are written with the same discriminator.
pub proof fn lemma_names_differ()
    ensures
        forall|a: Kind, b: Kind| a.name() == b.name() ==> a == b,
{
    assert forall|a: Kind, b: Kind| a.name() == b.name() implies a == b by {
        lemma_mark(a);
        lemma_mark(b);
    }
}

/// Looking up the discriminator of a kind finds that kind.
pub proof fn lemma_with_name_of_name(kind: Kind)
    ensures
        Kind::with_name(kind.name()) == Some(kind),
{
    lemma_names_differ();
}

/// A discriminator that is found in the table is the name of the kind found.
pub proof fn lemma_with_name_is_named(name: Seq<char>)
    ensures
        Kind::with_name(name) matches Some(kind) ==> kind.name() == name,
{
}

/// No discriminator in the table is empty.
pub proof fn lemma_name_is_not_empty(kind: Kind)
    ensures
        kind.name().len() > 0,
{
    lemma_mark(kind);
}

} // verus!
