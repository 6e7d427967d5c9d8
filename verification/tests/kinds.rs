use event_collections::kind::same_text;
use event_collections::{Kind, Tier};

const TABLE: [(Kind, &str, Tier); 43] = [
    (Kind::CallAnswer, "m.call.answer", Tier::Room),
    (Kind::CallCandidates, "m.call.candidates", Tier::Room),
    (Kind::CallHangup, "m.call.hangup", Tier::Room),
    (Kind::CallInvite, "m.call.invite", Tier::Room),
    (Kind::Direct, "m.direct", Tier::Basic),
    (Kind::Dummy, "m.dummy", Tier::Basic),
    (Kind::ForwardedRoomKey, "m.forwarded_room_key", Tier::Basic),
    (Kind::FullyRead, "m.fully_read", Tier::Basic),
    (Kind::IgnoredUserList, "m.ignored_user_list", Tier::Basic),
    (Kind::KeyVerificationAccept, "m.key.verification.accept", Tier::Basic),
    (Kind::KeyVerificationCancel, "m.key.verification.cancel", Tier::Basic),
    (Kind::KeyVerificationKey, "m.key.verification.key", Tier::Basic),
    (Kind::KeyVerificationMac, "m.key.verification.mac", Tier::Basic),
    (Kind::KeyVerificationRequest, "m.key.verification.request", Tier::Basic),
    (Kind::KeyVerificationStart, "m.key.verification.start", Tier::Basic),
    (Kind::Presence, "m.presence", Tier::Basic),
    (Kind::PushRules, "m.push_rules", Tier::Basic),
    (Kind::Receipt, "m.receipt", Tier::Basic),
    (Kind::RoomAliases, "m.room.aliases", Tier::State),
    (Kind::RoomAvatar, "m.room.avatar", Tier::State),
    (Kind::RoomCanonicalAlias, "m.room.canonical_alias", Tier::State),
    (Kind::RoomCreate, "m.room.create", Tier::State),
    (Kind::RoomEncrypted, "m.room.encrypted", Tier::Room),
    (Kind::RoomEncryption, "m.room.encryption", Tier::State),
    (Kind::RoomGuestAccess, "m.room.guest_access", Tier::State),
    (Kind::RoomHistoryVisibility, "m.room.history_visibility", Tier::State),
    (Kind::RoomJoinRules, "m.room.join_rules", Tier::State),
    (Kind::RoomMember, "m.room.member", Tier::State),
    (Kind::RoomMessage, "m.room.message", Tier::Room),
    (Kind::RoomMessageFeedback, "m.room.message.feedback", Tier::Room),
    (Kind::RoomName, "m.room.name", Tier::State),
    (Kind::RoomPinnedEvents, "m.room.pinned_events", Tier::State),
    (Kind::RoomPowerLevels, "m.room.power_levels", Tier::State),
    (Kind::RoomRedaction, "m.room.redaction", Tier::Room),
    (Kind::RoomServerAcl, "m.room.server_acl", Tier::State),
    (Kind::RoomThirdPartyInvite, "m.room.third_party_invite", Tier::State),
    (Kind::RoomTombstone, "m.room.tombstone", Tier::State),
    (Kind::RoomTopic, "m.room.topic", Tier::State),
    (Kind::RoomKey, "m.room_key", Tier::Basic),
    (Kind::RoomKeyRequest, "m.room_key_request", Tier::Basic),
    (Kind::Sticker, "m.sticker", Tier::Room),
    (Kind::Tag, "m.tag", Tier::Basic),
    (Kind::Typing, "m.typing", Tier::Basic),
];

#[test]
fn every_kind_is_written_with_its_discriminator() {
    for (kind, name, _) in TABLE {
        assert_eq!(kind.as_str(), name);
    }
}

#[test]
fn every_discriminator_is_found_in_the_table() {
    for (kind, name, _) in TABLE {
        assert_eq!(Kind::from_name(name), Some(kind));
    }
}

#[test]
fn looking_up_the_name_of_a_kind_finds_the_kind() {
    for (kind, _, _) in TABLE {
        assert_eq!(Kind::from_name(kind.as_str()), Some(kind));
    }
}

#[test]
fn no_two_kinds_share_a_discriminator() {
    for (i, (_, a, _)) in TABLE.iter().enumerate() {
        for (j, (_, b, _)) in TABLE.iter().enumerate() {
            assert_eq!(a == b, i == j);
        }
    }
}

#[test]
fn every_kind_has_its_tier() {
    for (kind, _, tier) in TABLE {
        assert_eq!(kind.tier(), tier);
    }
}

#[test]
fn the_tiers_hold_eighteen_nine_and_sixteen_kinds() {
    let count = |tier: Tier| TABLE.iter().filter(|(kind, _, _)| kind.tier() == tier).count();
    assert_eq!(count(Tier::Basic), 18);
    assert_eq!(count(Tier::Room), 9);
    assert_eq!(count(Tier::State), 16);
}

#[test]
fn unknown_discriminators_are_not_found() {
    assert_eq!(Kind::from_name("org.example.custom"), None);
    assert_eq!(Kind::from_name(""), None);
    assert_eq!(Kind::from_name("m.room"), None);
    assert_eq!(Kind::from_name("m.room.topic "), None);
    assert_eq!(Kind::from_name("M.ROOM.TOPIC"), None);
    assert_eq!(Kind::from_name("m.room.topics"), None);
    assert_eq!(Kind::from_name("m.room.m\u{e9}ssage"), None);
}

#[test]
fn a_prefix_of_a_longer_discriminator_is_its_own_kind() {
    assert_eq!(Kind::from_name("m.room.message"), Some(Kind::RoomMessage));
    assert_eq!(Kind::from_name("m.room.message.feedback"), Some(Kind::RoomMessageFeedback));
    assert_eq!(Kind::from_name("m.room_key"), Some(Kind::RoomKey));
    assert_eq!(Kind::from_name("m.room_key_request"), Some(Kind::RoomKeyRequest));
    assert_eq!(Kind::from_name("m.room.encrypted"), Some(Kind::RoomEncrypted));
    assert_eq!(Kind::from_name("m.room.encryption"), Some(Kind::RoomEncryption));
}

#[test]
fn same_text_compares_characters() {
    assert!(same_text("", ""));
    assert!(same_text("m.tag", "m.tag"));
    assert!(!same_text("m.tag", "m.tab"));
    assert!(!same_text("m.tag", "m.tags"));
    assert!(!same_text("m.tags", "m.tag"));
    assert!(!same_text("", "m"));
    assert!(same_text("na\u{ef}ve", "na\u{ef}ve"));
    assert!(!same_text("na\u{ef}ve", "naive"));
}

#[test]
fn a_tier_reaches_itself_and_the_tiers_below() {
    assert!(Tier::Basic.reaches(Tier::Basic));
    assert!(!Tier::Basic.reaches(Tier::Room));
    assert!(!Tier::Basic.reaches(Tier::State));
    assert!(Tier::Room.reaches(Tier::Basic));
    assert!(Tier::Room.reaches(Tier::Room));
    assert!(!Tier::Room.reaches(Tier::State));
    assert!(Tier::State.reaches(Tier::Basic));
    assert!(Tier::State.reaches(Tier::Room));
    assert!(Tier::State.reaches(Tier::State));
}

#[test]
fn a_tier_is_raised_to_the_floor_it_does_not_reach() {
    assert_eq!(Tier::Basic.raised_to(Tier::Basic), Tier::Basic);
    assert_eq!(Tier::Basic.raised_to(Tier::Room), Tier::Room);
    assert_eq!(Tier::Basic.raised_to(Tier::State), Tier::State);
    assert_eq!(Tier::Room.raised_to(Tier::Basic), Tier::Room);
    assert_eq!(Tier::Room.raised_to(Tier::Room), Tier::Room);
    assert_eq!(Tier::Room.raised_to(Tier::State), Tier::State);
    assert_eq!(Tier::State.raised_to(Tier::Basic), Tier::State);
    assert_eq!(Tier::State.raised_to(Tier::Room), Tier::State);
    assert_eq!(Tier::State.raised_to(Tier::State), Tier::State);
}
