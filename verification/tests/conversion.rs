use event_collections::raw::copy_of;
use event_collections::{
    convert_variant, CustomEvent, CustomRoomEvent, CustomStateEvent, Event, Kind, LeafPayload, Raw,
    RoomEvent, Schema, StateEvent, Tier, Unchecked, Verbatim,
};
use serde_json::Value;
use vstd::seq::Seq;

/// The text of the field `name` of the JSON object in `payload`.
fn text_field(payload: &[u8], name: &str) -> Result<String, String> {
    let value: Value = serde_json::from_slice(payload).map_err(|error| error.to_string())?;
    match value.get(name).and_then(Value::as_str) {
        Some(text) => Ok(text.to_owned()),
        None => Err(format!("missing field `{}`", name)),
    }
}

/// The JSON object that holds `text` in the field `name`, and nothing else.
fn object_with(name: &str, text: &str) -> Vec<u8> {
    let mut object = serde_json::Map::new();
    object.insert(name.to_owned(), Value::String(text.to_owned()));
    serde_json::to_vec(&Value::Object(object)).unwrap()
}

#[derive(Clone, Debug, PartialEq, Eq)]
struct Topic {
    topic: String,
}

impl LeafPayload for Topic {
    // The ghost items of the trait are never called.
    fn parsed(_payload: Seq<u8>) -> Result<Seq<u8>, Seq<char>> {
        unreachable!()
    }

    fn rendered(&self) -> Seq<u8> {
        unreachable!()
    }

    fn lemma_rendering_parses_back(&self) {}

    fn parse_from(payload: &[u8]) -> Result<Self, String> {
        Ok(Topic { topic: text_field(payload, "topic")? })
    }

    fn render_to(&self) -> Vec<u8> {
        object_with("topic", &self.topic)
    }
}

#[derive(Clone, Debug, PartialEq, Eq)]
struct Member {
    membership: String,
}

impl LeafPayload for Member {
    // The ghost items of the trait are never called.
    fn parsed(_payload: Seq<u8>) -> Result<Seq<u8>, Seq<char>> {
        unreachable!()
    }

    fn rendered(&self) -> Seq<u8> {
        unreachable!()
    }

    fn lemma_rendering_parses_back(&self) {}

    fn parse_from(payload: &[u8]) -> Result<Self, String> {
        Ok(Member { membership: text_field(payload, "membership")? })
    }

    fn render_to(&self) -> Vec<u8> {
        object_with("membership", &self.membership)
    }
}

#[derive(Clone, Debug, PartialEq, Eq)]
struct Body {
    body: String,
}

impl LeafPayload for Body {
    // The ghost items of the trait are never called.
    fn parsed(_payload: Seq<u8>) -> Result<Seq<u8>, Seq<char>> {
        unreachable!()
    }

    fn rendered(&self) -> Seq<u8> {
        unreachable!()
    }

    fn lemma_rendering_parses_back(&self) {}

    fn parse_from(payload: &[u8]) -> Result<Self, String> {
        Ok(Body { body: text_field(payload, "body")? })
    }

    fn render_to(&self) -> Vec<u8> {
        object_with("body", &self.body)
    }
}

/// Checks the shape of a state kind, of a room kind and of a basic kind, and
/// keeps every other payload as it comes.
#[derive(Clone, Debug)]
struct Checked;

impl Schema for Checked {
    type CallAnswer = Verbatim;
    type CallCandidates = Verbatim;
    type CallHangup = Verbatim;
    type CallInvite = Verbatim;
    type Direct = Verbatim;
    type Dummy = Verbatim;
    type ForwardedRoomKey = Verbatim;
    type FullyRead = Verbatim;
    type IgnoredUserList = Verbatim;
    type KeyVerificationAccept = Verbatim;
    type KeyVerificationCancel = Verbatim;
    type KeyVerificationKey = Verbatim;
    type KeyVerificationMac = Verbatim;
    type KeyVerificationRequest = Verbatim;
    type KeyVerificationStart = Verbatim;
    type Presence = Verbatim;
    type PushRules = Verbatim;
    type Receipt = Verbatim;
    type RoomAliases = Verbatim;
    type RoomAvatar = Verbatim;
    type RoomCanonicalAlias = Verbatim;
    type RoomCreate = Verbatim;
    type RoomEncrypted = Verbatim;
    type RoomEncryption = Verbatim;
    type RoomGuestAccess = Verbatim;
    type RoomHistoryVisibility = Verbatim;
    type RoomJoinRules = Verbatim;
    type RoomMember = Member;
    type RoomMessage = Body;
    type RoomMessageFeedback = Verbatim;
    type RoomName = Verbatim;
    type RoomPinnedEvents = Verbatim;
    type RoomPowerLevels = Verbatim;
    type RoomRedaction = Verbatim;
    type RoomServerAcl = Verbatim;
    type RoomThirdPartyInvite = Verbatim;
    type RoomTombstone = Verbatim;
    type RoomTopic = Topic;
    type RoomKey = Verbatim;
    type RoomKeyRequest = Verbatim;
    type Sticker = Verbatim;
    type Tag = Body;
    type Typing = Verbatim;
}

fn raw(kind: &str, payload: &[u8], tier: Tier) -> Raw {
    Raw { kind: kind.to_owned(), payload: payload.to_vec(), tier }
}

const HELLO: &[u8] = br#"{"topic":"hello"}"#;
const NOT_A_MEMBER: &[u8] = br#"{"not_a_valid_member_shape":true}"#;
const CUSTOM: &[u8] = br#"{"x":1}"#;

const KINDS: [Kind; 43] = [
    Kind::CallAnswer,
    Kind::CallCandidates,
    Kind::CallHangup,
    Kind::CallInvite,
    Kind::Direct,
    Kind::Dummy,
    Kind::ForwardedRoomKey,
    Kind::FullyRead,
    Kind::IgnoredUserList,
    Kind::KeyVerificationAccept,
    Kind::KeyVerificationCancel,
    Kind::KeyVerificationKey,
    Kind::KeyVerificationMac,
    Kind::KeyVerificationRequest,
    Kind::KeyVerificationStart,
    Kind::Presence,
    Kind::PushRules,
    Kind::Receipt,
    Kind::RoomAliases,
    Kind::RoomAvatar,
    Kind::RoomCanonicalAlias,
    Kind::RoomCreate,
    Kind::RoomEncrypted,
    Kind::RoomEncryption,
    Kind::RoomGuestAccess,
    Kind::RoomHistoryVisibility,
    Kind::RoomJoinRules,
    Kind::RoomMember,
    Kind::RoomMessage,
    Kind::RoomMessageFeedback,
    Kind::RoomName,
    Kind::RoomPinnedEvents,
    Kind::RoomPowerLevels,
    Kind::RoomRedaction,
    Kind::RoomServerAcl,
    Kind::RoomThirdPartyInvite,
    Kind::RoomTombstone,
    Kind::RoomTopic,
    Kind::RoomKey,
    Kind::RoomKeyRequest,
    Kind::Sticker,
    Kind::Tag,
    Kind::Typing,
];

#[test]
fn a_room_topic_converts_widens_and_is_written_back_as_it_came() {
    let input = raw("m.room.topic", HELLO, Tier::State);

    let state = StateEvent::<Checked>::try_from_raw(input.clone()).unwrap();
    assert!(matches!(&state, StateEvent::RoomTopic(leaf) if leaf.topic == "hello"));
    assert_eq!(state.serialize(), input);

    let room = RoomEvent::from(state.clone());
    assert!(matches!(&room, RoomEvent::RoomTopic(leaf) if leaf.topic == "hello"));
    assert_eq!(room.serialize(), input);

    let event = Event::from(room);
    assert!(matches!(&event, Event::RoomTopic(leaf) if leaf.topic == "hello"));
    assert_eq!(event.serialize(), input);

    let direct = Event::from(state);
    assert!(matches!(&direct, Event::RoomTopic(leaf) if leaf.topic == "hello"));
    assert_eq!(direct.serialize(), input);
}

#[test]
fn a_custom_kind_converts_to_the_custom_state_variant_and_is_written_back_unchanged() {
    let input = raw("org.example.custom", CUSTOM, Tier::State);
    let state = StateEvent::<Checked>::try_from_raw(input.clone()).unwrap();
    assert!(matches!(
        &state,
        StateEvent::CustomState(custom)
            if custom.kind == "org.example.custom" && custom.payload == CUSTOM
    ));
    assert_eq!(state.serialize(), input);
}

#[test]
fn a_member_of_another_shape_fails_and_the_failure_holds_the_input() {
    let input = raw("m.room.member", NOT_A_MEMBER, Tier::State);
    let (message, kept) = StateEvent::<Checked>::try_from_raw(input.clone()).unwrap_err();
    assert_eq!(message, "missing field `membership`");
    assert_eq!(kept.payload, NOT_A_MEMBER);
    assert_eq!(kept.kind, "m.room.member");
    assert_eq!(kept, input);
}

#[test]
fn a_failure_holds_the_input_in_every_collection() {
    for tier in [Tier::Basic, Tier::Room, Tier::State] {
        let input = raw("m.room.member", b"not even json", tier);
        let (_, kept) = StateEvent::<Checked>::try_from_raw(input.clone()).unwrap_err();
        assert_eq!(kept, input);
        let (_, kept) = RoomEvent::<Checked>::try_from_raw(input.clone()).unwrap_err();
        assert_eq!(kept, input);
        let (_, kept) = Event::<Checked>::try_from_raw(input.clone()).unwrap_err();
        assert_eq!(kept, input);
    }
}

#[test]
fn the_message_of_a_failure_is_the_shape_error() {
    let (message, _) =
        Event::<Checked>::try_from_raw(raw("m.room.topic", CUSTOM, Tier::State)).unwrap_err();
    assert_eq!(message, "missing field `topic`");
    let (message, _) =
        RoomEvent::<Checked>::try_from_raw(raw("m.room.message", HELLO, Tier::Room)).unwrap_err();
    assert_eq!(message, "missing field `body`");
    let (message, _) =
        Event::<Checked>::try_from_raw(raw("m.tag", HELLO, Tier::Basic)).unwrap_err();
    assert_eq!(message, "missing field `body`");
}

#[test]
fn an_unknown_kind_never_fails() {
    let payloads: [&[u8]; 5] = [b"", b"not even json", NOT_A_MEMBER, HELLO, &[0xff, 0x00, 0x80]];
    for payload in payloads {
        for tier in [Tier::Basic, Tier::Room, Tier::State] {
            for kind in ["org.example.custom", "m.room", "m.room.topic.more", "x"] {
                let input = raw(kind, payload, tier);
                let state = StateEvent::<Checked>::try_from_raw(input.clone()).unwrap();
                let room = RoomEvent::<Checked>::try_from_raw(input.clone()).unwrap();
                let event = Event::<Checked>::try_from_raw(input.clone()).unwrap();
                for written in [state.serialize(), room.serialize(), event.serialize()] {
                    assert_eq!(written.kind, kind);
                    assert_eq!(written.payload, payload);
                }
                assert_eq!(event.serialize(), input);
            }
        }
    }
}

#[test]
fn an_unknown_kind_takes_the_custom_variant_of_its_tier() {
    let event = Event::<Checked>::try_from_raw(raw("org.example.custom", CUSTOM, Tier::Basic));
    assert!(matches!(event, Ok(Event::Custom(custom)) if custom.payload == CUSTOM));
    let event = Event::<Checked>::try_from_raw(raw("org.example.custom", CUSTOM, Tier::Room));
    assert!(matches!(event, Ok(Event::CustomRoom(custom)) if custom.payload == CUSTOM));
    let event = Event::<Checked>::try_from_raw(raw("org.example.custom", CUSTOM, Tier::State));
    assert!(matches!(event, Ok(Event::CustomState(custom)) if custom.payload == CUSTOM));

    let room = RoomEvent::<Checked>::try_from_raw(raw("org.example.custom", CUSTOM, Tier::Room));
    assert!(matches!(room, Ok(RoomEvent::CustomRoom(custom)) if custom.payload == CUSTOM));
    let room = RoomEvent::<Checked>::try_from_raw(raw("org.example.custom", CUSTOM, Tier::State));
    assert!(matches!(room, Ok(RoomEvent::CustomState(custom)) if custom.payload == CUSTOM));

    let state = StateEvent::<Checked>::try_from_raw(raw("org.example.custom", CUSTOM, Tier::State));
    assert!(matches!(state, Ok(StateEvent::CustomState(custom)) if custom.payload == CUSTOM));
}

#[test]
fn a_tier_below_the_collection_is_raised_to_it() {
    let room = RoomEvent::<Checked>::try_from_raw(raw("org.example.custom", CUSTOM, Tier::Basic))
        .unwrap();
    assert!(matches!(room, RoomEvent::CustomRoom(_)));
    assert_eq!(room.serialize(), raw("org.example.custom", CUSTOM, Tier::Room));

    for tier in [Tier::Basic, Tier::Room] {
        let state =
            StateEvent::<Checked>::try_from_raw(raw("org.example.custom", CUSTOM, tier)).unwrap();
        assert!(matches!(state, StateEvent::CustomState(_)));
        assert_eq!(state.serialize(), raw("org.example.custom", CUSTOM, Tier::State));
    }
}

#[test]
fn a_kind_outside_of_the_collection_is_custom_there_and_its_payload_is_not_parsed() {
    // `m.tag` is a basic kind: only the collection of all events parses it.
    let input = raw("m.tag", HELLO, Tier::Basic);
    assert!(Event::<Checked>::try_from_raw(input.clone()).is_err());
    let room = RoomEvent::<Checked>::try_from_raw(input.clone()).unwrap();
    assert!(matches!(&room, RoomEvent::CustomRoom(custom) if custom.kind == "m.tag"));
    assert_eq!(room.serialize(), raw("m.tag", HELLO, Tier::Room));
    let state = StateEvent::<Checked>::try_from_raw(input).unwrap();
    assert!(matches!(&state, StateEvent::CustomState(custom) if custom.kind == "m.tag"));

    // `m.room.message` is a room kind, and no state kind.
    let input = raw("m.room.message", HELLO, Tier::Room);
    assert!(Event::<Checked>::try_from_raw(input.clone()).is_err());
    assert!(RoomEvent::<Checked>::try_from_raw(input.clone()).is_err());
    let state = StateEvent::<Checked>::try_from_raw(input).unwrap();
    assert!(matches!(&state, StateEvent::CustomState(custom) if custom.payload == HELLO));
    assert_eq!(state.serialize(), raw("m.room.message", HELLO, Tier::State));
}

#[test]
fn every_kind_of_the_table_is_written_back_with_its_discriminator_and_tier() {
    for kind in KINDS {
        for tier in [Tier::Basic, Tier::Room, Tier::State] {
            let input = raw(kind.as_str(), CUSTOM, tier);
            let event = Event::<Unchecked>::try_from_raw(input).unwrap();
            assert!(!matches!(
                event,
                Event::Custom(_) | Event::CustomRoom(_) | Event::CustomState(_)
            ));
            assert_eq!(event.serialize(), raw(kind.as_str(), CUSTOM, kind.tier()));
        }
    }
}

#[test]
fn a_collection_has_a_variant_for_the_kinds_of_its_tiers_only() {
    for kind in KINDS {
        let input = raw(kind.as_str(), CUSTOM, kind.tier());
        let room = RoomEvent::<Unchecked>::try_from_raw(input.clone()).unwrap();
        let custom = matches!(room, RoomEvent::CustomRoom(_) | RoomEvent::CustomState(_));
        assert_eq!(custom, kind.tier() == Tier::Basic);
        let state = StateEvent::<Unchecked>::try_from_raw(input).unwrap();
        let custom = matches!(state, StateEvent::CustomState(_));
        assert_eq!(custom, kind.tier() != Tier::State);
    }
}

#[test]
fn the_collections_agree_on_the_kinds_they_share() {
    for kind in KINDS {
        let input = raw(kind.as_str(), CUSTOM, kind.tier());
        let event = Event::<Unchecked>::try_from_raw(input.clone()).unwrap().serialize();
        if kind.tier().reaches(Tier::Room) {
            let room = RoomEvent::<Unchecked>::try_from_raw(input.clone()).unwrap();
            assert_eq!(room.serialize(), event);
        }
        if kind.tier().reaches(Tier::State) {
            let state = StateEvent::<Unchecked>::try_from_raw(input).unwrap();
            assert_eq!(state.serialize(), event);
        }
    }
}

#[test]
fn a_named_event_survives_being_written_and_converted_again() {
    let state: StateEvent<Checked> = StateEvent::RoomTopic(Topic { topic: "tea at five".into() });
    let written = state.serialize();
    assert_eq!(written, raw("m.room.topic", br#"{"topic":"tea at five"}"#, Tier::State));
    let again = StateEvent::<Checked>::try_from_raw(written.clone()).unwrap();
    assert!(matches!(&again, StateEvent::RoomTopic(leaf) if leaf.topic == "tea at five"));
    assert_eq!(again.serialize(), written);

    let room: RoomEvent<Checked> = RoomEvent::RoomMessage(Body { body: "hi".into() });
    let written = room.serialize();
    assert_eq!(written, raw("m.room.message", br#"{"body":"hi"}"#, Tier::Room));
    let again = RoomEvent::<Checked>::try_from_raw(written.clone()).unwrap();
    assert!(matches!(&again, RoomEvent::RoomMessage(leaf) if leaf.body == "hi"));
    assert_eq!(again.serialize(), written);

    let event: Event<Checked> = Event::Tag(Body { body: "work".into() });
    let written = event.serialize();
    assert_eq!(written, raw("m.tag", br#"{"body":"work"}"#, Tier::Basic));
    let again = Event::<Checked>::try_from_raw(written.clone()).unwrap();
    assert!(matches!(&again, Event::Tag(leaf) if leaf.body == "work"));
    assert_eq!(again.serialize(), written);

    let event: Event<Checked> = Event::RoomMember(Member { membership: "join".into() });
    let written = event.serialize();
    assert_eq!(written, raw("m.room.member", br#"{"membership":"join"}"#, Tier::State));
    let again = Event::<Checked>::try_from_raw(written).unwrap();
    assert!(matches!(&again, Event::RoomMember(leaf) if leaf.membership == "join"));
}

#[test]
fn a_widened_event_is_written_as_the_one_made_in_the_wider_collection() {
    let leaf = Member { membership: "invite".into() };
    let state: StateEvent<Checked> = StateEvent::RoomMember(leaf.clone());
    let as_room: RoomEvent<Checked> = RoomEvent::RoomMember(leaf.clone());
    let as_event: Event<Checked> = Event::RoomMember(leaf);

    assert_eq!(RoomEvent::from(state.clone()).serialize(), as_room.serialize());
    assert_eq!(Event::from(state.clone()).serialize(), as_event.serialize());
    assert_eq!(Event::from(RoomEvent::from(state.clone())).serialize(), as_event.serialize());
    assert_eq!(Event::from(as_room).serialize(), as_event.serialize());
    assert_eq!(state.serialize(), as_event.serialize());
}

#[test]
fn widening_keeps_every_state_and_room_variant() {
    for kind in KINDS {
        let input = raw(kind.as_str(), CUSTOM, kind.tier());
        if kind.tier() == Tier::State {
            let state = StateEvent::<Unchecked>::try_from_raw(input.clone()).unwrap();
            assert_eq!(RoomEvent::from(state.clone()).serialize(), input);
            assert_eq!(Event::from(state).serialize(), input);
        }
        if kind.tier() != Tier::Basic {
            let room = RoomEvent::<Unchecked>::try_from_raw(input.clone()).unwrap();
            assert_eq!(Event::from(room).serialize(), input);
        }
    }
}

#[test]
fn widening_keeps_the_custom_variants() {
    let input = raw("org.example.custom", CUSTOM, Tier::State);
    let state = StateEvent::<Checked>::try_from_raw(input.clone()).unwrap();
    let room = RoomEvent::from(state.clone());
    assert!(matches!(&room, RoomEvent::CustomState(custom) if custom.payload == CUSTOM));
    let event = Event::from(room);
    assert!(matches!(&event, Event::CustomState(custom) if custom.payload == CUSTOM));
    assert_eq!(event.serialize(), input);
    assert!(matches!(Event::from(state), Event::CustomState(_)));

    let input = raw("org.example.custom", CUSTOM, Tier::Room);
    let room = RoomEvent::<Checked>::try_from_raw(input.clone()).unwrap();
    let event = Event::from(room);
    assert!(matches!(&event, Event::CustomRoom(custom) if custom.kind == "org.example.custom"));
    assert_eq!(event.serialize(), input);
}

#[test]
fn a_custom_event_goes_into_the_variant_of_its_type() {
    let basic = CustomEvent { kind: "org.example.a".into(), payload: b"a".to_vec() };
    let room = CustomRoomEvent { kind: "org.example.b".into(), payload: b"b".to_vec() };
    let state = CustomStateEvent { kind: "org.example.c".into(), payload: b"c".to_vec() };

    let event: Event<Checked> = basic.clone().into();
    assert!(matches!(&event, Event::Custom(custom) if *custom == basic));
    assert_eq!(event.serialize(), raw("org.example.a", b"a", Tier::Basic));

    let event: Event<Checked> = room.clone().into();
    assert!(matches!(&event, Event::CustomRoom(custom) if *custom == room));
    assert_eq!(event.serialize(), raw("org.example.b", b"b", Tier::Room));

    let event: Event<Checked> = state.clone().into();
    assert!(matches!(&event, Event::CustomState(custom) if *custom == state));
    assert_eq!(event.serialize(), raw("org.example.c", b"c", Tier::State));

    let event: RoomEvent<Checked> = room.clone().into();
    assert!(matches!(&event, RoomEvent::CustomRoom(custom) if *custom == room));
    assert_eq!(event.serialize(), raw("org.example.b", b"b", Tier::Room));

    let event: RoomEvent<Checked> = state.clone().into();
    assert!(matches!(&event, RoomEvent::CustomState(custom) if *custom == state));

    let event: StateEvent<Checked> = state.clone().into();
    assert!(matches!(&event, StateEvent::CustomState(custom) if *custom == state));
    assert_eq!(event.serialize(), raw("org.example.c", b"c", Tier::State));
}

#[test]
fn a_custom_event_keeps_what_the_raw_value_held() {
    let input = raw("org.example.custom", CUSTOM, Tier::Room);
    let basic = CustomEvent::from_raw(input.clone());
    assert_eq!(basic.kind, "org.example.custom");
    assert_eq!(basic.payload, CUSTOM);
    assert_eq!(basic.to_raw(), raw("org.example.custom", CUSTOM, Tier::Basic));

    let room = CustomRoomEvent::from_raw(input.clone());
    assert_eq!(room.kind, "org.example.custom");
    assert_eq!(room.payload, CUSTOM);
    assert_eq!(room.to_raw(), input);

    let state = CustomStateEvent::from_raw(input);
    assert_eq!(state.kind, "org.example.custom");
    assert_eq!(state.payload, CUSTOM);
    assert_eq!(state.to_raw(), raw("org.example.custom", CUSTOM, Tier::State));
}

#[test]
fn a_raw_value_needs_a_discriminator() {
    assert_eq!(Raw::new(String::new(), CUSTOM.to_vec(), Tier::Basic), None);
    assert_eq!(Raw::new(String::new(), Vec::new(), Tier::State), None);
    assert_eq!(
        Raw::new("m.tag".into(), CUSTOM.to_vec(), Tier::Basic),
        Some(raw("m.tag", CUSTOM, Tier::Basic))
    );
    assert_eq!(Raw::new("x".into(), Vec::new(), Tier::Room), Some(raw("x", b"", Tier::Room)));
}

#[test]
fn a_named_raw_value_takes_discriminator_and_tier_from_the_kind() {
    assert_eq!(
        Raw::named(Kind::RoomTopic, HELLO.to_vec()),
        raw("m.room.topic", HELLO, Tier::State)
    );
    assert_eq!(Raw::named(Kind::Sticker, Vec::new()), raw("m.sticker", b"", Tier::Room));
    assert_eq!(Raw::named(Kind::Typing, CUSTOM.to_vec()), raw("m.typing", CUSTOM, Tier::Basic));
}

#[test]
fn convert_variant_hands_a_value_on_and_pairs_an_error_with_the_input() {
    let input = raw("m.room.topic", HELLO, Tier::State);
    assert_eq!(convert_variant(Ok(7u8), input.clone()), Ok(7u8));
    assert_eq!(
        convert_variant::<u8>(Err("too short".into()), input.clone()),
        Err(("too short".to_owned(), input))
    );
}

#[test]
fn a_verbatim_payload_is_kept_as_it_came() {
    let payloads: [&[u8]; 4] = [b"", HELLO, b"not even json", &[0xff, 0x00, 0x80]];
    for payload in payloads {
        let leaf = Verbatim::parse_from(payload).unwrap();
        assert_eq!(leaf.bytes, payload);
        assert_eq!(leaf.render_to(), payload);
    }
}

#[test]
fn a_copy_of_a_payload_holds_the_same_bytes() {
    assert_eq!(copy_of(&Vec::new()), Vec::<u8>::new());
    assert_eq!(copy_of(&HELLO.to_vec()), HELLO);
}
