//! What holds of the conversions between raw and typed events.

use crate::event::Event;
use crate::kind::{lemma_name_is_not_empty, lemma_with_name_of_name, Kind, Tier};
use crate::leaf::LeafPayload;
use crate::raw::RawView;
use crate::room_event::RoomEvent;
use crate::schema::{parsed_as, Schema};
use crate::state_event::StateEvent;
use crate::view::{converted, recognized, EventView};
use vstd::prelude::*;
use vstd::std_specs::convert::FromSpec;

verus! {

/// A raw value whose discriminator the collection has no variant for always
/// converts, whatever its payload is: to a custom variant that holds the
/// discriminator and the payload as they came, and writes them back
/// unchanged. The tier that is written back is the tier of the raw value,
/// raised to the tier at which the collection starts.
pub proof fn lemma_unrecognized_is_kept<S: Schema>(floor: Tier, raw: RawView)
    requires
        !recognized(floor, raw.kind),
    ensures
        converted::<S>(floor, raw) matches Ok(view) && view is Custom && view.wire() == (RawView {
            tier: raw.tier.spec_raised_to(floor),
            ..raw
        }),
{
}

/// A raw value of a tier that the collection holds, whose discriminator the
/// collection has no variant for, is written back exactly as it came.
pub proof fn lemma_unrecognized_round_trip<S: Schema>(floor: Tier, raw: RawView)
    requires
        !recognized(floor, raw.kind),
        raw.tier.spec_reaches(floor),
    ensures
        converted::<S>(floor, raw) matches Ok(view) && view.wire() == raw,
{
}

/// A discriminator that names no kind of the table is recognized by no
/// collection.
pub proof fn lemma_unknown_is_unrecognized(floor: Tier, name: Seq<char>)
    requires
        Kind::with_name(name) is None,
    ensures
        !recognized(floor, name),
{
}

/// Conversion either gives an event or fails on a recognized discriminator:
/// it fails only where the schema's payload type rejects the payload.
pub proof fn lemma_failure_is_a_shape_error<S: Schema>(floor: Tier, raw: RawView)
    requires
        converted::<S>(floor, raw) is Err,
    ensures
        recognized(floor, raw.kind),
        parsed_as::<S>(Kind::with_name(raw.kind)->Some_0, raw.payload) == Err::<Seq<u8>, Seq<char>>(
            converted::<S>(floor, raw)->Err_0,
        ),
{
}

/// The collections are contained in one another: a discriminator that a
/// collection has a variant for also has one in every collection that starts
/// at a lower tier.
pub proof fn lemma_recognized_below(floor: Tier, lower: Tier, name: Seq<char>)
    requires
        recognized(floor, name),
        floor.spec_reaches(lower),
    ensures
        recognized(lower, name),
{
}

/// Two collections that both have a variant for the discriminator of a raw
/// value make the same of it.
pub proof fn lemma_collections_agree<S: Schema>(floor: Tier, lower: Tier, raw: RawView)
    requires
        recognized(floor, raw.kind),
        floor.spec_reaches(lower),
    ensures
        converted::<S>(lower, raw) == converted::<S>(floor, raw),
{
}

/// What a well-formed raw value converts to is well formed.
pub proof fn lemma_conversion_keeps_wf<S: Schema>(floor: Tier, raw: RawView)
    requires
        raw.wf(),
    ensures
        converted::<S>(floor, raw) matches Ok(view) ==> view.wf(),
{
}

/// What a well-formed event is written back to is well formed.
pub proof fn lemma_wire_keeps_wf(view: EventView)
    requires
        view.wf(),
    ensures
        view.wire().wf(),
{
    if let EventView::Named { kind, .. } = view {
        lemma_name_is_not_empty(kind);
    }
}

/// An event that converts from a raw value is of a tier that the collection
/// holds.
pub proof fn lemma_conversion_stays_in_collection<S: Schema>(floor: Tier, raw: RawView)
    ensures
        converted::<S>(floor, raw) matches Ok(view) ==> view.tier().spec_reaches(floor),
{
}

/// Writing a state event back and converting what was written gives the event
/// again, for every variant of a kind of the table.
pub proof fn lemma_state_event_round_trip<S: Schema>(event: StateEvent<S>)
    requires
        event@ is Named,
    ensures
        converted::<S>(Tier::State, event@.wire()) == Ok::<EventView, Seq<char>>(event@),
{
    lemma_with_name_of_name(event@->Named_kind);
    match event {
        StateEvent::RoomAliases(leaf) => leaf.lemma_rendering_parses_back(),
        StateEvent::RoomAvatar(leaf) => leaf.lemma_rendering_parses_back(),
        StateEvent::RoomCanonicalAlias(leaf) => leaf.lemma_rendering_parses_back(),
        StateEvent::RoomCreate(leaf) => leaf.lemma_rendering_parses_back(),
        StateEvent::RoomEncryption(leaf) => leaf.lemma_rendering_parses_back(),
        StateEvent::RoomGuestAccess(leaf) => leaf.lemma_rendering_parses_back(),
        StateEvent::RoomHistoryVisibility(leaf) => leaf.lemma_rendering_parses_back(),
        StateEvent::RoomJoinRules(leaf) => leaf.lemma_rendering_parses_back(),
        StateEvent::RoomMember(leaf) => leaf.lemma_rendering_parses_back(),
        StateEvent::RoomName(leaf) => leaf.lemma_rendering_parses_back(),
        StateEvent::RoomPinnedEvents(leaf) => leaf.lemma_rendering_parses_back(),
        StateEvent::RoomPowerLevels(leaf) => leaf.lemma_rendering_parses_back(),
        StateEvent::RoomServerAcl(leaf) => leaf.lemma_rendering_parses_back(),
        StateEvent::RoomThirdPartyInvite(leaf) => leaf.lemma_rendering_parses_back(),
        StateEvent::RoomTombstone(leaf) => leaf.lemma_rendering_parses_back(),
        StateEvent::RoomTopic(leaf) => leaf.lemma_rendering_parses_back(),
        StateEvent::CustomState(_) => {},
    }
}

/// Every state event is of a tier that the collection holds.
pub proof fn lemma_state_event_tier<S: Schema>(event: StateEvent<S>)
    ensures
        event@.tier().spec_reaches(Tier::State),
{
}

/// Writing a room event back and converting what was written gives the event
/// again, for every variant of a kind of the table.
pub proof fn lemma_room_event_round_trip<S: Schema>(event: RoomEvent<S>)
    requires
        event@ is Named,
    ensures
        converted::<S>(Tier::Room, event@.wire()) == Ok::<EventView, Seq<char>>(event@),
{
    lemma_with_name_of_name(event@->Named_kind);
    match event {
        RoomEvent::CallAnswer(leaf) => leaf.lemma_rendering_parses_back(),
        RoomEvent::CallCandidates(leaf) => leaf.lemma_rendering_parses_back(),
        RoomEvent::CallHangup(leaf) => leaf.lemma_rendering_parses_back(),
        RoomEvent::CallInvite(leaf) => leaf.lemma_rendering_parses_back(),
        RoomEvent::RoomAliases(leaf) => leaf.lemma_rendering_parses_back(),
        RoomEvent::RoomAvatar(leaf) => leaf.lemma_rendering_parses_back(),
        RoomEvent::RoomCanonicalAlias(leaf) => leaf.lemma_rendering_parses_back(),
        RoomEvent::RoomCreate(leaf) => leaf.lemma_rendering_parses_back(),
        RoomEvent::RoomEncrypted(leaf) => leaf.lemma_rendering_parses_back(),
        RoomEvent::RoomEncryption(leaf) => leaf.lemma_rendering_parses_back(),
        RoomEvent::RoomGuestAccess(leaf) => leaf.lemma_rendering_parses_back(),
        RoomEvent::RoomHistoryVisibility(leaf) => leaf.lemma_rendering_parses_back(),
        RoomEvent::RoomJoinRules(leaf) => leaf.lemma_rendering_parses_back(),
        RoomEvent::RoomMember(leaf) => leaf.lemma_rendering_parses_back(),
        RoomEvent::RoomMessage(leaf) => leaf.lemma_rendering_parses_back(),
        RoomEvent::RoomMessageFeedback(leaf) => leaf.lemma_rendering_parses_back(),
        RoomEvent::RoomName(leaf) => leaf.lemma_rendering_parses_back(),
        RoomEvent::RoomPinnedEvents(leaf) => leaf.lemma_rendering_parses_back(),
        RoomEvent::RoomPowerLevels(leaf) => leaf.lemma_rendering_parses_back(),
        RoomEvent::RoomRedaction(leaf) => leaf.lemma_rendering_parses_back(),
        RoomEvent::RoomServerAcl(leaf) => leaf.lemma_rendering_parses_back(),
        RoomEvent::RoomThirdPartyInvite(leaf) => leaf.lemma_rendering_parses_back(),
        RoomEvent::RoomTombstone(leaf) => leaf.lemma_rendering_parses_back(),
        RoomEvent::RoomTopic(leaf) => leaf.lemma_rendering_parses_back(),
        RoomEvent::Sticker(leaf) => leaf.lemma_rendering_parses_back(),
        RoomEvent::CustomRoom(_) => {},
        RoomEvent::CustomState(_) => {},
    }
}

/// Every room event is of a tier that the collection holds.
pub proof fn lemma_room_event_tier<S: Schema>(event: RoomEvent<S>)
    ensures
        event@.tier().spec_reaches(Tier::Room),
{
}

/// Writing an event back and converting what was written gives the event
/// again, for every variant of a kind of the table.
pub proof fn lemma_event_round_trip<S: Schema>(event: Event<S>)
    requires
        event@ is Named,
    ensures
        converted::<S>(Tier::Basic, event@.wire()) == Ok::<EventView, Seq<char>>(event@),
{
    lemma_with_name_of_name(event@->Named_kind);
    match event {
        Event::CallAnswer(leaf) => leaf.lemma_rendering_parses_back(),
        Event::CallCandidates(leaf) => leaf.lemma_rendering_parses_back(),
        Event::CallHangup(leaf) => leaf.lemma_rendering_parses_back(),
        Event::CallInvite(leaf) => leaf.lemma_rendering_parses_back(),
        Event::Direct(leaf) => leaf.lemma_rendering_parses_back(),
        Event::Dummy(leaf) => leaf.lemma_rendering_parses_back(),
        Event::ForwardedRoomKey(leaf) => leaf.lemma_rendering_parses_back(),
        Event::FullyRead(leaf) => leaf.lemma_rendering_parses_back(),
        Event::IgnoredUserList(leaf) => leaf.lemma_rendering_parses_back(),
        Event::KeyVerificationAccept(leaf) => leaf.lemma_rendering_parses_back(),
        Event::KeyVerificationCancel(leaf) => leaf.lemma_rendering_parses_back(),
        Event::KeyVerificationKey(leaf) => leaf.lemma_rendering_parses_back(),
        Event::KeyVerificationMac(leaf) => leaf.lemma_rendering_parses_back(),
        Event::KeyVerificationRequest(leaf) => leaf.lemma_rendering_parses_back(),
        Event::KeyVerificationStart(leaf) => leaf.lemma_rendering_parses_back(),
        Event::Presence(leaf) => leaf.lemma_rendering_parses_back(),
        Event::PushRules(leaf) => leaf.lemma_rendering_parses_back(),
        Event::Receipt(leaf) => leaf.lemma_rendering_parses_back(),
        Event::RoomAliases(leaf) => leaf.lemma_rendering_parses_back(),
        Event::RoomAvatar(leaf) => leaf.lemma_rendering_parses_back(),
        Event::RoomCanonicalAlias(leaf) => leaf.lemma_rendering_parses_back(),
        Event::RoomCreate(leaf) => leaf.lemma_rendering_parses_back(),
        Event::RoomEncrypted(leaf) => leaf.lemma_rendering_parses_back(),
        Event::RoomEncryption(leaf) => leaf.lemma_rendering_parses_back(),
        Event::RoomGuestAccess(leaf) => leaf.lemma_rendering_parses_back(),
        Event::RoomHistoryVisibility(leaf) => leaf.lemma_rendering_parses_back(),
        Event::RoomJoinRules(leaf) => leaf.lemma_rendering_parses_back(),
        Event::RoomMember(leaf) => leaf.lemma_rendering_parses_back(),
        Event::RoomMessage(leaf) => leaf.lemma_rendering_parses_back(),
        Event::RoomMessageFeedback(leaf) => leaf.lemma_rendering_parses_back(),
        Event::RoomName(leaf) => leaf.lemma_rendering_parses_back(),
        Event::RoomPinnedEvents(leaf) => leaf.lemma_rendering_parses_back(),
        Event::RoomPowerLevels(leaf) => leaf.lemma_rendering_parses_back(),
        Event::RoomRedaction(leaf) => leaf.lemma_rendering_parses_back(),
        Event::RoomServerAcl(leaf) => leaf.lemma_rendering_parses_back(),
        Event::RoomThirdPartyInvite(leaf) => leaf.lemma_rendering_parses_back(),
        Event::RoomTombstone(leaf) => leaf.lemma_rendering_parses_back(),
        Event::RoomTopic(leaf) => leaf.lemma_rendering_parses_back(),
        Event::RoomKey(leaf) => leaf.lemma_rendering_parses_back(),
        Event::RoomKeyRequest(leaf) => leaf.lemma_rendering_parses_back(),
        Event::Sticker(leaf) => leaf.lemma_rendering_parses_back(),
        Event::Tag(leaf) => leaf.lemma_rendering_parses_back(),
        Event::Typing(leaf) => leaf.lemma_rendering_parses_back(),
        Event::Custom(_) => {},
        Event::CustomRoom(_) => {},
        Event::CustomState(_) => {},
    }
}

/// Every event is of a tier that the collection holds.
pub proof fn lemma_event_tier<S: Schema>(event: Event<S>)
    ensures
        event@.tier().spec_reaches(Tier::Basic),
{
}

/// A state event that is widened to a room event is written back as the
/// state event is.
pub proof fn lemma_state_event_widens_to_room_event<S: Schema>(event: StateEvent<S>)
    ensures
        RoomEvent::<S>::from_spec(event)@ == event@,
        RoomEvent::<S>::from_spec(event)@.wire() == event@.wire(),
{
}

/// A room event that is widened to an event is written back as the room
/// event is.
pub proof fn lemma_room_event_widens_to_event<S: Schema>(event: RoomEvent<S>)
    ensures
        Event::<S>::from_spec(event)@ == event@,
        Event::<S>::from_spec(event)@.wire() == event@.wire(),
{
}

/// A state event that is widened to an event is written back as the state
/// event is, and it is the same event whether or not it is widened to a room
/// event on the way.
pub proof fn lemma_state_event_widens_to_event<S: Schema>(event: StateEvent<S>)
    ensures
        Event::<S>::from_spec(event)@ == event@,
        Event::<S>::from_spec(event)@.wire() == event@.wire(),
        Event::<S>::from_spec(event) == Event::<S>::from_spec(RoomEvent::<S>::from_spec(event)),
{
}

} // verus!
