//! The collection of state events.

use crate::custom::{CustomStateEvent};
use crate::kind::{Kind, Tier};
use crate::leaf::{convert_variant, LeafPayload};
use crate::raw::Raw;
use crate::schema::Schema;
use crate::view::{converted, EventView};
use vstd::prelude::*;
use vstd::std_specs::convert::FromSpecImpl;

verus! {

/// A state event.
///
/// A value comes from a raw value through [`StateEvent::try_from_raw`], or from a
/// leaf value through the constructor of its variant, which cannot fail.
#[derive(Clone, Debug)]
pub enum StateEvent<S: Schema> {
    /// `m.room.aliases`
    RoomAliases(S::RoomAliases),
    /// `m.room.avatar`
    RoomAvatar(S::RoomAvatar),
    /// `m.room.canonical_alias`
    RoomCanonicalAlias(S::RoomCanonicalAlias),
    /// `m.room.create`
    RoomCreate(S::RoomCreate),
    /// `m.room.encryption`
    RoomEncryption(S::RoomEncryption),
    /// `m.room.guest_access`
    RoomGuestAccess(S::RoomGuestAccess),
    /// `m.room.history_visibility`
    RoomHistoryVisibility(S::RoomHistoryVisibility),
    /// `m.room.join_rules`
    RoomJoinRules(S::RoomJoinRules),
    /// `m.room.member`
    RoomMember(S::RoomMember),
    /// `m.room.name`
    RoomName(S::RoomName),
    /// `m.room.pinned_events`
    RoomPinnedEvents(S::RoomPinnedEvents),
    /// `m.room.power_levels`
    RoomPowerLevels(S::RoomPowerLevels),
    /// `m.room.server_acl`
    RoomServerAcl(S::RoomServerAcl),
    /// `m.room.third_party_invite`
    RoomThirdPartyInvite(S::RoomThirdPartyInvite),
    /// `m.room.tombstone`
    RoomTombstone(S::RoomTombstone),
    /// `m.room.topic`
    RoomTopic(S::RoomTopic),
    /// Any state event of a kind that the table does not hold.
    CustomState(CustomStateEvent),
}

impl<S: Schema> View for StateEvent<S> {
    type V = EventView;

    open spec fn view(&self) -> EventView {
        match self {
            StateEvent::RoomAliases(leaf) => EventView::Named {
                kind: Kind::RoomAliases,
                payload: leaf.rendered(),
            },
            StateEvent::RoomAvatar(leaf) => EventView::Named {
                kind: Kind::RoomAvatar,
                payload: leaf.rendered(),
            },
            StateEvent::RoomCanonicalAlias(leaf) => EventView::Named {
                kind: Kind::RoomCanonicalAlias,
                payload: leaf.rendered(),
            },
            StateEvent::RoomCreate(leaf) => EventView::Named {
                kind: Kind::RoomCreate,
                payload: leaf.rendered(),
            },
            StateEvent::RoomEncryption(leaf) => EventView::Named {
                kind: Kind::RoomEncryption,
                payload: leaf.rendered(),
            },
            StateEvent::RoomGuestAccess(leaf) => EventView::Named {
                kind: Kind::RoomGuestAccess,
                payload: leaf.rendered(),
            },
            StateEvent::RoomHistoryVisibility(leaf) => EventView::Named {
                kind: Kind::RoomHistoryVisibility,
                payload: leaf.rendered(),
            },
            StateEvent::RoomJoinRules(leaf) => EventView::Named {
                kind: Kind::RoomJoinRules,
                payload: leaf.rendered(),
            },
            StateEvent::RoomMember(leaf) => EventView::Named {
                kind: Kind::RoomMember,
                payload: leaf.rendered(),
            },
            StateEvent::RoomName(leaf) => EventView::Named {
                kind: Kind::RoomName,
                payload: leaf.rendered(),
            },
            StateEvent::RoomPinnedEvents(leaf) => EventView::Named {
                kind: Kind::RoomPinnedEvents,
                payload: leaf.rendered(),
            },
            StateEvent::RoomPowerLevels(leaf) => EventView::Named {
                kind: Kind::RoomPowerLevels,
                payload: leaf.rendered(),
            },
            StateEvent::RoomServerAcl(leaf) => EventView::Named {
                kind: Kind::RoomServerAcl,
                payload: leaf.rendered(),
            },
            StateEvent::RoomThirdPartyInvite(leaf) => EventView::Named {
                kind: Kind::RoomThirdPartyInvite,
                payload: leaf.rendered(),
            },
            StateEvent::RoomTombstone(leaf) => EventView::Named {
                kind: Kind::RoomTombstone,
                payload: leaf.rendered(),
            },
            StateEvent::RoomTopic(leaf) => EventView::Named {
                kind: Kind::RoomTopic,
                payload: leaf.rendered(),
            },
            StateEvent::CustomState(custom) => custom@,
        }
    }
}

impl<S: Schema> StateEvent<S> {
    /// Converts a raw value into the variant that its discriminator selects.
    ///
    /// Where the discriminator selects a variant of a kind of the table, the
    /// payload is parsed as the schema says for that kind; a payload of
    /// another shape fails the conversion, and the failure holds the message
    /// of the shape error and `raw` as it came. Any other discriminator, that of
    /// a basic kind or of a room kind too, gives `CustomState` and cannot fail.
    pub fn try_from_raw(raw: Raw) -> (outcome: Result<Self, (String, Raw)>)
        ensures
            match converted::<S>(Tier::State, raw@) {
                Ok(view) => outcome matches Ok(event) && event@ == view,
                Err(message) => outcome matches Err(failure) && failure.0@ == message
                    && failure.1 == raw,
            },
    {
        match Kind::from_name(raw.kind.as_str()) {
            Some(Kind::RoomAliases) => {
                match convert_variant(S::RoomAliases::parse_from(&raw.payload), raw) {
                    Ok(leaf) => Ok(StateEvent::RoomAliases(leaf)),
                    Err(failure) => Err(failure),
                }
            },
            Some(Kind::RoomAvatar) => {
                match convert_variant(S::RoomAvatar::parse_from(&raw.payload), raw) {
                    Ok(leaf) => Ok(StateEvent::RoomAvatar(leaf)),
                    Err(failure) => Err(failure),
                }
            },
            Some(Kind::RoomCanonicalAlias) => {
                match convert_variant(S::RoomCanonicalAlias::parse_from(&raw.payload), raw) {
                    Ok(leaf) => Ok(StateEvent::RoomCanonicalAlias(leaf)),
                    Err(failure) => Err(failure),
                }
            },
            Some(Kind::RoomCreate) => {
                match convert_variant(S::RoomCreate::parse_from(&raw.payload), raw) {
                    Ok(leaf) => Ok(StateEvent::RoomCreate(leaf)),
                    Err(failure) => Err(failure),
                }
            },
            Some(Kind::RoomEncryption) => {
                match convert_variant(S::RoomEncryption::parse_from(&raw.payload), raw) {
                    Ok(leaf) => Ok(StateEvent::RoomEncryption(leaf)),
                    Err(failure) => Err(failure),
                }
            },
            Some(Kind::RoomGuestAccess) => {
                match convert_variant(S::RoomGuestAccess::parse_from(&raw.payload), raw) {
                    Ok(leaf) => Ok(StateEvent::RoomGuestAccess(leaf)),
                    Err(failure) => Err(failure),
                }
            },
            Some(Kind::RoomHistoryVisibility) => {
                match convert_variant(S::RoomHistoryVisibility::parse_from(&raw.payload), raw) {
                    Ok(leaf) => Ok(StateEvent::RoomHistoryVisibility(leaf)),
                    Err(failure) => Err(failure),
                }
            },
            Some(Kind::RoomJoinRules) => {
                match convert_variant(S::RoomJoinRules::parse_from(&raw.payload), raw) {
                    Ok(leaf) => Ok(StateEvent::RoomJoinRules(leaf)),
                    Err(failure) => Err(failure),
                }
            },
            Some(Kind::RoomMember) => {
                match convert_variant(S::RoomMember::parse_from(&raw.payload), raw) {
                    Ok(leaf) => Ok(StateEvent::RoomMember(leaf)),
                    Err(failure) => Err(failure),
                }
            },
            Some(Kind::RoomName) => {
                match convert_variant(S::RoomName::parse_from(&raw.payload), raw) {
                    Ok(leaf) => Ok(StateEvent::RoomName(leaf)),
                    Err(failure) => Err(failure),
                }
            },
            Some(Kind::RoomPinnedEvents) => {
                match convert_variant(S::RoomPinnedEvents::parse_from(&raw.payload), raw) {
                    Ok(leaf) => Ok(StateEvent::RoomPinnedEvents(leaf)),
                    Err(failure) => Err(failure),
                }
            },
            Some(Kind::RoomPowerLevels) => {
                match convert_variant(S::RoomPowerLevels::parse_from(&raw.payload), raw) {
                    Ok(leaf) => Ok(StateEvent::RoomPowerLevels(leaf)),
                    Err(failure) => Err(failure),
                }
            },
            Some(Kind::RoomServerAcl) => {
                match convert_variant(S::RoomServerAcl::parse_from(&raw.payload), raw) {
                    Ok(leaf) => Ok(StateEvent::RoomServerAcl(leaf)),
                    Err(failure) => Err(failure),
                }
            },
            Some(Kind::RoomThirdPartyInvite) => {
                match convert_variant(S::RoomThirdPartyInvite::parse_from(&raw.payload), raw) {
                    Ok(leaf) => Ok(StateEvent::RoomThirdPartyInvite(leaf)),
                    Err(failure) => Err(failure),
                }
            },
            Some(Kind::RoomTombstone) => {
                match convert_variant(S::RoomTombstone::parse_from(&raw.payload), raw) {
                    Ok(leaf) => Ok(StateEvent::RoomTombstone(leaf)),
                    Err(failure) => Err(failure),
                }
            },
            Some(Kind::RoomTopic) => {
                match convert_variant(S::RoomTopic::parse_from(&raw.payload), raw) {
                    Ok(leaf) => Ok(StateEvent::RoomTopic(leaf)),
                    Err(failure) => Err(failure),
                }
            },
            _ => Ok(StateEvent::CustomState(CustomStateEvent::from_raw(raw))),
        }
    }

    /// Writes the event back to its raw form.
    ///
    /// A variant of a kind of the table gives the discriminator of the kind
    /// and the payload that its leaf value renders to. A custom variant gives
    /// the discriminator and the payload that it stored.
    pub fn serialize(&self) -> (raw: Raw)
        ensures
            raw@ == self@.wire(),
    {
        match self {
            StateEvent::RoomAliases(leaf) => Raw::named(Kind::RoomAliases, leaf.render_to()),
            StateEvent::RoomAvatar(leaf) => Raw::named(Kind::RoomAvatar, leaf.render_to()),
            StateEvent::RoomCanonicalAlias(leaf) => {
                Raw::named(Kind::RoomCanonicalAlias, leaf.render_to())
            },
            StateEvent::RoomCreate(leaf) => Raw::named(Kind::RoomCreate, leaf.render_to()),
            StateEvent::RoomEncryption(leaf) => Raw::named(Kind::RoomEncryption, leaf.render_to()),
            StateEvent::RoomGuestAccess(leaf) => {
                Raw::named(Kind::RoomGuestAccess, leaf.render_to())
            },
            StateEvent::RoomHistoryVisibility(leaf) => {
                Raw::named(Kind::RoomHistoryVisibility, leaf.render_to())
            },
            StateEvent::RoomJoinRules(leaf) => Raw::named(Kind::RoomJoinRules, leaf.render_to()),
            StateEvent::RoomMember(leaf) => Raw::named(Kind::RoomMember, leaf.render_to()),
            StateEvent::RoomName(leaf) => Raw::named(Kind::RoomName, leaf.render_to()),
            StateEvent::RoomPinnedEvents(leaf) => {
                Raw::named(Kind::RoomPinnedEvents, leaf.render_to())
            },
            StateEvent::RoomPowerLevels(leaf) => {
                Raw::named(Kind::RoomPowerLevels, leaf.render_to())
            },
            StateEvent::RoomServerAcl(leaf) => Raw::named(Kind::RoomServerAcl, leaf.render_to()),
            StateEvent::RoomThirdPartyInvite(leaf) => {
                Raw::named(Kind::RoomThirdPartyInvite, leaf.render_to())
            },
            StateEvent::RoomTombstone(leaf) => Raw::named(Kind::RoomTombstone, leaf.render_to()),
            StateEvent::RoomTopic(leaf) => Raw::named(Kind::RoomTopic, leaf.render_to()),
            StateEvent::CustomState(custom) => custom.to_raw(),
        }
    }
}

impl<S: Schema> From<CustomStateEvent> for StateEvent<S> {
    fn from(custom: CustomStateEvent) -> (event: Self)
        ensures
            event@ == custom@,
    {
        StateEvent::CustomState(custom)
    }
}

impl<S: Schema> FromSpecImpl<CustomStateEvent> for StateEvent<S> {
    open spec fn obeys_from_spec() -> bool {
        true
    }

    open spec fn from_spec(custom: CustomStateEvent) -> Self {
        StateEvent::CustomState(custom)
    }
}

} // verus!
