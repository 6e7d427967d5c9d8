//! What a typed event holds, and what a raw value converts to.

use crate::kind::{Kind, Tier};
use crate::raw::RawView;
use crate::schema::{parsed_as, Schema};
use vstd::prelude::*;

verus! {

/// What a typed event holds, in any of the three collections.
pub enum EventView {
    /// An event of a kind of the table, with the payload that its leaf
    /// value renders to.
    Named { kind: Kind, payload: Seq<u8> },
    /// An event of another kind, with the tier it was resolved under and
    /// the discriminator and payload it came with.
    Custom { tier: Tier, kind: Seq<char>, payload: Seq<u8> },
}

impl EventView {
    /// The tier of the event.
    pub open spec fn tier(self) -> Tier {
        match self {
            EventView::Named { kind, .. } => kind.spec_tier(),
            EventView::Custom { tier, .. } => tier,
        }
    }

    /// The raw form that the event is written back to.
    pub open spec fn wire(self) -> RawView {
        match self {
            EventView::Named { kind, payload } => RawView {
                kind: kind.name(),
                payload,
                tier: kind.spec_tier(),
            },
            EventView::Custom { tier, kind, payload } => RawView { kind, payload, tier },
        }
    }

    /// An event is well formed when it has a discriminator.
    pub open spec fn wf(self) -> bool {
        self matches EventView::Custom { kind, .. } ==> kind.len() > 0
    }
}

/// Whether a collection that starts at the tier `floor` has a variant for the
/// discriminator `name`.
pub open spec fn recognized(floor: Tier, name: Seq<char>) -> bool {
    Kind::with_name(name) matches Some(kind) && kind.spec_tier().spec_reaches(floor)
}

/// What the collection that starts at the tier `floor` makes of `raw`.
///
/// A discriminator that the collection has a variant for selects that
/// variant, and the payload is parsed as the schema says for its kind: the
/// result is the variant, or the message of the shape error. Any other
/// discriminator gives the custom variant of the raw value's tier, raised to
/// `floor`, with the discriminator and the payload as they came.
pub open spec fn converted<S: Schema>(floor: Tier, raw: RawView) -> Result<EventView, Seq<char>> {
    if recognized(floor, raw.kind) {
        let kind = Kind::with_name(raw.kind)->Some_0;
        match parsed_as::<S>(kind, raw.payload) {
            Ok(payload) => Ok(EventView::Named { kind, payload }),
            Err(message) => Err(message),
        }
    } else {
        Ok(
            EventView::Custom {
                tier: raw.tier.spec_raised_to(floor),
                kind: raw.kind,
                payload: raw.payload,
            },
        )
    }
}

} // verus!
