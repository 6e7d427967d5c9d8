//! The untyped form of an event, as it comes off the wire and goes back onto it.

use crate::kind::{Kind, Tier};
use vstd::prelude::*;
use vstd::slice::slice_to_vec;

verus! {

/// An event whose payload has not been held against its kind.
///
/// The discriminator names the kind. The payload holds the rest of the wire
/// fields, byte for byte. The tier is what the wire parser made out of the
/// event's envelope; it is consulted only where the discriminator names no
/// kind of the table.
#[derive(Clone, Debug, PartialEq, Eq)]
pub struct Raw {
    pub kind: String,
    pub payload: Vec<u8>,
    pub tier: Tier,
}

/// What a [`Raw`] value holds.
pub struct RawView {
    pub kind: Seq<char>,
    pub payload: Seq<u8>,
    pub tier: Tier,
}

impl View for Raw {
    type V = RawView;

    open spec fn view(&self) -> RawView {
        RawView { kind: self.kind@, payload: self.payload@, tier: self.tier }
    }
}

impl RawView {
    /// A raw value is well formed when it has a discriminator.
    pub open spec fn wf(self) -> bool {
        self.kind.len() > 0
    }
}

impl Raw {
    /// A raw value is well formed when it has a discriminator.
    pub open spec fn wf(self) -> bool {
        self@.wf()
    }

    /// Makes a raw value, unless the discriminator is empty.
    pub fn new(kind: String, payload: Vec<u8>, tier: Tier) -> (made: Option<Raw>)
        ensures
            made is Some <==> kind@.len() > 0,
            made matches Some(raw) ==> raw == (Raw { kind, payload, tier }) && raw.wf(),
    {
        if kind.as_str().is_empty() {
            None
        } else {
            Some(Raw { kind, payload, tier })
        }
    }

    /// The raw form of an event of a kind of the table, with the payload
    /// that its leaf value was rendered to.
    pub fn named(kind: Kind, payload: Vec<u8>) -> (raw: Raw)
        ensures
            raw@ == (RawView { kind: kind.name(), payload: payload@, tier: kind.spec_tier() }),
            raw.payload == payload,
    {
        Raw { kind: kind.as_str().to_owned(), payload, tier: kind.tier() }
    }
}

/// An owned copy of a payload.
pub fn copy_of(payload: &Vec<u8>) -> (copy: Vec<u8>)
    ensures
        copy@ == payload@,
{
    slice_to_vec(payload.as_slice())
}

} // verus!
