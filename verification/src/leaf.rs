//! What the collections ask of the payload type of an event kind.

use crate::raw::{copy_of, Raw};
use vstd::prelude::*;
use vstd::slice::slice_to_vec;

verus! {

/// The payload type of one event kind.
///
/// The collections do not look into a payload. They hand it to the type that
/// the schema names for the event's kind, and take from that type the payload
/// to write back. A value is known to them by the payload it renders to.
pub trait LeafPayload: Sized {
    /// What parsing makes of `payload`: the payload that the parsed value
    /// renders to, or the message of the shape error.
    spec fn parsed(payload: Seq<u8>) -> Result<Seq<u8>, Seq<char>>;

    /// The payload that the value renders to.
    spec fn rendered(&self) -> Seq<u8>;

    /// Holds `payload` against the shape of the kind.
    fn parse_from(payload: &[u8]) -> (outcome: Result<Self, String>)
        ensures
            match Self::parsed(payload@) {
                Ok(rendering) => outcome matches Ok(value) && value.rendered() == rendering,
                Err(message) => outcome matches Err(text) && text@ == message,
            },
    ;

    /// Renders the value to the payload that stands for it on the wire.
    fn render_to(&self) -> (payload: Vec<u8>)
        ensures
            payload@ == self.rendered(),
    ;

    /// Rendering loses nothing: what a value renders to parses, and to a
    /// value that renders to the same payload again.
    proof fn lemma_rendering_parses_back(&self)
        ensures
            Self::parsed(self.rendered()) == Ok::<Seq<u8>, Seq<char>>(self.rendered()),
    ;
}

/// Settles the conversion of one variant, once its payload has been parsed.
///
/// A parsed value is handed on. A shape error is paired with `raw`, which is
/// handed back as it came.
pub fn convert_variant<T>(parsed: Result<T, String>, raw: Raw) -> (settled: Result<
    T,
    (String, Raw),
>)
    ensures
        match parsed {
            Ok(value) => settled == Ok::<T, (String, Raw)>(value),
            Err(message) => settled == Err::<T, (String, Raw)>((message, raw)),
        },
{
    match parsed {
        Ok(value) => Ok(value),
        Err(message) => Err((message, raw)),
    }
}

/// A payload that is kept as it came, for a kind whose shape is not checked.
#[derive(Clone, Debug, PartialEq, Eq)]
pub struct Verbatim {
    pub bytes: Vec<u8>,
}

impl LeafPayload for Verbatim {
    open spec fn parsed(payload: Seq<u8>) -> Result<Seq<u8>, Seq<char>> {
        Ok(payload)
    }

    open spec fn rendered(&self) -> Seq<u8> {
        self.bytes@
    }

    fn parse_from(payload: &[u8]) -> (outcome: Result<Self, String>) {
        Ok(Verbatim { bytes: slice_to_vec(payload) })
    }

    fn render_to(&self) -> (payload: Vec<u8>) {
        copy_of(&self.bytes)
    }

    proof fn lemma_rendering_parses_back(&self) {
    }
}

} // verus!
