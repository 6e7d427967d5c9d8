//! Heterogeneous collections of events.
//!
//! An event arrives as a [`Raw`] value: a discriminator, a payload whose
//! shape nobody has looked at yet, and a tier. The three collections
//! [`Event`], [`RoomEvent`] and [`StateEvent`] turn it into a typed value, and
//! a typed value back into its raw form. What shape the payload of a kind has
//! is for the [`Schema`] to say.

pub mod custom;
pub mod direction;
pub mod event;
pub mod kind;
pub mod laws;
pub mod leaf;
pub mod raw;
pub mod room;
pub mod room_event;
pub mod schema;
pub mod state_event;
pub mod view;

pub use custom::{CustomEvent, CustomRoomEvent, CustomStateEvent};
pub use direction::Direction;
pub use event::Event;
pub use kind::{Kind, Tier};
pub use leaf::{convert_variant, LeafPayload, Verbatim};
pub use raw::Raw;
pub use room_event::RoomEvent;
pub use schema::{Schema, Unchecked};
pub use state_event::StateEvent;
