//! Lifetime tracking for tablet pads whose memory belongs to the compositor.
//!
//! A root [`TabletPad`] claims a liveliness token in a [`TokenTable`]; any
//! number of [`TabletPadHandle`]s observe that token without keeping it alive.
//! A handle is upgraded to a transient, derived `TabletPad` only while the token
//! is alive and not already checked out.
use vstd::prelude::*;

pub mod device;
pub mod error;
pub mod liveliness;
pub mod tablet_pad;

pub use device::{DeviceKind, InputDevice};
pub use error::{HandleErr, HandleResult};
pub use liveliness::{Token, TokenTable};
pub use tablet_pad::{TabletPad, TabletPadHandle};

verus! {

} // verus!
