//! Client side of the keyring prompter protocol: the session that asks a
//! privileged prompting service for a confirmation dialog, and what it does
//! with the replies that come back.
//!
//! The library decides; it performs no bus traffic itself. Every handler takes
//! an inbound event and hands back the effect that a driver has to carry out.

pub mod address;
pub mod callback;
pub mod initiator;
pub mod laws;
pub mod prompter;
pub mod properties;

pub use address::{AddressError, CallbackAddress};
pub use callback::{Effect, PrompterCallback, Stage};
pub use initiator::{Phase, SessionInitiator, StartupEffect, TransportError};
pub use prompter::PrompterCall;
pub use properties::Properties;
