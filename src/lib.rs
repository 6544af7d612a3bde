//! Message-handling core of an interoperable state machine protocol: consensus updates,
//! request/response/timeout verification and outbound commitment bookkeeping.

pub mod consensus;
pub mod error;
pub mod handlers;
pub mod hash_laws;
pub mod host;
pub mod messaging;
pub mod router;
pub mod state_machine;
pub mod store;
pub mod testsuite;
pub mod util;
