//! A verified core for a terminal time-tracking client.
//!
//! The crate models the interactive pieces of the client — a selectable,
//! searchable list widget, a small keyboard-driven screen state machine, and
//! the request URL builders for the remote REST API — and proves their
//! contracts.  Terminal drawing and network transport live outside the
//! library and only hand plain values in and out.

use vstd::prelude::*;

pub mod api;
pub mod clockify;
pub mod error;
pub mod text;
pub mod ui;

verus! {

/// The fixed default base URL of the remote service.
pub open spec fn default_base_url() -> Seq<char> {
    "https://api.clockify.me/api/v1"@
}

} // verus!
