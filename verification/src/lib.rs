//! Deep-link ingestion and delivery core for a single-instance desktop shell.
//!
//! The library captures URL-based activation events, extracts the query
//! component of the first URL in a batch, and forwards it as an opaque payload
//! over a fixed notification channel, together with the single-instance
//! coordination that keeps exactly one application surface alive and focused.

use vstd::prelude::*;

pub mod dispatch;
pub mod guard;
pub mod url_value;

verus! {

/// The fixed name of the outbound notification channel.
pub open spec fn deep_link_channel() -> Seq<char> {
    "deep-link"@
}

/// The fixed channel name as text, for callers that perform the real send.
pub fn deep_link_channel_name() -> (s: &'static str)
    ensures
        s@ == deep_link_channel(),
{
    "deep-link"
}

} // verus!
