//! Events exchanged between the services.

use vstd::prelude::*;

verus! {

/// A click on a short link, at an instant counted in milliseconds since the
/// Unix epoch.
#[derive(Debug, Clone)]
pub struct ClickEvent {
    pub short_code: String,
    pub at_millis: i64,
}

/// A link's click statistics: its total, the clicks of each of the last seven
/// days, and its last click (milliseconds since the Unix epoch).
#[derive(Debug, Clone)]
pub struct LinkStats {
    pub total_clicks: i64,
    pub weekly_clicks: [i64; 7],
    pub last_clicked_at_millis: i64,
}

} // verus!
