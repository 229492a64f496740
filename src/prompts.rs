//! Choices offered while matching metadata, and how durations are shown there.

use vstd::prelude::*;
use crate::text::{decimal, push_decimal, push_str, string_of};

verus! {

/// What the user chose after seeing the candidates.
#[derive(Debug, Clone, Copy, PartialEq, Eq, Structural)]
pub enum UserChoice {
    /// The candidate at this index.
    SelectMatch(usize),
    /// Leave the file unchanged.
    Skip,
    /// Enter the metadata by hand.
    ManualEntry,
    /// Search again with other terms.
    CustomSearch,
}

/// A duration in milliseconds as "<h>h <m>m", or "N/A" when unknown.
pub open spec fn duration_text(ms: Option<u64>) -> Seq<char> {
    match ms {
        Some(ms) => decimal((ms / 3600000) as nat) + "h "@ + decimal(((ms % 3600000) / 60000) as nat)
            + "m"@,
        None => "N/A"@,
    }
}

/// Shows a duration in hours and minutes (see [`duration_text`]).
pub fn format_duration(ms: Option<u64>) -> (r: String)
    ensures
        r@ == duration_text(ms),
{
    match ms {
        Some(ms) => {
            let mut v: Vec<char> = Vec::new();
            push_decimal(&mut v, ms / 3600000);
            push_str(&mut v, "h ");
            push_decimal(&mut v, (ms % 3600000) / 60000);
            push_str(&mut v, "m");
            assert(v@ =~= duration_text(Some(ms)));
            string_of(&v)
        },
        None => "N/A".to_owned(),
    }
}

} // verus!
