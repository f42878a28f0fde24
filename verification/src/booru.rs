//! The shared pieces of the booru connectors that are plain
//! computation: mapping a site's rating string onto this crate's
//! rating taxonomy.

use vstd::prelude::*;
use crate::text::{lower_seq, eq_lower};
use crate::types::Rating;

verus! {

/// How a booru rating string maps onto the taxonomy: `s`, `safe` and
/// `general` are safe, `q` and `questionable` questionable, `e` and
/// `explicit` explicit, anything else safe — all case-insensitively.
pub open spec fn spec_parse_rating(rating: Seq<char>) -> Rating {
    let r = lower_seq(rating);
    if r == "s"@ || r == "safe"@ || r == "general"@ {
        Rating::Safe
    } else if r == "q"@ || r == "questionable"@ {
        Rating::Questionable
    } else if r == "e"@ || r == "explicit"@ {
        Rating::Explicit
    } else {
        Rating::Safe
    }
}

/// Parse a rating string from any of the booru sites.
pub fn parse_rating(rating: &str) -> (r: Rating)
    ensures
        r == spec_parse_rating(rating@),
{
    if eq_lower(rating, "s") || eq_lower(rating, "safe") || eq_lower(rating, "general") {
        Rating::Safe
    } else if eq_lower(rating, "q") || eq_lower(rating, "questionable") {
        Rating::Questionable
    } else if eq_lower(rating, "e") || eq_lower(rating, "explicit") {
        Rating::Explicit
    } else {
        Rating::Safe
    }
}

} // verus!
