//! Which release is in use, as the marker in the installation directory
//! tells it.

use crate::release::{normalize, normalized};
use crate::text::{option_view, same};
use vstd::prelude::*;

verus! {

/// Whether `tag` is the release in use, given the tag that the marker names.
///
/// Without a marker nothing is in use. Tags are compared in canonical form.
pub open spec fn reports_active(tag: Seq<char>, marker: Option<Seq<char>>) -> bool {
    marker matches Some(named) && normalized(named) == normalized(tag)
}

/// Whether `tag` is the release in use. `marker` is the tag that the marker
/// names, or `None` where there is no marker.
pub fn is_active(tag: &str, marker: Option<&str>) -> (r: bool)
    ensures
        r == reports_active(tag@, option_view(marker)),
{
    match marker {
        None => false,
        Some(named) => {
            let a = normalize(named);
            let b = normalize(tag);
            same(a.as_str(), b.as_str())
        },
    }
}

} // verus!
