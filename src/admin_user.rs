//! What an admin user's profile shows.
use vstd::prelude::*;

verus! {

pub open spec fn profile_image_spec(stored: Seq<char>) -> Seq<char> {
    if stored.len() > 0 {
        "/public/"@ + stored
    } else {
        "https://via.placeholder.com/100x100"@
    }
}

/// Where a user's profile image is served from: the stored file under
/// `/public/`, or a placeholder when none is stored.
pub fn profile_image_url(stored: &String) -> (r: String)
    ensures
        r@ == profile_image_spec(stored@),
{
    if stored.as_str().unicode_len() > 0 {
        String::from_str("/public/").concat(stored.as_str())
    } else {
        String::from_str("https://via.placeholder.com/100x100")
    }
}

} // verus!
