//! Redirects that carry a one-time error message to the next page.

use vstd::prelude::*;

verus! {

/// A redirect to `location` that shows `message` as an error there.
#[derive(Debug)]
pub struct FlashRedirect {
    pub location: String,
    pub message: String,
}

impl FlashRedirect {
    /// The redirect to `location` with the error `message`.
    pub fn error(location: &str, message: &str) -> (f: FlashRedirect)
        ensures
            f.location@ == location@,
            f.message@ == message@,
    {
        FlashRedirect { location: location.to_owned(), message: message.to_owned() }
    }
}

} // verus!
