//! What the service is started with.

use vstd::prelude::*;

verus! {

/// The address under which the outside world reaches the service, such as
/// `https://example.com`: confirmation links begin with it.
#[derive(Debug)]
pub struct ApplicationBaseUrl(pub String);

impl View for ApplicationBaseUrl {
    type V = Seq<char>;

    open spec fn view(&self) -> Seq<char> {
        self.0@
    }
}

} // verus!
