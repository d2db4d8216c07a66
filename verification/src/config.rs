//! Where calls go and how they are authorised.

use vstd::prelude::*;

verus! {

/// A transport configuration: it resolves a relative path to an absolute
/// URL and supplies the query parameters and headers that every call
/// carries.
///
/// Nothing is asked of an implementation. The requests that
/// [`crate::client::Client`] builds are stated over what these methods
/// return.
pub trait Config {
    /// The absolute URL that `path` resolves to.
    fn url(&self, path: &str) -> String;

    /// The query parameters of every call, in order.
    fn query(&self) -> Vec<(String, String)>;

    /// The headers of every call.
    fn headers(&self) -> Vec<(String, String)>;
}

} // verus!
