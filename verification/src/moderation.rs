use crate::client::{plain, Client};
use crate::config::Config;
use crate::request::{Body, Method, Request};
use vstd::prelude::*;

verus! {

/// Given some input text, says whether the model classifies it as
/// potentially harmful across several categories.
pub struct Moderations<'c, C: Config> {
    client: &'c Client<C>,
}

impl<'c, C: Config> Moderations<'c, C> {
    /// The client that the calls are made with.
    pub closed spec fn client(&self) -> &'c Client<C> {
        self.client
    }

    pub fn new(client: &'c Client<C>) -> (group: Self)
        ensures
            group.client() == client,
    {
        Moderations { client }
    }

    /// Classifies if text is potentially harmful: a POST of `request` to
    /// `/moderations`.
    pub fn create(&self, request: serde_json::Value) -> (built: Request)
        ensures
            plain(built, self.client().settings(), Method::Post, "/moderations"@),
            built.body == Body::Json(request),
    {
        self.client.post("/moderations", request)
    }
}

} // verus!
