use crate::client::{addressed, plain, Client};
use crate::config::Config;
use crate::request::{Body, Method, Request};
use vstd::prelude::*;
use vstd::string::StringExecFns;

verus! {

/// The path of the messages of the thread `thread_id`.
pub open spec fn messages_path(thread_id: Seq<char>) -> Seq<char> {
    "/threads/"@ + thread_id + "/messages"@
}

/// The path of the message `message_id` of the thread `thread_id`.
pub open spec fn message_path(thread_id: Seq<char>, message_id: Seq<char>) -> Seq<char> {
    messages_path(thread_id) + "/"@ + message_id
}

/// The messages within a thread.
pub struct Messages<'c, C: Config> {
    /// The ID of the thread that the messages belong to.
    pub thread_id: String,
    client: &'c Client<C>,
}

impl<'c, C: Config> Messages<'c, C> {
    /// The client that the calls are made with.
    pub closed spec fn client(&self) -> &'c Client<C> {
        self.client
    }

    /// The ID of the thread that the messages belong to.
    pub closed spec fn thread(&self) -> Seq<char> {
        self.thread_id@
    }

    pub fn new(client: &'c Client<C>, thread_id: &str) -> (group: Self)
        ensures
            group.client() == client,
            group.thread() == thread_id@,
    {
        Messages { client, thread_id: thread_id.to_owned() }
    }

    fn messages(&self) -> (path: String)
        ensures
            path@ == messages_path(self.thread()),
    {
        let mut path = "/threads/".to_owned();
        path.append(self.thread_id.as_str());
        path.append("/messages");
        path
    }

    fn message(&self, message_id: &str) -> (path: String)
        ensures
            path@ == message_path(self.thread(), message_id@),
    {
        let mut path = self.messages();
        path.append("/");
        path.append(message_id);
        path
    }

    /// Creates a message: a POST of `request` to the thread's messages.
    pub fn create(&self, request: serde_json::Value) -> (built: Request)
        ensures
            plain(
                built,
                self.client().settings(),
                Method::Post,
                messages_path(self.thread()),
            ),
            built.body == Body::Json(request),
    {
        let path = self.messages();
        self.client.post(path.as_str(), request)
    }

    /// Retrieves a message: a GET of the message.
    pub fn retrieve(&self, message_id: &str) -> (built: Request)
        ensures
            plain(
                built,
                self.client().settings(),
                Method::Get,
                message_path(self.thread(), message_id@),
            ),
            built.body is Empty,
    {
        let path = self.message(message_id);
        self.client.get(path.as_str())
    }

    /// Modifies a message: a POST of `request` to the message.
    pub fn update(&self, message_id: &str, request: serde_json::Value) -> (built: Request)
        ensures
            plain(
                built,
                self.client().settings(),
                Method::Post,
                message_path(self.thread(), message_id@),
            ),
            built.body == Body::Json(request),
    {
        let path = self.message(message_id);
        self.client.post(path.as_str(), request)
    }

    /// Lists the messages of the thread: a GET of the thread's messages with
    /// the given query.
    pub fn list(&self, query: &Vec<(String, String)>) -> (built: Request)
        ensures
            addressed(
                built,
                self.client().settings(),
                Method::Get,
                messages_path(self.thread()),
                Seq::empty(),
                query.deep_view(),
            ),
            built.body is Empty,
    {
        let path = self.messages();
        self.client.get_with_query(path.as_str(), query)
    }
}

} // verus!
