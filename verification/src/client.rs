//! The request pipeline: from a path and a payload to a request, and from
//! the response to bytes, a typed value or a failure.

use crate::config::Config;
use crate::error::{
    deserialization_failure, envelope_of_body, map_deserialization_error, OpenAIError,
    OpenAIErrorView, WrappedError,
};
use crate::file::Files;
use crate::moderation::Moderations;
use crate::request::{is_success, Body, Form, Method, RawResponse, Request};
use crate::stream::MessageEvent;
use vstd::prelude::*;

pub use crate::stream::{OpenAIEventMappedStream, OpenAIEventStream};

verus! {

/// What a response comes to: its body where the call succeeded, else the
/// failure that the body reports, or the failure to read one from it. The
/// status alone decides which way the body is read.
pub open spec fn classified(status: u16, body: Seq<u8>) -> Result<Seq<u8>, OpenAIErrorView> {
    if is_success(status) {
        Ok(body)
    } else {
        match envelope_of_body(body) {
            Ok(api) => Err(OpenAIErrorView::ApiError(api)),
            Err(e) => Err(e),
        }
    }
}

/// Is `url` what `config` resolves `path` to?
pub open spec fn resolves<C: Config>(config: C, path: Seq<char>, url: String) -> bool {
    exists|text: &str| text@ == path && #[trigger] call_ensures(C::url, (&config, text), url)
}

/// Does `request` go where `config` resolves `path` to, with the given
/// method, the configuration's headers, and the configuration's query
/// between the pairs `before` and `after`?
pub open spec fn addressed<C: Config>(
    request: Request,
    config: C,
    method: Method,
    path: Seq<char>,
    before: Seq<(Seq<char>, Seq<char>)>,
    after: Seq<(Seq<char>, Seq<char>)>,
) -> bool {
    &&& request.method == method
    &&& resolves(config, path, request.url)
    &&& exists|own: Vec<(String, String)>| #[trigger]
        call_ensures(C::query, (&config,), own) && request.query.deep_view() == before
            + own.deep_view() + after
    &&& call_ensures(C::headers, (&config,), request.headers)
}

/// Does `request` go where `config` resolves `path` to, with the given
/// method and the configuration's query and headers?
pub open spec fn plain<C: Config>(
    request: Request,
    config: C,
    method: Method,
    path: Seq<char>,
) -> bool {
    addressed(request, config, method, path, Seq::empty(), Seq::empty())
}

/// Appends a copy of each pair of `extra` to `target`, in order.
fn extend_pairs(target: &mut Vec<(String, String)>, extra: &Vec<(String, String)>)
    ensures
        final(target).deep_view() == old(target).deep_view() + extra.deep_view(),
{
    let ghost before = target.deep_view();
    let mut i: usize = 0;
    while i < extra.len()
        invariant
            0 <= i <= extra.len(),
            target.deep_view() == before + extra.deep_view().take(i as int),
        decreases extra.len() - i,
    {
        let ghost so_far = target.deep_view();
        let name = extra[i].0.clone();
        let value = extra[i].1.clone();
        target.push((name, value));
        proof {
            assert(target.deep_view() =~= so_far.push(extra.deep_view()[i as int]));
            assert(extra.deep_view().take(i + 1) =~= extra.deep_view().take(i as int).push(
                extra.deep_view()[i as int],
            ));
        }
        i += 1;
    }
    proof {
        assert(extra.deep_view().take(extra.len() as int) =~= extra.deep_view());
    }
}

/// A client: the configuration under which requests are built.
#[derive(Debug, Clone)]
pub struct Client<C: Config> {
    config: C,
}

impl<C: Config> Client<C> {
    /// The configuration of this client.
    pub closed spec fn settings(&self) -> C {
        self.config
    }

    /// A client with the given configuration.
    pub fn with_config(config: C) -> (client: Self)
        ensures
            client.settings() == config,
    {
        Client { config }
    }

    /// The calls of the moderations group, made with this client.
    pub fn moderations(&self) -> (group: Moderations<'_, C>)
        ensures
            *group.client() == *self,
    {
        Moderations::new(self)
    }

    /// The calls of the files group, made with this client.
    pub fn files(&self) -> (group: Files<'_, C>)
        ensures
            *group.client() == *self,
    {
        Files::new(self)
    }

    /// The configuration that the client was made with.
    pub fn config(&self) -> (config: &C)
        ensures
            *config == self.settings(),
    {
        &self.config
    }

    fn request(&self, method: Method, path: &str, body: Body) -> (request: Request)
        ensures
            plain(request, self.settings(), method, path@),
            request.body == body,
    {
        let url = self.config.url(path);
        let query = self.config.query();
        let headers = self.config.headers();
        proof {
            assert(query.deep_view() =~= Seq::empty() + query.deep_view() + Seq::empty());
        }
        Request { method, url, query, headers, body }
    }

    /// A GET request to `path`, whose response is to be deserialized.
    pub fn get(&self, path: &str) -> (request: Request)
        ensures
            plain(request, self.settings(), Method::Get, path@),
            request.body is Empty,
    {
        self.request(Method::Get, path, Body::Empty)
    }

    /// A GET request to `path` with the given query after the
    /// configuration's own.
    pub fn get_with_query(&self, path: &str, query: &Vec<(String, String)>) -> (request: Request)
        ensures
            addressed(
                request,
                self.settings(),
                Method::Get,
                path@,
                Seq::empty(),
                query.deep_view(),
            ),
            request.body is Empty,
    {
        let url = self.config.url(path);
        let mut pairs = self.config.query();
        let headers = self.config.headers();
        let ghost own = pairs;
        extend_pairs(&mut pairs, query);
        proof {
            assert(pairs.deep_view() =~= Seq::empty() + own.deep_view() + query.deep_view());
        }
        Request { method: Method::Get, url, query: pairs, headers, body: Body::Empty }
    }

    /// A DELETE request to `path`.
    pub fn delete(&self, path: &str) -> (request: Request)
        ensures
            plain(request, self.settings(), Method::Delete, path@),
            request.body is Empty,
    {
        self.request(Method::Delete, path, Body::Empty)
    }

    /// A GET request to `path`, whose response is wanted as bytes.
    pub fn get_raw(&self, path: &str) -> (request: Request)
        ensures
            plain(request, self.settings(), Method::Get, path@),
            request.body is Empty,
    {
        self.request(Method::Get, path, Body::Empty)
    }

    /// A POST request to `path` that carries `request` as its JSON body,
    /// whose response is wanted as bytes.
    pub fn post_raw(&self, path: &str, request: serde_json::Value) -> (built: Request)
        ensures
            plain(built, self.settings(), Method::Post, path@),
            built.body == Body::Json(request),
    {
        self.request(Method::Post, path, Body::Json(request))
    }

    /// A POST request to `path` that carries `request` as its JSON body.
    pub fn post(&self, path: &str, request: serde_json::Value) -> (built: Request)
        ensures
            plain(built, self.settings(), Method::Post, path@),
            built.body == Body::Json(request),
    {
        self.request(Method::Post, path, Body::Json(request))
    }

    /// A POST request to `path` that carries a multipart form, whose
    /// response is wanted as bytes.
    ///
    /// The form is made of `form` by `to_form` here, each time a request is
    /// built, and a failure to make it is the failure of this call.
    pub fn post_form_raw<F, B>(&self, path: &str, form: &F, to_form: B) -> (built: Result<
        Request,
        OpenAIError,
    >) where B: FnOnce(&F) -> Result<Form, OpenAIError>
        requires
            to_form.requires((form,)),
        ensures
            exists|made: Result<Form, OpenAIError>| #[trigger]
                to_form.ensures((form,), made) && match made {
                    Ok(parts) => built is Ok && plain(
                        built->Ok_0,
                        self.settings(),
                        Method::Post,
                        path@,
                    ) && built->Ok_0.body == Body::Multipart(parts),
                    Err(e) => built == Err::<Request, OpenAIError>(e),
                },
    {
        match to_form(form) {
            Ok(parts) => Ok(self.request(Method::Post, path, Body::Multipart(parts))),
            Err(e) => Err(e),
        }
    }

    /// A POST request to `path` that carries a multipart form.
    ///
    /// The form is made of `form` by `to_form` here, each time a request is
    /// built, and a failure to make it is the failure of this call.
    pub fn post_form<F, B>(&self, path: &str, form: &F, to_form: B) -> (built: Result<
        Request,
        OpenAIError,
    >) where B: FnOnce(&F) -> Result<Form, OpenAIError>
        requires
            to_form.requires((form,)),
        ensures
            exists|made: Result<Form, OpenAIError>| #[trigger]
                to_form.ensures((form,), made) && match made {
                    Ok(parts) => built is Ok && plain(
                        built->Ok_0,
                        self.settings(),
                        Method::Post,
                        path@,
                    ) && built->Ok_0.body == Body::Multipart(parts),
                    Err(e) => built == Err::<Request, OpenAIError>(e),
                },
    {
        self.post_form_raw(path, form, to_form)
    }

    /// A POST request to `path` that opens an event stream, and the adapter
    /// that reads the stream's payloads as `O`s.
    pub fn post_stream<O>(&self, path: &str, request: serde_json::Value) -> (opened: (
        Request,
        OpenAIEventStream<O>,
    ))
        ensures
            plain(opened.0, self.settings(), Method::Post, path@),
            opened.0.body == Body::Json(request),
            !opened.1.done(),
    {
        (self.request(Method::Post, path, Body::Json(request)), OpenAIEventStream::new())
    }

    /// A POST request to `path` that opens an event stream, and the adapter
    /// that hands the stream's records to `event_mapper`.
    pub fn post_stream_mapped_raw_events<O, M>(
        &self,
        path: &str,
        request: serde_json::Value,
        event_mapper: M,
    ) -> (opened: (Request, OpenAIEventMappedStream<O, M>)) where
        M: Fn(MessageEvent) -> Result<O, OpenAIError>,

        ensures
            plain(opened.0, self.settings(), Method::Post, path@),
            opened.0.body == Body::Json(request),
            !opened.1.done(),
            opened.1.mapper() == event_mapper,
    {
        (
            self.request(Method::Post, path, Body::Json(request)),
            OpenAIEventMappedStream::new(event_mapper),
        )
    }

    /// A GET request to `path` that opens an event stream, with the given
    /// query before the configuration's own, and the adapter that reads the
    /// stream's payloads as `O`s.
    pub fn _get_stream<O>(&self, path: &str, query: &Vec<(String, String)>) -> (opened: (
        Request,
        OpenAIEventStream<O>,
    ))
        ensures
            addressed(
                opened.0,
                self.settings(),
                Method::Get,
                path@,
                query.deep_view(),
                Seq::empty(),
            ),
            opened.0.body is Empty,
            !opened.1.done(),
    {
        let url = self.config.url(path);
        let mut pairs: Vec<(String, String)> = Vec::new();
        extend_pairs(&mut pairs, query);
        let own = self.config.query();
        extend_pairs(&mut pairs, &own);
        let headers = self.config.headers();
        proof {
            assert(pairs.deep_view() =~= query.deep_view() + own.deep_view() + Seq::empty());
        }
        (
            Request { method: Method::Get, url, query: pairs, headers, body: Body::Empty },
            OpenAIEventStream::new(),
        )
    }

    /// Sorts a response by its status, and a call that never got one under
    /// the failures of the transport.
    ///
    /// `sent` is what sending the request came to: the response, or the
    /// transport's account of why there is none.
    pub fn execute_raw(&self, sent: Result<RawResponse, String>) -> (r: Result<
        Vec<u8>,
        OpenAIError,
    >)
        ensures
            match sent {
                Err(why) => r is Err && r->Err_0@ == OpenAIErrorView::Reqwest(why@),
                Ok(response) => match (r, classified(response.status, response.body@)) {
                    (Ok(bytes), Ok(body)) => bytes@ == body,
                    (Err(e), Err(failure)) => e@ == failure,
                    _ => false,
                },
            },
    {
        let response = match sent {
            Ok(response) => response,
            Err(why) => { return Err(OpenAIError::Reqwest(why)); },
        };
        if !response.is_success() {
            let wrapped = match WrappedError::from_slice(response.body.as_slice()) {
                Ok(wrapped) => wrapped,
                Err(e) => { return Err(e); },
            };
            return Err(OpenAIError::ApiError(wrapped.error));
        }
        Ok(response.body)
    }

    /// Sorts a response as [`Client::execute_raw`] does and reads the body of
    /// a call that succeeded as an `O`.
    ///
    /// `decode` reads bytes as an `O`. It is called at most once, with the
    /// body of a response whose status says that the call succeeded. Where it
    /// fails, so does this call, with the bytes that could not be read.
    pub fn execute<O, D>(&self, sent: Result<RawResponse, String>, decode: D) -> (r: Result<
        O,
        OpenAIError,
    >) where D: FnOnce(&[u8]) -> Result<O, serde_json::Error>
        requires
            sent matches Ok(response) ==> (is_success(response.status) ==> forall|bytes: &[u8]|
                bytes@ == response.body@ ==> decode.requires((bytes,))),
        ensures
            match sent {
                Err(why) => r is Err && r->Err_0@ == OpenAIErrorView::Reqwest(why@),
                Ok(response) => match classified(response.status, response.body@) {
                    Err(failure) => r is Err && r->Err_0@ == failure,
                    Ok(body) => exists|bytes: &[u8], decoded: Result<O, serde_json::Error>|
                        bytes@ == body && #[trigger] decode.ensures((bytes,), decoded) && match decoded {
                            Ok(value) => r == Ok::<O, OpenAIError>(value),
                            Err(e) => r is Err && r->Err_0@ == deserialization_failure(e, body),
                        },
                },
            },
    {
        let bytes = match self.execute_raw(sent) {
            Ok(bytes) => bytes,
            Err(e) => { return Err(e); },
        };
        match decode(bytes.as_slice()) {
            Ok(value) => Ok(value),
            Err(e) => Err(map_deserialization_error(e, bytes.as_slice())),
        }
    }
}

} // verus!
