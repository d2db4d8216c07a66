use crate::client::{addressed, plain, Client};
use crate::config::Config;
use crate::error::OpenAIError;
use crate::request::{Body, Form, Method, Request};
use vstd::prelude::*;
use vstd::string::StringExecFns;

verus! {

/// The path of the file `file_id`.
pub open spec fn file_path(file_id: Seq<char>) -> Seq<char> {
    "/files/"@ + file_id
}

/// The path of the content of the file `file_id`.
pub open spec fn content_path(file_id: Seq<char>) -> Seq<char> {
    "/files/"@ + file_id + "/content"@
}

/// Files are used to upload documents that can be used with features like
/// Assistants and Fine-tuning.
pub struct Files<'c, C: Config> {
    client: &'c Client<C>,
}

impl<'c, C: Config> Files<'c, C> {
    /// The client that the calls are made with.
    pub closed spec fn client(&self) -> &'c Client<C> {
        self.client
    }

    pub fn new(client: &'c Client<C>) -> (group: Self)
        ensures
            group.client() == client,
    {
        Files { client }
    }

    /// Uploads a file: a POST to `/files` of the form that `to_form` makes of
    /// `request`.
    pub fn create<F, B>(&self, request: &F, to_form: B) -> (built: Result<
        Request,
        OpenAIError,
    >) where B: FnOnce(&F) -> Result<Form, OpenAIError>
        requires
            to_form.requires((request,)),
        ensures
            exists|made: Result<Form, OpenAIError>| #[trigger]
                to_form.ensures((request,), made) && match made {
                    Ok(parts) => built is Ok && plain(
                        built->Ok_0,
                        self.client().settings(),
                        Method::Post,
                        "/files"@,
                    ) && built->Ok_0.body == Body::Multipart(parts),
                    Err(e) => built == Err::<Request, OpenAIError>(e),
                },
    {
        self.client.post_form("/files", request, to_form)
    }

    /// Lists the files that belong to the user's organization: a GET of
    /// `/files` with the given query.
    pub fn list(&self, query: &Vec<(String, String)>) -> (built: Request)
        ensures
            addressed(
                built,
                self.client().settings(),
                Method::Get,
                "/files"@,
                Seq::empty(),
                query.deep_view(),
            ),
            built.body is Empty,
    {
        self.client.get_with_query("/files", query)
    }

    /// Returns information about a specific file: a GET of `/files/{file_id}`.
    pub fn retrieve(&self, file_id: &str) -> (built: Request)
        ensures
            plain(built, self.client().settings(), Method::Get, file_path(file_id@)),
            built.body is Empty,
    {
        let mut path = "/files/".to_owned();
        path.append(file_id);
        self.client.get(path.as_str())
    }

    /// Deletes a file: a DELETE of `/files/{file_id}`.
    pub fn delete(&self, file_id: &str) -> (built: Request)
        ensures
            plain(built, self.client().settings(), Method::Delete, file_path(file_id@)),
            built.body is Empty,
    {
        let mut path = "/files/".to_owned();
        path.append(file_id);
        self.client.delete(path.as_str())
    }

    /// Returns the contents of the specified file: a GET of
    /// `/files/{file_id}/content`.
    pub fn retrieve_content(&self, file_id: &str) -> (built: Request)
        ensures
            plain(built, self.client().settings(), Method::Get, content_path(file_id@)),
            built.body is Empty,
    {
        let mut path = "/files/".to_owned();
        path.append(file_id);
        path.append("/content");
        self.client.get(path.as_str())
    }
}

} // verus!
