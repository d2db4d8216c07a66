use crate::error::OpenAIError;
use crate::request::FilePart;
use crate::types::InputSource;
use vstd::prelude::*;

verus! {

/// The media type under which files are uploaded.
pub open spec fn upload_mime() -> Seq<char> {
    "application/octet-stream"@
}

/// Makes the part of a multipart upload for the given file: its content
/// under its name, as `application/octet-stream`. It does not fail.
pub fn create_file_part(source: InputSource) -> (r: Result<FilePart, OpenAIError>)
    ensures
        r is Ok,
        r->Ok_0.file_name@ == source.name(),
        r->Ok_0.mime@ == upload_mime(),
        r->Ok_0.content@ == source.content(),
{
    let (content, file_name) = match source {
        InputSource::Bytes { filename, bytes } => (bytes, filename),
        InputSource::VecU8 { filename, vec } => (vec, filename),
    };
    Ok(FilePart { file_name, mime: "application/octet-stream".to_owned(), content })
}

} // verus!
