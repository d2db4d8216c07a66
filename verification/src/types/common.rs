use vstd::prelude::*;

verus! {

/// Where the content of an uploaded file comes from.
///
/// Both variants hold the whole content in memory, so a source can be read
/// any number of times.
#[derive(Debug, Clone, PartialEq)]
pub enum InputSource {
    Bytes { filename: String, bytes: Vec<u8> },
    VecU8 { filename: String, vec: Vec<u8> },
}

impl InputSource {
    /// The name under which the file is uploaded.
    pub open spec fn name(self) -> Seq<char> {
        match self {
            InputSource::Bytes { filename, .. } => filename@,
            InputSource::VecU8 { filename, .. } => filename@,
        }
    }

    /// The content of the file.
    pub open spec fn content(self) -> Seq<u8> {
        match self {
            InputSource::Bytes { bytes, .. } => bytes@,
            InputSource::VecU8 { vec, .. } => vec@,
        }
    }
}

} // verus!
