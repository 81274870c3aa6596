//! What can be attached to a message: bytes at hand, an open file, a file
//! at a path, or an image at an address.

use vstd::prelude::*;
use vstd::string::StringExecFns;

verus! {

/// The address that a text is read as, if it is read as one.
pub uninterp spec fn url_of(text: Seq<char>) -> Option<url::Url>;

/// Calls `Url::parse`, which reads an absolute address from a text or fails.
/// The result depends on the text alone; the contract gives it a name.
#[verifier::external_body]
pub(crate) fn parse_url(text: &str) -> (parsed: Option<url::Url>)
    ensures
        parsed == url_of(text@),
{
    url::Url::parse(text).ok()
}

/// Calls `Url::path_segments`: the parts of the path between its `/`, each
/// percent-encoded, in their order, or nothing for an address that cannot
/// be a base. Nothing is stated of the result.
#[verifier::external_body]
pub(crate) fn path_segments(address: &url::Url) -> (segments: Option<Vec<String>>) {
    address.path_segments().map(|segments| segments.map(str::to_string).collect())
}

/// Calls `Url::as_str`, the text of the address as it was normalized.
/// Nothing is stated of the result.
#[verifier::external_body]
pub(crate) fn address_text(address: &url::Url) -> (text: String) {
    address.as_str().to_string()
}

/// Calls `Path::file_name`: the last component of the path, or nothing where
/// the path ends in `..` or has no component. How a path is split depends on
/// the platform, so nothing is stated of the result.
#[verifier::external_body]
pub(crate) fn path_file_name(path: &str) -> (name: Option<String>) {
    std::path::Path::new(path).file_name().map(|name| name.to_string_lossy().to_string())
}

/// Why an attachment has no file name.
#[derive(Debug)]
pub enum AttachmentError {
    /// The address of the image has no path from which to take a name; the
    /// error holds the address.
    Url(String),
}

/// Something to attach to a message.
#[derive(Debug)]
#[non_exhaustive]
pub enum AttachmentType {
    /// Bytes with a file name.
    Bytes { data: Vec<u8>, filename: String },
    /// An open file, which stays with the caller, with a file name.
    File { filename: String },
    /// The path of a file.
    Path(String),
    /// The address of an image.
    Image(url::Url),
}

impl AttachmentType {
    /// The attachment that a text stands for: an image if the text is an
    /// address, else the file at the path that the text is.
    pub fn from_str(s: &str) -> (attachment: Self)
        ensures
            match url_of(s@) {
                Some(address) => attachment == AttachmentType::Image(address),
                None => attachment matches AttachmentType::Path(path) && path@ == s@,
            },
    {
        Self::from_parsed(parse_url(s), s)
    }

    /// The attachment that a text stands for, given what the text was read
    /// as: the image at the address if there is one, else the file at the
    /// path that the text is.
    pub fn from_parsed(parsed: Option<url::Url>, s: &str) -> (attachment: Self)
        ensures
            match parsed {
                Some(address) => attachment == AttachmentType::Image(address),
                None => attachment matches AttachmentType::Path(path) && path@ == s@,
            },
    {
        match parsed {
            Some(address) => AttachmentType::Image(address),
            None => AttachmentType::Path(String::from_str(s)),
        }
    }

    /// The file at `path`.
    pub fn from_path(path: &str) -> (attachment: Self)
        ensures
            attachment matches AttachmentType::Path(held) && held@ == path@,
    {
        AttachmentType::Path(String::from_str(path))
    }

    /// `data` under the name `filename`.
    pub fn from_bytes(data: Vec<u8>, filename: String) -> (attachment: Self)
        ensures
            attachment == (AttachmentType::Bytes { data, filename }),
    {
        AttachmentType::Bytes { data, filename }
    }

    /// An open file under the name `filename`.
    pub fn from_file(filename: String) -> (attachment: Self)
        ensures
            attachment == (AttachmentType::File { filename }),
    {
        AttachmentType::File { filename }
    }

    /// The file name of an image whose address has the path segments
    /// `segments` and the text `address`: the last of the segments, or an
    /// error with the address where there is no segment.
    pub open spec fn spec_image_filename(segments: Option<Vec<String>>, address: String) -> Result<
        String,
        AttachmentError,
    > {
        match segments {
            Some(list) => if list@.len() > 0 {
                Ok(list@.last())
            } else {
                Err(AttachmentError::Url(address))
            },
            None => Err(AttachmentError::Url(address)),
        }
    }

    /// The file name of an image whose address has the path segments
    /// `segments` and the text `address`: the last of the segments, or an
    /// error with the address where there is no segment.
    pub fn image_filename(segments: Option<Vec<String>>, address: String) -> (name: Result<
        String,
        AttachmentError,
    >)
        ensures
            name == Self::spec_image_filename(segments, address),
    {
        match segments {
            Some(list) => {
                let mut list = list;
                match list.pop() {
                    Some(last) => Ok(last),
                    None => Err(AttachmentError::Url(address)),
                }
            },
            None => Err(AttachmentError::Url(address)),
        }
    }

    /// The name under which the attachment is sent, given what was found
    /// out about it: the name that was given with bytes or a file; for a
    /// path its last component `path_name`, if it has one; for an address the
    /// last of its path `segments`, and an error with the text `address` of
    /// the address where it has none.
    pub fn filename_from(
        &self,
        path_name: Option<String>,
        segments: Option<Vec<String>>,
        address: String,
    ) -> (name: Result<Option<String>, AttachmentError>)
        ensures
            match self {
                AttachmentType::Bytes { filename, .. } => name matches Ok(Some(given)) && given@
                    == filename@,
                AttachmentType::File { filename } => name matches Ok(Some(given)) && given@
                    == filename@,
                AttachmentType::Path(_) => name == Ok::<Option<String>, AttachmentError>(path_name),
                AttachmentType::Image(_) => name == match Self::spec_image_filename(
                    segments,
                    address,
                ) {
                    Ok(segment) => Ok::<Option<String>, AttachmentError>(Some(segment)),
                    Err(error) => Err::<Option<String>, AttachmentError>(error),
                },
            },
    {
        match self {
            AttachmentType::Bytes { filename, .. } => Ok(Some(filename.clone())),
            AttachmentType::File { filename } => Ok(Some(filename.clone())),
            AttachmentType::Path(_) => Ok(path_name),
            AttachmentType::Image(_) => match Self::image_filename(segments, address) {
                Ok(segment) => Ok(Some(segment)),
                Err(error) => Err(error),
            },
        }
    }

    /// The name under which the attachment is sent: the name that was given
    /// with bytes or a file, the last component of a path if it has one, the
    /// last segment of the path of an address. An address without a path is
    /// an error.
    pub fn filename(&self) -> (name: Result<Option<String>, AttachmentError>)
        ensures
            match self {
                AttachmentType::Bytes { filename, .. } => name matches Ok(Some(given)) && given@
                    == filename@,
                AttachmentType::File { filename } => name matches Ok(Some(given)) && given@
                    == filename@,
                AttachmentType::Path(_) => name is Ok,
                AttachmentType::Image(_) => name matches Ok(found) ==> found is Some,
            },
    {
        match self {
            AttachmentType::Path(path) => {
                self.filename_from(path_file_name(path.as_str()), None, String::new())
            },
            AttachmentType::Image(address) => {
                self.filename_from(None, path_segments(address), address_text(address))
            },
            _ => self.filename_from(None, None, String::new()),
        }
    }
}

} // verus!
