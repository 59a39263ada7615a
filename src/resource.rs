use vstd::prelude::*;

verus! {

/// The ways an operation against the storage service fails.
pub enum Error {
    /// The request could not be sent or its reply could not be read.
    Transport(String),
    /// The server answered with a non-success status; holds the reply body.
    RemoteRejection(String),
    /// The reply was read but lacked the resource identifier.
    MalformedResponse,
    /// The credential or the configuration is not available.
    Configuration(String),
}

/// A resource as the server describes it after a create, upload or fetch:
/// every field is optional on the wire.
pub struct ResourceResponse {
    pub id: Option<String>,
    pub web_content_link: Option<String>,
    pub web_view_link: Option<String>,
}

/// The identifier and display links of a remote file or folder.
pub struct FileMetadata {
    pub id: String,
    pub web_content_link: Option<String>,
    pub web_view_link: Option<String>,
}

/// What decoding a reply gives: the record when the reply holds an
/// identifier, otherwise `MalformedResponse`, whatever else it holds.
pub open spec fn decoded(response: ResourceResponse) -> Result<FileMetadata, Error> {
    match response.id {
        Some(id) => Ok(
            FileMetadata {
                id,
                web_content_link: response.web_content_link,
                web_view_link: response.web_view_link,
            },
        ),
        None => Err(Error::MalformedResponse),
    }
}

impl FileMetadata {
    /// Decodes a reply, which must carry an identifier.
    pub fn from(response: ResourceResponse) -> (r: Result<FileMetadata, Error>)
        ensures
            r == decoded(response),
            r is Ok <==> response.id is Some,
    {
        match response.id {
            Some(id) => Ok(
                FileMetadata {
                    id,
                    web_content_link: response.web_content_link,
                    web_view_link: response.web_view_link,
                },
            ),
            None => Err(Error::MalformedResponse),
        }
    }

    /// The link shown for a resource: the content link when the server gave
    /// one, else the view link, else none.
    pub open spec fn display_link_spec(&self) -> Option<String> {
        if self.web_content_link is Some {
            self.web_content_link
        } else {
            self.web_view_link
        }
    }

    /// The link to show for the resource, if any.
    pub fn display_link(&self) -> (r: Option<String>)
        ensures
            r == self.display_link_spec(),
    {
        match &self.web_content_link {
            Some(link) => Some(link.clone()),
            None => match &self.web_view_link {
                Some(link) => Some(link.clone()),
                None => None,
            },
        }
    }
}

/// Whatever a decoded reply holds besides its identifier, a reply without
/// one is refused as malformed.
pub proof fn lemma_missing_id_is_malformed(response: ResourceResponse)
    requires
        response.id is None,
    ensures
        decoded(response) == Err::<FileMetadata, Error>(Error::MalformedResponse),
{
}

/// The shown link is the content link whenever the server gave one, the view
/// link when only that was given, and nothing when neither was.
pub proof fn lemma_link_preference(m: FileMetadata)
    ensures
        m.web_content_link is Some ==> m.display_link_spec() == m.web_content_link,
        m.web_content_link is None ==> m.display_link_spec() == m.web_view_link,
        m.web_content_link is None && m.web_view_link is None ==> m.display_link_spec() is None,
{
}

} // verus!
