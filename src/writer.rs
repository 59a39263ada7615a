use vstd::prelude::*;

use crate::request::{create_request, guess_mime_type, mime_type_of_path, parents_of, parents_view, CreateRequest, FOLDER_MIME_TYPE};
use crate::resource::{decoded, Error, FileMetadata, ResourceResponse};

verus! {

/// What the caller of a create flow reports back after each call: the decoded
/// reply, or the failure of the call.
pub type Reply = Result<ResourceResponse, Error>;

/// Where a create flow stands.
pub enum Phase {
    /// The metadata create call is out.
    Creating,
    /// The content upload for the stub with this identifier is out.
    Uploading(String),
    /// The fetch of the links of the resource with this identifier is out.
    Fetching(String),
    /// The flow has ended.
    Finished,
}

/// What the caller is to do next.
pub enum Step {
    /// Send the file's content to the resource with this identifier.
    Upload(String),
    /// Read the identifier and links of the resource with this identifier.
    Fetch(String),
    /// The flow has ended with this outcome.
    Done(Result<FileMetadata, Error>),
}

/// The creation of one file or folder: a metadata create call, then, for a
/// file only, a content upload and a fetch of its links.
pub struct CreateFlow {
    pub request: CreateRequest,
    pub is_folder: bool,
    pub phase: Phase,
    /// The identifier of the file stub once the create call returned it: a
    /// flow that fails later leaves that stub on the server without content.
    pub stub: Option<String>,
}

/// The next phase and step of a flow in `phase` on `reply`.
pub open spec fn next(is_folder: bool, phase: Phase, reply: Reply) -> (Phase, Step) {
    match reply {
        Err(e) => (Phase::Finished, Step::Done(Err(e))),
        Ok(response) => match decoded(response) {
            Err(e) => (Phase::Finished, Step::Done(Err(e))),
            Ok(m) => match phase {
                Phase::Creating => if is_folder {
                    (Phase::Finished, Step::Done(Ok(m)))
                } else {
                    (Phase::Uploading(m.id), Step::Upload(m.id))
                },
                Phase::Uploading(id) => (Phase::Fetching(id), Step::Fetch(id)),
                _ => (Phase::Finished, Step::Done(Ok(m))),
            },
        },
    }
}

/// The steps that a flow in `phase` hands out on the replies `replies`, up to
/// its end.
pub open spec fn steps(is_folder: bool, phase: Phase, replies: Seq<Reply>) -> Seq<Step>
    decreases replies.len(),
{
    if replies.len() == 0 || phase is Finished {
        Seq::empty()
    } else {
        let (p, s) = next(is_folder, phase, replies[0]);
        seq![s] + steps(is_folder, p, replies.drop_first())
    }
}

impl CreateFlow {
    /// The flow that creates the local file at `path` under the given
    /// attributes, declared with the MIME type of its extension.
    pub fn file(
        path: &str,
        name: Option<String>,
        description: Option<String>,
        parent: Option<String>,
    ) -> (r: CreateFlow)
        ensures
            !r.is_folder,
            r.phase is Creating,
            r.stub is None,
            r.request.name == name,
            r.request.description == description,
            r.request.mime_type@ == mime_type_of_path(path@),
            parents_view(r.request.parents) == match parent {
                Some(p) => Some(parents_of(p@)),
                None => None::<Seq<Seq<char>>>,
            },
    {
        let mime_type = guess_mime_type(path);
        CreateFlow {
            request: create_request(name, description, parent, mime_type),
            is_folder: false,
            phase: Phase::Creating,
            stub: None,
        }
    }

    /// The flow that creates a folder under the given attributes.
    pub fn folder(name: Option<String>, description: Option<String>, parent: Option<String>) -> (r: CreateFlow)
        ensures
            r.is_folder,
            r.phase is Creating,
            r.stub is None,
            r.request.name == name,
            r.request.description == description,
            r.request.mime_type@ == FOLDER_MIME_TYPE@,
            parents_view(r.request.parents) == match parent {
                Some(p) => Some(parents_of(p@)),
                None => None::<Seq<Seq<char>>>,
            },
    {
        let mime_type = String::from_str(FOLDER_MIME_TYPE);
        CreateFlow {
            request: create_request(name, description, parent, mime_type),
            is_folder: true,
            phase: Phase::Creating,
            stub: None,
        }
    }

    /// Whether the flow has ended.
    pub fn is_finished(&self) -> (r: bool)
        ensures
            r == self.phase is Finished,
    {
        match self.phase {
            Phase::Finished => true,
            _ => false,
        }
    }

    /// Takes the reply to the call that is out and says what to do next.
    pub fn advance(&mut self, reply: Reply) -> (r: Step)
        requires
            !(old(self).phase is Finished),
        ensures
            (final(self).phase, r) == next(old(self).is_folder, old(self).phase, reply),
            final(self).is_folder == old(self).is_folder,
            final(self).request == old(self).request,
            final(self).stub == match r {
                Step::Upload(id) => Some(id),
                _ => old(self).stub,
            },
    {
        let response = match reply {
            Err(e) => {
                self.phase = Phase::Finished;
                return Step::Done(Err(e));
            },
            Ok(response) => response,
        };
        let m = match FileMetadata::from(response) {
            Err(e) => {
                self.phase = Phase::Finished;
                return Step::Done(Err(e));
            },
            Ok(m) => m,
        };
        match &self.phase {
            Phase::Creating => {
                if self.is_folder {
                    self.phase = Phase::Finished;
                    Step::Done(Ok(m))
                } else {
                    self.phase = Phase::Uploading(m.id.clone());
                    self.stub = Some(m.id.clone());
                    Step::Upload(m.id)
                }
            },
            Phase::Uploading(id) => {
                let id = id.clone();
                self.phase = Phase::Fetching(id.clone());
                Step::Fetch(id)
            },
            _ => {
                self.phase = Phase::Finished;
                Step::Done(Ok(m))
            },
        }
    }
}

/// A file flow hands out at most an upload, a fetch and its outcome, in that
/// order; the upload goes to the identifier that the create call returned and
/// the fetch to that same identifier.
pub proof fn lemma_upload_follows_create(replies: Seq<Reply>)
    ensures
        ({
            let s = steps(false, Phase::Creating, replies);
            &&& s.len() <= 3
            &&& forall|i: int| 0 <= i < s.len() && #[trigger] s[i] is Upload ==> i == 0
                && replies[0] is Ok && replies[0]->Ok_0.id == Some(s[i]->Upload_0)
            &&& forall|i: int| 0 <= i < s.len() && #[trigger] s[i] is Fetch ==> i == 1
                && s[0] is Upload && s[i]->Fetch_0 == s[0]->Upload_0
            &&& forall|i: int| 0 <= i < s.len() && #[trigger] s[i] is Done ==> i == s.len() - 1
        }),
{
    let s = steps(false, Phase::Creating, replies);
    if replies.len() > 0 {
        let r1 = replies.drop_first();
        let (p1, _) = next(false, Phase::Creating, replies[0]);
        let s1 = steps(false, p1, r1);
        if r1.len() > 0 && !(p1 is Finished) {
            let r2 = r1.drop_first();
            let (p2, _) = next(false, p1, r1[0]);
            let s2 = steps(false, p2, r2);
            if r2.len() > 0 && !(p2 is Finished) {
                let r3 = r2.drop_first();
                let (p3, _) = next(false, p2, r2[0]);
                assert(p3 is Finished);
                assert(steps(false, p3, r3) =~= Seq::<Step>::empty());
            }
        }
    }
}

/// A folder flow hands out nothing but its outcome: the create call is the
/// only call it makes.
pub proof fn lemma_folder_single_call(replies: Seq<Reply>)
    ensures
        ({
            let s = steps(true, Phase::Creating, replies);
            &&& s.len() <= 1
            &&& forall|i: int| 0 <= i < s.len() ==> #[trigger] s[i] is Done
        }),
{
    if replies.len() > 0 {
        let (p1, _) = next(true, Phase::Creating, replies[0]);
        assert(p1 is Finished);
        assert(steps(true, p1, replies.drop_first()) =~= Seq::<Step>::empty());
    }
}

/// In every phase, a reply without an identifier ends the flow as malformed,
/// whatever else the reply holds.
pub proof fn lemma_missing_id_fails(is_folder: bool, phase: Phase, response: ResourceResponse)
    requires
        response.id is None,
    ensures
        next(is_folder, phase, Ok(response)) == (
        Phase::Finished,
        Step::Done(Err(Error::MalformedResponse)),
        ),
{
}

} // verus!
