use vstd::prelude::*;

verus! {

pub const FILES_FILE_API: &'static str = "https://www.googleapis.com/upload/drive/v3/files";

pub const FILES_METADATA_API: &'static str = "https://www.googleapis.com/drive/v3/files";

pub const FOLDER_MIME_TYPE: &'static str = "application/vnd.google-apps.folder";

/// What `str::trim` leaves of a string.
pub uninterp spec fn trimmed(s: Seq<char>) -> Seq<char>;

/// The extension that `Path::extension` finds in a path, when it is valid text.
pub uninterp spec fn extension_of(path: Seq<char>) -> Option<Seq<char>>;

/// The first MIME type that mime_guess knows for an extension, or
/// `application/octet-stream`.
pub uninterp spec fn mime_of_extension(ext: Seq<char>) -> Seq<char>;

/// The `application/x-www-form-urlencoded` text of a list of pairs.
pub uninterp spec fn urlencoded(pairs: Seq<(Seq<char>, Seq<char>)>) -> Seq<char>;

/// Relies on `str::trim`: whitespace is removed from both ends.
#[verifier::external_body]
fn trim(s: &str) -> (r: String)
    ensures
        r@ == trimmed(s@),
{
    s.trim().to_string()
}

/// Relies on `Path::extension`, read back as text.
#[verifier::external_body]
fn path_extension(path: &str) -> (r: Option<String>)
    ensures
        r is Some <==> extension_of(path@) is Some,
        r is Some ==> r->Some_0@ == extension_of(path@)->Some_0,
{
    std::path::Path::new(path).extension().and_then(|e| e.to_str()).map(|e| e.to_string())
}

/// Relies on `mime_guess::from_ext(..).first_or_octet_stream()`: an empty
/// extension gives an empty guess, hence the octet-stream type.
#[verifier::external_body]
fn mime_for_extension(ext: &str) -> (r: String)
    ensures
        r@ == mime_of_extension(ext@),
        ext@.len() == 0 ==> r@ == "application/octet-stream"@,
{
    mime_guess::from_ext(ext).first_or_octet_stream().to_string()
}

pub open spec fn pairs_view(pairs: Seq<(String, String)>) -> Seq<(Seq<char>, Seq<char>)> {
    pairs.map_values(|p: (String, String)| (p.0@, p.1@))
}

/// Relies on `form_urlencoded::Serializer`, fed every pair in order.
#[verifier::external_body]
pub(crate) fn encode_query(pairs: &Vec<(String, String)>) -> (r: String)
    ensures
        r@ == urlencoded(pairs_view(pairs@)),
{
    url::form_urlencoded::Serializer::new(String::new()).extend_pairs(pairs.iter()).finish()
}

/// The MIME type declared for a local file: the one known for its extension,
/// the octet-stream type when it has none.
pub open spec fn mime_type_of_path(path: Seq<char>) -> Seq<char> {
    match extension_of(path) {
        Some(ext) => mime_of_extension(ext),
        None => mime_of_extension(Seq::empty()),
    }
}

/// The MIME type to declare for the local file at `path`.
pub fn guess_mime_type(path: &str) -> (r: String)
    ensures
        r@ == mime_type_of_path(path@),
        extension_of(path@) is None ==> r@ == "application/octet-stream"@,
{
    match path_extension(path) {
        Some(ext) => mime_for_extension(ext.as_str()),
        None => {
            proof {
                reveal_strlit("");
                assert(""@ =~= Seq::<char>::empty());
            }
            mime_for_extension("")
        },
    }
}

/// The pieces of `s` between slashes, in order; a string without a slash is
/// one piece.
pub open spec fn split_slash(s: Seq<char>) -> Seq<Seq<char>>
    decreases s.len(),
{
    if s.len() == 0 {
        seq![Seq::empty()]
    } else {
        let prev = split_slash(s.drop_last());
        if s.last() == '/' {
            prev.push(Seq::empty())
        } else {
            prev.update(prev.len() - 1, prev.last().push(s.last()))
        }
    }
}

/// The container identifiers named by a slash-separated list, each trimmed.
pub open spec fn parents_of(s: Seq<char>) -> Seq<Seq<char>> {
    split_slash(s).map_values(|p: Seq<char>| trimmed(p))
}

/// Splits a parent list at each `/` and trims every piece.
pub fn parse_parents(s: &str) -> (r: Vec<String>)
    ensures
        r@.map_values(|p: String| p@) == parents_of(s@),
{
    let n = s.unicode_len();
    let mut parts: Vec<String> = Vec::new();
    let ghost mut raw: Seq<Seq<char>> = Seq::empty();
    let mut start: usize = 0;
    let mut i: usize = 0;
    proof {
        assert(s@.subrange(0, 0) =~= Seq::<char>::empty());
        assert(split_slash(Seq::<char>::empty()) =~= raw.push(s@.subrange(0, 0)));
    }
    while i < n
        invariant
            n == s@.len(),
            start <= i <= n,
            parts@.len() == raw.len(),
            forall|k: int| 0 <= k < raw.len() ==> #[trigger] parts@[k]@ == trimmed(raw[k]),
            split_slash(s@.subrange(0, i as int)) == raw.push(s@.subrange(start as int, i as int)),
        decreases n - i,
    {
        let c = s.get_char(i);
        proof {
            let pre = s@.subrange(0, i as int + 1);
            assert(pre.drop_last() =~= s@.subrange(0, i as int));
            assert(pre.last() == c);
        }
        if c == '/' {
            let piece = s.substring_char(start, i);
            let t = trim(piece);
            parts.push(t);
            proof {
                raw = raw.push(s@.subrange(start as int, i as int));
                assert(s@.subrange(i as int + 1, i as int + 1) =~= Seq::<char>::empty());
            }
            start = i + 1;
        } else {
            proof {
                assert(s@.subrange(start as int, i as int).push(c) =~= s@.subrange(
                    start as int,
                    i as int + 1,
                ));
                let pre = s@.subrange(0, i as int);
                let r2 = raw.push(s@.subrange(start as int, i as int));
                assert(r2.update(r2.len() - 1, r2.last().push(c)) =~= raw.push(
                    s@.subrange(start as int, i as int + 1),
                ));
            }
        }
        i = i + 1;
    }
    let piece = s.substring_char(start, n);
    let t = trim(piece);
    parts.push(t);
    proof {
        raw = raw.push(s@.subrange(start as int, n as int));
        assert(s@.subrange(0, n as int) =~= s@);
        assert(parts@.map_values(|p: String| p@) =~= parents_of(s@));
    }
    parts
}

/// The metadata body of a create call: exactly the attributes that were
/// given, and the MIME type.
pub struct CreateRequest {
    pub name: Option<String>,
    pub description: Option<String>,
    pub parents: Option<Vec<String>>,
    pub mime_type: String,
}

pub open spec fn parents_view(p: Option<Vec<String>>) -> Option<Seq<Seq<char>>> {
    match p {
        Some(v) => Some(v@.map_values(|s: String| s@)),
        None => None,
    }
}

/// The create body for the given attributes; a parent list is parsed.
pub fn create_request(
    name: Option<String>,
    description: Option<String>,
    parent: Option<String>,
    mime_type: String,
) -> (r: CreateRequest)
    ensures
        r.name == name,
        r.description == description,
        r.mime_type == mime_type,
        parents_view(r.parents) == match parent {
            Some(p) => Some(parents_of(p@)),
            None => None::<Seq<Seq<char>>>,
        },
{
    let parents = match parent {
        Some(p) => Some(parse_parents(p.as_str())),
        None => None,
    };
    CreateRequest { name, description, parents, mime_type }
}

/// The address that a create call posts to.
pub fn metadata_url() -> (r: String)
    ensures
        r@ == FILES_METADATA_API@,
{
    String::from_str(FILES_METADATA_API)
}

/// The address that the content of resource `id` is sent to.
pub fn upload_url(id: &str) -> (r: String)
    ensures
        r@ == FILES_FILE_API@ + "/"@ + id@ + "?uploadType=media"@,
{
    String::from_str(FILES_FILE_API).concat("/").concat(id).concat("?uploadType=media")
}

pub open spec fn fetch_params() -> Seq<(Seq<char>, Seq<char>)> {
    seq![("fields"@, "id,webContentLink,webViewLink"@)]
}

/// The address that the identifier and links of resource `id` are read from.
pub fn fetch_url(id: &str) -> (r: String)
    ensures
        r@ == FILES_METADATA_API@ + "/"@ + id@ + "?"@ + urlencoded(fetch_params()),
{
    let mut pairs: Vec<(String, String)> = Vec::new();
    pairs.push((String::from_str("fields"), String::from_str("id,webContentLink,webViewLink")));
    let q = encode_query(&pairs);
    proof {
        assert(pairs_view(pairs@) =~= fetch_params());
    }
    String::from_str(FILES_METADATA_API).concat("/").concat(id).concat("?").concat(q.as_str())
}

} // verus!
