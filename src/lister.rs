use vstd::prelude::*;

use crate::request::{encode_query, pairs_view, urlencoded, FILES_METADATA_API};

verus! {

/// One resource of a listing page, as far as the server gave its fields.
pub struct ResourceSummary {
    pub id: Option<String>,
    pub name: Option<String>,
    pub parents: Option<Vec<String>>,
    pub modified_time: Option<String>,
}

/// One page of a listing reply.
pub struct Page {
    pub files: Option<Vec<ResourceSummary>>,
    pub next_page_token: Option<String>,
}

/// What one page hands to the consumer: its summaries, and whether the
/// listing is to be reported as empty.
pub struct PageOutput {
    pub summaries: Vec<ResourceSummary>,
    pub not_found: bool,
}

/// The state of a listing between two page requests.
pub struct ListingCursor {
    pub query: Option<String>,
    pub page_token: Option<String>,
    pub done: bool,
}

pub open spec fn text_or_empty(s: Option<String>) -> Seq<char> {
    match s {
        Some(t) => t@,
        None => Seq::empty(),
    }
}

/// The pieces joined by commas.
pub open spec fn joined(parts: Seq<Seq<char>>) -> Seq<char>
    decreases parts.len(),
{
    if parts.len() == 0 {
        Seq::empty()
    } else if parts.len() == 1 {
        parts[0]
    } else {
        joined(parts.drop_last()) + ","@ + parts.last()
    }
}

pub open spec fn parents_text(p: Option<Vec<String>>) -> Seq<char> {
    match p {
        Some(v) => joined(v@.map_values(|s: String| s@)),
        None => "-"@,
    }
}

fn join_parents(parents: &Vec<String>) -> (r: String)
    ensures
        r@ == joined(parents@.map_values(|s: String| s@)),
{
    let mut out = String::new();
    let mut i: usize = 0;
    while i < parents.len()
        invariant
            i <= parents@.len(),
            out@ == joined(parents@.subrange(0, i as int).map_values(|s: String| s@)),
        decreases parents@.len() - i,
    {
        proof {
            let next = parents@.subrange(0, i as int + 1).map_values(|s: String| s@);
            assert(next.drop_last() =~= parents@.subrange(0, i as int).map_values(|s: String| s@));
            assert(next.last() == parents@[i as int]@);
        }
        if i > 0 {
            out.append(",");
        }
        out.append(parents[i].as_str());
        proof {
            if i == 0 {
                assert(Seq::<char>::empty() + parents@[0]@ =~= parents@[0]@);
            }
        }
        i = i + 1;
    }
    proof {
        assert(parents@.subrange(0, parents@.len() as int) =~= parents@);
    }
    out
}

impl ResourceSummary {
    /// The tab-separated line shown for a resource: identifier, parents
    /// joined by commas (or `-`), name and modification time.
    pub open spec fn line_spec(&self) -> Seq<char> {
        text_or_empty(self.id) + "\t"@ + parents_text(self.parents) + "\t"@ + text_or_empty(
            self.name,
        ) + "\t"@ + text_or_empty(self.modified_time)
    }

    /// The line shown for this resource.
    pub fn line(&self) -> (r: String)
        ensures
            r@ == self.line_spec(),
    {
        let mut out = String::new();
        if let Some(id) = &self.id {
            out.append(id.as_str());
        }
        out.append("\t");
        match &self.parents {
            Some(p) => {
                let j = join_parents(p);
                out.append(j.as_str());
            },
            None => out.append("-"),
        }
        out.append("\t");
        if let Some(name) = &self.name {
            out.append(name.as_str());
        }
        out.append("\t");
        if let Some(t) = &self.modified_time {
            out.append(t.as_str());
        }
        proof {
            assert(Seq::<char>::empty() + text_or_empty(self.id) =~= text_or_empty(self.id));
        }
        assert(out@ =~= self.line_spec());
        out
    }
}

/// The parameters of a page request: the fields wanted, visibility across
/// all containers, the filter when given, and the cursor's token when set.
pub open spec fn list_params(query: Option<Seq<char>>, token: Option<Seq<char>>) -> Seq<(Seq<char>, Seq<char>)> {
    let fixed = seq![
        ("fields"@, "files,nextPageToken"@),
        ("includeItemsFromAllDrives"@, "true"@),
        ("supportsAllDrives"@, "true"@),
    ];
    let with_query = match query {
        Some(q) => fixed.push(("q"@, q)),
        None => fixed,
    };
    match token {
        Some(t) => with_query.push(("pageToken"@, t)),
        None => with_query,
    }
}

pub open spec fn opt_view(s: Option<String>) -> Option<Seq<char>> {
    match s {
        Some(t) => Some(t@),
        None => None,
    }
}

pub open spec fn page_files(page: Page) -> Seq<ResourceSummary> {
    match page.files {
        Some(v) => v@,
        None => Seq::empty(),
    }
}

/// The cursor that starts a listing under `query`.
pub open spec fn start(query: Option<String>) -> ListingCursor {
    ListingCursor { query, page_token: None, done: false }
}

/// The cursor after `page` was taken.
pub open spec fn after_page(c: ListingCursor, page: Page) -> ListingCursor {
    ListingCursor {
        query: c.query,
        page_token: page.next_page_token,
        done: page.next_page_token is None,
    }
}

/// Whether taking `page` in cursor `c` reports an empty listing.
pub open spec fn signals_not_found(c: ListingCursor, page: Page) -> bool {
    c.page_token is None && page.files is None
}

/// The cursor, the summaries handed out and the count of empty-listing
/// reports, after a cursor takes `pages` in order until it is done.
pub open spec fn consume(c: ListingCursor, pages: Seq<Page>) -> (ListingCursor, Seq<ResourceSummary>, nat)
    decreases pages.len(),
{
    if pages.len() == 0 || c.done {
        (c, Seq::empty(), 0)
    } else {
        let rest = consume(after_page(c, pages[0]), pages.drop_first());
        (
            rest.0,
            page_files(pages[0]) + rest.1,
            rest.2 + if signals_not_found(c, pages[0]) { 1nat } else { 0nat },
        )
    }
}

/// The summaries of all pages, in page order.
pub open spec fn all_files(pages: Seq<Page>) -> Seq<ResourceSummary>
    decreases pages.len(),
{
    if pages.len() == 0 {
        Seq::empty()
    } else {
        page_files(pages[0]) + all_files(pages.drop_first())
    }
}

/// Pages as a server hands them out: each but the last carries a token, the
/// last carries none.
pub open spec fn well_chained(pages: Seq<Page>) -> bool {
    &&& pages.len() >= 1
    &&& forall|i: int| 0 <= i < pages.len() - 1 ==> #[trigger] pages[i].next_page_token is Some
    &&& pages.last().next_page_token is None
}

impl ListingCursor {
    /// The cursor for the first page of a listing under `query`.
    pub fn new(query: Option<String>) -> (r: ListingCursor)
        ensures
            r == start(query),
    {
        ListingCursor { query, page_token: None, done: false }
    }

    /// The address of the next page request.
    pub fn request_url(&self) -> (r: String)
        ensures
            r@ == FILES_METADATA_API@ + "?"@ + urlencoded(
                list_params(opt_view(self.query), opt_view(self.page_token)),
            ),
    {
        let mut pairs: Vec<(String, String)> = Vec::new();
        pairs.push((String::from_str("fields"), String::from_str("files,nextPageToken")));
        pairs.push((String::from_str("includeItemsFromAllDrives"), String::from_str("true")));
        pairs.push((String::from_str("supportsAllDrives"), String::from_str("true")));
        if let Some(q) = &self.query {
            pairs.push((String::from_str("q"), q.clone()));
        }
        if let Some(t) = &self.page_token {
            pairs.push((String::from_str("pageToken"), t.clone()));
        }
        let encoded = encode_query(&pairs);
        assert(pairs_view(pairs@) =~= list_params(opt_view(self.query), opt_view(self.page_token)));
        String::from_str(FILES_METADATA_API).concat("?").concat(encoded.as_str())
    }

    /// Takes one page: hands out its summaries, reports an empty listing when
    /// the first page has no files, and moves to the page's token.
    pub fn on_page(&mut self, page: Page) -> (r: PageOutput)
        requires
            !old(self).done,
        ensures
            *final(self) == after_page(*old(self), page),
            r.summaries@ == page_files(page),
            r.not_found == signals_not_found(*old(self), page),
    {
        let not_found = self.page_token.is_none() && page.files.is_none();
        let summaries = match page.files {
            Some(v) => v,
            None => Vec::new(),
        };
        self.done = page.next_page_token.is_none();
        self.page_token = page.next_page_token;
        PageOutput { summaries, not_found }
    }
}

proof fn lemma_consume_chained(c: ListingCursor, pages: Seq<Page>)
    requires
        !c.done,
        well_chained(pages),
    ensures
        consume(c, pages).0.done,
        consume(c, pages).1 == all_files(pages),
        consume(c, pages).2 == if signals_not_found(c, pages[0]) { 1nat } else { 0nat },
    decreases pages.len(),
{
    let c2 = after_page(c, pages[0]);
    let rest = pages.drop_first();
    if pages.len() == 1 {
        assert(rest.len() == 0);
        assert(all_files(rest) == Seq::<ResourceSummary>::empty());
        assert(consume(c2, rest).1 == Seq::<ResourceSummary>::empty());
        assert(page_files(pages[0]) + Seq::<ResourceSummary>::empty() =~= page_files(pages[0]));
    } else {
        assert(pages[0].next_page_token is Some);
        assert forall|i: int| 0 <= i < rest.len() - 1 implies #[trigger] rest[i].next_page_token is Some by {
            assert(rest[i] == pages[i + 1]);
        }
        lemma_consume_chained(c2, rest);
    }
}

/// A listing over pages that end with one without a token takes every page,
/// ends, hands out the summaries of all pages in order, and reports an empty
/// listing once exactly when the first page has no files.
pub proof fn lemma_listing_takes_all_pages(query: Option<String>, pages: Seq<Page>)
    requires
        well_chained(pages),
    ensures
        consume(start(query), pages).0.done,
        consume(start(query), pages).1 == all_files(pages),
        consume(start(query), pages).2 == if pages[0].files is None { 1nat } else { 0nat },
{
    lemma_consume_chained(start(query), pages);
}

} // verus!
