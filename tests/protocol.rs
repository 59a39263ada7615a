use gdrive::lister::{ListingCursor, Page, ResourceSummary};
use gdrive::request::{create_request, fetch_url, guess_mime_type, metadata_url, parse_parents, upload_url};
use gdrive::resource::{Error, FileMetadata, ResourceResponse};
use gdrive::writer::{CreateFlow, Phase, Step};

fn response(id: Option<&str>, content: Option<&str>, view: Option<&str>) -> ResourceResponse {
    ResourceResponse {
        id: id.map(String::from),
        web_content_link: content.map(String::from),
        web_view_link: view.map(String::from),
    }
}

fn summary(id: &str) -> ResourceSummary {
    ResourceSummary {
        id: Some(id.to_string()),
        name: Some(format!("{} name", id)),
        parents: None,
        modified_time: None,
    }
}

#[test]
fn display_link_prefers_content_link() {
    let m = FileMetadata::from(response(Some("x"), Some("content"), Some("view"))).ok().unwrap();
    assert_eq!(m.display_link(), Some("content".to_string()));
}

#[test]
fn display_link_falls_back_to_view_link() {
    let m = FileMetadata::from(response(Some("x"), None, Some("view"))).ok().unwrap();
    assert_eq!(m.display_link(), Some("view".to_string()));
}

#[test]
fn display_link_absent_without_links() {
    let m = FileMetadata::from(response(Some("x"), None, None)).ok().unwrap();
    assert_eq!(m.display_link(), None);
}

#[test]
fn decoding_without_id_is_malformed() {
    let r = FileMetadata::from(response(None, Some("content"), Some("view")));
    assert!(matches!(r, Err(Error::MalformedResponse)));
}

#[test]
fn decoding_keeps_fields() {
    let m = FileMetadata::from(response(Some("abc"), Some("c"), None)).ok().unwrap();
    assert_eq!(m.id, "abc");
    assert_eq!(m.web_content_link, Some("c".to_string()));
    assert_eq!(m.web_view_link, None);
}

#[test]
fn file_flow_uploads_to_created_id_then_fetches() {
    let mut flow = CreateFlow::file("/tmp/a.png", Some("a".to_string()), None, None);
    assert!(!flow.is_folder);
    let step = flow.advance(Ok(response(Some("stub1"), None, None)));
    assert!(matches!(step, Step::Upload(ref id) if id == "stub1"));
    let step = flow.advance(Ok(response(Some("other"), Some("ignored"), None)));
    assert!(matches!(step, Step::Fetch(ref id) if id == "stub1"));
    let step = flow.advance(Ok(response(Some("stub1"), Some("content"), Some("view"))));
    match step {
        Step::Done(Ok(m)) => {
            assert_eq!(m.id, "stub1");
            assert_eq!(m.display_link(), Some("content".to_string()));
        }
        _ => panic!("expected a settled resource"),
    }
    assert!(flow.is_finished());
}

#[test]
fn failing_upload_is_rejected_without_fetch() {
    let mut flow = CreateFlow::file("/tmp/a.png", None, None, None);
    assert_eq!(flow.request.mime_type, "image/png");
    let step = flow.advance(Ok(response(Some("stub1"), None, None)));
    assert!(matches!(step, Step::Upload(ref id) if id == "stub1"));
    let step = flow.advance(Err(Error::RemoteRejection("internal error".to_string())));
    assert!(matches!(step, Step::Done(Err(Error::RemoteRejection(ref body))) if body == "internal error"));
    assert!(flow.is_finished());
    assert!(matches!(flow.phase, Phase::Finished));
    assert_eq!(flow.stub, Some("stub1".to_string()));
}

#[test]
fn folder_flow_ends_after_create() {
    let mut flow = CreateFlow::folder(Some("docs".to_string()), None, Some("p1 / p2".to_string()));
    assert!(flow.is_folder);
    assert_eq!(flow.request.mime_type, "application/vnd.google-apps.folder");
    assert_eq!(flow.request.parents, Some(vec!["p1".to_string(), "p2".to_string()]));
    let step = flow.advance(Ok(response(Some("f1"), None, None)));
    assert!(matches!(step, Step::Done(Ok(ref m)) if m.id == "f1"));
    assert!(flow.is_finished());
    assert_eq!(flow.stub, None);
}

#[test]
fn missing_id_fails_in_every_phase() {
    let mut flow = CreateFlow::file("/tmp/a.png", None, None, None);
    let step = flow.advance(Ok(response(None, Some("c"), Some("v"))));
    assert!(matches!(step, Step::Done(Err(Error::MalformedResponse))));

    let mut flow = CreateFlow::file("/tmp/a.png", None, None, None);
    flow.advance(Ok(response(Some("s"), None, None)));
    let step = flow.advance(Ok(response(None, None, None)));
    assert!(matches!(step, Step::Done(Err(Error::MalformedResponse))));

    let mut flow = CreateFlow::file("/tmp/a.png", None, None, None);
    flow.advance(Ok(response(Some("s"), None, None)));
    flow.advance(Ok(response(Some("s"), None, None)));
    let step = flow.advance(Ok(response(None, Some("c"), None)));
    assert!(matches!(step, Step::Done(Err(Error::MalformedResponse))));
}

#[test]
fn listing_two_pages_in_order() {
    let mut cursor = ListingCursor::new(Some("name contains 'report'".to_string()));
    assert_eq!(
        cursor.request_url(),
        "https://www.googleapis.com/drive/v3/files?fields=files%2CnextPageToken&includeItemsFromAllDrives=true&supportsAllDrives=true&q=name+contains+%27report%27"
    );
    let mut seen: Vec<String> = Vec::new();
    let out = cursor.on_page(Page {
        files: Some(vec![summary("a"), summary("b")]),
        next_page_token: Some("T1".to_string()),
    });
    assert!(!out.not_found);
    assert!(!cursor.done);
    seen.extend(out.summaries.iter().map(|s| s.id.clone().unwrap()));
    assert!(cursor.request_url().ends_with("&pageToken=T1"));
    let out = cursor.on_page(Page { files: Some(vec![summary("c")]), next_page_token: None });
    assert!(!out.not_found);
    seen.extend(out.summaries.iter().map(|s| s.id.clone().unwrap()));
    assert!(cursor.done);
    assert_eq!(seen, vec!["a", "b", "c"]);
}

#[test]
fn first_page_without_files_reports_not_found() {
    let mut cursor = ListingCursor::new(None);
    let out = cursor.on_page(Page { files: None, next_page_token: None });
    assert!(out.not_found);
    assert!(out.summaries.is_empty());
    assert!(cursor.done);
}

#[test]
fn later_page_without_files_reports_nothing() {
    let mut cursor = ListingCursor::new(None);
    let out = cursor.on_page(Page { files: Some(vec![summary("a")]), next_page_token: Some("T".to_string()) });
    assert!(!out.not_found);
    let out = cursor.on_page(Page { files: None, next_page_token: None });
    assert!(!out.not_found);
    assert!(out.summaries.is_empty());
    assert!(cursor.done);
}

#[test]
fn listing_url_without_query() {
    let cursor = ListingCursor::new(None);
    assert_eq!(
        cursor.request_url(),
        "https://www.googleapis.com/drive/v3/files?fields=files%2CnextPageToken&includeItemsFromAllDrives=true&supportsAllDrives=true"
    );
}

#[test]
fn summary_line_with_parents() {
    let s = ResourceSummary {
        id: Some("id1".to_string()),
        name: Some("report.txt".to_string()),
        parents: Some(vec!["p1".to_string(), "p2".to_string()]),
        modified_time: Some("2020-01-01T00:00:00Z".to_string()),
    };
    assert_eq!(s.line(), "id1\tp1,p2\treport.txt\t2020-01-01T00:00:00Z");
}

#[test]
fn summary_line_without_fields() {
    let s = ResourceSummary { id: None, name: None, parents: None, modified_time: None };
    assert_eq!(s.line(), "\t-\t\t");
}

#[test]
fn parents_are_split_and_trimmed() {
    assert_eq!(parse_parents(" a / b/c "), vec!["a", "b", "c"]);
    assert_eq!(parse_parents("one"), vec!["one"]);
    assert_eq!(parse_parents(""), vec![""]);
    assert_eq!(parse_parents("x//y"), vec!["x", "", "y"]);
}

#[test]
fn create_request_keeps_only_given_fields() {
    let r = create_request(None, Some("d".to_string()), None, "text/plain".to_string());
    assert_eq!(r.name, None);
    assert_eq!(r.description, Some("d".to_string()));
    assert_eq!(r.parents, None);
    assert_eq!(r.mime_type, "text/plain");
}

#[test]
fn mime_type_from_extension() {
    assert_eq!(guess_mime_type("/tmp/a.png"), "image/png");
    assert_eq!(guess_mime_type("notes.txt"), "text/plain");
    assert_eq!(guess_mime_type("/tmp/noext"), "application/octet-stream");
    assert_eq!(guess_mime_type("/tmp/a.unknownext"), "application/octet-stream");
}

#[test]
fn request_urls() {
    assert_eq!(metadata_url(), "https://www.googleapis.com/drive/v3/files");
    assert_eq!(upload_url("abc"), "https://www.googleapis.com/upload/drive/v3/files/abc?uploadType=media");
    assert_eq!(
        fetch_url("abc"),
        "https://www.googleapis.com/drive/v3/files/abc?fields=id%2CwebContentLink%2CwebViewLink"
    );
}
