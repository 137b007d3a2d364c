use meowith_connector::connector::{
    file_metadata, is_success_status, remote_failure, status_outcome, HeaderField,
    MeowithConnector, Method,
};
use meowith_connector::dto::{UploadSessionResumeResponse, UploadSessionStartResponse};
use meowith_connector::error::{ConnectorError, LocalError, NodeClientError};
use meowith_connector::range::Range;
use meowith_connector::session::UploadSession;

const APP: u128 = 0x550e8400e29b41d4a716446655440000;
const BUCKET: u128 = 0x0000000000000000000000000000abcd;
const APP_TEXT: &str = "550e8400-e29b-41d4-a716-446655440000";
const BUCKET_TEXT: &str = "00000000-0000-0000-0000-00000000abcd";

fn connector() -> MeowithConnector {
    MeowithConnector::new("tok", BUCKET, APP, "http://node:4000".to_string())
}

fn text(s: &str) -> HeaderField {
    HeaderField::Text(s.to_string())
}

#[test]
fn list_directory_url_with_range() {
    let c = connector();
    let r = c.list_directory_request("docs", Some(Range { start: Some(0), end: Some(9) }));
    assert_eq!(r.method, Method::Get);
    assert_eq!(
        r.url,
        format!("http://node:4000/api/directory/list/{}/{}/docs?start=0&end=9", APP_TEXT, BUCKET_TEXT)
    );
}

#[test]
fn bucket_routes() {
    let c = connector();
    let files = c.list_bucket_files_request(None);
    assert_eq!(files.url, format!("http://node:4000/api/bucket/list/files/{}/{}", APP_TEXT, BUCKET_TEXT));
    let dirs = c.list_bucket_directories_request(Some(Range { start: None, end: Some(4) }));
    assert_eq!(
        dirs.url,
        format!("http://node:4000/api/bucket/list/directories/{}/{}?end=4", APP_TEXT, BUCKET_TEXT)
    );
    let info = c.fetch_bucket_info_request();
    assert_eq!(info.url, format!("http://node:4000/api/bucket/info/{}/{}", APP_TEXT, BUCKET_TEXT));
}

#[test]
fn entry_routes_and_methods() {
    let c = connector();
    let d = c.delete_file_request("a/b.txt");
    assert_eq!(d.method, Method::Delete);
    assert_eq!(d.url, format!("http://node:4000/api/file/delete/{}/{}/a/b.txt", APP_TEXT, BUCKET_TEXT));
    let (r, body) = c.rename_directory_request("old", "new");
    assert_eq!(r.method, Method::Post);
    assert_eq!(r.url, format!("http://node:4000/api/directory/rename/{}/{}/old", APP_TEXT, BUCKET_TEXT));
    assert_eq!(body.to, "new");
    let s = c.stat_resource_request("x");
    assert_eq!(s.url, format!("http://node:4000/api/bucket/stat/{}/{}/x", APP_TEXT, BUCKET_TEXT));
}

#[test]
fn authorization_header() {
    assert_eq!(connector().authorization(), "Bearer tok");
}

#[test]
fn failed_status_decodes_remote_kind() {
    assert_eq!(
        status_outcome(404, "{\"code\":\"NotFound\"}"),
        Err(ConnectorError::Remote(NodeClientError::NotFound))
    );
    assert_eq!(
        status_outcome(500, "not json"),
        Err(ConnectorError::Remote(NodeClientError::InternalError))
    );
    assert_eq!(remote_failure("{\"code\":\"EntityExists\"}"), ConnectorError::Remote(NodeClientError::EntityExists));
}

#[test]
fn success_status_is_ok() {
    assert_eq!(status_outcome(200, ""), Ok(()));
    assert_eq!(status_outcome(204, "{\"code\":\"NotFound\"}"), Ok(()));
    assert!(is_success_status(299));
    assert!(!is_success_status(199));
    assert!(!is_success_status(300));
}

#[test]
fn download_without_length_fails_locally() {
    let r = file_metadata(&HeaderField::Absent, &text("attachment; filename=\"a.bin\""), &text("application/pdf"));
    assert_eq!(r, Err(ConnectorError::Local(LocalError::MissingHeader)));
}

#[test]
fn download_metadata_read() {
    let m = file_metadata(&text("1024"), &text("attachment; filename=\"report.pdf\""), &text("application/pdf"))
        .unwrap();
    assert_eq!(m.length, 1024);
    assert_eq!(m.name, "report.pdf");
    assert_eq!(m.mime, "application/pdf");
}

#[test]
fn download_malformed_headers() {
    let d = text("attachment; filename=\"a\"");
    let t = text("text/plain");
    assert_eq!(
        file_metadata(&text("12k"), &d, &t),
        Err(ConnectorError::Local(LocalError::InvalidNumber))
    );
    assert_eq!(
        file_metadata(&HeaderField::NotText, &d, &t),
        Err(ConnectorError::Local(LocalError::HeaderNotText))
    );
    assert_eq!(
        file_metadata(&text("1"), &text("attachment"), &t),
        Err(ConnectorError::Local(LocalError::MissingFilename))
    );
    assert_eq!(
        file_metadata(&text("1"), &d, &HeaderField::Absent),
        Err(ConnectorError::Local(LocalError::MissingHeader))
    );
}

#[test]
fn resume_with_invalid_code_fails_locally() {
    let c = connector();
    let s = UploadSessionStartResponse { code: "not-a-uuid".to_string(), validity: 60, uploaded: 0 };
    assert_eq!(
        c.resume_upload_session_request(&s),
        Err(ConnectorError::Local(LocalError::InvalidSessionId))
    );
    assert_eq!(c.put_file_request(&s), Err(ConnectorError::Local(LocalError::InvalidSessionId)));
}

#[test]
fn session_upload_resumes_from_node_offset() {
    let c = connector();
    let (start, body) = c.start_upload_session_request("", 10 * 1024 * 1024);
    assert_eq!(start.method, Method::Post);
    assert_eq!(start.url, format!("http://node:4000/api/file/upload/oneshot/{}/{}/", APP_TEXT, BUCKET_TEXT));
    assert_eq!(body.size, 10_485_760);

    let code = "6ba7b810-9dad-11d1-80b4-00c04fd430c8";
    let opened = UploadSessionStartResponse { code: code.to_string(), validity: 300, uploaded: 0 };
    let mut session = UploadSession::started(10_485_760, opened.clone());
    assert_eq!(session.offset, 0);
    assert_eq!(session.remaining(), 10_485_760);

    let (resume, id) = c.resume_upload_session_request(&opened).unwrap();
    assert_eq!(resume.url, format!("http://node:4000/api/file/upload/resume/{}/{}", APP_TEXT, BUCKET_TEXT));
    assert_eq!(id.session_id, 0x6ba7b8109dad11d180b400c04fd430c8);

    session.resumed(&UploadSessionResumeResponse { uploaded_size: 4_194_304 });
    assert_eq!(session.offset, 4_194_304);
    assert_eq!(session.remaining(), 10_485_760 - 4_194_304);

    let (put, pid) = c.put_file_request(&session.session).unwrap();
    assert_eq!(put.url, format!("http://node:4000/api/file/upload/put/{}/{}/{}", APP_TEXT, BUCKET_TEXT, code));
    assert_eq!(pid.session_id, id.session_id);
}
