//! The requests of each operation against the node, and what a response
//! means for its caller. Sending them is left to the transport.

use vstd::prelude::*;
use vstd::string::*;
use crate::dto::{
    RenameEntityRequest, UploadSessionRequest, UploadSessionResumeRequest,
    UploadSessionStartResponse,
};
use crate::error::{
    body_kind, error_body, error_of_body, lemma_error_body_round_trip, ConnectorError,
    ConnectorResponse, LocalError, NodeClientError,
};
use crate::headers::{disposition_filename, extract_filename};
use crate::ids::{parse_uuid, uuid_parse, uuid_string, uuid_text};
use crate::range::{construct_pagination_query, pagination_query, Range};
use crate::text::{decimal_u64, parse_u64};

verus! {

/// The header of a download response that declares the file's length.
pub const CONTENT_LENGTH_HEADER: &'static str = "X-File-Content-Length";

#[derive(Clone, Copy, Debug, PartialEq, Eq)]
pub enum Method {
    Get,
    Post,
    Delete,
}

/// A request to the node: its method and its full URL.
#[derive(Clone, Debug, PartialEq, Eq)]
pub struct NodeRequest {
    pub method: Method,
    pub url: String,
}

/// The configuration of a client of one bucket of one application on one
/// node. It is never changed once built and may be shared freely.
#[derive(Clone, Debug)]
pub struct MeowithConnector {
    pub token: String,
    pub bucket_id: u128,
    pub app_id: u128,
    pub node_addr: String,
}

pub open spec fn is_success(status: u16) -> bool {
    200 <= status < 300
}

/// The outcome of an operation whose success carries no payload.
pub open spec fn outcome_of(status: u16, body: Seq<char>) -> ConnectorResponse<()> {
    if is_success(status) {
        Ok(())
    } else {
        Err(ConnectorError::Remote(error_of_body(body)))
    }
}

/// Whether a status code reports success (the 2xx class).
pub fn is_success_status(status: u16) -> (r: bool)
    ensures
        r == is_success(status),
{
    200 <= status && status < 300
}

/// The error of a request that failed with the given body.
pub fn remote_failure(body: &str) -> (r: ConnectorError)
    ensures
        r == ConnectorError::Remote(error_of_body(body@)),
{
    ConnectorError::Remote(NodeClientError::from(body))
}

/// The outcome of an operation that returns nothing on success.
pub fn status_outcome(status: u16, body: &str) -> (r: ConnectorResponse<()>)
    ensures
        r == outcome_of(status, body@),
{
    if is_success_status(status) {
        Ok(())
    } else {
        Err(remote_failure(body))
    }
}

/// A failed status with an error body that names a kind is reported as that
/// kind from the node; one with a body that names none, as an internal error
/// of the node. Neither is ever a local failure.
pub proof fn lemma_failure_is_remote(status: u16, body: Seq<char>, k: NodeClientError)
    requires
        !is_success(status),
    ensures
        outcome_of(status, error_body(k)) == Err::<(), ConnectorError>(ConnectorError::Remote(k)),
        body_kind(body) is None ==> outcome_of(status, body) == Err::<(), ConnectorError>(
            ConnectorError::Remote(NodeClientError::InternalError),
        ),
        outcome_of(status, body) matches Err(e) && e is Remote,
{
    lemma_error_body_round_trip(k);
}

/// A response header as the transport found it.
#[derive(Clone, Debug, PartialEq, Eq)]
pub enum HeaderField {
    Absent,
    /// Present, but not visible ASCII text.
    NotText,
    Text(String),
}

pub open spec fn field_failure(h: HeaderField) -> Option<LocalError> {
    match h {
        HeaderField::Absent => Some(LocalError::MissingHeader),
        HeaderField::NotText => Some(LocalError::HeaderNotText),
        HeaderField::Text(_) => None,
    }
}

pub open spec fn field_text(h: HeaderField) -> Seq<char> {
    match h {
        HeaderField::Text(s) => s@,
        _ => Seq::empty(),
    }
}

/// Why the headers of a successful download are malformed, checked in order:
/// the declared length, the disposition, the content type.
pub open spec fn metadata_failure(
    length: HeaderField,
    disposition: HeaderField,
    content_type: HeaderField,
) -> Option<LocalError> {
    if field_failure(length) is Some {
        field_failure(length)
    } else if decimal_u64(field_text(length)) is None {
        Some(LocalError::InvalidNumber)
    } else if field_failure(disposition) is Some {
        field_failure(disposition)
    } else if disposition_filename(field_text(disposition)) is None {
        Some(LocalError::MissingFilename)
    } else {
        field_failure(content_type)
    }
}

/// A download whose response lacks the declared length fails locally,
/// whatever its other headers say.
pub proof fn lemma_missing_length_is_local(disposition: HeaderField, content_type: HeaderField)
    ensures
        metadata_failure(HeaderField::Absent, disposition, content_type) == Some(
            LocalError::MissingHeader,
        ),
{
}

/// What the headers of a successful download declare of the file.
#[derive(Clone, Debug, PartialEq, Eq)]
pub struct FileMetadata {
    pub length: u64,
    pub name: String,
    pub mime: String,
}

fn field_value(h: &HeaderField) -> (r: Result<&String, LocalError>)
    ensures
        field_failure(*h) matches Some(e) ==> r == Err::<&String, LocalError>(e),
        field_failure(*h) is None ==> r is Ok,
        r matches Ok(s) ==> field_failure(*h) is None && s@ == field_text(*h),
{
    match h {
        HeaderField::Absent => Err(LocalError::MissingHeader),
        HeaderField::NotText => Err(LocalError::HeaderNotText),
        HeaderField::Text(s) => Ok(s),
    }
}

/// Reads the declared length, file name and content type of a successful
/// download. Each must be present and well formed: a missing or malformed
/// one is a local failure, never a default.
pub fn file_metadata(
    length: &HeaderField,
    disposition: &HeaderField,
    content_type: &HeaderField,
) -> (r: ConnectorResponse<FileMetadata>)
    ensures
        metadata_failure(*length, *disposition, *content_type) matches Some(e) ==> r
            == Err::<FileMetadata, ConnectorError>(ConnectorError::Local(e)),
        metadata_failure(*length, *disposition, *content_type) is None ==> r is Ok,
        r matches Ok(m) ==> {
            &&& Some(m.length) == decimal_u64(field_text(*length))
            &&& Some(m.name@) == disposition_filename(field_text(*disposition))
            &&& m.mime@ == field_text(*content_type)
        },
{
    let declared = match field_value(length) {
        Err(e) => return Err(ConnectorError::Local(e)),
        Ok(s) => s,
    };
    let size = match parse_u64(declared.as_str()) {
        None => return Err(ConnectorError::Local(LocalError::InvalidNumber)),
        Some(n) => n,
    };
    let header = match field_value(disposition) {
        Err(e) => return Err(ConnectorError::Local(e)),
        Ok(s) => s,
    };
    let name = match extract_filename(header.as_str()) {
        None => return Err(ConnectorError::Local(LocalError::MissingFilename)),
        Some(n) => n,
    };
    let mime = match field_value(content_type) {
        Err(e) => return Err(ConnectorError::Local(e)),
        Ok(s) => s.clone(),
    };
    Ok(FileMetadata { length: size, name, mime })
}

impl MeowithConnector {
    /// The URL of a route scoped to this application and bucket.
    pub open spec fn scope_url(&self, route: Seq<char>) -> Seq<char> {
        self.node_addr@ + route + uuid_text(self.app_id) + "/"@ + uuid_text(self.bucket_id)
    }

    /// The URL of a route applied to an entry of the bucket.
    pub open spec fn entry_url(&self, route: Seq<char>, path: Seq<char>) -> Seq<char> {
        self.scope_url(route) + "/"@ + path
    }

    pub fn new(token: &str, bucket_id: u128, app_id: u128, node_addr: String) -> (r: Self)
        ensures
            r.token@ == token@,
            r.bucket_id == bucket_id,
            r.app_id == app_id,
            r.node_addr == node_addr,
    {
        MeowithConnector { token: String::from_str(token), bucket_id, app_id, node_addr }
    }

    /// The `Authorization` header value that every request carries.
    pub fn authorization(&self) -> (r: String)
        ensures
            r@ == "Bearer "@ + self.token@,
    {
        let mut v = String::new();
        v.append("Bearer ");
        v.append(self.token.as_str());
        v
    }

    fn scope(&self, route: &str) -> (r: String)
        ensures
            r@ == self.scope_url(route@),
    {
        let mut u = self.node_addr.clone();
        u.append(route);
        let app = uuid_string(self.app_id);
        u.append(app.as_str());
        u.append("/");
        let bucket = uuid_string(self.bucket_id);
        u.append(bucket.as_str());
        assert(u@ =~= self.scope_url(route@));
        u
    }

    fn entry(&self, route: &str, path: &str) -> (r: String)
        ensures
            r@ == self.entry_url(route@, path@),
    {
        let mut u = self.scope(route);
        u.append("/");
        u.append(path);
        u
    }

    fn entry_request(&self, method: Method, route: &str, path: &str) -> (r: NodeRequest)
        ensures
            r.method == method,
            r.url@ == self.entry_url(route@, path@),
    {
        NodeRequest { method, url: self.entry(route, path) }
    }

    /// Uploads a whole file in one request; the body streams `size` bytes.
    pub fn upload_oneshot_request(&self, path: &str) -> (r: NodeRequest)
        ensures
            r.method == Method::Post,
            r.url@ == self.entry_url("/api/file/upload/oneshot/"@, path@),
    {
        self.entry_request(Method::Post, "/api/file/upload/oneshot/", path)
    }

    pub fn delete_file_request(&self, path: &str) -> (r: NodeRequest)
        ensures
            r.method == Method::Delete,
            r.url@ == self.entry_url("/api/file/delete/"@, path@),
    {
        self.entry_request(Method::Delete, "/api/file/delete/", path)
    }

    pub fn rename_file_request(&self, from: &str, to: &str) -> (r: (NodeRequest, RenameEntityRequest))
        ensures
            r.0.method == Method::Post,
            r.0.url@ == self.entry_url("/api/file/upload/rename/"@, from@),
            r.1.to@ == to@,
    {
        let req = self.entry_request(Method::Post, "/api/file/upload/rename/", from);
        (req, RenameEntityRequest { to: String::from_str(to) })
    }

    pub fn download_file_request(&self, path: &str) -> (r: NodeRequest)
        ensures
            r.method == Method::Get,
            r.url@ == self.entry_url("/api/file/download/"@, path@),
    {
        self.entry_request(Method::Get, "/api/file/download/", path)
    }

    pub fn create_directory_request(&self, path: &str) -> (r: NodeRequest)
        ensures
            r.method == Method::Post,
            r.url@ == self.entry_url("/api/directory/create/"@, path@),
    {
        self.entry_request(Method::Post, "/api/directory/create/", path)
    }

    pub fn rename_directory_request(&self, from: &str, to: &str) -> (r: (NodeRequest, RenameEntityRequest))
        ensures
            r.0.method == Method::Post,
            r.0.url@ == self.entry_url("/api/directory/rename/"@, from@),
            r.1.to@ == to@,
    {
        let req = self.entry_request(Method::Post, "/api/directory/rename/", from);
        (req, RenameEntityRequest { to: String::from_str(to) })
    }

    pub fn delete_directory_request(&self, path: &str) -> (r: NodeRequest)
        ensures
            r.method == Method::Delete,
            r.url@ == self.entry_url("/api/directory/delete/"@, path@),
    {
        self.entry_request(Method::Delete, "/api/directory/delete/", path)
    }

    pub fn list_bucket_files_request(&self, range: Option<Range>) -> (r: NodeRequest)
        ensures
            r.method == Method::Get,
            r.url@ == self.scope_url("/api/bucket/list/files/"@) + pagination_query(range),
    {
        let mut url = self.scope("/api/bucket/list/files/");
        let q = construct_pagination_query(range);
        url.append(q.as_str());
        NodeRequest { method: Method::Get, url }
    }

    pub fn list_bucket_directories_request(&self, range: Option<Range>) -> (r: NodeRequest)
        ensures
            r.method == Method::Get,
            r.url@ == self.scope_url("/api/bucket/list/directories/"@) + pagination_query(range),
    {
        let mut url = self.scope("/api/bucket/list/directories/");
        let q = construct_pagination_query(range);
        url.append(q.as_str());
        NodeRequest { method: Method::Get, url }
    }

    pub fn list_directory_request(&self, path: &str, range: Option<Range>) -> (r: NodeRequest)
        ensures
            r.method == Method::Get,
            r.url@ == self.entry_url("/api/directory/list/"@, path@) + pagination_query(range),
    {
        let mut url = self.entry("/api/directory/list/", path);
        let q = construct_pagination_query(range);
        url.append(q.as_str());
        NodeRequest { method: Method::Get, url }
    }

    pub fn stat_resource_request(&self, path: &str) -> (r: NodeRequest)
        ensures
            r.method == Method::Get,
            r.url@ == self.entry_url("/api/bucket/stat/"@, path@),
    {
        self.entry_request(Method::Get, "/api/bucket/stat/", path)
    }

    pub fn fetch_bucket_info_request(&self) -> (r: NodeRequest)
        ensures
            r.method == Method::Get,
            r.url@ == self.scope_url("/api/bucket/info/"@),
    {
        NodeRequest { method: Method::Get, url: self.scope("/api/bucket/info/") }
    }

    /// Opens an upload session for `size` bytes at `path`.
    pub fn start_upload_session_request(&self, path: &str, size: u64) -> (r: (
        NodeRequest,
        UploadSessionRequest,
    ))
        ensures
            r.0.method == Method::Post,
            r.0.url@ == self.entry_url("/api/file/upload/oneshot/"@, path@),
            r.1.size == size,
    {
        let req = self.entry_request(Method::Post, "/api/file/upload/oneshot/", path);
        (req, UploadSessionRequest { size })
    }

    /// Asks the node how much of a session it holds. The session code must
    /// read as a UUID; otherwise the request cannot be made.
    pub fn resume_upload_session_request(&self, session: &UploadSessionStartResponse) -> (r:
        ConnectorResponse<(NodeRequest, UploadSessionResumeRequest)>)
        ensures
            uuid_parse(session.code@) is None ==> r == Err::<
                (NodeRequest, UploadSessionResumeRequest),
                ConnectorError,
            >(ConnectorError::Local(LocalError::InvalidSessionId)),
            uuid_parse(session.code@) is Some ==> r is Ok,
            r matches Ok(p) ==> {
                &&& p.0.method == Method::Post
                &&& p.0.url@ == self.scope_url("/api/file/upload/resume/"@)
                &&& uuid_parse(session.code@) == Some(p.1.session_id)
            },
    {
        let id = match parse_uuid(session.code.as_str()) {
            None => return Err(ConnectorError::Local(LocalError::InvalidSessionId)),
            Some(id) => id,
        };
        let req = NodeRequest { method: Method::Post, url: self.scope("/api/file/upload/resume/") };
        Ok((req, UploadSessionResumeRequest { session_id: id }))
    }

    /// Sends more bytes into a session; the body must start at the offset
    /// that the node last confirmed.
    pub fn put_file_request(&self, session: &UploadSessionStartResponse) -> (r: ConnectorResponse<
        (NodeRequest, UploadSessionResumeRequest),
    >)
        ensures
            uuid_parse(session.code@) is None ==> r == Err::<
                (NodeRequest, UploadSessionResumeRequest),
                ConnectorError,
            >(ConnectorError::Local(LocalError::InvalidSessionId)),
            uuid_parse(session.code@) is Some ==> r is Ok,
            r matches Ok(p) ==> {
                &&& p.0.method == Method::Post
                &&& p.0.url@ == self.entry_url("/api/file/upload/put/"@, session.code@)
                &&& uuid_parse(session.code@) == Some(p.1.session_id)
            },
    {
        let id = match parse_uuid(session.code.as_str()) {
            None => return Err(ConnectorError::Local(LocalError::InvalidSessionId)),
            Some(id) => id,
        };
        let req = self.entry_request(Method::Post, "/api/file/upload/put/", session.code.as_str());
        Ok((req, UploadSessionResumeRequest { session_id: id }))
    }
}

} // verus!
