//! Payloads exchanged with the node. Identifiers are UUIDs held as their
//! 128-bit value; instants are UTC timestamps.

use vstd::prelude::*;

verus! {

/// A UTC instant: whole seconds since the Unix epoch and the nanoseconds past
/// them (above one second only within a leap second).
#[derive(Clone, Copy, Debug, PartialEq, Eq)]
pub struct Timestamp {
    pub seconds: i64,
    pub nanos: u32,
}

#[derive(Clone, Copy, Debug, PartialEq, Eq)]
pub struct UploadSessionRequest {
    /// Entry size in bytes.
    pub size: u64,
}

#[derive(Clone, Copy, Debug, PartialEq, Eq)]
pub struct UploadSessionResumeRequest {
    pub session_id: u128,
}

#[derive(Clone, Debug, PartialEq, Eq)]
pub struct AppRolePath {
    pub name: String,
    pub app_id: u128,
}

#[derive(Clone, Copy, Debug, PartialEq, Eq)]
pub struct ScopedPermission {
    pub bucket_id: u128,
    pub allowance: u64,
}

#[derive(Clone, Debug, PartialEq, Eq)]
pub struct ModifyRoleRequest {
    pub perms: Vec<ScopedPermission>,
}

#[derive(Clone, Copy, Debug, PartialEq, Eq)]
pub struct MemberIdRequest {
    pub app_id: u128,
    pub id: u128,
}

#[derive(Clone, Debug, PartialEq, Eq)]
pub struct MemberRoleRequest {
    pub roles: Vec<String>,
}

#[derive(Clone, Debug, PartialEq, Eq)]
pub struct TokenDeleteRequest {
    pub app_id: u128,
    pub issuer_id: u128,
    pub name: String,
}

#[derive(Clone, Copy, Debug, PartialEq, Eq)]
pub struct TokenListRequest {
    pub app_id: u128,
    pub issuer: Option<u128>,
}

#[derive(Clone, Copy, Debug, PartialEq, Eq)]
pub struct AddMemberRequest {
    pub app_id: u128,
    pub member_id: u128,
}

#[derive(Clone, Debug, PartialEq, Eq)]
pub struct TokenIssueRequest {
    pub app_id: u128,
    pub name: String,
    pub perms: Vec<ScopedPermission>,
}

#[derive(Clone, Debug, PartialEq, Eq)]
pub struct RenameEntityRequest {
    pub to: String,
}

#[derive(Clone, Copy, Debug, PartialEq, Eq)]
pub struct DeleteDirectoryRequest {
    pub recursive: bool,
}

/// Entities in the order the node listed them.
#[derive(Clone, Debug, PartialEq, Eq)]
pub struct EntityList {
    pub entities: Vec<Entity>,
}

/// A file or directory record. `dir` and `dir_id` both name the parent
/// directory, under its older and its newer name.
#[derive(Clone, Debug, PartialEq, Eq)]
pub struct Entity {
    pub name: String,
    pub dir: Option<u128>,
    pub dir_id: Option<u128>,
    pub size: u64,
    pub is_dir: bool,
    pub created: Timestamp,
    pub last_modified: Timestamp,
}

#[derive(Clone, Debug, PartialEq, Eq)]
pub struct AppDto {
    pub id: u128,
    pub name: String,
    pub quota: i64,
    pub created: Timestamp,
    pub last_modified: Timestamp,
}

#[derive(Clone, Debug, PartialEq, Eq)]
pub struct BucketDto {
    pub app_id: u128,
    pub id: u128,
    pub name: String,
    pub encrypted: bool,
    pub atomic_upload: bool,
    pub quota: i64,
    pub file_count: i64,
    pub space_taken: i64,
    pub created: Timestamp,
    pub last_modified: Timestamp,
}

#[derive(Clone, Debug, PartialEq, Eq)]
pub struct UploadSessionStartResponse {
    /// The session's code, used in the path of the requests that continue it.
    pub code: String,
    /// Seconds until the node drops the unfinished upload if it is not resumed.
    pub validity: u32,
    /// Bytes the node already holds; the upload goes on from there.
    pub uploaded: u64,
}

#[derive(Clone, Copy, Debug, PartialEq, Eq)]
pub struct UploadSessionResumeResponse {
    /// Bytes the node already holds.
    pub uploaded_size: u64,
}

#[derive(Clone, Debug, PartialEq, Eq)]
pub struct AppTokenDTO {
    pub created: Timestamp,
    pub last_modified: Timestamp,
    pub issuer_id: u128,
    pub name: String,
}

#[derive(Clone, Debug, PartialEq, Eq)]
pub struct TokenListResponse {
    pub tokens: Vec<AppTokenDTO>,
}

} // verus!
