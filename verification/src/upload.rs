//! Requests and answers of the upload endpoints, and the rules by which the
//! endpoints answer.

use uuid::Uuid;
use vstd::prelude::*;

verus! {

/// Size of the blocks in which a resumable upload is sent, in bytes.
pub const BLOCK_SIZE: usize = 512;

/// Seconds for which a presigned upload address is valid.
pub const PRESIGN_SECONDS: u64 = 3600;

/// Characters in the text of an upload identifier.
pub const UPLOAD_ID_LENGTH: usize = 36;

/// A request to upload a file in one piece.
pub struct UploadRequest {
    pub user_id: String,
    pub file_name: String,
}

/// A request to begin a resumable upload.
pub struct InitiateUploadRequest {
    pub user_id: String,
    pub file_name: String,
}

/// The answer to a request to begin a resumable upload.
pub struct InitiateUploadResponse {
    pub upload_id: String,
    pub block_size: usize,
}

/// A request to upload one block of a resumable upload.
pub struct UploadBlockRequest {
    pub upload_id: String,
    /// The block's number, base64-encoded.
    pub block_id: String,
    pub data: Vec<u8>,
}

/// A request to assemble the uploaded blocks, in the order given.
pub struct CommitUploadRequest {
    pub upload_id: String,
    pub block_ids: Vec<String>,
}

/// The answer to a request for permission to upload.
#[derive(Clone, Copy, Debug, PartialEq, Eq, Structural)]
pub enum UploadPermission {
    /// The user is not known: the request is unauthorized.
    InvalidUser,
    /// The user has no quota left: the request is forbidden.
    QuotaExceeded,
    /// The user may upload to an address presigned for `PRESIGN_SECONDS`.
    Granted,
}

/// Whether a text has the shape of an upload identifier: five groups of 8,
/// 4, 4, 4 and 12 characters, with a hyphen after each but the last, the
/// third group starting with the version digit 4.
pub open spec fn is_upload_id(text: Seq<char>) -> bool {
    &&& text.len() == UPLOAD_ID_LENGTH as nat
    &&& text[8] == '-'
    &&& text[13] == '-'
    &&& text[18] == '-'
    &&& text[23] == '-'
    &&& text[14] == '4'
}

/// `Uuid::new_v4` draws a random version-4 identifier from the operating
/// system's random source, and its `to_string` writes it in lower-case
/// hexadecimal digits with hyphens. The contract claims the shape of that
/// text and nothing of the digits drawn. The call panics if the operating
/// system cannot supply random bytes.
#[verifier::external_body]
fn random_upload_id() -> (upload_id: String)
    ensures
        is_upload_id(upload_id@),
{
    Uuid::new_v4().to_string()
}

/// The answer that begins the upload known as `upload_id`.
pub fn initiate_response(upload_id: String) -> (response: InitiateUploadResponse)
    ensures
        response.upload_id == upload_id,
        response.block_size == BLOCK_SIZE,
{
    InitiateUploadResponse { upload_id, block_size: BLOCK_SIZE }
}

/// Begins a resumable upload: the answer carries a fresh random identifier
/// and the block size.
pub fn initiate_upload(request: &InitiateUploadRequest) -> (response: InitiateUploadResponse)
    ensures
        is_upload_id(response.upload_id@),
        response.block_size == BLOCK_SIZE,
{
    initiate_response(random_upload_id())
}

/// Decides a request for permission to upload, given whether the user is
/// known and whether the user has quota left. An unknown user is refused as
/// such, whatever the quota.
pub fn request_upload_permission(user_valid: bool, within_quota: bool) -> (permission:
    UploadPermission)
    ensures
        permission == if !user_valid {
            UploadPermission::InvalidUser
        } else if !within_quota {
            UploadPermission::QuotaExceeded
        } else {
            UploadPermission::Granted
        },
{
    if !user_valid {
        UploadPermission::InvalidUser
    } else if !within_quota {
        UploadPermission::QuotaExceeded
    } else {
        UploadPermission::Granted
    }
}

impl UploadPermission {
    /// The status code of the answer.
    pub fn status(&self) -> (status: u16)
        ensures
            status == match *self {
                UploadPermission::InvalidUser => 401u16,
                UploadPermission::QuotaExceeded => 403u16,
                UploadPermission::Granted => 200u16,
            },
    {
        match self {
            UploadPermission::InvalidUser => 401,
            UploadPermission::QuotaExceeded => 403,
            UploadPermission::Granted => 200,
        }
    }

    /// The body of a refusal; a grant has none of its own.
    pub fn refusal(&self) -> (body: Option<&'static str>)
        ensures
            body == match *self {
                UploadPermission::InvalidUser => Some("Invalid user"),
                UploadPermission::QuotaExceeded => Some("Quota exceeded"),
                UploadPermission::Granted => None::<&'static str>,
            },
    {
        match self {
            UploadPermission::InvalidUser => Some("Invalid user"),
            UploadPermission::QuotaExceeded => Some("Quota exceeded"),
            UploadPermission::Granted => None,
        }
    }
}

} // verus!
