use rate_limiter::upload::initiate_response;
use rate_limiter::upload::initiate_upload;
use rate_limiter::upload::request_upload_permission;
use rate_limiter::upload::InitiateUploadRequest;
use rate_limiter::upload::UploadPermission;
use rate_limiter::upload::BLOCK_SIZE;
use rate_limiter::upload::PRESIGN_SECONDS;

fn request() -> InitiateUploadRequest {
    InitiateUploadRequest { user_id: "testuser".to_string(), file_name: "prompt.txt".to_string() }
}

#[test]
fn upload_begins_with_block_size() {
    let response = initiate_response("some-id".to_string());
    assert_eq!(response.upload_id, "some-id");
    assert_eq!(response.block_size, 512);
    assert_eq!(BLOCK_SIZE, 512);
    assert_eq!(PRESIGN_SECONDS, 3600);
}

#[test]
fn upload_identifier_has_the_shape_of_a_random_uuid() {
    let response = initiate_upload(&request());
    assert_eq!(response.block_size, 512);
    let id: Vec<char> = response.upload_id.chars().collect();
    assert_eq!(id.len(), 36);
    for (i, c) in id.iter().enumerate() {
        if i == 8 || i == 13 || i == 18 || i == 23 {
            assert_eq!(*c, '-');
        } else {
            assert!(c.is_ascii_digit() || ('a'..='f').contains(c));
        }
    }
    assert_eq!(id[14], '4');
}

#[test]
fn upload_identifiers_differ() {
    let first = initiate_upload(&request());
    let second = initiate_upload(&request());
    assert_ne!(first.upload_id, second.upload_id);
}

#[test]
fn unknown_user_is_unauthorized() {
    for within_quota in [false, true] {
        let permission = request_upload_permission(false, within_quota);
        assert_eq!(permission, UploadPermission::InvalidUser);
        assert_eq!(permission.status(), 401);
        assert_eq!(permission.refusal(), Some("Invalid user"));
    }
}

#[test]
fn user_without_quota_is_forbidden() {
    let permission = request_upload_permission(true, false);
    assert_eq!(permission, UploadPermission::QuotaExceeded);
    assert_eq!(permission.status(), 403);
    assert_eq!(permission.refusal(), Some("Quota exceeded"));
}

#[test]
fn user_with_quota_may_upload() {
    let permission = request_upload_permission(true, true);
    assert_eq!(permission, UploadPermission::Granted);
    assert_eq!(permission.status(), 200);
    assert_eq!(permission.refusal(), None);
}
