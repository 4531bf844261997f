use gateway::dto::{FileType, GetAllUsersResponse, UserProfile};
use gateway::envelope::ApiResponse;
use gateway::file_client::{lookup_display_name, CheatsheetService, HttpRequest, Method};
use gateway::upstream::{
    EmptyResponse, File, FileData, FilesData, GetPresignedGetUrlData, GetPresignedUploadUrlData,
    ShareData, ShareRecord, UnshareData, Upstream,
};
use gateway::dto::GenerateResponse;

fn service() -> CheatsheetService {
    CheatsheetService::new("http://files:3002".to_string())
}

fn pairs(v: &[(&str, &str)]) -> Vec<(String, String)> {
    v.iter().map(|(a, b)| (a.to_string(), b.to_string())).collect()
}

fn error_of<T>(r: &ApiResponse<T>) -> (u16, String) {
    match r {
        ApiResponse::Error { status, message } => (*status, message.clone()),
        ApiResponse::Success(_) => panic!("expected an error"),
    }
}

fn user_header(r: &HttpRequest) -> Vec<(String, String)> {
    r.headers.clone()
}

fn file(id: &str) -> File {
    File {
        id: id.to_string(),
        user_id: "u1".to_string(),
        created_at: "2024-01-01".to_string(),
        name: "a.pdf".to_string(),
        key: format!("slides/u1/{}_a.pdf", id),
    }
}

#[test]
fn upload_url_request_encodes_filename() {
    let r = service().get_presigned_upload_url_request("my notes/a&b.pdf", "u1".to_string());
    assert_eq!(r.method, Method::Get);
    assert_eq!(r.url, "http://files:3002/files/presign/upload?filename=my%20notes%2Fa%26b.pdf");
    assert_eq!(user_header(&r), pairs(&[("X-User-Id", "u1")]));
    assert!(r.query.is_empty() && r.form.is_empty() && r.json_body.is_none());
}

#[test]
fn upload_url_request_encodes_utf8_bytes() {
    let r = service().get_presigned_upload_url_request("é~_.-", "u1".to_string());
    assert_eq!(r.url, "http://files:3002/files/presign/upload?filename=%C3%A9~_.-");
}

#[test]
fn upload_reply_writes_lifetime_in_decimal() {
    let r = CheatsheetService::get_presigned_upload_url_reply(Upstream::Delivered(
        GetPresignedUploadUrlData {
            expires_in: 900,
            url: "https://s3/put".to_string(),
            key: "slides/u1/4e8d92_a.pdf".to_string(),
        },
    ));
    match r {
        ApiResponse::Success(p) => {
            assert_eq!(p.expires_in, "900");
            assert_eq!(p.url, "https://s3/put");
            assert_eq!(p.key, "slides/u1/4e8d92_a.pdf");
        }
        _ => panic!("expected success"),
    }
}

#[test]
fn presigned_key_round_trip() {
    let upload = CheatsheetService::get_presigned_upload_url_reply(Upstream::Delivered(
        GetPresignedUploadUrlData {
            expires_in: 60,
            url: "https://s3/put".to_string(),
            key: "slides/u1/4e8d92_a.pdf".to_string(),
        },
    ));
    let key = match upload {
        ApiResponse::Success(p) => p.key,
        _ => panic!("expected success"),
    };
    let get = service().get_presigned_get_url_request(&key, "u1".to_string());
    let value = get.url.strip_prefix("http://files:3002/files/presign?key=").unwrap();
    assert_eq!(value, "slides%2Fu1%2F4e8d92_a.pdf");
    let decoded = value.replace("%2F", "/");
    assert_eq!(decoded, key);
}

#[test]
fn get_url_reply() {
    let r = CheatsheetService::get_presigned_get_url_reply(Upstream::Delivered(
        GetPresignedGetUrlData { expires_in: 3600, url: "https://s3/get".to_string() },
    ));
    match r {
        ApiResponse::Success(p) => assert_eq!((p.expires_in.as_str(), p.url.as_str()), ("3600", "https://s3/get")),
        _ => panic!("expected success"),
    }
}

#[test]
fn failures_pass_through_or_become_500() {
    let failed = CheatsheetService::get_presigned_get_url_reply(Upstream::Failed {
        status: 403,
        body: "forbidden".to_string(),
    });
    assert_eq!(error_of(&failed), (403, "forbidden".to_string()));
    let down = CheatsheetService::share_reply(Upstream::Unreachable);
    assert_eq!(error_of(&down), (500, "File service unavailable".to_string()));
    let bad = CheatsheetService::unshare_reply(Upstream::Malformed);
    assert_eq!(error_of(&bad), (500, "Failed to parse response".to_string()));
}

#[test]
fn remove_request_names_kind_file_and_user() {
    let r = service().remove_file_request(FileType::Slides, "x.pdf".to_string(), "u1".to_string());
    assert_eq!(r.method, Method::Delete);
    assert_eq!(r.url, "http://files:3002/files");
    assert_eq!(r.query, pairs(&[("file_type", "slides"), ("user_id", "u1"), ("file", "x.pdf")]));
    assert_eq!(r.headers, pairs(&[("X-User-Id", "u1")]));
    let c = service().remove_file_request(FileType::Cheatsheets, "y.pdf".to_string(), "u2".to_string());
    assert_eq!(c.query[0].1, "cheatsheets");
}

#[test]
fn remove_not_found_keeps_service_message() {
    let r = CheatsheetService::remove_file_reply(Upstream::Failed {
        status: 404,
        body: "file x.pdf not found".to_string(),
    });
    assert_eq!(error_of(&r), (404, "file x.pdf not found".to_string()));
    assert_eq!(r.http_status(), 404);
}

#[test]
fn remove_other_failure_is_500_naming_status() {
    let r = CheatsheetService::remove_file_reply(Upstream::Failed {
        status: 503,
        body: "busy".to_string(),
    });
    assert_eq!(error_of(&r), (500, "Failed to delete file: status 503".to_string()));
}

#[test]
fn remove_success() {
    let r = CheatsheetService::remove_file_reply(Upstream::Delivered(EmptyResponse {}));
    assert!(r.is_success());
    let down = CheatsheetService::remove_file_reply(Upstream::Unreachable);
    assert_eq!(error_of(&down).0, 500);
}

#[test]
fn list_files_maps_every_record() {
    let r = service().get_all_files_request("u1".to_string());
    assert_eq!((r.method, r.url.as_str()), (Method::Get, "http://files:3002/files"));
    let reply = CheatsheetService::get_all_files_reply(Upstream::Delivered(FilesData {
        files: vec![file("f1"), file("f2")],
    }));
    match reply {
        ApiResponse::Success(p) => {
            assert_eq!(p.files.len(), 2);
            assert_eq!(p.files[0].id, "f1");
            assert_eq!(p.files[1].key, "slides/u1/f2_a.pdf");
            assert_eq!(p.files[1].created_at, "2024-01-01");
        }
        _ => panic!("expected success"),
    }
}

#[test]
fn get_file_resolves_share_names() {
    let r = service().get_file_request("u1".to_string(), "f1");
    assert_eq!(r.url, "http://files:3002/files/f1");
    let data = match CheatsheetService::get_file_fetched(Upstream::Delivered(FileData {
        file: file("f1"),
        shares: vec![
            ShareRecord { user_id: "7".to_string() },
            ShareRecord { user_id: "9".to_string() },
        ],
    })) {
        Ok(d) => d,
        Err(_) => panic!("expected the file"),
    };
    let users = ApiResponse::ok(GetAllUsersResponse {
        users: vec![
            UserProfile { id: "7".to_string(), name: "Old".to_string() },
            UserProfile { id: "8".to_string(), name: "Bee".to_string() },
            UserProfile { id: "7".to_string(), name: "Ann".to_string() },
        ],
    });
    match CheatsheetService::get_file_reply(data, users) {
        ApiResponse::Success(p) => {
            assert_eq!(p.file.id, "f1");
            assert_eq!(p.shares.len(), 2);
            assert_eq!((p.shares[0].user_id.as_str(), p.shares[0].name.as_str()), ("7", "Ann"));
            assert_eq!((p.shares[1].user_id.as_str(), p.shares[1].name.as_str()), ("9", ""));
        }
        _ => panic!("expected success"),
    }
}

#[test]
fn get_file_failures() {
    match CheatsheetService::get_file_fetched(Upstream::Failed { status: 404, body: "no".to_string() }) {
        Err(e) => assert_eq!(error_of(&e), (404, "no".to_string())),
        Ok(_) => panic!("expected an error"),
    }
    let data = FileData { file: file("f1"), shares: vec![] };
    let r = CheatsheetService::get_file_reply(data, ApiResponse::error(500, "Database error"));
    assert_eq!(error_of(&r), (500, "Database error".to_string()));
}

#[test]
fn display_name_lookup() {
    let users = vec![UserProfile { id: "1".to_string(), name: "A".to_string() }];
    assert_eq!(lookup_display_name(&users, &"1".to_string()), "A");
    assert_eq!(lookup_display_name(&users, &"2".to_string()), "");
    assert_eq!(lookup_display_name(&vec![], &"1".to_string()), "");
}

#[test]
fn share_sends_form_for_owner() {
    let r = service().share_request("owner".to_string(), "u2".to_string(), "f1".to_string());
    assert_eq!((r.method, r.url.as_str()), (Method::Post, "http://files:3002/share"));
    assert_eq!(r.headers, pairs(&[("X-User-Id", "owner")]));
    assert_eq!(r.form, pairs(&[("user_id", "u2"), ("file_id", "f1")]));
    assert!(r.query.is_empty());
    match CheatsheetService::share_reply(Upstream::Delivered(ShareData { shared: true })) {
        ApiResponse::Success(p) => assert!(p.shared),
        _ => panic!("expected success"),
    }
}

#[test]
fn unshare_sends_query_for_owner() {
    let r = service().unshare_request("owner".to_string(), "u2".to_string(), "f1".to_string());
    assert_eq!((r.method, r.url.as_str()), (Method::Post, "http://files:3002/unshare"));
    assert_eq!(r.query, pairs(&[("user_id", "u2"), ("file_id", "f1")]));
    assert!(r.form.is_empty());
    match CheatsheetService::unshare_reply(Upstream::Delivered(UnshareData { unshared: false })) {
        ApiResponse::Success(p) => assert!(!p.unshared),
        _ => panic!("expected success"),
    }
}

#[test]
fn generate_with_no_ids_is_refused_without_a_request() {
    let r = service().generate_request(&vec![], "u1".to_string());
    match r {
        Err(e) => {
            assert_eq!(error_of(&e), (400, "file_ids must not be empty".to_string()));
            assert_eq!(e.http_status(), 400);
        }
        Ok(_) => panic!("no request may be made"),
    }
}

#[test]
fn generate_sends_ids_as_json() {
    let ids = vec!["f1".to_string(), "f\"2".to_string()];
    let r = match service().generate_request(&ids, "u1".to_string()) {
        Ok(r) => r,
        Err(_) => panic!("expected a request"),
    };
    assert_eq!((r.method, r.url.as_str()), (Method::Post, "http://files:3002/generate"));
    assert_eq!(r.json_body.as_deref(), Some("{\"file_ids\":[\"f1\",\"f\\\"2\"]}"));
    assert_eq!(r.headers, pairs(&[("X-User-Id", "u1")]));
    let reply = CheatsheetService::generate_reply(Upstream::Delivered(GenerateResponse {
        file_id: "g1".to_string(),
        key: "generated/g1.pdf".to_string(),
    }));
    match reply {
        ApiResponse::Success(p) => assert_eq!((p.file_id.as_str(), p.key.as_str()), ("g1", "generated/g1.pdf")),
        _ => panic!("expected success"),
    }
}
