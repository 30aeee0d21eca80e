use content_store::client::{interpret_lookup, interpret_upload, SIContentServiceClient, TransportReply};
use content_store::{ContentServiceError, FileKey};

fn answered(status: u16, body: &str) -> TransportReply {
    TransportReply::Answered { status, body: Ok(body.to_string()) }
}

fn unreadable(status: u16, why: &str) -> TransportReply {
    TransportReply::Answered { status, body: Err(why.to_string()) }
}

#[test]
fn endpoint_loses_its_trailing_separators() {
    assert_eq!(SIContentServiceClient::new("https://store.example").service_uri(), "https://store.example");
    assert_eq!(SIContentServiceClient::new("https://store.example/").service_uri(), "https://store.example");
    assert_eq!(SIContentServiceClient::new("https://store.example///").service_uri(), "https://store.example");
    assert_eq!(SIContentServiceClient::new("https://store.example/a/").service_uri(), "https://store.example/a");
    assert_eq!(SIContentServiceClient::new("/").service_uri(), "");
    assert_eq!(SIContentServiceClient::new("").service_uri(), "");
}

#[test]
fn addresses_of_the_store() {
    let client = SIContentServiceClient::new("https://store.example/");
    assert_eq!(client.upload_url(), "https://store.example/api/v1/content/packages");
    let key = FileKey { name: "my pack.zip".to_string(), hash: "qZk+NkcGgWq6PiVxeFDCbJzQ2J0=".to_string() };
    assert_eq!(
        client.lookup_url(&key),
        "https://store.example/api/v1/content/packages/qZk-NkcGgWq6PiVxeFDCbJzQ2J0/my%20pack%2Ezip"
    );
    assert_eq!(client.try_get_package_uri(&key).url(), client.lookup_url(&key));
}

#[test]
fn lookup_tells_present_absent_and_failed_apart() {
    assert_eq!(interpret_lookup(answered(200, "https://store/x/y")), Ok(Some("https://store/x/y".to_string())));
    assert_eq!(interpret_lookup(answered(200, "")), Ok(Some(String::new())));
    assert_eq!(interpret_lookup(answered(404, "no such package")), Ok(None));
    assert_eq!(interpret_lookup(unreadable(404, "reset")), Ok(None));
    assert_eq!(
        interpret_lookup(TransportReply::Failed("connection refused".to_string())),
        Err(ContentServiceError::NetworkError("connection refused".to_string()))
    );
    assert_eq!(
        interpret_lookup(unreadable(200, "reset")),
        Err(ContentServiceError::NetworkError("reset".to_string()))
    );
}

#[test]
fn lookup_rejects_every_other_status() {
    for status in [0u16, 100, 199, 201, 204, 299, 301, 400, 403, 405, 500, 503, 65535] {
        assert_eq!(
            interpret_lookup(answered(status, "detail")),
            Err(ContentServiceError::UploadFailed("detail".to_string(), status))
        );
        assert_eq!(
            interpret_lookup(unreadable(status, "reset")),
            Err(ContentServiceError::UploadFailed(String::new(), status))
        );
    }
}

#[test]
fn upload_accepts_every_success_status() {
    for status in [200u16, 201, 204, 299] {
        assert_eq!(interpret_upload(answered(status, "https://store/x/y")), Ok("https://store/x/y".to_string()));
        assert_eq!(
            interpret_upload(unreadable(status, "reset")),
            Err(ContentServiceError::NetworkError("reset".to_string()))
        );
    }
}

#[test]
fn upload_rejects_every_other_status() {
    for status in [0u16, 100, 199, 300, 304, 400, 404, 500, 65535] {
        assert_eq!(
            interpret_upload(answered(status, "server overloaded")),
            Err(ContentServiceError::UploadFailed("server overloaded".to_string(), status))
        );
        assert_eq!(
            interpret_upload(unreadable(status, "reset")),
            Err(ContentServiceError::UploadFailed(String::new(), status))
        );
    }
    assert_eq!(
        interpret_upload(TransportReply::Failed("timed out".to_string())),
        Err(ContentServiceError::NetworkError("timed out".to_string()))
    );
}

#[test]
fn failures_describe_themselves() {
    assert_eq!(ContentServiceError::IoError("no such file".to_string()).message(), "IO error: no such file");
    assert_eq!(ContentServiceError::NetworkError("timed out".to_string()).message(), "Network error: timed out");
    assert_eq!(ContentServiceError::HashError("bad".to_string()).message(), "Hash error: bad");
    assert_eq!(
        ContentServiceError::UploadFailed("server overloaded".to_string(), 500).message(),
        "Upload failed (500): server overloaded"
    );
    assert_eq!(ContentServiceError::UploadFailed(String::new(), 0).message(), "Upload failed (0): ");
    assert_eq!(ContentServiceError::UploadFailed("x".to_string(), 7).message(), "Upload failed (7): x");
    assert_eq!(ContentServiceError::UploadFailed("x".to_string(), 10).message(), "Upload failed (10): x");
    assert_eq!(ContentServiceError::UploadFailed("x".to_string(), 65535).message(), "Upload failed (65535): x");
    assert_eq!(ContentServiceError::PackageNotFound.message(), "Package not found");
}

#[test]
fn pending_lookup_reads_its_reply() {
    let client = SIContentServiceClient::new("https://store.example");
    let key = FileKey { name: "pack.zip".to_string(), hash: "COjkNaaXOVDBWzFXLKT5l7rLF7Q=".to_string() };
    let lookup = client.try_get_package_uri(&key);
    assert_eq!(
        lookup.url(),
        "https://store.example/api/v1/content/packages/COjkNaaXOVDBWzFXLKT5l7rLF7Q/pack%2Ezip"
    );
    assert_eq!(lookup.on_reply(answered(200, "https://store/x/y")), Ok(Some("https://store/x/y".to_string())));
    assert_eq!(client.try_get_package_uri(&key).on_reply(answered(404, "")), Ok(None));
    assert_eq!(
        client.try_get_package_uri(&key).on_reply(TransportReply::Failed("unreachable".to_string())),
        Err(ContentServiceError::NetworkError("unreachable".to_string()))
    );
    assert_eq!(
        client.try_get_package_uri(&key).on_reply(answered(503, "busy")),
        Err(ContentServiceError::UploadFailed("busy".to_string(), 503))
    );
}
