use ne_s3::error::TransferError;
use ne_s3::error::TransferResult;
use ne_s3::params::S3Params;
use ne_s3::request::decode_request;
use ne_s3::request::with_object_key;

fn request(object: &str) -> S3Params {
    S3Params {
        bucket: String::from("photos"),
        object: String::from(object),
        access_key_id: String::from("AK"),
        secret_access_key: String::from("SK"),
        session_token: String::from("ST"),
        security_token: String::from("opaque"),
        file_path: String::from("/tmp/summer.raw"),
        region: Some(String::from("eu-west-1")),
        tries: Some(3),
        endpoint: None,
        ca_cert_path: None,
    }
}

#[test]
fn an_object_key_is_percent_decoded() {
    let admitted = decode_request(Ok(request("2024%2Fsummer%20holiday.raw"))).unwrap();
    assert_eq!(admitted, request("2024/summer holiday.raw"));
}

#[test]
fn an_object_key_of_several_bytes_per_character_is_decoded() {
    let admitted = decode_request(Ok(request("%F0%9F%91%BE%20Exterminate%21"))).unwrap();
    assert_eq!(admitted.object, "\u{1F47E} Exterminate!");
    assert_eq!(admitted.object, urlencoding::decode("%F0%9F%91%BE%20Exterminate%21").unwrap());
}

#[test]
fn an_object_key_without_escapes_stays_as_it_is() {
    let admitted = decode_request(Ok(request("plain/key+name.txt"))).unwrap();
    assert_eq!(admitted, request("plain/key+name.txt"));
}

#[test]
fn an_escape_that_is_not_hexadecimal_stays_as_it_is() {
    let admitted = decode_request(Ok(request("100%zz%2"))).unwrap();
    assert_eq!(admitted.object, "100%zz%2");
}

#[test]
fn an_object_key_that_is_not_utf8_is_refused() {
    let refused = decode_request(Ok(request("%FF%FE"))).unwrap_err();
    match &refused {
        TransferError::Decode { cause } => {
            assert_eq!(*cause, urlencoding::decode("%FF%FE").unwrap_err().to_string());
            assert!(!cause.is_empty());
        }
        other => panic!("not a decode error: {:?}", other),
    }
    assert!(refused.message().starts_with("url decode param object failed: "));
}

#[test]
fn a_request_that_could_not_be_read_is_a_configuration_error() {
    let refused = decode_request(Err(String::from("missing field `bucket`"))).unwrap_err();
    assert_eq!(refused, TransferError::Config { cause: String::from("missing field `bucket`") });
    assert_eq!(refused.message(), "parse params failed: missing field `bucket`");
}

#[test]
fn a_decoded_key_replaces_the_key_of_the_request() {
    let admitted = with_object_key(request("a%20b"), Ok(String::from("a b")));
    assert_eq!(admitted, Ok(request("a b")));
    let refused = with_object_key(request("%FF"), Err(String::from("invalid utf-8")));
    assert_eq!(refused, Err(TransferError::Decode { cause: String::from("invalid utf-8") }));
}

#[test]
fn every_error_has_its_message() {
    let cause = || String::from("why");
    assert_eq!(TransferError::Config { cause: cause() }.message(), "parse params failed: why");
    assert_eq!(TransferError::Lifecycle.message(), "runtime not initialized");
    assert_eq!(TransferError::EmptyFile.message(), "file size is 0");
    assert_eq!(TransferError::SessionInit { cause: cause() }.message(), "why");
    assert_eq!(TransferError::PartTransfer { part_number: 7, cause: cause() }.message(), "why");
    assert_eq!(TransferError::Completion { cause: cause() }.message(), "why");
    assert_eq!(TransferError::LocalIo { cause: cause() }.message(), "why");
    assert_eq!(
        TransferError::Decode { cause: cause() }.message(),
        "url decode param object failed: why"
    );
    assert_eq!(TransferError::Download { cause: cause() }.message(), "why");
}

#[test]
fn a_success_is_reported_with_an_empty_message() {
    let result = TransferResult::from_outcome(&Ok(1234));
    assert_eq!(result, TransferResult { success: true, message: String::new() });
}

#[test]
fn a_failure_is_reported_with_the_message_of_its_error() {
    let result = TransferResult::from_outcome(&Err(TransferError::EmptyFile));
    assert_eq!(result, TransferResult { success: false, message: String::from("file size is 0") });
    let result = TransferResult::from_outcome(&Err(TransferError::Lifecycle));
    assert_eq!(
        result,
        TransferResult { success: false, message: String::from("runtime not initialized") }
    );
}
