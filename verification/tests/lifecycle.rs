use ne_s3::error::TransferError;
use ne_s3::error::TransferResult;
use ne_s3::lifecycle::log_target;
use ne_s3::lifecycle::InitParams;
use ne_s3::lifecycle::Lifecycle;
use ne_s3::lifecycle::LogTarget;
use ne_s3::params::S3Params;
use ne_s3::request::accept_transfer;

fn request(object: &str) -> S3Params {
    S3Params {
        bucket: String::from("photos"),
        object: String::from(object),
        access_key_id: String::from("AK"),
        secret_access_key: String::from("SK"),
        session_token: String::from("ST"),
        security_token: String::from("opaque"),
        file_path: String::from("/tmp/summer.raw"),
        region: None,
        tries: None,
        endpoint: None,
        ca_cert_path: None,
    }
}

#[test]
fn no_request_is_accepted_before_init() {
    let lifecycle: Lifecycle<u8> = Lifecycle::new();
    assert_eq!(accept_transfer(&lifecycle, Ok(request("a%20b"))), Err(TransferError::Lifecycle));
    assert_eq!(accept_transfer(&lifecycle, Ok(request("%FF"))), Err(TransferError::Lifecycle));
    assert_eq!(
        accept_transfer(&lifecycle, Err(String::from("expected value"))),
        Err(TransferError::Lifecycle)
    );
    assert!(!lifecycle.is_initialized());
}

#[test]
fn a_request_is_accepted_after_init() {
    let mut lifecycle = Lifecycle::new();
    lifecycle.init(9u8);
    assert_eq!(accept_transfer(&lifecycle, Ok(request("a%20b"))), Ok((&9u8, request("a b"))));
    assert_eq!(
        accept_transfer(&lifecycle, Err(String::from("expected value"))),
        Err(TransferError::Config { cause: String::from("expected value") })
    );
    match accept_transfer(&lifecycle, Ok(request("%FF"))) {
        Err(TransferError::Decode { .. }) => {}
        other => panic!("not a decode error: {:?}", other),
    }
    lifecycle.uninit();
    assert_eq!(accept_transfer(&lifecycle, Ok(request("a%20b"))), Err(TransferError::Lifecycle));
}

#[test]
fn a_transfer_before_init_is_refused() {
    let lifecycle: Lifecycle<&str> = Lifecycle::new();
    assert!(!lifecycle.is_initialized());
    let refused = lifecycle.runtime().unwrap_err();
    assert_eq!(refused, TransferError::Lifecycle);
    assert_eq!(
        TransferResult::from_outcome(&Err(refused)),
        TransferResult { success: false, message: String::from("runtime not initialized") }
    );
    assert!(!lifecycle.is_initialized());
}

#[test]
fn init_installs_the_runtime() {
    let mut lifecycle = Lifecycle::new();
    assert_eq!(lifecycle.init("first"), None);
    assert!(lifecycle.is_initialized());
    assert_eq!(lifecycle.runtime(), Ok(&"first"));
}

#[test]
fn a_second_init_changes_nothing() {
    let mut lifecycle = Lifecycle::new();
    assert_eq!(lifecycle.init("first"), None);
    assert_eq!(lifecycle.init("second"), Some("second"));
    assert_eq!(lifecycle.runtime(), Ok(&"first"));
}

#[test]
fn uninit_without_init_changes_nothing() {
    let mut lifecycle: Lifecycle<&str> = Lifecycle::new();
    assert_eq!(lifecycle.uninit(), None);
    assert!(!lifecycle.is_initialized());
    assert_eq!(lifecycle.init("first"), None);
    assert_eq!(lifecycle.runtime(), Ok(&"first"));
}

#[test]
fn uninit_hands_out_the_runtime() {
    let mut lifecycle = Lifecycle::new();
    lifecycle.init(7u32);
    assert_eq!(lifecycle.uninit(), Some(7));
    assert!(!lifecycle.is_initialized());
    assert_eq!(lifecycle.runtime(), Err(TransferError::Lifecycle));
    assert_eq!(lifecycle.uninit(), None);
    assert_eq!(lifecycle.init(8), None);
    assert_eq!(lifecycle.runtime(), Ok(&8));
}

#[test]
fn the_log_goes_to_a_directory_that_exists() {
    let params = InitParams { log_path: Some(String::from("/var/log/transfer")) };
    assert_eq!(
        log_target(&params, true),
        LogTarget::Directory { path: String::from("/var/log/transfer") }
    );
}

#[test]
fn the_log_goes_to_standard_output_otherwise() {
    let params = InitParams { log_path: Some(String::from("/nowhere")) };
    assert_eq!(log_target(&params, false), LogTarget::Stdout);
    let params = InitParams { log_path: None };
    assert_eq!(log_target(&params, false), LogTarget::Stdout);
    assert_eq!(log_target(&params, true), LogTarget::Stdout);
}
