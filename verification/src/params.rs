//! The request that asks for a transfer, as it crosses the boundary.

use vstd::prelude::*;

verus! {

/// Everything one upload or download needs. It does not change while the
/// transfer runs.
#[derive(Debug, Clone, PartialEq, Eq)]
pub struct S3Params {
    /// Name of the bucket.
    pub bucket: String,
    /// Key of the object. It arrives percent-encoded and is decoded before
    /// the transfer starts.
    pub object: String,
    pub access_key_id: String,
    pub secret_access_key: String,
    pub session_token: String,
    /// Opaque value stored with the object as metadata; it plays no part in
    /// authentication.
    pub security_token: String,
    /// Path of the local file to read or to write.
    pub file_path: String,
    /// Region of the bucket; a default applies where it is absent.
    pub region: Option<String>,
    /// Attempts allowed for each network call; one where absent.
    pub tries: Option<u32>,
    /// Address to use in place of the region's own.
    pub endpoint: Option<String>,
    /// File with the certificates to trust in place of the system's.
    pub ca_cert_path: Option<String>,
}

/// Mathematical value of an `S3Params`.
pub struct S3ParamsView {
    pub bucket: Seq<char>,
    pub object: Seq<char>,
    pub access_key_id: Seq<char>,
    pub secret_access_key: Seq<char>,
    pub session_token: Seq<char>,
    pub security_token: Seq<char>,
    pub file_path: Seq<char>,
    pub region: Option<Seq<char>>,
    pub tries: Option<u32>,
    pub endpoint: Option<Seq<char>>,
    pub ca_cert_path: Option<Seq<char>>,
}

/// The characters of a text that may be absent.
pub open spec fn text_of(text: Option<String>) -> Option<Seq<char>> {
    match text {
        Some(text) => Some(text@),
        None => None,
    }
}

impl View for S3Params {
    type V = S3ParamsView;

    open spec fn view(&self) -> S3ParamsView {
        S3ParamsView {
            bucket: self.bucket@,
            object: self.object@,
            access_key_id: self.access_key_id@,
            secret_access_key: self.secret_access_key@,
            session_token: self.session_token@,
            security_token: self.security_token@,
            file_path: self.file_path@,
            region: text_of(self.region),
            tries: self.tries,
            endpoint: text_of(self.endpoint),
            ca_cert_path: text_of(self.ca_cert_path),
        }
    }
}

/// Copies a text that may be absent.
pub fn clone_text(text: &Option<String>) -> (copy: Option<String>)
    ensures
        text_of(copy) == text_of(*text),
{
    match text {
        Some(text) => Some(text.clone()),
        None => None,
    }
}

} // verus!
