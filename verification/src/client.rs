//! What a storage client is made from: credentials, region, endpoint and
//! retry limit, as chosen from a request.

use crate::error::TransferError;
use crate::params::clone_text;
use crate::params::text_of;
use crate::params::S3Params;
use crate::params::S3ParamsView;
use vstd::prelude::*;
use vstd::string::StringExecFns;

verus! {

/// Region of a bucket where the request names none.
pub const DEFAULT_BUCKET_REGION: &'static str = "us-east-1";

/// Region of a client where the request names none.
pub const DEFAULT_CLIENT_REGION: &'static str = "ap-southeast-1";

/// Header under which the security token travels with every request to a
/// bucket.
pub const SECURITY_TOKEN_HEADER: &'static str = "x-amz-meta-token";

/// Attempts allowed for each network call where the request sets none: one,
/// which means no retry.
pub const DEFAULT_TRIES: u32 = 1;

/// Static credentials: an access key, its secret and a session token.
#[derive(Debug, Clone, PartialEq, Eq)]
pub struct NeS3Credential {
    access_key_id: String,
    secret_access_key: String,
    session_token: String,
}

/// Mathematical value of an `NeS3Credential`.
pub struct CredentialView {
    pub access_key_id: Seq<char>,
    pub secret_access_key: Seq<char>,
    pub session_token: Seq<char>,
}

impl View for NeS3Credential {
    type V = CredentialView;

    closed spec fn view(&self) -> CredentialView {
        CredentialView {
            access_key_id: self.access_key_id@,
            secret_access_key: self.secret_access_key@,
            session_token: self.session_token@,
        }
    }
}

impl NeS3Credential {
    /// Credentials made of the three given texts.
    pub fn new(access_key_id: String, secret_access_key: String, session_token: String) -> (credential: Self)
        ensures
            credential@ == (CredentialView {
                access_key_id: access_key_id@,
                secret_access_key: secret_access_key@,
                session_token: session_token@,
            }),
    {
        Self { access_key_id, secret_access_key, session_token }
    }

    pub fn access_key_id(&self) -> (text: &String)
        ensures
            text@ == self@.access_key_id,
    {
        &self.access_key_id
    }

    pub fn secret_access_key(&self) -> (text: &String)
        ensures
            text@ == self@.secret_access_key,
    {
        &self.secret_access_key
    }

    pub fn session_token(&self) -> (text: &String)
        ensures
            text@ == self@.session_token,
    {
        &self.session_token
    }
}

/// The credentials that a request carries.
pub open spec fn credential_for(params: S3ParamsView) -> CredentialView {
    CredentialView {
        access_key_id: params.access_key_id,
        secret_access_key: params.secret_access_key,
        session_token: params.session_token,
    }
}

/// Where a bucket lives: a region known by its name, or a region reached
/// at an address of its own.
#[derive(Debug, Clone, PartialEq, Eq)]
pub enum Region {
    Named { region: String },
    Custom { region: String, endpoint: String },
}

/// Mathematical value of a `Region`.
pub enum RegionView {
    Named { region: Seq<char> },
    Custom { region: Seq<char>, endpoint: Seq<char> },
}

impl View for Region {
    type V = RegionView;

    open spec fn view(&self) -> RegionView {
        match *self {
            Region::Named { region } => RegionView::Named { region: region@ },
            Region::Custom { region, endpoint } => RegionView::Custom {
                region: region@,
                endpoint: endpoint@,
            },
        }
    }
}

/// A header sent along with every request to a bucket.
#[derive(Debug, Clone, PartialEq, Eq)]
pub struct Header {
    pub name: String,
    pub value: String,
}

/// The headers of a list as pairs of name and value.
pub open spec fn headers_of(headers: Seq<Header>) -> Seq<(Seq<char>, Seq<char>)> {
    Seq::new(headers.len(), |i: int| (headers[i].name@, headers[i].value@))
}

/// A bucket as a transfer addresses it: its name and region, the
/// credentials to use, and the headers to send along.
#[derive(Debug, Clone, PartialEq, Eq)]
pub struct Bucket {
    pub name: String,
    pub region: Region,
    pub credentials: NeS3Credential,
    pub extra_headers: Vec<Header>,
}

/// Mathematical value of a `Bucket`.
pub struct BucketView {
    pub name: Seq<char>,
    pub region: RegionView,
    pub credentials: CredentialView,
    pub extra_headers: Seq<(Seq<char>, Seq<char>)>,
}

impl View for Bucket {
    type V = BucketView;

    open spec fn view(&self) -> BucketView {
        BucketView {
            name: self.name@,
            region: self.region@,
            credentials: self.credentials@,
            extra_headers: headers_of(self.extra_headers@),
        }
    }
}

impl Bucket {
    /// Adds a header after those already there.
    pub fn add_header(&mut self, name: &str, value: &str)
        ensures
            final(self)@ == (BucketView {
                extra_headers: old(self)@.extra_headers.push((name@, value@)),
                ..old(self)@
            }),
    {
        self.extra_headers.push(
            Header { name: String::from_str(name), value: String::from_str(value) },
        );
        assert(headers_of(self.extra_headers@) =~= headers_of(old(self).extra_headers@).push(
            (name@, value@),
        ));
    }
}

/// The name of the region that a bucket request means: the one it gives, or
/// the default for buckets.
pub open spec fn bucket_region_name(params: S3ParamsView) -> Seq<char> {
    match params.region {
        Some(region) => region,
        None => DEFAULT_BUCKET_REGION@,
    }
}

/// The endpoint that a request asks for, if it asks for one: an endpoint
/// that is present and not empty.
pub open spec fn endpoint_override(params: S3ParamsView) -> Option<Seq<char>> {
    match params.endpoint {
        Some(endpoint) => if endpoint.len() > 0 {
            Some(endpoint)
        } else {
            None
        },
        None => None,
    }
}

/// The bucket that a request addresses. An endpoint that is given and not
/// empty makes the region a custom one; the security token travels as a
/// header.
pub open spec fn bucket_for(params: S3ParamsView) -> BucketView {
    BucketView {
        name: params.bucket,
        region: match endpoint_override(params) {
            Some(endpoint) => RegionView::Custom { region: bucket_region_name(params), endpoint },
            None => RegionView::Named { region: bucket_region_name(params) },
        },
        credentials: credential_for(params),
        extra_headers: seq![(SECURITY_TOKEN_HEADER@, params.security_token)],
    }
}

/// The endpoint that a request asks for, if any.
fn chosen_endpoint(params: &S3Params) -> (endpoint: Option<String>)
    ensures
        text_of(endpoint) == endpoint_override(params@),
{
    match &params.endpoint {
        Some(endpoint) => {
            if endpoint.as_str().is_empty() {
                None
            } else {
                Some(endpoint.clone())
            }
        },
        None => None,
    }
}

/// Describes the bucket that a request addresses. It succeeds on every
/// request.
pub fn get_s3_bucket(params: &S3Params) -> (result: Result<Bucket, TransferError>)
    ensures
        result matches Ok(bucket) && bucket@ == bucket_for(params@),
{
    let region_name = match &params.region {
        Some(region) => region.clone(),
        None => String::from_str(DEFAULT_BUCKET_REGION),
    };
    let region = match chosen_endpoint(params) {
        Some(endpoint) => Region::Custom { region: region_name, endpoint },
        None => Region::Named { region: region_name },
    };
    let mut bucket = Bucket {
        name: params.bucket.clone(),
        region,
        credentials: NeS3Credential::new(
            params.access_key_id.clone(),
            params.secret_access_key.clone(),
            params.session_token.clone(),
        ),
        extra_headers: Vec::new(),
    };
    bucket.add_header(SECURITY_TOKEN_HEADER, params.security_token.as_str());
    assert(bucket@.extra_headers =~= seq![(SECURITY_TOKEN_HEADER@, params@.security_token)]);
    Ok(bucket)
}

/// What a storage client is built from.
#[derive(Debug, Clone, PartialEq, Eq)]
pub struct ClientConfig {
    pub region: String,
    pub credential: NeS3Credential,
    /// Attempts allowed for each network call; one means no retry.
    pub max_attempts: u32,
    pub endpoint: Option<String>,
    pub ca_cert_path: Option<String>,
}

/// Mathematical value of a `ClientConfig`.
pub struct ClientConfigView {
    pub region: Seq<char>,
    pub credential: CredentialView,
    pub max_attempts: u32,
    pub endpoint: Option<Seq<char>>,
    pub ca_cert_path: Option<Seq<char>>,
}

impl View for ClientConfig {
    type V = ClientConfigView;

    open spec fn view(&self) -> ClientConfigView {
        ClientConfigView {
            region: self.region@,
            credential: self.credential@,
            max_attempts: self.max_attempts,
            endpoint: text_of(self.endpoint),
            ca_cert_path: text_of(self.ca_cert_path),
        }
    }
}

/// The name of a region.
pub open spec fn region_name(region: RegionView) -> Seq<char> {
    match region {
        RegionView::Named { region } => region,
        RegionView::Custom { region, endpoint } => region,
    }
}

/// The address of a region that has one of its own.
pub open spec fn region_endpoint(region: RegionView) -> Option<Seq<char>> {
    match region {
        RegionView::Named { region } => None,
        RegionView::Custom { region, endpoint } => Some(endpoint),
    }
}

/// The client that reaches a bucket: in the bucket's region, at its endpoint
/// if it has one, with its credentials, the given number of tries or one,
/// and the system's certificates.
pub open spec fn client_config_of(bucket: BucketView, tries: Option<u32>) -> ClientConfigView {
    ClientConfigView {
        region: region_name(bucket.region),
        credential: bucket.credentials,
        max_attempts: match tries {
            Some(tries) => tries,
            None => DEFAULT_TRIES,
        },
        endpoint: region_endpoint(bucket.region),
        ca_cert_path: None,
    }
}

impl Bucket {
    /// Chooses what the client that reaches this bucket is built from.
    pub fn client_config(&self, tries: Option<u32>) -> (config: ClientConfig)
        ensures
            config@ == client_config_of(self@, tries),
    {
        let (region, endpoint) = match &self.region {
            Region::Named { region } => (region.clone(), None),
            Region::Custom { region, endpoint } => (region.clone(), Some(endpoint.clone())),
        };
        ClientConfig {
            region,
            credential: NeS3Credential::new(
                self.credentials.access_key_id().clone(),
                self.credentials.secret_access_key().clone(),
                self.credentials.session_token().clone(),
            ),
            max_attempts: match tries {
                Some(tries) => tries,
                None => DEFAULT_TRIES,
            },
            endpoint,
            ca_cert_path: None,
        }
    }
}

/// The client that a request asks for: its own region or the default for
/// clients, its credentials, its number of tries or one, its endpoint if
/// that is not empty, and its certificate file.
pub open spec fn client_config_for(params: S3ParamsView) -> ClientConfigView {
    ClientConfigView {
        region: match params.region {
            Some(region) => region,
            None => DEFAULT_CLIENT_REGION@,
        },
        credential: credential_for(params),
        max_attempts: match params.tries {
            Some(tries) => tries,
            None => DEFAULT_TRIES,
        },
        endpoint: endpoint_override(params),
        ca_cert_path: params.ca_cert_path,
    }
}

/// Chooses what the storage client of one transfer is built from.
pub fn create_s3_client(params: &S3Params) -> (config: ClientConfig)
    ensures
        config@ == client_config_for(params@),
{
    let region = match &params.region {
        Some(region) => region.clone(),
        None => String::from_str(DEFAULT_CLIENT_REGION),
    };
    ClientConfig {
        region,
        credential: NeS3Credential::new(
            params.access_key_id.clone(),
            params.secret_access_key.clone(),
            params.session_token.clone(),
        ),
        max_attempts: match params.tries {
            Some(tries) => tries,
            None => DEFAULT_TRIES,
        },
        endpoint: chosen_endpoint(params),
        ca_cert_path: clone_text(&params.ca_cert_path),
    }
}

} // verus!
