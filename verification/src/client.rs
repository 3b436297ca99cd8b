//! Construction of the storage-client handle: an immutable, shareable value
//! bound to one bucket, built once at startup from the configuration and then
//! only read.  Construction makes no network call; bad credentials surface
//! only on the first fetch.

use vstd::prelude::*;

use crate::config::AppConfig;

verus! {

#[verifier::external_type_specification]
#[verifier::external_body]
pub struct ExBucket(s3::Bucket);

#[verifier::external_type_specification]
#[verifier::external_body]
pub struct ExRegion(s3::Region);

#[verifier::external_type_specification]
#[verifier::external_body]
pub struct ExCredentials(s3::creds::Credentials);

/// Why the storage client could not be built; the payload is the diagnostic
/// line, never shown to HTTP callers.
#[derive(Debug)]
pub enum ClientError {
    Credentials(String),
    Bucket(String),
}

impl ClientError {
    /// The diagnostic line for this error.
    pub fn message(self) -> (r: String)
        ensures
            r@ == match self {
                ClientError::Credentials(m) => m@,
                ClientError::Bucket(m) => m@,
            },
    {
        match self {
            ClientError::Credentials(m) => m,
            ClientError::Bucket(m) => m,
        }
    }
}

/// The region name a `s3::Region` value carries.
pub uninterp spec fn region_name_of(r: s3::Region) -> Seq<char>;

/// The endpoint a `s3::Region` value carries.
pub uninterp spec fn region_endpoint_of(r: s3::Region) -> Seq<char>;

/// The bucket name a `s3::Bucket` handle is bound to, as its `name` method
/// reports it.
pub uninterp spec fn bucket_name_of(b: s3::Bucket) -> Seq<char>;

/// The region name a `s3::Bucket` handle is bound to.
pub uninterp spec fn bucket_region_name_of(b: s3::Bucket) -> Seq<char>;

/// The endpoint a `s3::Bucket` handle composes its requests against.
pub uninterp spec fn bucket_endpoint_of(b: s3::Bucket) -> Seq<char>;

/// Whether a `s3::Bucket` handle addresses objects path-style
/// (`endpoint/bucket/key`) rather than virtual-host-style
/// (`bucket.endpoint/key`), as its `is_path_style` method reports it.
pub uninterp spec fn bucket_is_path_style(b: s3::Bucket) -> bool;

/// Relies on aws-region's `Region::Custom`: a record holding exactly the
/// given region name and endpoint for a self-hosted backend; building it
/// cannot fail.
#[verifier::external_body]
fn custom_region(region: String, endpoint: String) -> (r: s3::Region)
    ensures
        region_name_of(r) == region@,
        region_endpoint_of(r) == endpoint@,
{
    s3::Region::Custom { region, endpoint }
}

/// Relies on aws-creds' `Credentials::new`: with an access key supplied it
/// returns `Ok` unconditionally, holding exactly the given keys, without
/// consulting the process environment.
#[verifier::external_body]
fn new_credentials(access_key: &str, secret_key: &str) -> (r: Result<
    s3::creds::Credentials,
    String,
>)
    ensures
        r is Ok,
{
    s3::creds::Credentials::new(Some(access_key), Some(secret_key), None, None, None).map_err(
        |e| format!("Failed to create S3 credentials: {}", e),
    )
}

/// Relies on rust-s3's `Bucket::new`: builds the in-memory handle holding
/// exactly the given name and region, with path-style addressing off; it
/// fails only when the backing HTTP client cannot be set up.
#[verifier::external_body]
fn new_bucket(
    name: &str,
    region: s3::Region,
    credentials: s3::creds::Credentials,
) -> (r: Result<s3::Bucket, String>)
    ensures
        r matches Ok(b) ==> bucket_name_of(b) == name@ && bucket_region_name_of(b)
            == region_name_of(region) && bucket_endpoint_of(b) == region_endpoint_of(region)
            && !bucket_is_path_style(b),
{
    match s3::Bucket::new(name, region, credentials) {
        Ok(b) => Ok(*b),
        Err(e) => Err(format!("Failed to create S3 bucket client: {}", e)),
    }
}

/// Relies on rust-s3's `Bucket::with_path_style`: a field-for-field copy of
/// the handle that addresses objects as `endpoint/bucket/key` instead of
/// `bucket.endpoint/key`, bound to the same name and region.
#[verifier::external_body]
fn with_path_style(bucket: &s3::Bucket) -> (r: s3::Bucket)
    ensures
        bucket_name_of(r) == bucket_name_of(*bucket),
        bucket_region_name_of(r) == bucket_region_name_of(*bucket),
        bucket_endpoint_of(r) == bucket_endpoint_of(*bucket),
        bucket_is_path_style(r),
{
    *bucket.with_path_style()
}

/// The read-only state every request handler shares: the one storage-client
/// handle, built at startup and never mutated.
pub struct AppState {
    pub bucket: s3::Bucket,
}

impl AppConfig {
    /// Builds the storage-client handle bound to this configuration's bucket,
    /// region, (already normalized) endpoint and addressing style; every
    /// request handler sharing the handle then observes those same four.
    /// With an access key present, credential construction cannot fail, so
    /// any error comes from setting the client up.
    pub fn create_s3_bucket(&self) -> (r: Result<s3::Bucket, ClientError>)
        ensures
            r matches Ok(b) ==> {
                &&& bucket_name_of(b) == self.s3_bucket_name@
                &&& bucket_region_name_of(b) == self.s3_region@
                &&& bucket_endpoint_of(b) == self.s3_endpoint@
                &&& bucket_is_path_style(b) == self.s3_path_style
            },
            r matches Err(e) ==> e is Bucket,
    {
        let region = custom_region(self.s3_region.clone(), self.s3_endpoint.clone());
        let credentials = match new_credentials(
            self.s3_access_key.as_str(),
            self.s3_secret_key.as_str(),
        ) {
            Ok(c) => c,
            Err(m) => {
                return Err(ClientError::Credentials(m));
            },
        };
        let bucket = match new_bucket(self.s3_bucket_name.as_str(), region, credentials) {
            Ok(b) => b,
            Err(m) => {
                return Err(ClientError::Bucket(m));
            },
        };
        if self.s3_path_style {
            Ok(with_path_style(&bucket))
        } else {
            Ok(bucket)
        }
    }
}

} // verus!
