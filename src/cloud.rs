use vstd::prelude::*;

verus! {

/// Connection settings of an S3-compatible object store.
#[derive(Clone, Debug)]
pub struct S3Config {
    pub endpoint: String,
    pub region: String,
    pub access_key_id: String,
    pub secret_access_key: String,
    pub token: Option<String>,
    pub bucket: Option<String>,
}

/// An object in an S3-compatible store: where the store is, and the key.
#[derive(Clone, Debug)]
pub struct S3Entry {
    pub config: S3Config,
    pub key: String,
}

/// How requests address the bucket.
#[derive(Clone, Debug, PartialEq, Eq)]
pub struct S3Addressing {
    pub bucket_name: String,
    /// The bucket is part of the endpoint's host name.
    pub virtual_hosted_style: bool,
}

/// The bucket name used when the endpoint already names the bucket; the
/// store then ignores it.
pub open spec fn placeholder_bucket() -> Seq<char> {
    "explorer-default-bucket-name"@
}

/// Chooses the bucket addressing for `config`: a named bucket is addressed
/// by path; without one, the endpoint is taken to name the bucket itself
/// (virtual-hosted style) and a placeholder name is supplied.
pub fn s3_addressing(config: &S3Config) -> (r: S3Addressing)
    ensures
        match config.bucket {
            Some(b) => r.bucket_name@ == b@ && !r.virtual_hosted_style,
            None => r.bucket_name@ == placeholder_bucket() && r.virtual_hosted_style,
        },
{
    match &config.bucket {
        Some(b) => S3Addressing { bucket_name: b.clone(), virtual_hosted_style: false },
        None => S3Addressing {
            bucket_name: String::from_str("explorer-default-bucket-name"),
            virtual_hosted_style: true,
        },
    }
}

} // verus!
