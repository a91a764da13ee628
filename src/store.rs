//! What the upload path hands to the object store: the content type to
//! record and the public URL of a stored object.
use vstd::prelude::*;
use crate::text::{opt_view, concat};

verus! {

/// An object-store failure, with a human-readable cause.
#[derive(Clone, Debug)]
pub struct StoreError {
    pub message: String,
    /// The write was abandoned because it did not finish in time.
    pub timed_out: bool,
}

/// The content type recorded when the upload carries none.
pub open spec fn default_content_type() -> Seq<char> {
    "application/octet-stream"@
}

/// The content type stored for an upload whose part declared `ct`: the
/// declared one unless it is missing or empty.
pub open spec fn content_type_of(ct: Option<Seq<char>>) -> Seq<char> {
    match ct {
        Some(c) => if c.len() > 0 { c } else { default_content_type() },
        None => default_content_type(),
    }
}

/// Resolves the content type to send to the store; never empty.
pub fn effective_content_type(ct: &Option<String>) -> (r: String)
    ensures
        r@ == content_type_of(opt_view(*ct)),
        r@.len() > 0,
{
    proof {
        reveal_strlit("application/octet-stream");
    }
    match ct {
        Some(c) => {
            if c.as_str().unicode_len() > 0 {
                c.clone()
            } else {
                String::from_str("application/octet-stream")
            }
        },
        None => String::from_str("application/octet-stream"),
    }
}

/// The public URL of `key`: under the configured domain when there is one,
/// else the S3 virtual-host address of the bucket in its region.
pub open spec fn url_of(
    bucket: Seq<char>,
    key: Seq<char>,
    region: Seq<char>,
    domain: Option<Seq<char>>,
) -> Seq<char> {
    match domain {
        Some(d) => "https://"@ + d + "/"@ + key,
        None => "https://"@ + bucket + ".s3."@ + region + ".amazonaws.com/"@ + key,
    }
}

/// Builds the public URL of a stored object, without contacting the store.
pub fn public_url(bucket: &str, key: &str, region: &str, domain: &Option<String>) -> (r: String)
    ensures
        r@ == url_of(bucket@, key@, region@, opt_view(*domain)),
{
    match domain {
        Some(d) => {
            let s = concat("https://", d.as_str());
            let s = concat(s.as_str(), "/");
            concat(s.as_str(), key)
        },
        None => {
            let s = concat("https://", bucket);
            let s = concat(s.as_str(), ".s3.");
            let s = concat(s.as_str(), region);
            let s = concat(s.as_str(), ".amazonaws.com/");
            concat(s.as_str(), key)
        },
    }
}

} // verus!
