//! The upload path: authenticate, pick the file part, resolve bucket, region,
//! key and content type, and turn the store's answer into the caller's reply.
use vstd::prelude::*;
use crate::auth::{AuthDecision, allows, authenticate};
use crate::clock::{Timestamp, read_clock};
use crate::keys::{generated_key, fallback_name, new_uuid_text, key_of, fallback_name_of, is_generated_key, is_uuid_text, is_v4_uuid_text, lemma_generated_key_shape};
use crate::store::{StoreError, effective_content_type, public_url, content_type_of, url_of};
use crate::text::{opt_view, str_eq, concat};

verus! {

/// One part of a multipart form.
#[derive(Clone, Debug)]
pub struct FormPart {
    /// The form field name.
    pub name: Option<String>,
    pub filename: Option<String>,
    pub content_type: Option<String>,
    pub data: Vec<u8>,
}

/// Optional query parameters of an upload.
#[derive(Clone, Debug, Default)]
pub struct UploadParams {
    pub bucket: Option<String>,
    pub region: Option<String>,
    pub key: Option<String>,
}

/// Configuration of the upload service.
#[derive(Clone, Debug)]
pub struct UploadConfig {
    /// The shared secret expected in `x-api-key`.
    pub api_key: Option<String>,
    /// The deployment mode; `development` switches authentication off.
    pub mode: String,
    pub default_bucket: Option<String>,
    pub default_region: Option<String>,
    /// A domain under which stored objects are served, if any.
    pub domain: Option<String>,
}

/// Everything the object-store write needs, and the URL of the result.
#[derive(Clone, Debug)]
pub struct PutPlan {
    pub bucket: String,
    pub key: String,
    pub region: String,
    pub content_type: String,
    pub body: Vec<u8>,
    pub url: String,
}

/// A completed, durable upload.
#[derive(Clone, Debug)]
pub struct UploadResult {
    pub url: String,
    pub bucket: String,
    pub key: String,
    pub region: String,
}

/// Why an upload was refused or failed.
#[derive(Clone, Debug)]
pub enum UploadError {
    Unauthorized,
    NoFile,
    /// The clock could not be read as a date with a four-digit year, so no
    /// key or file name could be formed.
    ClockUnavailable,
    /// The object-store write did not finish in time.
    TimedOut,
    /// The object store refused the write, for the cause given.
    Store(String),
}

impl UploadError {
    /// The HTTP status code that reports this error.
    pub open spec fn spec_status_code(&self) -> u16 {
        match self {
            UploadError::Unauthorized => 401u16,
            UploadError::NoFile => 400u16,
            UploadError::TimedOut => 504u16,
            _ => 500u16,
        }
    }

    /// The human-readable message of the error.
    pub open spec fn spec_message(&self) -> Seq<char> {
        match self {
            UploadError::Unauthorized => "Unauthorized"@,
            UploadError::NoFile => "No file uploaded"@,
            UploadError::ClockUnavailable => "Clock unavailable"@,
            UploadError::TimedOut => "Upload timed out"@,
            UploadError::Store(cause) => "Failed to upload file: "@ + cause@,
        }
    }

    /// The HTTP status code that reports this error.
    #[verifier::when_used_as_spec(spec_status_code)]
    pub fn status_code(&self) -> (r: u16)
        ensures
            r == match self {
                UploadError::Unauthorized => 401u16,
                UploadError::NoFile => 400u16,
                UploadError::TimedOut => 504u16,
                _ => 500u16,
            },
    {
        match self {
            UploadError::Unauthorized => 401,
            UploadError::NoFile => 400,
            UploadError::TimedOut => 504,
            _ => 500,
        }
    }

    /// The human-readable message of the error.
    pub fn message(&self) -> (r: String)
        ensures
            r@ == match self {
                UploadError::Unauthorized => "Unauthorized"@,
                UploadError::NoFile => "No file uploaded"@,
                UploadError::ClockUnavailable => "Clock unavailable"@,
                UploadError::TimedOut => "Upload timed out"@,
                UploadError::Store(cause) => "Failed to upload file: "@ + cause@,
            },
    {
        match self {
            UploadError::Unauthorized => String::from_str("Unauthorized"),
            UploadError::NoFile => String::from_str("No file uploaded"),
            UploadError::ClockUnavailable => String::from_str("Clock unavailable"),
            UploadError::TimedOut => String::from_str("Upload timed out"),
            UploadError::Store(cause) => concat("Failed to upload file: ", cause.as_str()),
        }
    }
}

/// Whether a form part is the `file` field.
pub open spec fn is_file_part(p: FormPart) -> bool {
    opt_view(p.name) == Some("file"@)
}

/// Whether `parts` holds a `file` field.
pub open spec fn has_file_part(parts: Seq<FormPart>) -> bool {
    exists|i: int| 0 <= i < parts.len() && is_file_part(#[trigger] parts[i])
}

/// The index of the last `file` field of `parts`: when several share the
/// name, the last one wins.
pub fn file_part_index(parts: &Vec<FormPart>) -> (r: Option<usize>)
    ensures
        r is None <==> !has_file_part(parts@),
        r matches Some(i) ==> i < parts@.len() && is_file_part(parts@[i as int]) && forall|j: int|
            i < j < parts@.len() ==> !is_file_part(#[trigger] parts@[j]),
{
    let mut i: usize = parts.len();
    while i > 0
        invariant
            i <= parts@.len(),
            forall|j: int| i <= j < parts@.len() ==> !is_file_part(#[trigger] parts@[j]),
        decreases i,
    {
        let is_file = match &parts[i - 1].name {
            Some(n) => str_eq(n.as_str(), "file"),
            None => false,
        };
        if is_file {
            return Some(i - 1);
        }
        i = i - 1;
    }
    None
}

/// A setting taken from an explicit parameter, else the configured default,
/// else the fixed fallback.
pub open spec fn setting_of(
    explicit: Option<Seq<char>>,
    configured: Option<Seq<char>>,
    fallback: Seq<char>,
) -> Seq<char> {
    match explicit {
        Some(e) => e,
        None => match configured {
            Some(c) => c,
            None => fallback,
        },
    }
}

/// Resolves a setting in the fixed order explicit, configured, fallback.
pub fn resolve_setting(explicit: &Option<String>, configured: &Option<String>, fallback: &str) -> (r:
    String)
    ensures
        r@ == setting_of(opt_view(*explicit), opt_view(*configured), fallback@),
{
    match explicit {
        Some(e) => e.clone(),
        None => match configured {
            Some(c) => c.clone(),
            None => String::from_str(fallback),
        },
    }
}

/// The bucket used when neither the request nor the configuration names one.
pub open spec fn fallback_bucket() -> Seq<char> {
    "repo-analyzer"@
}

/// The region used when neither the request nor the configuration names one.
pub open spec fn fallback_region() -> Seq<char> {
    "eu-central-1"@
}

/// The name of the uploaded file: its own, else `report-{timestamp}`.
pub open spec fn upload_name_of(part: FormPart, stamp: Seq<char>) -> Seq<char> {
    match opt_view(part.filename) {
        Some(f) => f,
        None => fallback_name_of(stamp),
    }
}

/// The key of the upload: the explicit one verbatim, else a generated one.
pub open spec fn upload_key_of(
    explicit: Option<Seq<char>>,
    stamp: Seq<char>,
    id: Seq<char>,
    name: Seq<char>,
) -> Seq<char> {
    match explicit {
        Some(k) => k,
        None => key_of(stamp, id, name),
    }
}

/// What the store is asked to do for `part`, once the request passed
/// authentication and its file part was found.
pub open spec fn plan_matches(
    p: PutPlan,
    config: UploadConfig,
    params: UploadParams,
    part: FormPart,
    stamp: Seq<char>,
    id: Seq<char>,
) -> bool {
    &&& p.bucket@ == setting_of(opt_view(params.bucket), opt_view(config.default_bucket), fallback_bucket())
    &&& p.region@ == setting_of(opt_view(params.region), opt_view(config.default_region), fallback_region())
    &&& p.key@ == upload_key_of(opt_view(params.key), stamp, id, upload_name_of(part, stamp))
    &&& p.content_type@ == content_type_of(opt_view(part.content_type))
    &&& p.body@ == part.data@
    &&& p.url@ == url_of(p.bucket@, p.key@, p.region@, opt_view(config.domain))
}

/// Builds the write for the file part `part`, given the time of the upload
/// and a UUID text for a generated key.
pub fn plan_put(config: &UploadConfig, params: &UploadParams, part: FormPart, stamp: &Timestamp, id: &str) -> (r:
    PutPlan)
    requires
        stamp.wf(),
    ensures
        plan_matches(r, *config, *params, part, stamp.text(), id@),
{
    proof {
        reveal_strlit("repo-analyzer");
        reveal_strlit("eu-central-1");
    }
    let bucket = resolve_setting(&params.bucket, &config.default_bucket, "repo-analyzer");
    let region = resolve_setting(&params.region, &config.default_region, "eu-central-1");
    let name = match &part.filename {
        Some(f) => f.clone(),
        None => fallback_name(stamp),
    };
    let key = match &params.key {
        Some(k) => k.clone(),
        None => generated_key(stamp, id, name.as_str()),
    };
    let content_type = effective_content_type(&part.content_type);
    let url = public_url(bucket.as_str(), key.as_str(), region.as_str(), &config.domain);
    PutPlan { bucket, key, region, content_type, body: part.data, url }
}

/// Decides an upload request from the `x-api-key` value, the query
/// parameters and the form parts, given the time of the upload and a UUID
/// text for a generated key.
pub fn plan_upload(
    config: &UploadConfig,
    header: &Option<String>,
    params: &UploadParams,
    parts: Vec<FormPart>,
    stamp: &Timestamp,
    id: &str,
) -> (r: Result<PutPlan, UploadError>)
    requires
        stamp.wf(),
    ensures
        r matches Err(UploadError::Unauthorized) <==> !allows(opt_view(*header), opt_view(config.api_key), config.mode@),
        r matches Err(UploadError::NoFile) <==> allows(opt_view(*header), opt_view(config.api_key), config.mode@)
            && !has_file_part(parts@),
        r is Err ==> r matches Err(UploadError::Unauthorized) || r matches Err(UploadError::NoFile),
        r matches Ok(p) ==> exists|i: int| 0 <= i < parts@.len() && is_file_part(parts@[i])
            && (forall|j: int| i < j < parts@.len() ==> !is_file_part(#[trigger] parts@[j]))
            && plan_matches(p, *config, *params, parts@[i], stamp.text(), id@),
{
    if authenticate(header, &config.api_key, config.mode.as_str()) == AuthDecision::Deny {
        return Err(UploadError::Unauthorized);
    }
    let mut parts = parts;
    match file_part_index(&parts) {
        None => Err(UploadError::NoFile),
        Some(i) => {
            let part = parts.remove(i);
            Ok(plan_put(config, params, part, stamp, id))
        },
    }
}

/// `i` is the index of the last `file` part of `parts`.
pub open spec fn is_last_file_part(parts: Seq<FormPart>, i: int) -> bool {
    &&& 0 <= i < parts.len()
    &&& is_file_part(parts[i])
    &&& forall|j: int| i < j < parts.len() ==> !is_file_part(#[trigger] parts[j])
}

/// Decides an upload request as `plan_upload` does. The clock is read, and a
/// UUID minted, only when the request names no key or its file part no file
/// name; nothing is written to the store here.
pub fn prepare_upload(
    config: &UploadConfig,
    header: &Option<String>,
    params: &UploadParams,
    parts: Vec<FormPart>,
) -> (r: Result<PutPlan, UploadError>)
    ensures
        r matches Err(UploadError::Unauthorized) <==> !allows(opt_view(*header), opt_view(config.api_key), config.mode@),
        r matches Err(UploadError::NoFile) <==> allows(opt_view(*header), opt_view(config.api_key), config.mode@)
            && !has_file_part(parts@),
        r matches Err(UploadError::Store(_)) ==> false,
        r matches Err(UploadError::TimedOut) ==> false,
        r matches Err(UploadError::ClockUnavailable) ==> params.key is None || exists|i: int|
            #[trigger] is_last_file_part(parts@, i) && parts@[i].filename is None,
        allows(opt_view(*header), opt_view(config.api_key), config.mode@) && has_file_part(parts@)
            && params.key is Some && (forall|i: int| #[trigger] is_last_file_part(parts@, i)
            ==> parts@[i].filename is Some) ==> r is Ok,
        r matches Ok(p) ==> exists|i: int, stamp: Timestamp, id: Seq<char>| {
            &&& is_last_file_part(parts@, i)
            &&& stamp.wf()
            &&& (params.key is None ==> is_v4_uuid_text(id))
            &&& #[trigger] plan_matches(p, *config, *params, parts@[i], stamp.text(), id)
        },
{
    if authenticate(header, &config.api_key, config.mode.as_str()) == AuthDecision::Deny {
        return Err(UploadError::Unauthorized);
    }
    let i = match file_part_index(&parts) {
        None => {
            return Err(UploadError::NoFile);
        },
        Some(i) => i,
    };
    assert(is_last_file_part(parts@, i as int));
    if params.key.is_some() && parts[i].filename.is_some() {
        // Neither a generated key nor a fallback name is needed: the time and
        // the id below are never read.
        let stamp = Timestamp { year: 1970, month: 1, day: 1, hour: 0, minute: 0, second: 0 };
        return plan_upload(config, header, params, parts, &stamp, "");
    }
    let stamp = match read_clock() {
        Some(reading) => match Timestamp::from_reading(reading) {
            Some(t) => t,
            None => {
                return Err(UploadError::ClockUnavailable);
            },
        },
        None => {
            return Err(UploadError::ClockUnavailable);
        },
    };
    let id = new_uuid_text();
    plan_upload(config, header, params, parts, &stamp, id.as_str())
}

/// Turns the store's answer to the write of `plan` into the caller's reply.
pub fn complete_upload(plan: PutPlan, outcome: Result<(), StoreError>) -> (r: Result<
    UploadResult,
    UploadError,
>)
    ensures
        outcome is Ok <==> r is Ok,
        r matches Ok(u) ==> u.url == plan.url && u.bucket == plan.bucket && u.key == plan.key
            && u.region == plan.region,
        outcome is Err && outcome->Err_0.timed_out ==> r matches Err(UploadError::TimedOut),
        outcome is Err && !outcome->Err_0.timed_out ==> (r matches Err(UploadError::Store(cause))
            && cause@ == outcome->Err_0.message@),
{
    match outcome {
        Ok(()) => Ok(UploadResult { url: plan.url, bucket: plan.bucket, key: plan.key, region: plan.region }),
        Err(e) => if e.timed_out {
            Err(UploadError::TimedOut)
        } else {
            Err(UploadError::Store(e.message))
        },
    }
}

/// An upload that names its key is stored under exactly that key.
pub proof fn lemma_explicit_key_kept(
    p: PutPlan,
    config: UploadConfig,
    params: UploadParams,
    part: FormPart,
    stamp: Seq<char>,
    id: Seq<char>,
)
    requires
        plan_matches(p, config, params, part, stamp, id),
        params.key is Some,
    ensures
        p.key@ == params.key->0@,
{
}

/// An upload that names no key is stored under
/// `reports/<timestamp>-<8 hex digits>-<file name>`.
pub proof fn lemma_generated_key_format(
    p: PutPlan,
    config: UploadConfig,
    params: UploadParams,
    part: FormPart,
    stamp: Timestamp,
    id: Seq<char>,
)
    requires
        plan_matches(p, config, params, part, stamp.text(), id),
        params.key is None,
        stamp.wf(),
        is_uuid_text(id),
    ensures
        is_generated_key(p.key@, upload_name_of(part, stamp.text())),
{
    lemma_generated_key_shape(stamp, id, upload_name_of(part, stamp.text()));
}

/// An upload whose file part declares an empty content type, or none, is
/// stored as `application/octet-stream`.
pub proof fn lemma_content_type_defaulted(
    p: PutPlan,
    config: UploadConfig,
    params: UploadParams,
    part: FormPart,
    stamp: Seq<char>,
    id: Seq<char>,
)
    requires
        plan_matches(p, config, params, part, stamp, id),
        part.content_type is None || part.content_type->0@.len() == 0,
    ensures
        p.content_type@ == "application/octet-stream"@,
{
}

} // verus!
