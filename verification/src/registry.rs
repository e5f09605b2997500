//! The registry client's decisions: URL construction for the auth, manifest
//! and blob endpoints, and validation of the responses the caller observed.
//! The caller performs the HTTP requests and feeds status and body back in.

use vstd::prelude::*;
use vstd::string::StringExecFns;
use crate::errors::RunError;

verus! {

/// Where the registry lives. Supplied at startup so alternate registries can
/// be substituted; `default_endpoint` gives the public one.
#[derive(Debug, Clone)]
pub struct RegistryEndpoint {
    /// Everything of the token URL up to the repository name; the image name
    /// and the `:pull` scope suffix complete it.
    pub auth_base: String,
    /// The base URL under which `<image>/manifests/<tag>` and
    /// `<image>/blobs/<digest>` are resolved.
    pub registry_base: String,
}

/// The public registry endpoint used when no other is configured.
pub fn default_endpoint() -> (r: RegistryEndpoint)
    ensures
        r.auth_base@ == "https://auth.docker.io/token?service=registry.docker.io&scope=repository:library/"@,
        r.registry_base@ == "https://registry.hub.docker.com/v2/library"@,
{
    RegistryEndpoint {
        auth_base: String::from_str(
            "https://auth.docker.io/token?service=registry.docker.io&scope=repository:library/",
        ),
        registry_base: String::from_str("https://registry.hub.docker.com/v2/library"),
    }
}

/// The token URL for anonymous pull access to `image`.
pub open spec fn spec_auth_url(e: RegistryEndpoint, image: Seq<char>) -> Seq<char> {
    e.auth_base@ + image + ":pull"@
}

/// The manifest URL for `image:tag`.
pub open spec fn spec_manifest_url(e: RegistryEndpoint, image: Seq<char>, tag: Seq<char>) -> Seq<char> {
    e.registry_base@ + "/"@ + image + "/manifests/"@ + tag
}

/// The blob URL for one layer digest of `image`.
pub open spec fn spec_blob_url(e: RegistryEndpoint, image: Seq<char>, digest: Seq<char>) -> Seq<char> {
    e.registry_base@ + "/"@ + image + "/blobs/"@ + digest
}

impl RegistryEndpoint {
    pub fn auth_url(&self, image: &str) -> (r: String)
        ensures
            r@ == spec_auth_url(*self, image@),
    {
        self.auth_base.clone().concat(image).concat(":pull")
    }

    pub fn manifest_url(&self, image: &str, tag: &str) -> (r: String)
        ensures
            r@ == spec_manifest_url(*self, image@, tag@),
    {
        self.registry_base.clone().concat("/").concat(image).concat("/manifests/").concat(tag)
    }

    pub fn blob_url(&self, image: &str, digest: &str) -> (r: String)
        ensures
            r@ == spec_blob_url(*self, image@, digest@),
    {
        self.registry_base.clone().concat("/").concat(image).concat("/blobs/").concat(digest)
    }
}

/// The string at `field` in the JSON object encoded by `body`, or `None` when
/// the body is not a JSON object, the field is absent, or it is not a string.
pub uninterp spec fn json_string_field_of(body: Seq<u8>, field: Seq<char>) -> Option<Seq<char>>;

/// The strings at `item_field` of each element of the array at `array_field`
/// of the JSON object encoded by `body`, in array order; `None` when the body
/// does not parse, the array is absent, or any element lacks the string.
pub uninterp spec fn json_string_array_field_of(
    body: Seq<u8>,
    array_field: Seq<char>,
    item_field: Seq<char>,
) -> Option<Seq<Seq<char>>>;

/// Relies on serde_json::from_slice together with serde_json::Value::get and
/// Value::as_str: parsing is deterministic, so the extracted field is a
/// function of the body bytes and the field name alone.
#[verifier::external_body]
fn json_string_field(body: &[u8], field: &str) -> (r: Option<String>)
    ensures
        match r {
            Some(s) => json_string_field_of(body@, field@) == Some(s@),
            None => json_string_field_of(body@, field@) is None,
        },
{
    let v: serde_json::Value = match serde_json::from_slice(body) {
        Ok(v) => v,
        Err(_) => return None,
    };
    match v.get(field) {
        Some(f) => f.as_str().map(String::from),
        None => None,
    }
}

/// Relies on serde_json::from_slice together with serde_json::Value::get,
/// Value::as_array and Value::as_str: parsing is deterministic, so the
/// extracted list is a function of the body bytes and the field names alone.
#[verifier::external_body]
fn json_string_array_field(body: &[u8], array_field: &str, item_field: &str) -> (r: Option<
    Vec<String>,
>)
    ensures
        match r {
            Some(v) => json_string_array_field_of(body@, array_field@, item_field@) == Some(
                v.deep_view(),
            ),
            None => json_string_array_field_of(body@, array_field@, item_field@) is None,
        },
{
    let v: serde_json::Value = match serde_json::from_slice(body) {
        Ok(v) => v,
        Err(_) => return None,
    };
    let arr = match v.get(array_field) {
        Some(a) => match a.as_array() {
            Some(a) => a,
            None => return None,
        },
        None => return None,
    };
    arr.iter().map(|e| e.get(item_field).and_then(|s| s.as_str()).map(String::from)).collect()
}

/// A 2xx status.
pub open spec fn is_success_status(status: u16) -> bool {
    200 <= status < 300
}

/// Turns the auth endpoint's observed response into the bearer token. Any
/// failure — transport, a non-2xx status, or a missing or malformed token
/// field — is an authentication failure naming the image.
pub fn token_from_response(image: &str, transport_ok: bool, status: u16, body: &[u8]) -> (r: Result<
    String,
    RunError,
>)
    ensures
        match r {
            Ok(t) => transport_ok && is_success_status(status) && json_string_field_of(
                body@,
                "token"@,
            ) == Some(t@),
            Err(e) => {
                &&& !(transport_ok && is_success_status(status) && json_string_field_of(
                    body@,
                    "token"@,
                ) is Some)
                &&& e matches RunError::AuthError { image: i } && i@ == image@
            },
        },
{
    if !transport_ok || status < 200 || status >= 300 {
        return Err(RunError::AuthError { image: image.to_owned() });
    }
    match json_string_field(body, "token") {
        Some(t) => Ok(t),
        None => Err(RunError::AuthError { image: image.to_owned() }),
    }
}

/// Turns the manifest endpoint's observed response into the ordered layer
/// digest list. A 404 is reported as "image or tag not found", a transport
/// failure as a network error, and everything else that prevents reading the
/// layer-list field as a manifest error. An empty layer list is valid.
pub fn manifest_from_response(
    image: &str,
    tag: &str,
    transport_ok: bool,
    status: u16,
    body: &[u8],
) -> (r: Result<Vec<String>, RunError>)
    ensures
        match r {
            Ok(layers) => transport_ok && is_success_status(status)
                && json_string_array_field_of(body@, "fsLayers"@, "blobSum"@) == Some(
                layers.deep_view(),
            ),
            Err(e) => match e {
                RunError::NetworkError => !transport_ok,
                RunError::NotFoundError { image: i, tag: t } => transport_ok && status == 404
                    && i@ == image@ && t@ == tag@,
                RunError::ManifestError { image: i, tag: t } => {
                    &&& transport_ok
                    &&& status != 404
                    &&& !(is_success_status(status) && json_string_array_field_of(
                        body@,
                        "fsLayers"@,
                        "blobSum"@,
                    ) is Some)
                    &&& i@ == image@
                    &&& t@ == tag@
                },
                _ => false,
            },
        },
{
    if !transport_ok {
        return Err(RunError::NetworkError);
    }
    if status == 404 {
        return Err(RunError::NotFoundError { image: image.to_owned(), tag: tag.to_owned() });
    }
    if status < 200 || status >= 300 {
        return Err(RunError::ManifestError { image: image.to_owned(), tag: tag.to_owned() });
    }
    match json_string_array_field(body, "fsLayers", "blobSum") {
        Some(layers) => Ok(layers),
        None => Err(RunError::ManifestError { image: image.to_owned(), tag: tag.to_owned() }),
    }
}

} // verus!
