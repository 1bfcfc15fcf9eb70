//! Addresses and headers of the service's endpoints. The HTTP transport that
//! sends requests to them is supplied by the caller.

use vstd::prelude::*;
use crate::errors::ApiError;
use crate::text::{chars_of, joined, take_chars};
use crate::urls::{through_port, url_through_port, url_with_param, with_param};

verus! {

/// `s` without one trailing `/`, where it ends with one.
pub open spec fn without_trailing_slash(s: Seq<char>) -> Seq<char> {
    if s.len() > 0 && s.last() == '/' {
        s.drop_last()
    } else {
        s
    }
}

/// The endpoint `address` authenticated by the API key as a query
/// parameter, or the error for an address that does not parse.
pub open spec fn keyed_endpoint(r: Result<String, ApiError>, address: Seq<char>, api_key: Seq<char>) -> bool {
    match url_with_param(address, "api_key"@, api_key) {
        Some(u) => r matches Ok(s) && s@ == u,
        None => r matches Err(ApiError::InvalidParameters { url }) && url@ == address,
    }
}

/// Where and with which API key the service is reached.
#[derive(Debug, Clone, PartialEq, Eq)]
pub struct RapiReqwestClient {
    base_url: String,
    api_key: String,
}

impl RapiReqwestClient {
    pub closed spec fn spec_base_url(&self) -> Seq<char> {
        self.base_url@
    }

    pub closed spec fn spec_api_key(&self) -> Seq<char> {
        self.api_key@
    }

    /// A client for the service at `base_url` (one trailing `/` dropped)
    /// with the API key `api_key`.
    pub fn new(base_url: &str, api_key: &str) -> (r: RapiReqwestClient)
        ensures
            r.spec_base_url() == without_trailing_slash(base_url@),
            r.spec_api_key() == api_key@,
    {
        let chars = chars_of(base_url);
        let base = if chars.len() > 0 && chars[chars.len() - 1] == '/' {
            take_chars(base_url, chars.len() - 1)
        } else {
            base_url.to_owned()
        };
        RapiReqwestClient { base_url: base, api_key: api_key.to_owned() }
    }

    pub fn base_url(&self) -> (r: &str)
        ensures
            r@ == self.spec_base_url(),
    {
        self.base_url.as_str()
    }

    pub fn api_key(&self) -> (r: &str)
        ensures
            r@ == self.spec_api_key(),
    {
        self.api_key.as_str()
    }

    fn keyed(&self, path: &str) -> (r: Result<String, ApiError>)
        ensures
            keyed_endpoint(r, self.spec_base_url() + path@, self.spec_api_key()),
    {
        let address = joined(self.base_url.as_str(), path);
        match with_param(address.as_str(), "api_key", self.api_key.as_str()) {
            Ok(u) => Ok(u),
            Err(_) => Err(ApiError::InvalidParameters { url: address }),
        }
    }

    /// The token-exchange endpoint `<base>/user/jwt?api_key=<key>`.
    pub fn token_url(&self) -> (r: Result<String, ApiError>)
        ensures
            keyed_endpoint(r, self.spec_base_url() + "/user/jwt"@, self.spec_api_key()),
    {
        self.keyed("/user/jwt")
    }

    /// The run-creation endpoint `<base>/run?api_key=<key>`.
    pub fn create_run_url(&self) -> (r: Result<String, ApiError>)
        ensures
            keyed_endpoint(r, self.spec_base_url() + "/run"@, self.spec_api_key()),
    {
        self.keyed("/run")
    }

    /// The run-status endpoint `<base>/run/<id>?api_key=<key>`.
    pub fn run_url(&self, id: &str) -> (r: Result<String, ApiError>)
        ensures
            keyed_endpoint(r, self.spec_base_url() + "/run/"@ + id@, self.spec_api_key()),
    {
        let path = joined("/run/", id);
        let r = self.keyed(path.as_str());
        assert(self.spec_base_url() + path@ =~= self.spec_base_url() + "/run/"@ + id@);
        r
    }

    /// The artifact-listing endpoint `<base>/artifact/<run_id>`, reached with
    /// the bearer token.
    pub fn artifact_list_url(&self, run_id: &str) -> (r: String)
        ensures
            r@ == self.spec_base_url() + "/artifact/"@ + run_id@,
    {
        joined(&joined(self.base_url.as_str(), "/artifact/"), run_id)
    }

    /// The artifact-download endpoint `<base>/artifact?key=<artifact_id>`,
    /// reached with the bearer token.
    pub fn artifact_download_url(&self, artifact_id: &str) -> (r: Result<String, ApiError>)
        ensures
            ({
                let address = self.spec_base_url() + "/artifact"@;
                match url_with_param(address, "key"@, artifact_id@) {
                    Some(u) => r matches Ok(s) && s@ == u,
                    None => r matches Err(ApiError::InvalidParameters { url }) && url@ == address,
                }
            }),
    {
        let address = joined(self.base_url.as_str(), "/artifact");
        match with_param(address.as_str(), "key", artifact_id) {
            Ok(u) => Ok(u),
            Err(_) => Err(ApiError::InvalidParameters { url: address }),
        }
    }

    /// The page that shows the report of run `run_id`: the base URL cut
    /// after its port, then `/report/<run_id>`. Shown to people only.
    pub fn report_url(&self, run_id: &str) -> (r: Result<String, ApiError>)
        ensures
            match url_through_port(self.spec_base_url()) {
                Some(origin) => r matches Ok(s) && s@ == origin + "/report/"@ + run_id@,
                None => r matches Err(ApiError::InvalidParameters { url }) && url@
                    == self.spec_base_url(),
            },
    {
        match through_port(self.base_url.as_str()) {
            Some(origin) => Ok(joined(&joined(origin.as_str(), "/report/"), run_id)),
            None => Err(ApiError::InvalidParameters { url: self.base_url.clone() }),
        }
    }
}

/// The value of the `Authorization` header for a bearer token.
pub fn bearer_header(token: &str) -> (r: String)
    ensures
        r@ == "Bearer "@ + token@,
{
    joined("Bearer ", token)
}

impl Default for RapiReqwestClient {
    /// The public service, with no API key.
    fn default() -> (r: Self)
        ensures
            r.spec_base_url() == "https://cloud.marathonlabs.io/api/v1"@,
            r.spec_api_key() == Seq::<char>::empty(),
    {
        RapiReqwestClient {
            base_url: "https://cloud.marathonlabs.io/api/v1".to_owned(),
            api_key: String::new(),
        }
    }
}

} // verus!
