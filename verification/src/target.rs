//! The deployment target and the request built from it for one upload.

use vstd::prelude::*;
use vstd::string::StringExecFns;

verus! {

/// The path segment inserted between the server base URL and the resource
/// identifier when the endpoint URL is built.
pub open spec fn api_prefix() -> Seq<char> {
    "/api/scripts/"@
}

/// Where a run deploys to: the server base URL, the resource identifier the
/// script is stored under, and the path of the local file to upload. Built
/// once from the command line and never changed afterwards.
pub struct DeployTarget {
    pub server: String,
    pub uri: String,
    pub file: String,
}

impl DeployTarget {
    /// Packs the three command-line values into a target, unchanged.
    pub fn new(server: String, uri: String, file: String) -> (t: DeployTarget)
        ensures
            t.server@ == server@,
            t.uri@ == uri@,
            t.file@ == file@,
    {
        DeployTarget { server, uri, file }
    }

    /// The endpoint URL: the base URL, the fixed path prefix and the
    /// identifier, joined by plain concatenation. The identifier is trusted
    /// to be URL-safe; nothing is escaped.
    pub fn api_url(&self) -> (r: String)
        ensures
            r@ == self.server@ + api_prefix() + self.uri@,
    {
        let mut url: String = self.server.as_str().to_owned();
        url.append("/api/scripts/");
        url.append(self.uri.as_str());
        url
    }
}

/// One upload request as handed to the HTTP layer: the URL to POST to and
/// the raw body to send.
pub struct DeployRequest {
    pub url: String,
    pub body: String,
}

/// Builds the request for one upload: the URL is the target's endpoint URL
/// and the body is exactly the file content, byte for byte.
pub fn build_request(target: &DeployTarget, content: String) -> (r: DeployRequest)
    ensures
        r.url@ == target.server@ + api_prefix() + target.uri@,
        r.body@ == content@,
{
    DeployRequest { url: target.api_url(), body: content }
}

} // verus!
