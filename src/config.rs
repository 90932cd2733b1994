//! The configuration a request is made with.

use vstd::prelude::*;
use vstd::string::*;

verus! {

/// A snapshot of the client's configuration: credentials, the server's base
/// URL, and the largest part, in bytes, that is sent in one request.
pub struct MusicUploaderClientConfig {
    pub user: String,
    pub password: String,
    pub server_url: String,
    pub max_upload_part_size: u32,
}

impl MusicUploaderClientConfig {
    /// The URL of `route` on the configured server: `<server_url>/<route>`.
    pub fn build_url(&self, route: &str) -> (r: String)
        ensures
            r@ == self.server_url@ + "/"@ + route@,
    {
        let mut url = self.server_url.clone();
        url.append("/");
        url.append(route);
        url
    }
}

} // verus!
