//! Where a profile's archive lives in object storage.

use vstd::prelude::*;
use vstd::string::StringExecFns;

verus! {

/// A client of the object storage API: what it needs to name an object.
/// The HTTP client that carries its requests is kept beside it.
#[derive(Debug, PartialEq, Eq)]
pub struct Client {
    pub bucket_name: String,
    pub api_key: String,
    pub base_url: String,
}

/// The path of the object `key` in `bucket`.
pub open spec fn object_path_of(bucket: Seq<char>, key: Seq<char>) -> Seq<char> {
    "/object/"@ + bucket + "/"@ + key
}

impl Client {
    pub fn new(bucket_name: String, api_key: String, base_url: String) -> (client: Client)
        ensures
            client.bucket_name == bucket_name,
            client.api_key == api_key,
            client.base_url == base_url,
    {
        Client { bucket_name, api_key, base_url }
    }

    /// The path of the object `key` below the API's base URL.
    pub fn object_path(&self, key: &str) -> (path: String)
        ensures
            path@ == object_path_of(self.bucket_name@, key@),
    {
        String::from_str("/object/").concat(self.bucket_name.as_str()).concat("/").concat(key)
    }

    /// The URL of a request to `path`.
    pub fn request_url(&self, path: &str) -> (url: String)
        ensures
            url@ == self.base_url@ + path@,
    {
        self.base_url.clone().concat(path)
    }

    /// The URL of the object `key`.
    pub fn object_url(&self, key: &str) -> (url: String)
        ensures
            url@ == self.base_url@ + object_path_of(self.bucket_name@, key@),
    {
        let path = self.object_path(key);
        self.request_url(path.as_str())
    }
}

} // verus!
