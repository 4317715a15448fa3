//! Enterprise app credentials.

use vstd::prelude::*;

verus! {

/// Enterprise app credentials (`appkey` + `appsecret`).
///
/// The secret is never written out by the library except as an HMAC key or
/// a token-issuance query parameter.
#[derive(Clone)]
pub struct AppCredentials {
    appkey: String,
    appsecret: String,
}

impl AppCredentials {
    /// The application key.
    pub closed spec fn spec_appkey(&self) -> Seq<char> {
        self.appkey@
    }

    /// The application secret.
    pub closed spec fn spec_appsecret(&self) -> Seq<char> {
        self.appsecret@
    }

    /// Creates credentials from app key and app secret.
    pub fn new(appkey: String, appsecret: String) -> (r: Self)
        ensures
            r.spec_appkey() == appkey@,
            r.spec_appsecret() == appsecret@,
    {
        Self { appkey, appsecret }
    }

    /// Returns the application key.
    pub fn appkey(&self) -> (r: &str)
        ensures
            r@ == self.spec_appkey(),
    {
        self.appkey.as_str()
    }

    /// Returns the application secret.
    pub fn appsecret(&self) -> (r: &str)
        ensures
            r@ == self.spec_appsecret(),
    {
        self.appsecret.as_str()
    }
}

} // verus!
