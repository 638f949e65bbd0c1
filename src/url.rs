//! The parts of a URL that link matching reads.

use vstd::prelude::*;
use crate::text::{opt_str, copy_opt_str};

verus! {

/// A URL split into the parts that link matching reads: scheme, host,
/// port and path. Query and fragment play no part in matching.
#[derive(Debug, PartialEq, Eq)]
pub struct Url {
    pub scheme: Option<String>,
    pub host: Option<String>,
    pub port: Option<u16>,
    pub path: String,
}

/// The mathematical view of a [`Url`].
pub struct UrlView {
    pub scheme: Option<Seq<char>>,
    pub host: Option<Seq<char>>,
    pub port: Option<u16>,
    pub path: Seq<char>,
}

impl View for Url {
    type V = UrlView;

    open spec fn view(&self) -> UrlView {
        UrlView {
            scheme: opt_str(self.scheme),
            host: opt_str(self.host),
            port: self.port,
            path: self.path@,
        }
    }
}

impl Url {
    pub fn new(scheme: Option<String>, host: Option<String>, port: Option<u16>, path: String) -> (r:
        Url)
        ensures
            r.scheme == scheme,
            r.host == host,
            r.port == port,
            r.path == path,
    {
        Url { scheme, host, port, path }
    }

    /// The `https` URL at `path` on this URL's host, without port, query or fragment.
    fn https_on_host(&self, path: &str) -> (r: Url)
        requires
            self.host is Some,
        ensures
            r@ == (UrlView {
                scheme: Some("https"@),
                host: self@.host,
                port: None,
                path: path@,
            }),
    {
        Url {
            scheme: Some("https".to_owned()),
            host: copy_opt_str(&self.host),
            port: None,
            path: path.to_owned(),
        }
    }
}

/// Where Apple devices look first for the association file of `uri`'s host.
pub fn well_known_aasa_from_url(uri: &Url) -> (r: Url)
    requires
        uri.host is Some,
    ensures
        r@ == (UrlView {
            scheme: Some("https"@),
            host: uri@.host,
            port: None,
            path: "/.well-known/apple-app-site-association"@,
        }),
{
    uri.https_on_host("/.well-known/apple-app-site-association")
}

/// The legacy location of the association file of `uri`'s host, at the root.
pub fn root_aasa_from_url(uri: &Url) -> (r: Url)
    requires
        uri.host is Some,
    ensures
        r@ == (UrlView {
            scheme: Some("https"@),
            host: uri@.host,
            port: None,
            path: "/apple-app-site-association"@,
        }),
{
    uri.https_on_host("/apple-app-site-association")
}

/// Where Android looks for the Digital Asset Links statements of `uri`'s host.
pub fn assetlinks_json_from_url(uri: &Url) -> (r: Url)
    requires
        uri.host is Some,
    ensures
        r@ == (UrlView {
            scheme: Some("https"@),
            host: uri@.host,
            port: None,
            path: "/.well-known/assetlinks.json"@,
        }),
{
    uri.https_on_host("/.well-known/assetlinks.json")
}

} // verus!
