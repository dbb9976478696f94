//! Typed client logic for a content-addressed pinning service.
//!
//! The library holds everything about the service that can be stated and
//! proved without touching the network: request URLs, the response envelope
//! (status branch, JSON decoding into typed records), the convenience links
//! derived for stored entries, the metadata payloads of the composed store
//! operations, and the step logic of the composed flows. An unverified shell
//! around this crate performs the HTTP requests and feeds the raw status and
//! body bytes back in.
use vstd::prelude::*;

pub mod api;
pub mod decode;
pub mod encode;
pub mod error;
pub mod flow;
pub mod json;
pub mod links;
pub mod types;

use vstd::string::StringExecFns;

verus! {

/// Handle for the pinning service: the REST endpoint and the bearer token.
/// The unverified HTTP shell pairs it with a transport client.
pub struct NftStorage {
    /// REST API endpoint, without a trailing slash.
    pub url: String,
    /// Bearer token sent with every request.
    pub token: String,
}

/// An optional request parameter: absent reads as empty.
pub open spec fn opt_str_view(o: Option<&str>) -> Seq<char> {
    match o {
        Some(s) => s@,
        None => Seq::empty(),
    }
}

/// The URL of the listing request against `base`, with its two query
/// parameters, either of which may be empty.
pub open spec fn spec_list_url(base: Seq<char>, before: Seq<char>, limit: Seq<char>) -> Seq<char> {
    base + "/?before="@ + before + "&limit="@ + limit
}

/// The URL of one entry: fetched and deleted there.
pub open spec fn spec_item_url(base: Seq<char>, cid: Seq<char>) -> Seq<char> {
    base + "/"@ + cid
}

/// The URL of the existence check of one entry.
pub open spec fn spec_check_url(base: Seq<char>, cid: Seq<char>) -> Seq<char> {
    base + "/check/"@ + cid
}

/// The URL every upload goes to.
pub open spec fn spec_upload_url(base: Seq<char>) -> Seq<char> {
    base + "/upload"@
}

impl NftStorage {
    /// Create a handle from an endpoint URL and an API token.
    pub fn new(url: String, token: String) -> (r: NftStorage)
        ensures
            r.url@ == url@,
            r.token@ == token@,
    {
        NftStorage { url, token }
    }

    /// The URL of the listing request: `before` bounds the creation time of
    /// what comes back, `limit` caps how many entries come back; either may
    /// be left out. Mirrors [`spec_list_url`].
    pub fn list_url(&self, before: Option<&str>, limit: Option<&str>) -> (r: String)
        ensures
            r@ == spec_list_url(self.url@, opt_str_view(before), opt_str_view(limit)),
    {
        let b: &str = match before {
            Some(v) => v,
            None => "",
        };
        let l: &str = match limit {
            Some(v) => v,
            None => "",
        };
        proof {
            reveal_strlit("");
            assert(""@ =~= Seq::<char>::empty());
        }
        self.url.clone().concat("/?before=").concat(b).concat("&limit=").concat(l)
    }

    /// The URL of one entry. Mirrors [`spec_item_url`].
    pub fn item_url(&self, cid: &str) -> (r: String)
        ensures
            r@ == spec_item_url(self.url@, cid@),
    {
        self.url.clone().concat("/").concat(cid)
    }

    /// The URL of the existence check of one entry. Mirrors
    /// [`spec_check_url`].
    pub fn check_url(&self, cid: &str) -> (r: String)
        ensures
            r@ == spec_check_url(self.url@, cid@),
    {
        self.url.clone().concat("/check/").concat(cid)
    }

    /// The URL uploads go to. Mirrors [`spec_upload_url`].
    pub fn upload_url(&self) -> (r: String)
        ensures
            r@ == spec_upload_url(self.url@),
    {
        self.url.clone().concat("/upload")
    }
}

} // verus!

