//! The brand under which the callback pages are shown.

use vstd::prelude::*;

verus! {

/// The host whose logins carry the Syntropic brand.
pub const SYNTROPIC_HOST: &'static str = "platform.syntropic.com";

/// The Syntropic logo, as a PNG image.
pub const SYNTROPIC_LOGO: [u8; 106] = [
    0x89, 0x50, 0x4e, 0x47, 0x0d, 0x0a, 0x1a, 0x0a, 0x00, 0x00, 0x00, 0x0d,
    0x49, 0x48, 0x44, 0x52, 0x00, 0x00, 0x00, 0x10, 0x00, 0x00, 0x00, 0x10,
    0x01, 0x00, 0x00, 0x00, 0x00, 0x37, 0x88, 0xc2, 0xcc, 0x00, 0x00, 0x00,
    0x31, 0x49, 0x44, 0x41, 0x54, 0x78, 0xda, 0x15, 0xca, 0x31, 0x0d, 0x00,
    0x20, 0x0c, 0x00, 0xc1, 0x4b, 0x48, 0x18, 0x41, 0x12, 0x56, 0x90, 0x50,
    0x89, 0x48, 0x42, 0x40, 0x07, 0xca, 0xfa, 0x7f, 0xe6, 0xb5, 0x52, 0x0c,
    0xbb, 0xdb, 0x04, 0xeb, 0x98, 0xa9, 0x25, 0x83, 0xfe, 0x7b, 0xdd, 0x32,
    0x25, 0x79, 0x07, 0x13, 0x0a, 0x2a, 0x62, 0x38, 0xc4, 0xbb, 0x00, 0x00,
    0x00, 0x00, 0x49, 0x45, 0x4e, 0x44, 0xae, 0x42, 0x60, 0x82,
];

/// Whose login the browser is shown.
#[derive(Clone, Copy, Debug, PartialEq, Eq, Structural)]
pub enum CallbackBrand {
    Codex,
    Syntropic,
}

/// The host of the absolute URL that a text holds, in its normal form, as the `url`
/// crate reads it: `None` where the text is no such URL or the URL has no host.
pub uninterp spec fn url_host(text: Seq<char>) -> Option<Seq<char>>;

/// Calls `url`'s `Url::parse`, and takes the host out of the result with
/// `Url::host_str`. Claims that the result is a function of the text alone, named
/// `url_host`.
#[verifier::external_body]
fn host_of_url(text: &str) -> (host: Option<String>)
    ensures
        host is Some == url_host(text@) is Some,
        host matches Some(h) ==> url_host(text@) == Some(h@),
{
    match url::Url::parse(text) {
        Ok(url) => url.host_str().map(String::from),
        Err(_) => None,
    }
}

impl CallbackBrand {
    /// The brand of a login with a server on `host`.
    pub open spec fn of_host(host: Option<Seq<char>>) -> CallbackBrand {
        if host == Some(SYNTROPIC_HOST@) {
            CallbackBrand::Syntropic
        } else {
            CallbackBrand::Codex
        }
    }

    /// The brand of a login with the server at `server_url`: that of its host, and
    /// no host but Syntropic's own has the Syntropic brand.
    pub fn for_server_url(server_url: &str) -> (brand: CallbackBrand)
        ensures
            brand == CallbackBrand::of_host(url_host(server_url@)),
            brand == CallbackBrand::Syntropic <==> url_host(server_url@) == Some(
                "platform.syntropic.com"@,
            ),
            brand == CallbackBrand::Codex <==> url_host(server_url@) != Some(
                "platform.syntropic.com"@,
            ),
    {
        CallbackBrand::for_host(host_of_url(server_url))
    }

    /// The brand of a login with a server on `host`.
    pub fn for_host(host: Option<String>) -> (brand: CallbackBrand)
        ensures
            brand == CallbackBrand::of_host(
                match host {
                    Some(h) => Some(h@),
                    None => None,
                },
            ),
            brand == CallbackBrand::Syntropic <==> (host matches Some(h) && h@
                == "platform.syntropic.com"@),
            brand == CallbackBrand::Codex <==> (host matches Some(h) ==> h@
                != "platform.syntropic.com"@),
    {
        match host {
            Some(host) => {
                if host == SYNTROPIC_HOST.to_string() {
                    CallbackBrand::Syntropic
                } else {
                    CallbackBrand::Codex
                }
            },
            None => CallbackBrand::Codex,
        }
    }
}

/// Branding is scoped: of all hosts, and of none at all, the one host of Syntropic has the
/// Syntropic brand, and every other has the Codex brand.
pub proof fn law_brand_is_scoped_to_one_host(host: Option<Seq<char>>)
    ensures
        CallbackBrand::of_host(host) == CallbackBrand::Syntropic <==> host == Some(
            "platform.syntropic.com"@,
        ),
        CallbackBrand::of_host(host) == CallbackBrand::Codex <==> host != Some(
            "platform.syntropic.com"@,
        ),
        CallbackBrand::of_host(None) == CallbackBrand::Codex,
{
}

} // verus!
