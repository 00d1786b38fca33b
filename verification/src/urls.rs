//! URL handling of the fetcher: scheme classification and the rewrite of
//! `ipfs://` URLs onto the configured gateway. Validity of a URL is the
//! http crate's judgement, taken on trust; everything built on top of it
//! is verified.

use vstd::prelude::*;

use crate::config::Host;
use crate::config::IpfsGatewayConfig;
use crate::errors::Errors;
use crate::strings::dec_chars;
use crate::strings::eq_ignore_case;
use crate::strings::lower_chars;
use crate::strings::str_eq;
use crate::strings::u64_to_string;
use vstd::string::StrSliceExecFns;
use vstd::string::StringExecFns;

verus! {

/// The schemes the proxy accepts.
#[derive(PartialEq, Eq, Structural, Clone, Copy, Debug)]
pub enum UriScheme {
    Http,
    Https,
    Ipfs,
}

/// Whether the http crate's URI grammar accepts the string; a function of
/// the string alone.
pub uninterp spec fn uri_accepted(url: Seq<char>) -> bool;

/// The scheme of an accepted URI, as the http crate reports it; a
/// function of the string alone.
pub uninterp spec fn uri_scheme_of(url: Seq<char>) -> Option<Seq<char>>;

/// The host of an accepted URI, as the http crate reports it; a function
/// of the string alone.
pub uninterp spec fn uri_host_of(url: Seq<char>) -> Option<Seq<char>>;

/// The scheme and host of a parsed URL.
pub struct UriParts {
    pub scheme: Option<String>,
    pub host: Option<String>,
}

/// Relies on http's `Uri` parser and its `scheme_str` and `host`
/// accessors: present exactly when the grammar accepts the string, with
/// the scheme and host the crate reports.
#[verifier::external_body]
pub(crate) fn parse_uri_parts(url: &str) -> (r: Option<UriParts>)
    ensures
        r is Some <==> uri_accepted(url@),
        r matches Some(p) ==> {
            &&& (p.scheme matches Some(s) && uri_scheme_of(url@) == Some(s@)) || (p.scheme is None
                && uri_scheme_of(url@) is None)
            &&& (p.host matches Some(h) && uri_host_of(url@) == Some(h@)) || (p.host is None
                && uri_host_of(url@) is None)
        },
{
    let uri: http::Uri = url.parse().ok()?;
    Some(
        UriParts {
            scheme: uri.scheme_str().map(|s| s.to_string()),
            host: uri.host().map(|h| h.to_string()),
        },
    )
}

/// Which accepted scheme a scheme string names, letter case aside.
pub open spec fn spec_scheme_class(sch: Seq<char>) -> Option<UriScheme> {
    if lower_chars(sch) == "http"@ {
        Some(UriScheme::Http)
    } else if lower_chars(sch) == "https"@ {
        Some(UriScheme::Https)
    } else if lower_chars(sch) == "ipfs"@ {
        Some(UriScheme::Ipfs)
    } else {
        None
    }
}

/// What `parse_uri` returns for a URL string: invalid strings are
/// rejected outright, valid ones are classified by scheme.
pub open spec fn spec_parse_uri(url: Seq<char>) -> Result<UriScheme, Errors> {
    if !uri_accepted(url) {
        Err(Errors::InvalidUri)
    } else {
        match uri_scheme_of(url) {
            Some(sch) => match spec_scheme_class(sch) {
                Some(k) => Ok(k),
                None => Err(Errors::UnsupportedUriScheme),
            },
            None => Err(Errors::UnsupportedUriScheme),
        }
    }
}

/// The lowercase of a scheme literal is itself.
proof fn lemma_lower_scheme_literals()
    ensures
        lower_chars("http"@) == "http"@,
        lower_chars("https"@) == "https"@,
        lower_chars("ipfs"@) == "ipfs"@,
{
    reveal_strlit("http");
    reveal_strlit("https");
    reveal_strlit("ipfs");
    assert(lower_chars("http"@) =~= "http"@);
    assert(lower_chars("https"@) =~= "https"@);
    assert(lower_chars("ipfs"@) =~= "ipfs"@);
}

/// Parses a URL and classifies its scheme: `http`, `https` and `ipfs`
/// (case-insensitive) pass, any other scheme is unsupported, and a string
/// the URI grammar rejects is invalid.
pub fn parse_uri(url: &str) -> (r: Result<UriScheme, Errors>)
    ensures
        r == spec_parse_uri(url@),
{
    proof {
        lemma_lower_scheme_literals();
    }
    let parts = match parse_uri_parts(url) {
        Some(p) => p,
        Option::None => {
            return Err(Errors::InvalidUri);
        },
    };
    match parts.scheme {
        Some(sch) => {
            if eq_ignore_case(sch.as_str(), "http") {
                Ok(UriScheme::Http)
            } else if eq_ignore_case(sch.as_str(), "https") {
                Ok(UriScheme::Https)
            } else if eq_ignore_case(sch.as_str(), "ipfs") {
                Ok(UriScheme::Ipfs)
            } else {
                Err(Errors::UnsupportedUriScheme)
            }
        },
        Option::None => Err(Errors::UnsupportedUriScheme),
    }
}

/// The `ipfs://` or `IPFS://` prefix stripped from a URL, where present.
pub open spec fn spec_strip_ipfs(url: Seq<char>) -> Option<Seq<char>> {
    if url.len() >= 7 && (url.take(7) == "ipfs://"@ || url.take(7) == "IPFS://"@) {
        Some(url.skip(7))
    } else {
        None
    }
}

/// A path with its leading slash removed, where it has one.
pub open spec fn spec_strip_lead_slash(path: Seq<char>) -> Seq<char> {
    if path.len() >= 1 && path[0] == '/' {
        path.skip(1)
    } else {
        path
    }
}

/// The gateway URL an IPFS path is rewritten to:
/// `{protocol}://{host}:{port}/{path}/{ipfs_path}`.
pub open spec fn spec_gateway_url(
    protocol: Seq<char>,
    host: Seq<char>,
    port: u16,
    path: Seq<char>,
    ipfs_path: Seq<char>,
) -> Seq<char> {
    protocol + "://"@ + host + ":"@ + dec_chars(port as int) + "/"@ + spec_strip_lead_slash(path)
        + "/"@ + ipfs_path
}

/// Rewrites an `ipfs://CID[/path]` URL onto the configured gateway. A URL
/// without the prefix is invalid, and so is a rewrite that the URI
/// grammar rejects.
pub fn construct_ipfs_uri(url: &str, ipfs_config: &Host) -> (r: Result<String, Errors>)
    ensures
        match spec_strip_ipfs(url@) {
            None => r == Err::<String, Errors>(Errors::InvalidUri),
            Some(ipfs_path) => {
                let built = spec_gateway_url(
                    ipfs_config.protocol@,
                    ipfs_config.host@,
                    ipfs_config.port,
                    ipfs_config.path@,
                    ipfs_path,
                );
                if uri_accepted(built) {
                    r matches Ok(out) && out@ == built
                } else {
                    r == Err::<String, Errors>(Errors::InvalidUri)
                }
            },
        },
{
    proof {
        reveal_strlit("ipfs://");
        reveal_strlit("IPFS://");
    }
    let n = url.unicode_len();
    if n < 7 {
        return Err(Errors::InvalidUri);
    }
    let prefix = url.substring_char(0, 7);
    if !(str_eq(prefix, "ipfs://") || str_eq(prefix, "IPFS://")) {
        proof {
            assert(url@.take(7) =~= url@.subrange(0, 7));
        }
        return Err(Errors::InvalidUri);
    }
    proof {
        assert(url@.take(7) =~= url@.subrange(0, 7));
    }
    let ipfs_path = url.substring_char(7, n);
    let path_len = ipfs_config.path.as_str().unicode_len();
    let path_stripped: &str = if path_len >= 1 && ipfs_config.path.as_str().get_char(0) == '/' {
        ipfs_config.path.as_str().substring_char(1, path_len)
    } else {
        ipfs_config.path.as_str()
    };
    let mut built = ipfs_config.protocol.clone();
    built.append("://");
    built.append(ipfs_config.host.as_str());
    built.append(":");
    let port_str = u64_to_string(ipfs_config.port as u64);
    built.append(port_str.as_str());
    built.append("/");
    built.append(path_stripped);
    built.append("/");
    built.append(ipfs_path);
    proof {
        assert(built@ =~= spec_gateway_url(
            ipfs_config.protocol@,
            ipfs_config.host@,
            ipfs_config.port,
            ipfs_config.path@,
            url@.skip(7),
        ));
    }
    match parse_uri_parts(built.as_str()) {
        Some(_) => Ok(built),
        Option::None => Err(Errors::InvalidUri),
    }
}

/// What resolving a URL to its fetch targets yields for the IPFS scheme:
/// the primary gateway rewrite, and the fallback's where one is
/// configured and its rewrite is a valid URL.
pub open spec fn spec_ipfs_targets(
    url: Seq<char>,
    ipfs_config: IpfsGatewayConfig,
    r: Result<Vec<String>, Errors>,
) -> bool {
    match spec_strip_ipfs(url) {
        None => r == Err::<Vec<String>, Errors>(Errors::InvalidUri),
        Some(p) => {
            let b1 = spec_gateway_url(
                ipfs_config.primary.protocol@,
                ipfs_config.primary.host@,
                ipfs_config.primary.port,
                ipfs_config.primary.path@,
                p,
            );
            if !uri_accepted(b1) {
                r == Err::<Vec<String>, Errors>(Errors::InvalidUri)
            } else {
                r matches Ok(v) && v@.len() >= 1 && v@[0]@ == b1 && (match ipfs_config.fallback {
                    None => v@.len() == 1,
                    Some(f) => {
                        let b2 = spec_gateway_url(f.protocol@, f.host@, f.port, f.path@, p);
                        if uri_accepted(b2) {
                            v@.len() == 2 && v@[1]@ == b2
                        } else {
                            v@.len() == 1
                        }
                    },
                })
            }
        },
    }
}

/// The concrete targets one fetch call tries, in order: the URL itself
/// for the web schemes; for the IPFS scheme the primary gateway rewrite,
/// then the fallback's where one is configured and rewrites to a valid
/// URL. A URL whose scheme is refused carries its own error out.
pub fn fetch_targets(url: &str, ipfs_config: &IpfsGatewayConfig) -> (r: Result<Vec<String>, Errors>)
    ensures
        spec_parse_uri(url@) matches Err(e) ==> r == Err::<Vec<String>, Errors>(e),
        spec_parse_uri(url@) matches Ok(k) ==> if k != UriScheme::Ipfs {
            r matches Ok(v) && v@.len() == 1 && v@[0]@ == url@
        } else {
            spec_ipfs_targets(url@, *ipfs_config, r)
        },
{
    let scheme = match parse_uri(url) {
        Ok(k) => k,
        Err(e) => {
            return Err(e);
        },
    };
    match scheme {
        UriScheme::Http | UriScheme::Https => {
            let mut v: Vec<String> = Vec::new();
            v.push(url.to_owned());
            Ok(v)
        },
        UriScheme::Ipfs => {
            let primary = match construct_ipfs_uri(url, &ipfs_config.primary) {
                Ok(p) => p,
                Err(e) => {
                    return Err(e);
                },
            };
            let mut v: Vec<String> = Vec::new();
            v.push(primary);
            match &ipfs_config.fallback {
                Some(fallback) => {
                    match construct_ipfs_uri(url, fallback) {
                        Ok(second) => {
                            v.push(second);
                        },
                        Err(_) => {},
                    }
                },
                Option::None => {},
            }
            Ok(v)
        },
    }
}

} // verus!
