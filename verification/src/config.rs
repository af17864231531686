//! Decision logic behind configuration validation: which hostname the
//! resolver should be asked about for a given target argument, which
//! resolved records make an acceptable probe target, and when a log
//! directory argument is acceptable. Filesystem probing and DNS lookups
//! themselves happen outside the core, which only decides on their results;
//! URL parsing is delegated to the `url` crate behind a trusted wrapper.

use vstd::prelude::*;

verus! {

/// Why a path given as the log directory is rejected.
#[derive(Clone, Copy, PartialEq, Eq, Debug)]
pub enum PathError {
    /// The path does not exist.
    Missing,
    /// The path exists but is not a directory.
    NotADirectory,
    /// The path could not be made absolute.
    NotCanonicalizable,
}

/// Decide whether a log-directory argument is acceptable, from what the
/// filesystem reported about it: whether the path exists, whether it is a
/// directory, and the absolute form it canonicalizes to (if any). Accepts
/// exactly the existing directories that could be canonicalized, and then
/// returns the canonical path.
pub fn parse_log_file_dir(exists: bool, is_dir: bool, canonical: Option<String>) -> (r: Result<
    String,
    PathError,
>)
    ensures
        !exists ==> r == Err::<String, PathError>(PathError::Missing),
        exists && !is_dir ==> r == Err::<String, PathError>(PathError::NotADirectory),
        exists && is_dir && canonical is None ==> r == Err::<String, PathError>(
            PathError::NotCanonicalizable,
        ),
        exists && is_dir && canonical is Some ==> r is Ok && r->Ok_0@ == canonical->0@,
{
    if !exists {
        Err(PathError::Missing)
    } else if !is_dir {
        Err(PathError::NotADirectory)
    } else {
        match canonical {
            Some(p) => Ok(p),
            None => Err(PathError::NotCanonicalizable),
        }
    }
}

/// Why a target argument could not be turned into a pair of probe targets.
#[derive(Clone, Copy, PartialEq, Eq, Debug)]
pub enum AddrError {
    /// The argument is a URL, but one without a host.
    NoDomainInUrl,
    /// The argument is a URL whose host is an IP address, not a domain.
    UrlHostNotDomain,
    /// The domain resolved to neither an A nor an AAAA record.
    NoRecords,
    /// The domain has no A record.
    NoIpv4,
    /// The domain has no AAAA record.
    NoIpv6,
}

/// The host a target argument denotes, as the URL grammar reads it.
pub enum HostClass {
    /// A URL whose host is a domain name (the domain's characters).
    Domain(Seq<char>),
    /// A URL whose host is an IP address.
    IpHost,
    /// A URL without a host.
    NoHost,
    /// Not a URL at all.
    NotAUrl,
}

/// How the `url` crate classifies the host of `s`: which variant
/// `url::Url::parse(s)` and `Url::host()` produce, and for a domain host,
/// its (IDNA/percent-encoded) characters. A pure function of the input.
pub uninterp spec fn host_class_of(s: Seq<char>) -> HostClass;

/// The host a target argument denotes, as executable data.
#[derive(Clone, PartialEq, Eq, Debug)]
pub enum UrlHost {
    Domain(String),
    IpHost,
    NoHost,
    NotAUrl,
}

pub open spec fn url_host_matches(r: UrlHost, c: HostClass) -> bool {
    match (r, c) {
        (UrlHost::Domain(d), HostClass::Domain(s)) => d@ == s,
        (UrlHost::IpHost, HostClass::IpHost) => true,
        (UrlHost::NoHost, HostClass::NoHost) => true,
        (UrlHost::NotAUrl, HostClass::NotAUrl) => true,
        _ => false,
    }
}

/// Relies on `url::Url::parse` and `url::Url::host`: whether the input
/// parses as a URL, and which host (none, a domain, or an IP address) that
/// URL carries, is a pure function of the input's characters; for a domain
/// host, `Host::Domain` carries the domain as it appears in the parsed URL.
#[verifier::external_body]
fn classify_url_host(val: &str) -> (r: UrlHost)
    ensures
        url_host_matches(r, host_class_of(val@)),
{
    match url::Url::parse(val) {
        Err(_) => UrlHost::NotAUrl,
        Ok(u) => match u.host() {
            None => UrlHost::NoHost,
            Some(url::Host::Domain(d)) => UrlHost::Domain(d.to_string()),
            Some(url::Host::Ipv4(_)) => UrlHost::IpHost,
            Some(url::Host::Ipv6(_)) => UrlHost::IpHost,
        },
    }
}

/// The hostname whose A and AAAA records are to be resolved for the target
/// argument `s`: the URL's domain when `s` is a URL with a domain host, `s`
/// itself when `s` is not a URL, and an error when `s` is a URL without a
/// domain host.
pub open spec fn lookup_target_of(s: Seq<char>) -> Result<Seq<char>, AddrError> {
    match host_class_of(s) {
        HostClass::Domain(d) => Ok(d),
        HostClass::IpHost => Err(AddrError::UrlHostNotDomain),
        HostClass::NoHost => Err(AddrError::NoDomainInUrl),
        HostClass::NotAUrl => Ok(s),
    }
}

/// Decide which hostname to resolve for a target argument.
pub fn lookup_target(val: &str) -> (r: Result<String, AddrError>)
    ensures
        r is Ok <==> lookup_target_of(val@) is Ok,
        r is Ok ==> r->Ok_0@ == lookup_target_of(val@)->Ok_0,
        r is Err ==> r->Err_0 == lookup_target_of(val@)->Err_0,
{
    match classify_url_host(val) {
        UrlHost::Domain(d) => Ok(d),
        UrlHost::IpHost => Err(AddrError::UrlHostNotDomain),
        UrlHost::NoHost => Err(AddrError::NoDomainInUrl),
        UrlHost::NotAUrl => Ok(val.to_owned()),
    }
}

/// A resolved probe target: the host's IPv4 address as its 32-bit value and
/// its IPv6 address as its 128-bit value, both in network order.
#[derive(Clone, Copy, PartialEq, Eq, Debug)]
pub struct HostAddrs {
    pub v4: u32,
    pub v6: u128,
}

/// Decide whether the records a lookup produced make an acceptable probe
/// target: both an A record (as its 32-bit address value) and an AAAA record
/// (as its 128-bit address value) must be present, and the first of each is
/// taken.
pub fn select_records(v4: Option<u32>, v6: Option<u128>) -> (r: Result<HostAddrs, AddrError>)
    ensures
        v4 is Some && v6 is Some ==> r == Ok::<HostAddrs, AddrError>(
            (HostAddrs { v4: v4->0, v6: v6->0 }),
        ),
        v4 is None && v6 is None ==> r == Err::<HostAddrs, AddrError>(AddrError::NoRecords),
        v4 is None && v6 is Some ==> r == Err::<HostAddrs, AddrError>(AddrError::NoIpv4),
        v4 is Some && v6 is None ==> r == Err::<HostAddrs, AddrError>(AddrError::NoIpv6),
{
    match (v4, v6) {
        (None, None) => Err(AddrError::NoRecords),
        (None, Some(_)) => Err(AddrError::NoIpv4),
        (Some(_), None) => Err(AddrError::NoIpv6),
        (Some(a), Some(b)) => Ok(HostAddrs { v4: a, v6: b }),
    }
}

} // verus!
