//! Which addresses a language-model request may be sent to.
//!
//! Requests carry an API key, so an endpoint is refused when it points at
//! cloud metadata, at an internal address, or leaves the host over plain
//! HTTP. Names are checked as written; what a name resolves to is not.

use crate::text::{contains, contains_text, join2, lower_ascii, lowered, str_eq};
use url::{Host, Url};
use vstd::prelude::*;

verus! {

/// The host of a URL as a number.
#[derive(Clone, Copy, Debug)]
pub enum HostAddress {
    /// The host is a name, or there is none.
    Name,
    V4([u8; 4]),
    V6([u16; 8]),
}

/// The parts of a URL that the policy looks at.
#[derive(Debug)]
pub struct UrlParts {
    pub scheme: String,
    pub host: Option<String>,
    pub address: HostAddress,
    /// The address in its usual notation, empty for a name.
    pub address_text: String,
}

/// `UrlParts` as a mathematical value.
pub struct UrlView {
    pub scheme: Seq<char>,
    pub host: Option<Seq<char>>,
    pub address: HostAddress,
    pub address_text: Seq<char>,
}

impl View for UrlParts {
    type V = UrlView;

    open spec fn view(&self) -> UrlView {
        UrlView {
            scheme: self.scheme@,
            host: match self.host {
                Some(h) => Some(h@),
                None => None,
            },
            address: self.address,
            address_text: self.address_text@,
        }
    }
}

/// What `url::Url::parse` makes of a text: its parts, or the words of the
/// error.
pub uninterp spec fn url_parse(raw: Seq<char>) -> Result<UrlView, Seq<char>>;

/// `url::Url::parse`, with `scheme`, `host_str` and `host` read off the
/// result. The outcome depends on the text alone; which parts a text has is
/// left to the `url` crate.
#[verifier::external_body]
fn parse_url(raw: &str) -> (r: Result<UrlParts, String>)
    ensures
        match r {
            Ok(p) => url_parse(raw@) == Ok::<UrlView, Seq<char>>(p@),
            Err(e) => url_parse(raw@) == Err::<UrlView, Seq<char>>(e@),
        },
{
    let parsed = Url::parse(raw).map_err(|e| e.to_string())?;
    let (address, address_text) = match parsed.host() {
        Some(Host::Ipv4(ip)) => (HostAddress::V4(ip.octets()), ip.to_string()),
        Some(Host::Ipv6(ip)) => (HostAddress::V6(ip.segments()), ip.to_string()),
        Some(Host::Domain(_)) => (HostAddress::Name, String::new()),
        None => (HostAddress::Name, String::new()),
    };
    let host = parsed.host_str().map(str::to_owned);
    Ok(UrlParts { scheme: parsed.scheme().to_owned(), host, address, address_text })
}

/// Why an endpoint is refused.
#[derive(Debug)]
pub enum EndpointError {
    /// The text is no URL, for the reason given.
    NotAUrl(String),
    NoHost,
    /// The host belongs to a cloud metadata service.
    Metadata(String),
    /// Only the local host may be reached over plain HTTP.
    NotHttps(String),
    /// The address is internal or reserved.
    Internal(String),
    /// The address wraps an internal IPv4 address.
    MappedInternal(String),
}

/// `EndpointError` as a mathematical value.
pub enum EndpointFault {
    NotAUrl(Seq<char>),
    NoHost,
    Metadata(Seq<char>),
    NotHttps(Seq<char>),
    Internal(Seq<char>),
    MappedInternal(Seq<char>),
}

/// The words of an endpoint error.
pub open spec fn endpoint_error_text(e: EndpointError) -> Seq<char> {
    match e {
        EndpointError::NotAUrl(s) => "LLM endpoint 不是合法 URL："@ + s@,
        EndpointError::NoHost => "LLM endpoint 缺少主机名"@,
        EndpointError::Metadata(s) => "LLM endpoint 指向云元数据服务，已拒绝："@ + s@,
        EndpointError::NotHttps(s) =>
            "LLM endpoint 必须使用 https（仅 localhost 允许 http）："@ + s@,
        EndpointError::Internal(s) =>
            "LLM endpoint 指向内网/保留地址，已拒绝（防 SSRF）："@ + s@,
        EndpointError::MappedInternal(s) =>
            "LLM endpoint 指向 IPv4-mapped 内网地址，已拒绝（防 SSRF）："@ + s@,
    }
}

impl EndpointError {
    pub open spec fn kind(self) -> EndpointFault {
        match self {
            EndpointError::NotAUrl(s) => EndpointFault::NotAUrl(s@),
            EndpointError::NoHost => EndpointFault::NoHost,
            EndpointError::Metadata(s) => EndpointFault::Metadata(s@),
            EndpointError::NotHttps(s) => EndpointFault::NotHttps(s@),
            EndpointError::Internal(s) => EndpointFault::Internal(s@),
            EndpointError::MappedInternal(s) => EndpointFault::MappedInternal(s@),
        }
    }

    pub fn text(&self) -> (r: String)
        ensures
            r@ == endpoint_error_text(*self),
    {
        match self {
            EndpointError::NotAUrl(s) => join2("LLM endpoint 不是合法 URL：", s.as_str()),
            EndpointError::NoHost => "LLM endpoint 缺少主机名".to_owned(),
            EndpointError::Metadata(s) => join2(
                "LLM endpoint 指向云元数据服务，已拒绝：",
                s.as_str(),
            ),
            EndpointError::NotHttps(s) => join2(
                "LLM endpoint 必须使用 https（仅 localhost 允许 http）：",
                s.as_str(),
            ),
            EndpointError::Internal(s) => join2(
                "LLM endpoint 指向内网/保留地址，已拒绝（防 SSRF）：",
                s.as_str(),
            ),
            EndpointError::MappedInternal(s) => join2(
                "LLM endpoint 指向 IPv4-mapped 内网地址，已拒绝（防 SSRF）：",
                s.as_str(),
            ),
        }
    }
}

/// `a.b.c.d` is loopback, private, link-local, unspecified, broadcast, or
/// shared by a carrier (100.64.0.0/10).
pub open spec fn v4_internal(a: u8, b: u8, c: u8, d: u8) -> bool {
    ||| a == 127
    ||| a == 10
    ||| a == 172 && 16 <= b <= 31
    ||| a == 192 && b == 168
    ||| a == 169 && b == 254
    ||| a == 0 && b == 0 && c == 0 && d == 0
    ||| a == 255 && b == 255 && c == 255 && d == 255
    ||| a == 100 && 64 <= b <= 127
}

/// Whether an IPv4 address is internal or reserved.
pub fn ip_v4_is_internal(a: u8, b: u8, c: u8, d: u8) -> (r: bool)
    ensures
        r == v4_internal(a, b, c, d),
{
    a == 127 || a == 10 || (a == 172 && 16 <= b && b <= 31) || (a == 192 && b == 168) || (a == 169
        && b == 254) || (a == 0 && b == 0 && c == 0 && d == 0) || (a == 255 && b == 255 && c == 255
        && d == 255) || (a == 100 && 64 <= b && b <= 127)
}

/// The address is loopback, unspecified, unique-local (fc00::/7) or
/// link-local (fe80::/10).
pub open spec fn v6_internal(s: Seq<u16>) -> bool {
    ||| s[0] == 0 && s[1] == 0 && s[2] == 0 && s[3] == 0 && s[4] == 0 && s[5] == 0 && s[6] == 0
        && s[7] <= 1
    ||| 0xfc00 <= s[0] <= 0xfdff
    ||| 0xfe80 <= s[0] <= 0xfebf
}

/// Whether an IPv6 address is internal or reserved.
pub fn ip_v6_is_internal(s: [u16; 8]) -> (r: bool)
    ensures
        r == v6_internal(s@),
{
    (s[0] == 0 && s[1] == 0 && s[2] == 0 && s[3] == 0 && s[4] == 0 && s[5] == 0 && s[6] == 0 && s[7]
        <= 1) || (0xfc00 <= s[0] && s[0] <= 0xfdff) || (0xfe80 <= s[0] && s[0] <= 0xfebf)
}

/// The address is ::ffff:a.b.c.d for an internal a.b.c.d.
pub open spec fn v6_mapped_internal(s: Seq<u16>) -> bool {
    &&& s[0] == 0 && s[1] == 0 && s[2] == 0 && s[3] == 0 && s[4] == 0 && s[5] == 0xffff
    &&& v4_internal(
        (s[6] / 256) as u8,
        (s[6] % 256) as u8,
        (s[7] / 256) as u8,
        (s[7] % 256) as u8,
    )
}

/// The host names that stand for the machine itself.
pub open spec fn local_host(host: Seq<char>) -> bool {
    host == "localhost"@ || host == "127.0.0.1"@ || host == "::1"@ || host == "[::1]"@
}

/// The host names a cloud metadata service.
pub open spec fn metadata_host(host: Seq<char>) -> bool {
    contains_text(host, "metadata.google.internal"@) || contains_text(host, "169.254.169.254"@)
}

/// The policy on a URL's parts, for the URL `raw`.
pub open spec fn parts_verdict(raw: Seq<char>, url: UrlView) -> Result<(), EndpointFault> {
    match url.host {
        None => Err(EndpointFault::NoHost),
        Some(h) => {
            let host = lowered(h);
            if metadata_host(host) {
                Err(EndpointFault::Metadata(host))
            } else if local_host(host) {
                Ok(())
            } else if url.scheme != "https"@ {
                Err(EndpointFault::NotHttps(raw))
            } else {
                match url.address {
                    HostAddress::Name => Ok(()),
                    HostAddress::V4(o) => if v4_internal(o@[0], o@[1], o@[2], o@[3]) {
                        Err(EndpointFault::Internal(url.address_text))
                    } else {
                        Ok(())
                    },
                    HostAddress::V6(s) => if v6_internal(s@) {
                        Err(EndpointFault::Internal(url.address_text))
                    } else if v6_mapped_internal(s@) {
                        Err(EndpointFault::MappedInternal(url.address_text))
                    } else {
                        Ok(())
                    },
                }
            }
        },
    }
}

/// The policy on an endpoint as the user wrote it.
pub open spec fn endpoint_verdict(raw: Seq<char>) -> Result<(), EndpointFault> {
    match url_parse(raw) {
        Ok(parts) => parts_verdict(raw, parts),
        Err(why) => Err(EndpointFault::NotAUrl(why)),
    }
}

/// Applies the policy to a URL that has been taken apart.
pub fn check_url_parts(raw: &str, url: &UrlParts) -> (r: Result<(), EndpointError>)
    ensures
        match r {
            Ok(()) => parts_verdict(raw@, url@) is Ok,
            Err(e) => parts_verdict(raw@, url@) == Err::<(), EndpointFault>(e.kind()),
        },
{
    let host: String = match &url.host {
        None => return Err(EndpointError::NoHost),
        Some(h) => lower_ascii(h.as_str()),
    };
    if contains(host.as_str(), "metadata.google.internal") || contains(
        host.as_str(),
        "169.254.169.254",
    ) {
        return Err(EndpointError::Metadata(host));
    }
    if str_eq(host.as_str(), "localhost") || str_eq(host.as_str(), "127.0.0.1") || str_eq(
        host.as_str(),
        "::1",
    ) || str_eq(host.as_str(), "[::1]") {
        return Ok(());
    }
    if !str_eq(url.scheme.as_str(), "https") {
        return Err(EndpointError::NotHttps(raw.to_owned()));
    }
    match url.address {
        HostAddress::Name => Ok(()),
        HostAddress::V4(o) => if ip_v4_is_internal(o[0], o[1], o[2], o[3]) {
            Err(EndpointError::Internal(url.address_text.clone()))
        } else {
            Ok(())
        },
        HostAddress::V6(s) => if ip_v6_is_internal(s) {
            Err(EndpointError::Internal(url.address_text.clone()))
        } else if s[0] == 0 && s[1] == 0 && s[2] == 0 && s[3] == 0 && s[4] == 0 && s[5] == 0xffff
            && ip_v4_is_internal(
            (s[6] / 256) as u8,
            (s[6] % 256) as u8,
            (s[7] / 256) as u8,
            (s[7] % 256) as u8,
        ) {
            Err(EndpointError::MappedInternal(url.address_text.clone()))
        } else {
            Ok(())
        },
    }
}

/// Whether requests may be sent to the endpoint `raw`.
pub fn validate_llm_endpoint(raw: &str) -> (r: Result<(), EndpointError>)
    ensures
        match r {
            Ok(()) => endpoint_verdict(raw@) is Ok,
            Err(e) => endpoint_verdict(raw@) == Err::<(), EndpointFault>(e.kind()),
        },
{
    match parse_url(raw) {
        Ok(parts) => check_url_parts(raw, &parts),
        Err(e) => Err(EndpointError::NotAUrl(e)),
    }
}

/// An accepted URL names the machine itself, or is reached over HTTPS at an
/// address that is neither internal nor wraps an internal one; it never names
/// a metadata service.
pub proof fn law_accepted_endpoint_is_safe(raw: Seq<char>, url: UrlView)
    requires
        parts_verdict(raw, url) is Ok,
    ensures
        url.host is Some,
        !metadata_host(lowered(url.host->0)),
        local_host(lowered(url.host->0)) || (url.scheme == "https"@ && match url.address {
            HostAddress::Name => true,
            HostAddress::V4(o) => !v4_internal(o@[0], o@[1], o@[2], o@[3]),
            HostAddress::V6(s) => !v6_internal(s@) && !v6_mapped_internal(s@),
        }),
{
}

/// The 16-bit ranges of the internal IPv6 blocks are the prefixes fc00::/7
/// and fe80::/10.
pub proof fn law_v6_ranges_are_prefixes(s: u16)
    ensures
        (0xfc00 <= s <= 0xfdff) <==> s & 0xfe00 == 0xfc00,
        (0xfe80 <= s <= 0xfebf) <==> s & 0xffc0 == 0xfe80,
{
    assert((0xfc00 <= s && s <= 0xfdff) <==> s & 0xfe00 == 0xfc00) by (bit_vector);
    assert((0xfe80 <= s && s <= 0xfebf) <==> s & 0xffc0 == 0xfe80) by (bit_vector);
}

/// An IPv4 address is internal exactly in these blocks: the machine itself, the three
/// private ones, the link-local one, that of the carriers, and the two addresses of
/// nobody and of everybody.
pub proof fn law_internal_v4_blocks(a: u8, b: u8, c: u8, d: u8, r: bool)
    requires
        call_ensures(ip_v4_is_internal, (a, b, c, d), r),
    ensures
        a == 127 || a == 10 ==> r,
        a == 192 ==> (r <==> b == 168),
        a == 172 ==> (r <==> 16 <= b < 32),
        a == 169 ==> (r <==> b == 254),
        a == 100 ==> (r <==> 64 <= b < 128),
        a == 0 ==> (r <==> b == 0 && c == 0 && d == 0),
        a == 255 ==> (r <==> b == 255 && c == 255 && d == 255),
        r ==> a == 127 || a == 10 || a == 192 || a == 172 || a == 169 || a == 100 || a == 0 || a
            == 255,
{
}

/// An IPv6 address is internal exactly if it is the machine itself, that of nobody,
/// or in the unique-local or the link-local block.
pub proof fn law_internal_v6_blocks(s: [u16; 8], r: bool)
    requires
        call_ensures(ip_v6_is_internal, (s,), r),
    ensures
        s@[0] & 0xfe00 == 0xfc00 ==> r,
        s@[0] & 0xffc0 == 0xfe80 ==> r,
        s@[0] != 0 && s@[0] & 0xfe00 != 0xfc00 && s@[0] & 0xffc0 != 0xfe80 ==> !r,
        s@[0] == 0 ==> (r <==> s@[1] == 0 && s@[2] == 0 && s@[3] == 0 && s@[4] == 0 && s@[5] == 0
            && s@[6] == 0 && (s@[7] == 0 || s@[7] == 1)),
{
    law_v6_ranges_are_prefixes(s@[0]);
}

/// A URL without a host is refused, and so is one that names a metadata service,
/// whatever else it is. The machine itself may be reached in any way, and any other
/// host only over HTTPS and not at an internal address, wrapped or not. A host that is
/// a name is taken as it is written.
pub proof fn law_which_urls_are_accepted(
    raw: &str,
    url: &UrlParts,
    host: &str,
    low: String,
    internal4: bool,
    internal6: bool,
    r: Result<(), EndpointError>,
)
    requires
        call_ensures(check_url_parts, (raw, url), r),
        url.host matches Some(h) ==> host@ == h@,
        call_ensures(lower_ascii, (host,), low),
        url.address matches HostAddress::V4(o) ==> call_ensures(
            ip_v4_is_internal,
            (o@[0], o@[1], o@[2], o@[3]),
            internal4,
        ),
        url.address matches HostAddress::V6(s) ==> call_ensures(
            ip_v6_is_internal,
            (s,),
            internal6,
        ),
    ensures
        url.host is None ==> r is Err && r->Err_0 is NoHost,
        url.host is Some ==> {
            let metadata = contains_text(low@, "metadata.google.internal"@) || contains_text(
                low@,
                "169.254.169.254"@,
            );
            let local = low@ == "localhost"@ || low@ == "127.0.0.1"@ || low@ == "::1"@ || low@
                == "[::1]"@;
            &&& metadata <==> r is Err && r->Err_0 is Metadata
            &&& !metadata && local ==> r is Ok
            &&& !metadata && !local ==> (url.scheme@ != "https"@ <==> r is Err
                && r->Err_0 is NotHttps)
            &&& !metadata && !local && url.scheme@ == "https"@ ==> {
                &&& url.address is Name ==> r is Ok
                &&& url.address is V4 ==> (r is Ok <==> !internal4)
                &&& url.address is V6 && internal6 ==> r is Err && r->Err_0 is Internal
                &&& url.address is V6 && r is Ok ==> !internal6
            }
        },
{
}

/// An internal IPv4 address stays internal when an IPv6 address wraps it.
pub proof fn law_wrapped_internal_address_is_refused(
    raw: &str,
    url: &UrlParts,
    s: [u16; 8],
    a: u8,
    b: u8,
    c: u8,
    d: u8,
    internal: bool,
    r: Result<(), EndpointError>,
)
    requires
        call_ensures(check_url_parts, (raw, url), r),
        call_ensures(ip_v4_is_internal, (a, b, c, d), internal),
        url.address == HostAddress::V6(s),
        s@[0] == 0 && s@[1] == 0 && s@[2] == 0 && s@[3] == 0 && s@[4] == 0 && s@[5] == 0xffff,
        s@[6] == a * 256 + b,
        s@[7] == c * 256 + d,
        url.host matches Some(h) && !local_host(lowered(h@)),
    ensures
        internal ==> r is Err,
        r is Err && r->Err_0 is MappedInternal ==> internal,
{
    assert((s@[6] / 256) as u8 == a && (s@[6] % 256) as u8 == b);
    assert((s@[7] / 256) as u8 == c && (s@[7] % 256) as u8 == d);
}

/// An endpoint is accepted exactly if it is a URL and its parts are; what is no URL
/// is refused in the words of the parser.
pub proof fn law_endpoint_is_judged_by_its_parts(
    raw: &str,
    parts: UrlParts,
    judged: Result<(), EndpointError>,
    r: Result<(), EndpointError>,
)
    requires
        call_ensures(validate_llm_endpoint, (raw,), r),
        url_parse(raw@) matches Ok(v) ==> v == parts@,
        call_ensures(check_url_parts, (raw, &parts), judged),
    ensures
        url_parse(raw@) is Ok ==> (r is Ok <==> judged is Ok),
        url_parse(raw@) is Ok && r is Err ==> r->Err_0.kind() == judged->Err_0.kind(),
        url_parse(raw@) matches Err(why) ==> r is Err && r->Err_0 is NotAUrl && r->Err_0->NotAUrl_0@
            == why,
{
}

} // verus!
