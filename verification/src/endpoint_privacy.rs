//! The privacy check of a model endpoint, made before any network
//! operation. Strict local mode accepts only literal loopback addresses or
//! `localhost`, and every address `localhost` resolves to must itself be
//! loopback; explicit external mode accepts any well-formed endpoint.
use vstd::prelude::*;
use crate::domain::PrivacyMode;
use crate::errors::{app_error, concat, AppError, AppErrorCode};
use crate::text::{chars_of, lower, str_eq};
use url::{Host, Url};

verus! {

/// The host of a parsed URL.
#[derive(Debug)]
pub enum UrlHost {
    Domain(String),
    Ipv4(Vec<u8>),
    Ipv6(Vec<u16>),
}

pub enum UrlHostView {
    Domain(Seq<char>),
    Ipv4(Seq<u8>),
    Ipv6(Seq<u16>),
}

impl View for UrlHost {
    type V = UrlHostView;

    open spec fn view(&self) -> UrlHostView {
        match self {
            UrlHost::Domain(d) => UrlHostView::Domain(d@),
            UrlHost::Ipv4(o) => UrlHostView::Ipv4(o@),
            UrlHost::Ipv6(s) => UrlHostView::Ipv6(s@),
        }
    }
}

/// The parts of a parsed URL that the privacy check reads.
#[derive(Debug)]
pub struct UrlParts {
    pub scheme: String,
    pub host: Option<UrlHost>,
    pub username: String,
    pub password: Option<String>,
    pub query: Option<String>,
    pub fragment: Option<String>,
    /// The explicit port, or the scheme's known default.
    pub port: Option<u16>,
}

pub struct UrlPartsView {
    pub scheme: Seq<char>,
    pub host: Option<UrlHostView>,
    pub username: Seq<char>,
    pub password: Option<Seq<char>>,
    pub query: Option<Seq<char>>,
    pub fragment: Option<Seq<char>>,
    pub port: Option<u16>,
}

pub open spec fn opt_chars(o: Option<String>) -> Option<Seq<char>> {
    match o {
        Some(s) => Some(s@),
        None => None,
    }
}

impl View for UrlParts {
    type V = UrlPartsView;

    open spec fn view(&self) -> UrlPartsView {
        UrlPartsView {
            scheme: self.scheme@,
            host: match self.host {
                Some(h) => Some(h@),
                None => None,
            },
            username: self.username@,
            password: opt_chars(self.password),
            query: opt_chars(self.query),
            fragment: opt_chars(self.fragment),
            port: self.port,
        }
    }
}

/// The parts of a parse outcome, or its error text.
pub open spec fn parse_outcome_view(r: Result<UrlParts, String>) -> Result<UrlPartsView, Seq<char>> {
    match r {
        Ok(p) => Ok(p@),
        Err(e) => Err(e@),
    }
}

/// What `url::Url::parse` makes of a text: its parts, or the rendering of
/// the parse error.
pub uninterp spec fn url_parse(text: Seq<char>) -> Result<UrlPartsView, Seq<char>>;

/// Parses an absolute URL with `url::Url::parse` and reads its scheme, host
/// (`Url::host`: a domain, or the octets of an IPv4 or the segments of an
/// IPv6 address), user name, password, query, fragment and
/// `port_or_known_default`. The outcome is named `url_parse` of the text:
/// the same text always gives the same parts or the same error text.
#[verifier::external_body]
fn parse_url(text: &str) -> (r: Result<UrlParts, String>)
    ensures
        url_parse(text@) == parse_outcome_view(r),
{
    let u = Url::parse(text).map_err(|e| e.to_string())?;
    let host = u.host().map(|h| match h {
        Host::Domain(d) => UrlHost::Domain(d.into()),
        Host::Ipv4(a) => UrlHost::Ipv4(a.octets().into()),
        Host::Ipv6(a) => UrlHost::Ipv6(a.segments().into()),
    });
    Ok(UrlParts {
        scheme: u.scheme().into(), host, username: u.username().into(),
        password: u.password().map(Into::into), query: u.query().map(Into::into),
        fragment: u.fragment().map(Into::into), port: u.port_or_known_default(),
    })
}

/// A URL the check accepts at all: http or https, with a host and without
/// credentials, query or fragment.
pub open spec fn url_shape_ok(u: UrlPartsView) -> bool {
    &&& (u.scheme == "http"@ || u.scheme == "https"@)
    &&& u.host is Some
    &&& u.username.len() == 0
    &&& u.password is None
    &&& u.query is None
    &&& u.fragment is None
}

/// A loopback address literal: IPv4 `127.0.0.0/8` or IPv6 `::1`.
pub open spec fn loopback_literal(h: UrlHostView) -> bool {
    match h {
        UrlHostView::Ipv4(o) => o.len() == 4 && o[0] == 127,
        UrlHostView::Ipv6(s) => s.len() == 8 && (forall|j: int| 0 <= j < 7 ==> #[trigger] s[j] == 0) && s[7] == 1,
        UrlHostView::Domain(_) => false,
    }
}

/// `str::eq_ignore_ascii_case`.
pub open spec fn eq_ignore_ascii_case(a: Seq<char>, b: Seq<char>) -> bool {
    a.len() == b.len() && forall|i: int| 0 <= i < a.len() ==> lower(#[trigger] a[i]) == lower(b[i])
}

/// The host named `localhost`, in any case.
pub open spec fn localhost_name(h: UrlHostView) -> bool {
    h matches UrlHostView::Domain(d) && eq_ignore_ascii_case(d, "localhost"@)
}

/// What the check makes of an endpoint, short of resolving `localhost`.
#[derive(Debug)]
pub enum EndpointAdmission {
    /// The endpoint may be used.
    Allowed,
    /// The endpoint names `localhost`: it may be used when every address the
    /// host resolves to (at this port) is loopback.
    ResolveLocalhost { host: String, port: u16 },
}

/// The admission on an endpoint: the error code of a refusal, or whether it is
/// allowed outright (`Ok(None)`) or after resolving the named host at the
/// given port (`Ok(Some(..))`).
pub open spec fn spec_endpoint_admission(parsed: Result<UrlPartsView, Seq<char>>, mode: PrivacyMode) -> Result<
    Option<(Seq<char>, u16)>,
    AppErrorCode,
> {
    match parsed {
        Err(_) => Err(AppErrorCode::ModelPrivacyBlocked),
        Ok(u) => if !url_shape_ok(u) {
            Err(AppErrorCode::ModelPrivacyBlocked)
        } else if mode == PrivacyMode::ExplicitExternal {
            Ok(None)
        } else if loopback_literal(u.host.unwrap()) {
            Ok(None)
        } else if localhost_name(u.host.unwrap()) {
            Ok(
                Some(
                    (
                        u.host.unwrap()->Domain_0,
                        match u.port {
                            Some(p) => p,
                            None => 80u16,
                        },
                    ),
                ),
            )
        } else {
            Err(AppErrorCode::ModelPrivacyBlocked)
        },
    }
}

pub open spec fn admission_view(v: EndpointAdmission) -> Option<(Seq<char>, u16)> {
    match v {
        EndpointAdmission::Allowed => None,
        EndpointAdmission::ResolveLocalhost { host, port } => Some((host@, port)),
    }
}

fn ascii_eq_ignore_case(a: &str, b: &str) -> (r: bool)
    ensures
        r == eq_ignore_ascii_case(a@, b@),
{
    let x = chars_of(a);
    let y = chars_of(b);
    if x.len() != y.len() {
        return false;
    }
    let mut i: usize = 0;
    while i < x.len()
        invariant
            i <= x.len(),
            x.len() == y.len(),
            x@ == a@,
            y@ == b@,
            forall|j: int| 0 <= j < i ==> lower(#[trigger] x@[j]) == lower(y@[j]),
        decreases x.len() - i,
    {
        if crate::text::char_lower(x[i]) != crate::text::char_lower(y[i]) {
            return false;
        }
        i = i + 1;
    }
    true
}

fn is_loopback_literal(h: &UrlHost) -> (r: bool)
    ensures
        r == loopback_literal(h@),
{
    match h {
        UrlHost::Ipv4(o) => o.len() == 4 && o[0] == 127,
        UrlHost::Ipv6(s) => {
            if s.len() != 8 {
                return false;
            }
            let mut i: usize = 0;
            while i < 7
                invariant
                    i <= 7,
                    s.len() == 8,
                    h@ == UrlHostView::Ipv6(s@),
                    forall|j: int| 0 <= j < i ==> s@[j] == 0,
                decreases 7 - i,
            {
                if s[i] != 0 {
                    assert(s@[i as int] != 0);
                    return false;
                }
                i = i + 1;
            }
            s[7] == 1
        },
        UrlHost::Domain(_) => false,
    }
}

fn blocked(technical: &str, advice: &str) -> (e: AppError)
    ensures
        e.code == AppErrorCode::ModelPrivacyBlocked,
{
    app_error(
        AppErrorCode::ModelPrivacyBlocked,
        "Model adresi güvenli bir URL değil.",
        Some(technical.to_owned()),
        Some(advice.to_owned()),
    )
}

/// Checks a model endpoint against the privacy mode before any network
/// operation: malformed URLs, URLs with credentials, query or fragment and
/// other schemes are refused; in strict local mode the host must be a
/// loopback address literal, or `localhost`, which then must be resolved.
pub fn check_endpoint_privacy(base_url: &str, privacy_mode: PrivacyMode) -> (r: Result<EndpointAdmission, AppError>)
    ensures
        match spec_endpoint_admission(url_parse(base_url@), privacy_mode) {
            Ok(v) => r matches Ok(got) && admission_view(got) == v,
            Err(code) => r matches Err(e) && e.code == code,
        },
{
    let parsed = match parse_url(base_url) {
        Ok(p) => p,
        Err(error) => {
            return Err(
                app_error(
                    AppErrorCode::ModelPrivacyBlocked,
                    "Model adresi güvenli bir URL değil.",
                    Some(concat("model URL parse failed: ", error.as_str())),
                    Some("Model adresini http://127.0.0.1:8080 biçiminde kontrol edin.".to_owned()),
                ),
            );
        },
    };
    proof {
        reveal_strlit("http");
        reveal_strlit("https");
    }
    let scheme_ok = str_eq(parsed.scheme.as_str(), "http") || str_eq(parsed.scheme.as_str(), "https");
    let shape_ok = scheme_ok && parsed.host.is_some() && parsed.username.as_str().is_empty()
        && parsed.password.is_none() && parsed.query.is_none() && parsed.fragment.is_none();
    if !shape_ok {
        return Err(
            blocked(
                "model URL must use http/https without credentials, query, or fragment",
                "Model adresini güvenli bir yerel adresle güncelleyin.",
            ),
        );
    }
    if privacy_mode == PrivacyMode::ExplicitExternal {
        return Ok(EndpointAdmission::Allowed);
    }
    let port: u16 = match parsed.port {
        Some(p) => p,
        None => 80,
    };
    match parsed.host {
        Some(host) => {
            if is_loopback_literal(&host) {
                return Ok(EndpointAdmission::Allowed);
            }
            match host {
                UrlHost::Domain(name) => {
                    proof {
                        reveal_strlit("localhost");
                    }
                    if ascii_eq_ignore_case(name.as_str(), "localhost") {
                        return Ok(EndpointAdmission::ResolveLocalhost { host: name, port });
                    }
                },
                _ => {},
            }
            Err(
                app_error(
                    AppErrorCode::ModelPrivacyBlocked,
                    "Strict local gizlilik politikası yalnızca loopback model sunucusuna izin veriyor.",
                    Some("non_loopback_model_endpoint_rejected".to_owned()),
                    Some("127.0.0.1 veya [::1] üzerindeki yönetilen model profilini seçin.".to_owned()),
                ),
            )
        },
        None => Err(
            blocked(
                "model URL must use http/https without credentials, query, or fragment",
                "Model adresini güvenli bir yerel adresle güncelleyin.",
            ),
        ),
    }
}

/// Whether every resolved address is loopback, and there is at least one:
/// `resolved` holds, for each address the host resolved to, whether it is
/// loopback, or is `None` when the resolution failed.
pub open spec fn spec_resolution_ok(resolved: Option<Seq<bool>>) -> bool {
    match resolved {
        Some(v) => v.len() > 0 && forall|i: int| 0 <= i < v.len() ==> #[trigger] v[i],
        None => false,
    }
}

/// Completes the check of a `localhost` endpoint from its resolution.
pub fn check_localhost_resolution(resolved: Option<Vec<bool>>) -> (r: Result<(), AppError>)
    ensures
        r is Ok <==> spec_resolution_ok(
            match resolved {
                Some(v) => Some(v@),
                None => None,
            },
        ),
        r matches Err(e) ==> e.code == AppErrorCode::ModelPrivacyBlocked,
{
    let ok = match &resolved {
        Some(v) => {
            let mut all = v.len() > 0;
            let mut i: usize = 0;
            while i < v.len()
                invariant
                    i <= v.len(),
                    all == (v@.len() > 0 && forall|j: int| 0 <= j < i ==> #[trigger] v@[j]),
                decreases v.len() - i,
            {
                if !v[i] {
                    all = false;
                }
                i = i + 1;
            }
            all
        },
        None => false,
    };
    if !ok {
        return Err(
            app_error(
                AppErrorCode::ModelPrivacyBlocked,
                "Strict local gizlilik politikası yalnızca loopback model sunucusuna izin veriyor.",
                Some("non_loopback_model_endpoint_rejected".to_owned()),
                Some("127.0.0.1 veya [::1] üzerindeki yönetilen model profilini seçin.".to_owned()),
            ),
        );
    }
    Ok(())
}

/// In strict local mode an endpoint passes the check only when its host is
/// a loopback address literal (and then it is allowed outright) or is
/// `localhost` (and then only after its resolution).
pub proof fn lemma_strict_local_only_loopback(parsed: Result<UrlPartsView, Seq<char>>)
    requires
        spec_endpoint_admission(parsed, PrivacyMode::StrictLocal) is Ok,
    ensures
        parsed is Ok,
        parsed->Ok_0.host is Some,
        spec_endpoint_admission(parsed, PrivacyMode::StrictLocal) == Ok::<Option<(Seq<char>, u16)>, AppErrorCode>(None)
            ==> loopback_literal(parsed->Ok_0.host.unwrap()),
        spec_endpoint_admission(parsed, PrivacyMode::StrictLocal) is Ok && spec_endpoint_admission(
            parsed,
            PrivacyMode::StrictLocal,
        )->Ok_0 is Some ==> localhost_name(parsed->Ok_0.host.unwrap()),
{
}

} // verus!
