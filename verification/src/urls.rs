//! Absolute URLs as plain values, parsed and resolved by the `url` crate.

use url::{Host, Url};
use vstd::prelude::*;

verus! {

/// The host of a URL.
#[derive(Debug)]
pub enum UrlHost {
    /// A domain name, as the URL holds it.
    Domain(String),
    /// An IPv4 address, by its four octets.
    Ipv4([u8; 4]),
    /// An IPv6 address, by its eight segments.
    Ipv6([u16; 8]),
}

/// The mathematical content of a host.
pub enum HostModel {
    Domain(Seq<char>),
    Ipv4([u8; 4]),
    Ipv6([u16; 8]),
}

/// A parsed absolute URL: its serialization and the parts the library reads.
#[derive(Debug)]
pub struct ParsedUrl {
    /// The whole URL, serialized (`Url::as_str`).
    pub href: String,
    /// The scheme, in lower case (`Url::scheme`).
    pub scheme: String,
    /// The host, when there is one (`Url::host`).
    pub host: Option<UrlHost>,
    /// The host as text (`Url::host_str`).
    pub host_text: Option<String>,
    /// The user name, empty when there is none (`Url::username`).
    pub username: String,
    /// Whether the URL carries a password (`Url::password`).
    pub has_password: bool,
    /// The explicit port, or the scheme's default one (`Url::port_or_known_default`).
    pub port: Option<u16>,
}

/// The mathematical content of a parsed URL.
pub struct UrlModel {
    pub href: Seq<char>,
    pub scheme: Seq<char>,
    pub host: Option<HostModel>,
    pub host_text: Option<Seq<char>>,
    pub username: Seq<char>,
    pub has_password: bool,
    pub port: Option<u16>,
}

impl DeepView for UrlHost {
    type V = HostModel;

    open spec fn deep_view(&self) -> HostModel {
        match self {
            UrlHost::Domain(name) => HostModel::Domain(name@),
            UrlHost::Ipv4(octets) => HostModel::Ipv4(*octets),
            UrlHost::Ipv6(segments) => HostModel::Ipv6(*segments),
        }
    }
}

impl DeepView for ParsedUrl {
    type V = UrlModel;

    open spec fn deep_view(&self) -> UrlModel {
        UrlModel {
            href: self.href@,
            scheme: self.scheme@,
            host: match self.host {
                Some(host) => Some(host.deep_view()),
                None => None,
            },
            host_text: match self.host_text {
                Some(text) => Some(text@),
                None => None,
            },
            username: self.username@,
            has_password: self.has_password,
            port: self.port,
        }
    }
}

/// The parts of a URL that are read directly, before its host.
#[derive(Debug)]
pub struct UrlParts {
    pub href: String,
    pub scheme: String,
    pub host_text: Option<String>,
    pub username: String,
    pub has_password: bool,
    pub port: Option<u16>,
}

/// The mathematical content of the parts of a URL.
pub struct PartsModel {
    pub href: Seq<char>,
    pub scheme: Seq<char>,
    pub host_text: Option<Seq<char>>,
    pub username: Seq<char>,
    pub has_password: bool,
    pub port: Option<u16>,
}

impl DeepView for UrlParts {
    type V = PartsModel;

    open spec fn deep_view(&self) -> PartsModel {
        PartsModel {
            href: self.href@,
            scheme: self.scheme@,
            host_text: match self.host_text {
                Some(text) => Some(text@),
                None => None,
            },
            username: self.username@,
            has_password: self.has_password,
            port: self.port,
        }
    }
}

/// What `url::Url::parse` gives for `text`: the parts of the URL, or the text
/// of the parse error.
pub uninterp spec fn spec_url_parse(text: Seq<char>) -> Result<PartsModel, Seq<char>>;

/// What `url::Url::join` gives for the URL serialized as `base` and the
/// reference `input`: the parts of the resolved URL, or the text of the parse
/// error.
pub uninterp spec fn spec_url_join(base: Seq<char>, input: Seq<char>) -> Result<PartsModel, Seq<char>>;

/// What `url::Url::host` gives for the URL serialized as `href` (`None` also
/// when `href` does not parse).
pub uninterp spec fn spec_url_host(href: Seq<char>) -> Option<HostModel>;

/// A URL with its host.
pub open spec fn with_host(parts: PartsModel) -> UrlModel {
    UrlModel {
        href: parts.href,
        scheme: parts.scheme,
        host: spec_url_host(parts.href),
        host_text: parts.host_text,
        username: parts.username,
        has_password: parts.has_password,
        port: parts.port,
    }
}

/// What parsing `text` as a URL gives: the URL, or the text of the error.
pub open spec fn url_parse_outcome(text: Seq<char>) -> Result<UrlModel, Seq<char>> {
    match spec_url_parse(text) {
        Ok(parts) => Ok(with_host(parts)),
        Err(error) => Err(error),
    }
}

/// What resolving `input` against the URL serialized as `base` gives: the
/// URL, or the text of the error.
pub open spec fn url_join_outcome(base: Seq<char>, input: Seq<char>) -> Result<UrlModel, Seq<char>> {
    match spec_url_join(base, input) {
        Ok(parts) => Ok(with_host(parts)),
        Err(error) => Err(error),
    }
}

/// The content of a parse or join outcome.
pub open spec fn url_outcome(res: Result<ParsedUrl, String>) -> Result<UrlModel, Seq<char>> {
    match res {
        Ok(url) => Ok(url.deep_view()),
        Err(error) => Err(error@),
    }
}

/// The content of an outcome that reads the parts of a URL.
pub open spec fn parts_outcome(res: Result<UrlParts, String>) -> Result<PartsModel, Seq<char>> {
    match res {
        Ok(parts) => Ok(parts.deep_view()),
        Err(error) => Err(error@),
    }
}

/// Parses an absolute URL with `url::Url::parse` and reads its serialization,
/// scheme, host text, user name, whether it has a password, and its port (or
/// the scheme's default one). The contract claims only that the outcome is
/// determined by `text`.
#[verifier::external_body]
fn parse_url_parts(text: &str) -> (res: Result<UrlParts, String>)
    ensures
        parts_outcome(res) == spec_url_parse(text@),
{
    let url = match Url::parse(text) { Ok(url) => url, Err(error) => return Err(error.to_string()) };
    Ok(UrlParts { href: url.as_str().into(), scheme: url.scheme().into(),
        host_text: url.host_str().map(Into::into), username: url.username().into(),
        has_password: url.password().is_some(), port: url.port_or_known_default() })
}

/// Resolves `input` against the URL that `base` serializes with
/// `url::Url::join` and reads the parts of the result as `parse_url_parts`
/// does. The contract claims only that the outcome is determined by `base`
/// and `input`.
#[verifier::external_body]
fn join_url_parts(base: &str, input: &str) -> (res: Result<UrlParts, String>)
    ensures
        parts_outcome(res) == spec_url_join(base@, input@),
{
    let base_url = match Url::parse(base) { Ok(url) => url, Err(error) => return Err(error.to_string()) };
    let url = match base_url.join(input) { Ok(url) => url, Err(error) => return Err(error.to_string()) };
    Ok(UrlParts { href: url.as_str().into(), scheme: url.scheme().into(),
        host_text: url.host_str().map(Into::into), username: url.username().into(),
        has_password: url.password().is_some(), port: url.port_or_known_default() })
}

/// Reads the host of the URL that `href` serializes with `url::Url::host`:
/// a domain, or an IPv4 or IPv6 address. The contract claims only that the
/// outcome is determined by `href`.
#[verifier::external_body]
fn url_host(href: &str) -> (res: Option<UrlHost>)
    ensures
        match res {
            Some(host) => spec_url_host(href@) == Some(host.deep_view()),
            None => spec_url_host(href@) is None,
        },
{
    let url = Url::parse(href).ok()?;
    match url.host()? {
        Host::Domain(name) => Some(UrlHost::Domain(name.into())),
        Host::Ipv4(address) => Some(UrlHost::Ipv4(address.octets())),
        Host::Ipv6(address) => Some(UrlHost::Ipv6(address.segments())),
    }
}

/// The URL with its host read.
fn complete(parts: UrlParts) -> (res: ParsedUrl)
    ensures
        res.deep_view() == with_host(parts.deep_view()),
{
    let host = url_host(parts.href.as_str());
    ParsedUrl {
        href: parts.href,
        scheme: parts.scheme,
        host,
        host_text: parts.host_text,
        username: parts.username,
        has_password: parts.has_password,
        port: parts.port,
    }
}

/// Parses an absolute URL.
pub fn parse_url(text: &str) -> (res: Result<ParsedUrl, String>)
    ensures
        url_outcome(res) == url_parse_outcome(text@),
{
    match parse_url_parts(text) {
        Ok(parts) => Ok(complete(parts)),
        Err(error) => Err(error),
    }
}

/// Resolves a reference against a URL.
pub fn join_url(base: &ParsedUrl, input: &str) -> (res: Result<ParsedUrl, String>)
    ensures
        url_outcome(res) == url_join_outcome(base.href@, input@),
{
    join_url_text(base.href.as_str(), input)
}

/// Resolves a reference against the URL that `base` serializes.
pub fn join_url_text(base: &str, input: &str) -> (res: Result<ParsedUrl, String>)
    ensures
        url_outcome(res) == url_join_outcome(base@, input@),
{
    match join_url_parts(base, input) {
        Ok(parts) => Ok(complete(parts)),
        Err(error) => Err(error),
    }
}

} // verus!
