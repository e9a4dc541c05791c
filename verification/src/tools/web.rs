//! The web tools: searching the web and reading public pages. The checks that
//! keep the fetcher on the public web, the bounds on what it reads, the
//! extraction of readable text, and the texts that the model and the activity
//! panel receive.

use vstd::prelude::*;

use crate::error::{AppError, ErrorModel};
use crate::http::{build_search_client, SearchClientSettings};
use crate::json::{
    json_object_text, json_quote, json_string_field, json_string_literal, json_string_value,
    json_syntax_error, spec_json_object_text, spec_json_string_field, spec_json_string_value,
    spec_json_syntax_error,
};
use crate::providers::{
    function_tool_type, ToolCall, ToolCallModel, ToolDefinition, ToolFunctionCall,
    ToolFunctionDefinition,
};
use crate::tools::{ToolExecution, FETCH_WEB_PAGE_TOOL_NAME, SEARCH_WEB_TOOL_NAME};
use crate::text::{
    ascii_lower, ascii_lowercase, collapse_white_space, concat, contains, decimal,
    decimal_usize, ends_with, has_infix, has_prefix, has_suffix, join_strings, join_with,
    lemma_join_push, normalize_string, owned, same_text, spec_utf8_lossy, starts_with, trim,
    lemma_truncated_len, trim_trailing_dots, trimmed, truncate_with, truncated_with, utf8_lossy,
    without_trailing_dots,
};
use crate::tools::net::{
    ensure_public_ip, ipv4_literal, ipv4_public, parse_ipv4_literal, IpAddress, PRIVATE_NETWORK_MESSAGE,
};
use crate::urls::{join_url, join_url_text, parse_url, url_join_outcome, url_parse_outcome, HostModel, ParsedUrl, UrlHost, UrlModel};

verus! {

/// The address of the search feed.
pub const BING_SEARCH_URL: &'static str = "https://www.bing.com/search";

/// The user agent of every web request.
pub const USER_AGENT: &'static str = "Taurus/0.1 (+local desktop assistant)";

/// Seconds allowed to connect.
pub const CONNECT_TIMEOUT_SECS: u64 = 8;

/// Seconds allowed for a whole request.
pub const REQUEST_TIMEOUT_SECS: u64 = 20;

/// Bytes of a response body that are read at most.
pub const MAX_RESPONSE_BYTES: usize = 2 * 1024 * 1024;

/// Characters of page text that a fetched page keeps.
pub const MAX_PAGE_CHARACTERS: usize = 16000;

/// Characters of page text that the model receives.
pub const MAX_AGENT_PAGE_CHARACTERS: usize = 3000;

/// Redirects that a page fetch follows at most.
pub const MAX_REDIRECTS: usize = 5;

/// Search results whose pages are fetched after a search.
pub const AUTO_FETCH_RESULT_LIMIT: usize = 2;

/// The notice that ends truncated page text.
pub const TRUNCATION_NOTICE: &'static str = "\n[Page content truncated]";

/// Refusal of a URL that is not an absolute HTTP or HTTPS one.
pub const NOT_HTTP_MESSAGE: &'static str = "Only absolute HTTP and HTTPS page URLs are allowed.";

/// Refusal of a URL with a user name or password.
pub const CREDENTIALS_MESSAGE: &'static str = "Page URLs containing credentials are not allowed.";

/// Refusal of a redirect without a usable location.
pub const INVALID_REDIRECT_MESSAGE: &'static str = "The page returned an invalid redirect.";

/// Refusal of a redirect chain that is too long.
pub const TOO_MANY_REDIRECTS_MESSAGE: &'static str = "The page redirected too many times.";

/// Refusal of a response body that is too large.
pub const TOO_LARGE_MESSAGE: &'static str = "The web response is too large to process safely.";

/// The web tools, with the client that sends search requests and the
/// settings it was built with.
pub struct WebTools {
    pub search_client: reqwest::Client,
    pub search_settings: SearchClientSettings,
}

/// The settings of the search client: it identifies as Taurus, gives up after
/// the connect and request timeouts and follows at most `MAX_REDIRECTS`
/// redirects.
pub open spec fn is_search_settings(settings: SearchClientSettings) -> bool {
    &&& settings.user_agent@ == USER_AGENT@
    &&& settings.connect_timeout_secs == CONNECT_TIMEOUT_SECS
    &&& settings.request_timeout_secs == REQUEST_TIMEOUT_SECS
    &&& settings.max_redirects == MAX_REDIRECTS
}

/// The settings of the search client.
pub fn search_client_settings() -> (res: SearchClientSettings)
    ensures
        is_search_settings(res),
{
    SearchClientSettings {
        user_agent: owned(USER_AGENT),
        connect_timeout_secs: CONNECT_TIMEOUT_SECS,
        request_timeout_secs: REQUEST_TIMEOUT_SECS,
        max_redirects: MAX_REDIRECTS,
    }
}

impl WebTools {
    /// The web tools, with a search client built from the search settings.
    /// Building the client is the only step that can fail; its failure is
    /// reported as an HTTP client error.
    pub fn new() -> (res: Result<WebTools, AppError>)
        ensures
            res matches Ok(tools) ==> is_search_settings(tools.search_settings),
            res matches Err(e) ==> e is HttpClient,
    {
        let search_settings = search_client_settings();
        match build_search_client(&search_settings) {
            Ok(search_client) => Ok(WebTools { search_client, search_settings }),
            Err(kind) => Err(AppError::HttpClient(kind)),
        }
    }
}

// ---------------------------------------------------------------------------
// Which URLs may be fetched
// ---------------------------------------------------------------------------

/// Host names that always denote the local machine or network.
pub open spec fn local_host_name(name: Seq<char>) -> bool {
    ||| name == "localhost"@
    ||| has_suffix(name, ".localhost"@)
    ||| has_suffix(name, ".local"@)
}

/// A host name as compared: trailing dots dropped, ASCII letters in lower case.
pub open spec fn normalized_host_name(name: Seq<char>) -> Seq<char> {
    ascii_lower(trim_trailing_dots(name))
}

/// A host that the fetcher may contact: a domain that does not name the local
/// machine or network and, read as a dotted-decimal address, is public; or a
/// public IPv4 address. An IPv6 host is not judged here: its address is judged
/// once the host is resolved.
pub open spec fn host_allowed(host: HostModel) -> bool {
    match host {
        HostModel::Domain(name) => !local_host_name(normalized_host_name(name)) && match ipv4_literal(
            normalized_host_name(name),
        ) {
            Some(octets) => ipv4_public(octets),
            None => true,
        },
        HostModel::Ipv4(octets) => ipv4_public(octets),
        HostModel::Ipv6(_) => true,
    }
}

/// A URL without a host passes the host check, as an empty host name would.
pub open spec fn optional_host_allowed(host: Option<HostModel>) -> bool {
    match host {
        Some(h) => host_allowed(h),
        None => true,
    }
}

/// An absolute HTTP or HTTPS URL with a host.
pub open spec fn is_web_url(url: UrlModel) -> bool {
    &&& (url.scheme == "http"@ || url.scheme == "https"@)
    &&& url.host_text is Some
}

/// What `text` parses to when it is an absolute HTTP or HTTPS URL with a host.
pub open spec fn web_url(text: Seq<char>) -> Option<UrlModel> {
    match url_parse_outcome(text) {
        Ok(url) => if is_web_url(url) {
            Some(url)
        } else {
            None
        },
        Err(_) => None,
    }
}

/// A URL that the fetcher may request: absolute HTTP or HTTPS, with a host
/// that passes the host check, and no credentials.
pub open spec fn fetchable(url: UrlModel) -> bool {
    &&& is_web_url(url)
    &&& url.username.len() == 0
    &&& !url.has_password
    &&& optional_host_allowed(url.host)
}

/// What the fetcher makes of a URL given as text: the URL, or the message of
/// the refusal.
pub open spec fn public_url_outcome(raw: Seq<char>) -> Result<UrlModel, Seq<char>> {
    match web_url(trimmed(raw)) {
        None => Err(NOT_HTTP_MESSAGE@),
        Some(url) => if url.username.len() > 0 || url.has_password {
            Err(CREDENTIALS_MESSAGE@)
        } else if !optional_host_allowed(url.host) {
            Err(PRIVATE_NETWORK_MESSAGE@)
        } else {
            Ok(url)
        },
    }
}

/// A web-tool error with the given message.
pub open spec fn web_error(e: AppError, message: Seq<char>) -> bool {
    e.deep_view() == ErrorModel::WebTool(message)
}

/// Whether a host name denotes the local machine or network.
fn is_local_host_name(name: &str) -> (r: bool)
    ensures
        r == local_host_name(name@),
{
    same_text(name, "localhost") || ends_with(name, ".localhost") || ends_with(name, ".local")
}

/// Refuses a host that names the local machine or network, or an IPv4 address
/// that is not public.
pub fn validate_hostname(host: &UrlHost) -> (res: Result<(), AppError>)
    ensures
        res is Ok <==> host_allowed(host.deep_view()),
        res matches Err(e) ==> web_error(e, PRIVATE_NETWORK_MESSAGE@),
{
    match host {
        UrlHost::Domain(name) => {
            let normalized = ascii_lowercase(without_trailing_dots(name.as_str()).as_str());
            if is_local_host_name(normalized.as_str()) {
                Err(AppError::WebTool(owned(PRIVATE_NETWORK_MESSAGE)))
            } else {
                match parse_ipv4_literal(normalized.as_str()) {
                    Some(octets) => ensure_public_ip(IpAddress::V4(octets)),
                    None => Ok(()),
                }
            }
        },
        UrlHost::Ipv4(octets) => ensure_public_ip(IpAddress::V4(*octets)),
        UrlHost::Ipv6(_) => Ok(()),
    }
}

/// The URL when `raw_url` is an absolute HTTP or HTTPS URL with a host.
pub fn public_http_url(raw_url: &str) -> (res: Option<ParsedUrl>)
    ensures
        match res {
            Some(url) => web_url(raw_url@) == Some(url.deep_view()),
            None => web_url(raw_url@) is None,
        },
{
    match parse_url(raw_url) {
        Ok(parsed) => {
            let web = same_text(parsed.scheme.as_str(), "http") || same_text(
                parsed.scheme.as_str(),
                "https",
            );
            if web && parsed.host_text.is_some() {
                Some(parsed)
            } else {
                None
            }
        },
        Err(_) => None,
    }
}

/// Accepts a URL given as text only when the fetcher may request it.
pub fn parse_public_url(raw_url: &str) -> (res: Result<ParsedUrl, AppError>)
    ensures
        match res {
            Ok(url) => public_url_outcome(raw_url@) == Ok::<UrlModel, Seq<char>>(url.deep_view()),
            Err(e) => public_url_outcome(raw_url@) matches Err(m) && web_error(e, m),
        },
        res matches Ok(url) ==> fetchable(url.deep_view()),
{
    let trimmed_url = trim(raw_url);
    let parsed = match public_http_url(trimmed_url.as_str()) {
        Some(parsed) => parsed,
        None => {
            return Err(AppError::WebTool(owned(NOT_HTTP_MESSAGE)));
        },
    };
    if !parsed.username.as_str().is_empty() || parsed.has_password {
        return Err(AppError::WebTool(owned(CREDENTIALS_MESSAGE)));
    }
    match &parsed.host {
        Some(host) => {
            match validate_hostname(host) {
                Ok(()) => {},
                Err(e) => {
                    return Err(e);
                },
            }
        },
        None => {},
    }
    Ok(parsed)
}

// ---------------------------------------------------------------------------
// Following redirects
// ---------------------------------------------------------------------------

/// Where a redirect leads, from the URL that answered and its `Location`
/// header (`None` when missing or not visible ASCII): the next URL, or the
/// message of the refusal.
pub open spec fn redirect_outcome(current: UrlModel, location: Option<Seq<char>>) -> Result<UrlModel, Seq<char>> {
    match location {
        None => Err(INVALID_REDIRECT_MESSAGE@),
        Some(target) => match url_join_outcome(current.href, target) {
            Err(error) => Err("The page returned an invalid redirect URL: "@ + error),
            Ok(joined) => public_url_outcome(joined.href),
        },
    }
}

/// The URL that a redirect leads to, when the fetcher may request it.
pub fn redirect_url(current_url: &ParsedUrl, location: Option<String>) -> (res: Result<ParsedUrl, AppError>)
    ensures
        match res {
            Ok(url) => redirect_outcome(current_url.deep_view(), crate::providers::opt_view(location))
                == Ok::<UrlModel, Seq<char>>(url.deep_view()),
            Err(e) => redirect_outcome(current_url.deep_view(), crate::providers::opt_view(location)) matches Err(m)
                && web_error(e, m),
        },
        res matches Ok(url) ==> fetchable(url.deep_view()),
{
    let target = match location {
        Some(target) => target,
        None => {
            return Err(AppError::WebTool(owned(INVALID_REDIRECT_MESSAGE)));
        },
    };
    match join_url(current_url, target.as_str()) {
        Ok(joined) => parse_public_url(joined.href.as_str()),
        Err(error) => Err(
            AppError::WebTool(concat("The page returned an invalid redirect URL: ", error.as_str())),
        ),
    }
}

/// What the fetcher does after a response.
#[derive(Debug, Clone, Copy, PartialEq, Eq, Structural)]
pub enum RedirectDecision {
    /// Request the (new) current URL.
    Follow,
    /// The response is the page: the current URL is where it was found.
    Arrived,
}

/// The chain of requests of one page fetch. Every URL it hands out for a
/// request is one the fetcher may request, and it follows at most
/// `MAX_REDIRECTS` redirects.
pub struct RedirectFollower {
    current: ParsedUrl,
    redirects: usize,
}

impl RedirectFollower {
    #[verifier::type_invariant]
    spec fn well_formed(self) -> bool {
        &&& self.redirects <= MAX_REDIRECTS
        &&& fetchable(self.current.deep_view())
    }

    /// The URL to request next, or where the page was found.
    pub closed spec fn url(self) -> UrlModel {
        self.current.deep_view()
    }

    /// The redirects followed so far.
    pub closed spec fn redirect_count(self) -> nat {
        self.redirects as nat
    }

    /// Starts a fetch of the URL given as text, when the fetcher may request it.
    pub fn start(raw_url: &str) -> (res: Result<RedirectFollower, AppError>)
        ensures
            match res {
                Ok(f) => public_url_outcome(raw_url@) == Ok::<UrlModel, Seq<char>>(f.url())
                    && f.redirect_count() == 0,
                Err(e) => public_url_outcome(raw_url@) matches Err(m) && web_error(e, m),
            },
    {
        match parse_public_url(raw_url) {
            Ok(url) => Ok(RedirectFollower { current: url, redirects: 0 }),
            Err(e) => Err(e),
        }
    }

    /// The URL to request.
    pub fn current(&self) -> (res: &ParsedUrl)
        ensures
            res.deep_view() == self.url(),
            fetchable(self.url()),
            self.redirect_count() <= MAX_REDIRECTS,
    {
        proof {
            use_type_invariant(self);
        }
        &self.current
    }

    /// Takes in the response to the current URL: whether it is a redirection
    /// and its `Location` header. A redirect past the limit, or to a URL that
    /// may not be fetched, fails.
    pub fn after_response(&mut self, is_redirection: bool, location: Option<String>) -> (res: Result<
        RedirectDecision,
        AppError,
    >)
        ensures
            !is_redirection ==> res == Ok::<RedirectDecision, AppError>(RedirectDecision::Arrived)
                && final(self).url() == old(self).url() && final(self).redirect_count() == old(
                self,
            ).redirect_count(),
            is_redirection && old(self).redirect_count() == MAX_REDIRECTS ==> (res matches Err(e)
                && web_error(e, TOO_MANY_REDIRECTS_MESSAGE@)),
            is_redirection && old(self).redirect_count() < MAX_REDIRECTS ==> match res {
                Ok(d) => d == RedirectDecision::Follow && redirect_outcome(
                    old(self).url(),
                    crate::providers::opt_view(location),
                ) == Ok::<UrlModel, Seq<char>>(final(self).url()) && final(self).redirect_count()
                    == old(self).redirect_count() + 1,
                Err(e) => redirect_outcome(old(self).url(), crate::providers::opt_view(location)) matches Err(m)
                    && web_error(e, m),
            },
            fetchable(final(self).url()),
            final(self).redirect_count() <= MAX_REDIRECTS,
    {
        proof {
            use_type_invariant(&*self);
        }
        if !is_redirection {
            return Ok(RedirectDecision::Arrived);
        }
        if self.redirects == MAX_REDIRECTS {
            return Err(AppError::WebTool(owned(TOO_MANY_REDIRECTS_MESSAGE)));
        }
        let next = redirect_url(&self.current, location);
        match next {
            Ok(url) => {
                self.current = url;
                self.redirects = self.redirects + 1;
                Ok(RedirectDecision::Follow)
            },
            Err(e) => Err(e),
        }
    }
}

// ---------------------------------------------------------------------------
// Sending a request
// ---------------------------------------------------------------------------

/// Where a page request goes: the host to resolve, the port, and whether the
/// client must be pinned to the address the host resolved to (any host that
/// is not an IPv4 address).
#[derive(Debug)]
pub struct RequestTarget {
    pub host: String,
    pub port: u16,
    pub pin_address: bool,
}

/// Refusal of a URL without a host.
pub const NO_HOST_MESSAGE: &'static str = "The page URL has no host.";

/// Refusal of a URL without a known port.
pub const NO_PORT_MESSAGE: &'static str = "The page URL uses an unsupported port.";

/// Refusal of a host that resolved to no address.
pub const NO_ADDRESS_MESSAGE: &'static str = "The page host did not resolve to an address.";

/// Where the request for `url` goes, after the host check again.
pub fn request_target(url: &ParsedUrl) -> (res: Result<RequestTarget, AppError>)
    ensures
        url.host_text is None ==> (res matches Err(e) && web_error(e, NO_HOST_MESSAGE@)),
        url.host_text is Some && !optional_host_allowed(url.deep_view().host) ==> (res matches Err(e)
            && web_error(e, PRIVATE_NETWORK_MESSAGE@)),
        url.host_text is Some && optional_host_allowed(url.deep_view().host) && url.port is None
            ==> (res matches Err(e) && web_error(e, NO_PORT_MESSAGE@)),
        url.host_text is Some && optional_host_allowed(url.deep_view().host) && url.port is Some
            ==> res is Ok,
        res matches Ok(t) ==> url.host_text == Some(t.host) && url.port == Some(t.port)
            && optional_host_allowed(url.deep_view().host) && t.pin_address == !(url.host matches Some(
            UrlHost::Ipv4(_),
        )),
{
    let host = match &url.host_text {
        Some(host) => host,
        None => {
            return Err(AppError::WebTool(owned(NO_HOST_MESSAGE)));
        },
    };
    let pin_address = match &url.host {
        Some(h) => {
            match validate_hostname(h) {
                Ok(()) => {},
                Err(e) => {
                    return Err(e);
                },
            }
            match h {
                UrlHost::Ipv4(_) => false,
                _ => true,
            }
        },
        None => true,
    };
    let port = match url.port {
        Some(port) => port,
        None => {
            return Err(AppError::WebTool(owned(NO_PORT_MESSAGE)));
        },
    };
    Ok(RequestTarget { host: host.clone(), port, pin_address })
}

/// Every address is public.
pub open spec fn all_public(addresses: Seq<IpAddress>) -> bool {
    forall|i: int| 0 <= i < addresses.len() ==> crate::tools::net::ip_public(#[trigger] addresses[i])
}

/// Refuses a host that resolved to no address or to any address that is not
/// public.
pub fn check_resolved_addresses(addresses: &Vec<IpAddress>) -> (res: Result<(), AppError>)
    ensures
        res is Ok <==> addresses@.len() > 0 && all_public(addresses@),
        addresses@.len() == 0 ==> (res matches Err(e) && web_error(e, NO_ADDRESS_MESSAGE@)),
        addresses@.len() > 0 ==> (res matches Err(e) ==> web_error(e, PRIVATE_NETWORK_MESSAGE@)),
{
    if addresses.len() == 0 {
        return Err(AppError::WebTool(owned(NO_ADDRESS_MESSAGE)));
    }
    let n = addresses.len();
    for i in 0..n
        invariant
            n == addresses@.len(),
            forall|j: int| 0 <= j < i ==> crate::tools::net::ip_public(#[trigger] addresses@[j]),
    {
        match ensure_public_ip(addresses[i]) {
            Ok(()) => {},
            Err(e) => {
                return Err(e);
            },
        }
    }
    Ok(())
}

// ---------------------------------------------------------------------------
// Reading a response
// ---------------------------------------------------------------------------

/// The message of a response whose status is not a success.
pub open spec fn status_failure_message(action: Seq<char>, status: Seq<char>) -> Seq<char> {
    action + " failed with HTTP status "@ + status + "."@
}

/// Refuses a response whose status code is not a success (`200..=299`).
/// `status` is the status as displayed (code and reason).
pub fn ensure_success(status_code: u16, status: &str, action: &str) -> (res: Result<(), AppError>)
    ensures
        res is Ok <==> 200 <= status_code <= 299,
        res matches Err(e) ==> web_error(e, status_failure_message(action@, status@)),
{
    if 200 <= status_code && status_code <= 299 {
        Ok(())
    } else {
        let mut message = concat(action, " failed with HTTP status ");
        message.append(status);
        message.append(".");
        Err(AppError::WebTool(message))
    }
}

/// A declared content type, in lower case, that the fetcher reads: any text
/// type, or XHTML.
pub open spec fn readable_content_type(lowered: Seq<char>) -> bool {
    has_prefix(lowered, "text/"@) || has_infix(lowered, "application/xhtml+xml"@)
}

/// Refuses a response whose declared content type is not readable text.
/// `content_type` is the `Content-Type` header, `None` when absent and empty
/// when it is not visible ASCII. A response without one is accepted.
pub fn validate_content_type(content_type: &Option<String>) -> (res: Result<(), AppError>)
    ensures
        match content_type {
            None => res is Ok,
            Some(t) => (res is Ok <==> readable_content_type(ascii_lower(t@))) && (res matches Err(e)
                ==> web_error(
                e,
                "The URL returned unsupported content type '"@ + ascii_lower(t@) + "'."@,
            )),
        },
{
    match content_type {
        None => Ok(()),
        Some(t) => {
            let lowered = ascii_lowercase(t.as_str());
            if starts_with(lowered.as_str(), "text/") || contains(lowered.as_str(), "application/xhtml+xml") {
                Ok(())
            } else {
                let mut message = concat("The URL returned unsupported content type '", lowered.as_str());
                message.append("'.");
                Err(AppError::WebTool(message))
            }
        },
    }
}

/// Whether the declared content type (as for `validate_content_type`) says
/// HTML or XHTML.
pub fn response_is_html(content_type: &Option<String>) -> (r: bool)
    ensures
        r == (content_type matches Some(t) && (has_infix(ascii_lower(t@), "text/html"@)
            || has_infix(ascii_lower(t@), "application/xhtml+xml"@))),
{
    match content_type {
        None => false,
        Some(t) => {
            let lowered = ascii_lowercase(t.as_str());
            contains(lowered.as_str(), "text/html") || contains(lowered.as_str(), "application/xhtml+xml")
        },
    }
}

/// A response body read within `MAX_RESPONSE_BYTES`.
pub struct LimitedBody {
    bytes: Vec<u8>,
}

impl View for LimitedBody {
    type V = Seq<u8>;

    closed spec fn view(&self) -> Seq<u8> {
        self.bytes@
    }
}

impl LimitedBody {
    #[verifier::type_invariant]
    spec fn within_limit(self) -> bool {
        self.bytes@.len() <= MAX_RESPONSE_BYTES
    }

    /// An empty body, unless the declared length already exceeds the limit.
    pub fn start(content_length: Option<u64>) -> (res: Result<LimitedBody, AppError>)
        ensures
            res is Err <==> (content_length matches Some(n) && n > MAX_RESPONSE_BYTES),
            res matches Ok(b) ==> b@ == Seq::<u8>::empty(),
            res matches Err(e) ==> web_error(e, TOO_LARGE_MESSAGE@),
    {
        match content_length {
            Some(n) => {
                if n > MAX_RESPONSE_BYTES as u64 {
                    return Err(AppError::WebTool(owned(TOO_LARGE_MESSAGE)));
                }
            },
            None => {},
        }
        LimitedBody::empty()
    }

    fn empty() -> (res: Result<LimitedBody, AppError>)
        ensures
            res matches Ok(b) && b@ == Seq::<u8>::empty(),
    {
        Ok(LimitedBody { bytes: Vec::new() })
    }

    /// Appends the next chunk of the body, or fails when the body would exceed
    /// the limit, leaving it as it was.
    pub fn push(&mut self, chunk: &[u8]) -> (res: Result<(), AppError>)
        ensures
            res is Ok <==> old(self)@.len() + chunk@.len() <= MAX_RESPONSE_BYTES,
            res is Ok ==> final(self)@ == old(self)@ + chunk@,
            res is Err ==> final(self)@ == old(self)@,
            res matches Err(e) ==> web_error(e, TOO_LARGE_MESSAGE@),
            final(self)@.len() <= MAX_RESPONSE_BYTES,
    {
        proof {
            use_type_invariant(&*self);
        }
        if chunk.len() > MAX_RESPONSE_BYTES - self.bytes.len() {
            return Err(AppError::WebTool(owned(TOO_LARGE_MESSAGE)));
        }
        let mut bytes: Vec<u8> = Vec::new();
        std::mem::swap(&mut bytes, &mut self.bytes);
        bytes.extend_from_slice(chunk);
        assert(bytes@ =~= old(self)@ + chunk@);
        self.bytes = bytes;
        Ok(())
    }

    /// The bytes read.
    pub fn into_bytes(self) -> (res: Vec<u8>)
        ensures
            res@ == self@,
            res@.len() <= MAX_RESPONSE_BYTES,
    {
        proof {
            use_type_invariant(&self);
        }
        self.bytes
    }
}

// ---------------------------------------------------------------------------
// Readable page text
// ---------------------------------------------------------------------------

/// A web search result.
#[derive(Debug)]
pub struct WebSearchResult {
    pub title: String,
    pub url: String,
    pub snippet: String,
}

/// A fetched page: where it was found, its title, and its readable text.
#[derive(Debug)]
pub struct WebPage {
    pub url: String,
    pub title: Option<String>,
    pub content: String,
    pub links: Vec<PageLink>,
}

/// A labeled link found in a page's readable part: its text and the absolute
/// URL it leads to.
#[derive(Debug)]
pub struct PageLink {
    pub label: String,
    pub url: String,
}

/// The mathematical content of a link.
pub struct LinkModel {
    pub label: Seq<char>,
    pub url: Seq<char>,
}

impl DeepView for PageLink {
    type V = LinkModel;

    open spec fn deep_view(&self) -> LinkModel {
        LinkModel { label: self.label@, url: self.url@ }
    }
}

/// The mathematical content of a search result.
pub struct ResultModel {
    pub title: Seq<char>,
    pub url: Seq<char>,
    pub snippet: Seq<char>,
}

/// The mathematical content of a fetched page.
pub struct PageModel {
    pub url: Seq<char>,
    pub title: Option<Seq<char>>,
    pub content: Seq<char>,
    pub links: Seq<LinkModel>,
}

impl DeepView for WebSearchResult {
    type V = ResultModel;

    open spec fn deep_view(&self) -> ResultModel {
        ResultModel { title: self.title@, url: self.url@, snippet: self.snippet@ }
    }
}

impl DeepView for WebPage {
    type V = PageModel;

    open spec fn deep_view(&self) -> PageModel {
        PageModel {
            url: self.url@,
            title: crate::providers::opt_view(self.title),
            content: self.content@,
            links: self.links.deep_view(),
        }
    }
}

/// The selector of the page title.
pub const TITLE_SELECTOR: &'static str = "title";

/// The selector of the element that holds the readable text.
pub const ROOT_SELECTOR: &'static str = "main, article, body";

/// The selector of the elements whose text is readable.
pub const CONTENT_SELECTOR: &'static str = "h1, h2, h3, h4, p, li, blockquote, pre, td, th";

/// Refusal of a page without readable text.
pub const NO_TEXT_MESSAGE: &'static str = "The page did not contain readable text.";

/// What `scraper::Selector::parse` reports for `selector`: the error's text,
/// `None` when the selector is valid.
pub uninterp spec fn spec_selector_error(selector: Seq<char>) -> Option<Seq<char>>;

/// The text pieces (`ElementRef::text`) of the first element of the document
/// `html` (`scraper::Html::parse_document`) that `selector` matches; `None`
/// when none does or the selector is invalid.
pub uninterp spec fn spec_html_first_texts(html: Seq<char>, selector: Seq<char>) -> Option<Seq<Seq<char>>>;

/// For the first element of the document `html` that `root` matches, the text
/// pieces of each element inside it that `content` matches, in document
/// order; `None` when no element matches `root` or a selector is invalid.
pub uninterp spec fn spec_html_scoped_texts(html: Seq<char>, root: Seq<char>, content: Seq<char>) -> Option<Seq<Seq<Seq<char>>>>;

/// Checks a selector with `scraper::Selector::parse` and gives the error's
/// text when it is invalid. The contract claims only that the outcome is
/// determined by `selector`.
#[verifier::external_body]
fn selector_error(selector: &str) -> (res: Option<String>)
    ensures
        crate::providers::opt_view(res) == spec_selector_error(selector@),
{
    match scraper::Selector::parse(selector) {
        Ok(_) => None,
        Err(error) => Some(error.to_string()),
    }
}

/// Parses the document with `scraper::Html::parse_document` and gives the
/// text pieces of the first element that `selector` matches. The contract
/// claims only that the outcome is determined by `html` and `selector`.
#[verifier::external_body]
fn html_first_texts(html: &str, selector: &str) -> (res: Option<Vec<String>>)
    ensures
        res.deep_view() == spec_html_first_texts(html@, selector@),
{
    let document = scraper::Html::parse_document(html);
    let selector = scraper::Selector::parse(selector).ok()?;
    let element = document.select(&selector).next()?;
    Some(element.text().map(str::to_string).collect())
}

/// Parses the document with `scraper::Html::parse_document` and, inside the
/// first element that `root` matches, gives the text pieces of each element
/// that `content` matches. The contract claims only that the outcome is
/// determined by `html`, `root` and `content`.
#[verifier::external_body]
fn html_scoped_texts(html: &str, root: &str, content: &str) -> (res: Option<Vec<Vec<String>>>)
    ensures
        res.deep_view() == spec_html_scoped_texts(html@, root@, content@),
{
    let document = scraper::Html::parse_document(html);
    let root_selector = scraper::Selector::parse(root).ok()?;
    let content_selector = scraper::Selector::parse(content).ok()?;
    let root_element = document.select(&root_selector).next()?;
    let mut groups = Vec::new();
    for element in root_element.select(&content_selector) {
        groups.push(element.text().map(str::to_string).collect());
    }
    Some(groups)
}

/// Text pieces joined by spaces, with white space collapsed and trimmed.
pub open spec fn normalized_text_of(parts: Seq<Seq<char>>) -> Seq<char> {
    collapse_white_space(join_with(parts, " "@))
}

/// Text pieces joined by spaces, with runs of white space collapsed to one
/// space and none at either end.
pub fn normalized_text(parts: &Vec<String>) -> (res: String)
    ensures
        res@ == normalized_text_of(parts.deep_view()),
{
    let joined = join_strings(parts, " ");
    normalize_string(joined.as_str())
}

/// `value` cut to `max_characters` characters when it is longer, ending with
/// `TRUNCATION_NOTICE`.
pub fn truncate_characters(value: &str, max_characters: usize) -> (res: String)
    ensures
        res@ == truncated_with(value@, max_characters as nat, TRUNCATION_NOTICE@),
{
    truncate_with(value, max_characters, TRUNCATION_NOTICE)
}

/// The selector of the links of a page.
pub const LINK_SELECTOR: &'static str = "a[href]";

/// Links that a fetched page keeps at most.
pub const MAX_PAGE_LINKS: usize = 25;

/// For the first element of the document `html` that `root` matches, the text
/// pieces and the `href` attribute of each element inside it that `links`
/// matches, in document order; `None` when no element matches `root` or a
/// selector is invalid.
pub uninterp spec fn spec_html_scoped_links(html: Seq<char>, root: Seq<char>, links: Seq<char>) -> Option<Seq<(Seq<Seq<char>>, Option<Seq<char>>)>>;

/// Parses the document with `scraper::Html::parse_document` and, inside the
/// first element that `root` matches, gives the text pieces and the `href`
/// attribute (`Element::attr`) of each element that `links` matches. The
/// contract claims only that the outcome is determined by `html`, `root` and
/// `links`.
#[verifier::external_body]
fn html_scoped_links(html: &str, root: &str, links: &str) -> (res: Option<Vec<(Vec<String>, Option<String>)>>)
    ensures
        res.deep_view() == spec_html_scoped_links(html@, root@, links@),
{
    let document = scraper::Html::parse_document(html);
    let root_selector = scraper::Selector::parse(root).ok()?;
    let link_selector = scraper::Selector::parse(links).ok()?;
    let root_element = document.select(&root_selector).next()?;
    let mut anchors = Vec::new();
    for element in root_element.select(&link_selector) {
        anchors.push((element.text().map(str::to_string).collect(), element.value().attr("href").map(str::to_string)));
    }
    Some(anchors)
}

/// Where a link's `href` leads from the page at `base`: the resolved URL when
/// it is an absolute HTTP or HTTPS URL with a host.
pub open spec fn link_target(base: Seq<char>, href: Seq<char>) -> Option<Seq<char>> {
    match url_join_outcome(base, href) {
        Ok(url) => if is_web_url(url) {
            Some(url.href)
        } else {
            None
        },
        Err(_) => None,
    }
}

/// Whether a link to this URL was already kept.
pub open spec fn has_link_url(links: Seq<LinkModel>, url: Seq<char>) -> bool {
    exists|i: int| 0 <= i < links.len() && #[trigger] links[i].url == url
}

/// The labeled links of the anchors, in order: an anchor counts when its
/// normalized text is not empty, its `href` leads to a web URL, and no
/// earlier link leads to the same URL.
pub open spec fn anchor_links(base: Seq<char>, anchors: Seq<(Seq<Seq<char>>, Option<Seq<char>>)>) -> Seq<LinkModel>
    decreases anchors.len(),
{
    if anchors.len() == 0 {
        Seq::empty()
    } else {
        let before = anchor_links(base, anchors.drop_last());
        let label = normalized_text_of(anchors.last().0);
        match anchors.last().1 {
            None => before,
            Some(href) => match link_target(base, href) {
                None => before,
                Some(url) => if label.len() == 0 || has_link_url(before, url) {
                    before
                } else {
                    before.push(LinkModel { label, url })
                },
            },
        }
    }
}

/// The links a page keeps: the first `MAX_PAGE_LINKS` labeled links of its
/// readable part.
pub open spec fn page_links(base: Seq<char>, anchors: Option<Seq<(Seq<Seq<char>>, Option<Seq<char>>)>>) -> Seq<LinkModel> {
    match anchors {
        None => Seq::empty(),
        Some(a) => if anchor_links(base, a).len() <= MAX_PAGE_LINKS {
            anchor_links(base, a)
        } else {
            anchor_links(base, a).take(MAX_PAGE_LINKS as int)
        },
    }
}

/// The links of a longer run of anchors begin with those of a shorter one.
proof fn lemma_anchor_links_prefix(base: Seq<char>, anchors: Seq<(Seq<Seq<char>>, Option<Seq<char>>)>, i: int)
    requires
        0 <= i <= anchors.len(),
    ensures
        anchor_links(base, anchors.take(i)).len() <= anchor_links(base, anchors).len(),
        anchor_links(base, anchors).take(anchor_links(base, anchors.take(i)).len() as int)
            == anchor_links(base, anchors.take(i)),
    decreases anchors.len() - i,
{
    if i == anchors.len() {
        assert(anchors.take(i) =~= anchors);
    } else {
        lemma_anchor_links_prefix(base, anchors, i + 1);
        let shorter = anchor_links(base, anchors.take(i));
        let longer = anchor_links(base, anchors.take(i + 1));
        assert(anchors.take(i + 1).drop_last() =~= anchors.take(i));
        assert(longer.take(shorter.len() as int) =~= shorter);
        let all = anchor_links(base, anchors);
        assert(all.take(shorter.len() as int) =~= all.take(longer.len() as int).take(shorter.len() as int));
    }
}

/// Whether a link to this URL was already kept.
fn contains_link_url(links: &Vec<PageLink>, url: &str) -> (r: bool)
    ensures
        r == has_link_url(links.deep_view(), url@),
{
    let n = links.len();
    for i in 0..n
        invariant
            n == links@.len(),
            forall|j: int| 0 <= j < i ==> #[trigger] links@[j].url@ != url@,
    {
        if same_text(links[i].url.as_str(), url) {
            assert(links.deep_view()[i as int].url == url@);
            return true;
        }
    }
    assert forall|j: int| 0 <= j < links.deep_view().len() implies #[trigger] links.deep_view()[j].url
        != url@ by {
        assert(links.deep_view()[j] == links@[j].deep_view());
    }
    false
}

/// Keeps the first `MAX_PAGE_LINKS` labeled links of the anchors of a page
/// found at `base`.
pub fn select_page_links(base: &str, anchors: &Option<Vec<(Vec<String>, Option<String>)>>) -> (res: Vec<PageLink>)
    ensures
        res.deep_view() == page_links(base@, anchors.deep_view()),
{
    let anchors = match anchors {
        Some(a) => a,
        None => {
            let none: Vec<PageLink> = Vec::new();
            assert(none.deep_view() =~= Seq::<LinkModel>::empty());
            return none;
        },
    };
    let ghost all = anchors.deep_view();
    let n = anchors.len();
    let mut links: Vec<PageLink> = Vec::new();
    let mut i: usize = 0;
    assert(all.take(0) =~= Seq::<(Seq<Seq<char>>, Option<Seq<char>>)>::empty());
    assert(links.deep_view() =~= Seq::<LinkModel>::empty());
    while i < n && links.len() < MAX_PAGE_LINKS
        invariant
            n == anchors@.len() == all.len(),
            all == anchors.deep_view(),
            i <= n,
            links.deep_view() == anchor_links(base@, all.take(i as int)),
            links@.len() <= MAX_PAGE_LINKS,
        decreases n - i,
    {
        let anchor = &anchors[i];
        proof {
            assert(all.take(i + 1).drop_last() =~= all.take(i as int));
            assert(all.take(i + 1).last() == anchor.deep_view());
        }
        let label = normalized_text(&anchor.0);
        match &anchor.1 {
            None => {},
            Some(href) => {
                match join_url_text(base, href.as_str()) {
                    Ok(url) => {
                        let web = same_text(url.scheme.as_str(), "http") || same_text(
                            url.scheme.as_str(),
                            "https",
                        );
                        if web && url.host_text.is_some() && !label.as_str().is_empty()
                            && !contains_link_url(&links, url.href.as_str()) {
                            let link = PageLink { label, url: url.href };
                            let ghost before = links.deep_view();
                            links.push(link);
                            assert(links.deep_view() =~= before.push(link.deep_view()));
                        }
                    },
                    Err(_) => {},
                }
            },
        }
        i = i + 1;
    }
    proof {
        lemma_anchor_links_prefix(base@, all, i as int);
        if i == n {
            assert(all.take(n as int) =~= all);
        }
    }
    links
}

/// The readable lines of the content elements, in order: the normalized text
/// of each element, empty ones left out.
pub open spec fn readable_lines(groups: Seq<Seq<Seq<char>>>) -> Seq<Seq<char>>
    decreases groups.len(),
{
    if groups.len() == 0 {
        Seq::empty()
    } else {
        let before = readable_lines(groups.drop_last());
        let line = normalized_text_of(groups.last());
        if line.len() == 0 {
            before
        } else {
            before.push(line)
        }
    }
}

/// The title of a page: the normalized text of its title element, unless empty.
pub open spec fn page_title(title_texts: Option<Seq<Seq<char>>>) -> Option<Seq<char>> {
    match title_texts {
        Some(texts) => if normalized_text_of(texts).len() == 0 {
            None
        } else {
            Some(normalized_text_of(texts))
        },
        None => None,
    }
}

/// The readable text of a page: its readable lines, one per line.
pub open spec fn page_text(groups: Option<Seq<Seq<Seq<char>>>>) -> Seq<char> {
    match groups {
        Some(g) => join_with(readable_lines(g), "\n"@),
        None => Seq::empty(),
    }
}

/// The page made of the extracted texts and links, or the message of the
/// refusal when it has no readable text. The text is cut to
/// `MAX_PAGE_CHARACTERS`, the links to `MAX_PAGE_LINKS`.
pub open spec fn page_outcome(
    url: Seq<char>,
    title_texts: Option<Seq<Seq<char>>>,
    groups: Option<Seq<Seq<Seq<char>>>>,
    anchors: Option<Seq<(Seq<Seq<char>>, Option<Seq<char>>)>>,
) -> Result<PageModel, Seq<char>> {
    if page_text(groups).len() == 0 {
        Err(NO_TEXT_MESSAGE@)
    } else {
        Ok(
            PageModel {
                url,
                title: page_title(title_texts),
                content: truncated_with(page_text(groups), MAX_PAGE_CHARACTERS as nat, TRUNCATION_NOTICE@),
                links: page_links(url, anchors),
            },
        )
    }
}

/// The content of a page outcome.
pub open spec fn page_result_model(res: Result<WebPage, AppError>) -> Result<PageModel, ErrorModel> {
    match res {
        Ok(page) => Ok(page.deep_view()),
        Err(e) => Err(e.deep_view()),
    }
}

/// A page outcome as the tool reports it.
pub open spec fn as_tool_outcome(outcome: Result<PageModel, Seq<char>>) -> Result<PageModel, ErrorModel> {
    match outcome {
        Ok(page) => Ok(page),
        Err(m) => Err(ErrorModel::WebTool(m)),
    }
}

/// Builds a page from what was extracted from its document: the title
/// element's text pieces, for each content element its text pieces, and for
/// each link its text pieces and `href`.
pub fn page_from_texts(
    url: &str,
    title_texts: Option<Vec<String>>,
    content_groups: Option<Vec<Vec<String>>>,
    anchors: Option<Vec<(Vec<String>, Option<String>)>>,
) -> (res: Result<WebPage, AppError>)
    ensures
        page_result_model(res) == as_tool_outcome(
            page_outcome(url@, title_texts.deep_view(), content_groups.deep_view(), anchors.deep_view()),
        ),
{
    let title = match &title_texts {
        Some(texts) => {
            let text = normalized_text(texts);
            if text.as_str().is_empty() {
                None
            } else {
                Some(text)
            }
        },
        None => None,
    };
    let content = match &content_groups {
        Some(groups) => readable_text(groups),
        None => String::new(),
    };
    if content.as_str().is_empty() {
        return Err(AppError::WebTool(owned(NO_TEXT_MESSAGE)));
    }
    Ok(
        WebPage {
            url: owned(url),
            title,
            content: truncate_characters(content.as_str(), MAX_PAGE_CHARACTERS),
            links: select_page_links(url, &anchors),
        },
    )
}

/// The readable lines of the content elements, one per line.
fn readable_text(groups: &Vec<Vec<String>>) -> (res: String)
    ensures
        res@ == join_with(readable_lines(groups.deep_view()), "\n"@),
{
    let ghost all = groups.deep_view();
    let n = groups.len();
    let mut out = String::new();
    for i in 0..n
        invariant
            n == groups@.len() == all.len(),
            all == groups.deep_view(),
            out@ == join_with(readable_lines(all.take(i as int)), "\n"@),
    {
        let line = normalized_text(&groups[i]);
        proof {
            assert(all.take(i + 1).drop_last() =~= all.take(i as int));
            assert(all.take(i + 1).last() == all[i as int]);
            assert(groups[i as int].deep_view() == all[i as int]);
        }
        if !line.as_str().is_empty() {
            proof {
                lemma_join_push(readable_lines(all.take(i as int)), line@, "\n"@);
                lemma_readable_lines_empty(all.take(i as int));
            }
            if !out.as_str().is_empty() {
                out.append("\n");
            }
            out.append(line.as_str());
        }
    }
    assert(all.take(n as int) =~= all);
    out
}

/// Readable lines are never empty, so text joined from some is never empty.
proof fn lemma_readable_lines_empty(groups: Seq<Seq<Seq<char>>>)
    ensures
        (join_with(readable_lines(groups), "\n"@).len() == 0) == (readable_lines(groups).len() == 0),
    decreases groups.len(),
{
    if groups.len() > 0 {
        lemma_readable_lines_empty(groups.drop_last());
        let before = readable_lines(groups.drop_last());
        let line = normalized_text_of(groups.last());
        if line.len() > 0 {
            lemma_join_push(before, line, "\n"@);
        }
    }
}

/// What reading a page's document gives: a selector error, or the page made
/// of the extracted texts.
pub open spec fn html_page_outcome(url: Seq<char>, html: Seq<char>) -> Result<PageModel, Seq<char>> {
    if spec_selector_error(TITLE_SELECTOR@) is Some {
        Err("Invalid HTML selector '"@ + TITLE_SELECTOR@ + "': "@ + spec_selector_error(TITLE_SELECTOR@)->0)
    } else if spec_selector_error(ROOT_SELECTOR@) is Some {
        Err("Invalid HTML selector '"@ + ROOT_SELECTOR@ + "': "@ + spec_selector_error(ROOT_SELECTOR@)->0)
    } else if spec_selector_error(CONTENT_SELECTOR@) is Some {
        Err("Invalid HTML selector '"@ + CONTENT_SELECTOR@ + "': "@ + spec_selector_error(CONTENT_SELECTOR@)->0)
    } else if spec_selector_error(LINK_SELECTOR@) is Some {
        Err("Invalid HTML selector '"@ + LINK_SELECTOR@ + "': "@ + spec_selector_error(LINK_SELECTOR@)->0)
    } else {
        page_outcome(
            url,
            spec_html_first_texts(html, TITLE_SELECTOR@),
            spec_html_scoped_texts(html, ROOT_SELECTOR@, CONTENT_SELECTOR@),
            spec_html_scoped_links(html, ROOT_SELECTOR@, LINK_SELECTOR@),
        )
    }
}

/// Refuses an invalid selector.
fn checked_selector(selector: &str) -> (res: Result<(), AppError>)
    ensures
        res is Ok <==> spec_selector_error(selector@) is None,
        res matches Err(e) ==> web_error(
            e,
            "Invalid HTML selector '"@ + selector@ + "': "@ + spec_selector_error(selector@)->0,
        ),
{
    match selector_error(selector) {
        None => Ok(()),
        Some(error) => {
            let mut message = concat("Invalid HTML selector '", selector);
            message.append("': ");
            message.append(error.as_str());
            Err(AppError::WebTool(message))
        },
    }
}

/// Reads a page's document: its title, the readable text of its main content
/// and the labeled links in that content.
pub fn parse_web_page(url: &str, html: &str) -> (res: Result<WebPage, AppError>)
    ensures
        page_result_model(res) == as_tool_outcome(html_page_outcome(url@, html@)),
{
    match checked_selector(TITLE_SELECTOR) {
        Ok(()) => {},
        Err(e) => {
            return Err(e);
        },
    }
    let title_texts = html_first_texts(html, TITLE_SELECTOR);
    match checked_selector(ROOT_SELECTOR) {
        Ok(()) => {},
        Err(e) => {
            return Err(e);
        },
    }
    match checked_selector(CONTENT_SELECTOR) {
        Ok(()) => {},
        Err(e) => {
            return Err(e);
        },
    }
    let groups = html_scoped_texts(html, ROOT_SELECTOR, CONTENT_SELECTOR);
    match checked_selector(LINK_SELECTOR) {
        Ok(()) => {},
        Err(e) => {
            return Err(e);
        },
    }
    let anchors = html_scoped_links(html, ROOT_SELECTOR, LINK_SELECTOR);
    page_from_texts(url, title_texts, groups, anchors)
}

/// How a fetched body is read.
#[derive(Debug, Clone, Copy, PartialEq, Eq, Structural)]
pub enum PageContentType {
    Html,
    PlainText,
}

/// Bytes of a body inspected when its type is not declared.
pub const SNIFF_BYTES: usize = 512;

/// Whether the start of a body looks like HTML.
pub open spec fn looks_like_html(bytes: Seq<u8>) -> bool {
    let end: int = if bytes.len() < SNIFF_BYTES {
        bytes.len() as int
    } else {
        SNIFF_BYTES as int
    };
    let prefix = ascii_lower(spec_utf8_lossy(bytes.subrange(0, end)));
    has_infix(prefix, "<!doctype html"@) || has_infix(prefix, "<html"@)
}

/// Tells HTML from plain text by the first `SNIFF_BYTES` bytes of a body.
pub fn sniff_content_type(bytes: &[u8]) -> (res: PageContentType)
    ensures
        res == (if looks_like_html(bytes@) {
            PageContentType::Html
        } else {
            PageContentType::PlainText
        }),
{
    let end = if bytes.len() < SNIFF_BYTES {
        bytes.len()
    } else {
        SNIFF_BYTES
    };
    let head = slice_head(bytes, end);
    let prefix = ascii_lowercase(utf8_lossy(head).as_str());
    if contains(prefix.as_str(), "<!doctype html") || contains(prefix.as_str(), "<html") {
        PageContentType::Html
    } else {
        PageContentType::PlainText
    }
}

fn slice_head(bytes: &[u8], end: usize) -> (res: &[u8])
    requires
        end <= bytes@.len(),
    ensures
        res@ == bytes@.subrange(0, end as int),
{
    &bytes[0..end]
}

/// What a fetched body gives: HTML (declared, or recognized) is read as a
/// document; anything else is kept as trimmed text, cut to
/// `MAX_PAGE_CHARACTERS`.
pub open spec fn body_outcome(url: Seq<char>, declared_html: bool, bytes: Seq<u8>) -> Result<PageModel, Seq<char>> {
    let body = spec_utf8_lossy(bytes);
    if declared_html || looks_like_html(bytes) {
        html_page_outcome(url, body)
    } else {
        Ok(
            PageModel {
                url,
                title: None,
                content: truncated_with(trimmed(body), MAX_PAGE_CHARACTERS as nat, TRUNCATION_NOTICE@),
                links: Seq::empty(),
            },
        )
    }
}

/// The page in a fetched body, found at `final_url`; `declared_html` tells
/// whether the response declared HTML.
pub fn page_from_body(final_url: &ParsedUrl, declared_html: bool, bytes: &Vec<u8>) -> (res: Result<
    WebPage,
    AppError,
>)
    ensures
        page_result_model(res) == as_tool_outcome(
            body_outcome(final_url.href@, declared_html, bytes@),
        ),
{
    let content_type = if declared_html {
        PageContentType::Html
    } else {
        sniff_content_type(bytes.as_slice())
    };
    let body = utf8_lossy(bytes.as_slice());
    match content_type {
        PageContentType::Html => parse_web_page(final_url.href.as_str(), body.as_str()),
        PageContentType::PlainText => {
            let text = trim(body.as_str());
            Ok(
                WebPage {
                    url: owned(final_url.href.as_str()),
                    title: None,
                    content: truncate_characters(text.as_str(), MAX_PAGE_CHARACTERS),
                    links: no_links(),
                },
            )
        },
    }
}

/// A page without links.
fn no_links() -> (res: Vec<PageLink>)
    ensures
        res.deep_view() == Seq::<LinkModel>::empty(),
{
    let links: Vec<PageLink> = Vec::new();
    assert(links.deep_view() =~= Seq::<LinkModel>::empty());
    links
}

// ---------------------------------------------------------------------------
// Searching
// ---------------------------------------------------------------------------

/// The longest search query, in characters.
pub const MAX_QUERY_CHARACTERS: usize = 500;

/// Refusal of an empty query.
pub const EMPTY_QUERY_MESSAGE: &'static str = "The web search query cannot be empty.";

/// Refusal of a query that is too long.
pub const LONG_QUERY_MESSAGE: &'static str = "The web search query is too long.";

/// What a search query becomes: trimmed, or the message of the refusal.
pub open spec fn query_outcome(query: Seq<char>) -> Result<Seq<char>, Seq<char>> {
    if trimmed(query).len() == 0 {
        Err(EMPTY_QUERY_MESSAGE@)
    } else if trimmed(query).len() > MAX_QUERY_CHARACTERS {
        Err(LONG_QUERY_MESSAGE@)
    } else {
        Ok(trimmed(query))
    }
}

/// The trimmed query, unless it is empty or longer than `MAX_QUERY_CHARACTERS`.
pub fn validate_query(query: &str) -> (res: Result<String, AppError>)
    ensures
        match res {
            Ok(q) => query_outcome(query@) == Ok::<Seq<char>, Seq<char>>(q@),
            Err(e) => query_outcome(query@) matches Err(m) && web_error(e, m),
        },
{
    let trimmed_query = trim(query);
    if trimmed_query.as_str().is_empty() {
        return Err(AppError::WebTool(owned(EMPTY_QUERY_MESSAGE)));
    }
    if trimmed_query.as_str().unicode_len() > MAX_QUERY_CHARACTERS {
        return Err(AppError::WebTool(owned(LONG_QUERY_MESSAGE)));
    }
    Ok(trimmed_query)
}

/// The number of results a search asks for when the model names none.
pub fn default_max_results() -> (res: usize)
    ensures
        res == 5,
{
    5
}

/// The number of results a search keeps: what the model asked for, within `1..=10`.
pub fn search_limit(max_results: usize) -> (res: usize)
    ensures
        res == (if max_results < 1 {
            1
        } else if max_results > 10 {
            10
        } else {
            max_results
        }),
{
    if max_results < 1 {
        1
    } else if max_results > 10 {
        10
    } else {
        max_results
    }
}

/// A search to send: the query and how many results to keep.
#[derive(Debug)]
pub struct SearchRequest {
    pub query: String,
    pub limit: usize,
}

/// The search that the arguments of a search call ask for, when the query is
/// acceptable.
pub fn plan_search(query: &str, max_results: usize) -> (res: Result<SearchRequest, AppError>)
    ensures
        match res {
            Ok(r) => query_outcome(query@) == Ok::<Seq<char>, Seq<char>>(r.query@) && r.limit == (
            if max_results < 1 {
                1
            } else if max_results > 10 {
                10
            } else {
                max_results
            }),
            Err(e) => query_outcome(query@) matches Err(m) && web_error(e, m),
        },
{
    match validate_query(query) {
        Ok(q) => Ok(SearchRequest { query: q, limit: search_limit(max_results) }),
        Err(e) => Err(e),
    }
}

/// One item of the search feed, its fields as the feed gives them (empty when
/// missing).
#[derive(Debug)]
pub struct RssItem {
    pub title: String,
    pub link: String,
    pub description: String,
}

/// The mathematical content of a feed item.
pub struct RssItemModel {
    pub title: Seq<char>,
    pub link: Seq<char>,
    pub description: Seq<char>,
}

impl DeepView for RssItem {
    type V = RssItemModel;

    open spec fn deep_view(&self) -> RssItemModel {
        RssItemModel { title: self.title@, link: self.link@, description: self.description@ }
    }
}

/// Whether a result with this URL was already kept.
pub open spec fn has_url(results: Seq<ResultModel>, url: Seq<char>) -> bool {
    exists|i: int| 0 <= i < results.len() && #[trigger] results[i].url == url
}

/// The results that the feed items give, in order: an item counts when its
/// link is an absolute HTTP or HTTPS URL, its normalized title is not empty,
/// and no earlier result has the same URL.
pub open spec fn feed_results(items: Seq<RssItemModel>) -> Seq<ResultModel>
    decreases items.len(),
{
    if items.len() == 0 {
        Seq::empty()
    } else {
        let before = feed_results(items.drop_last());
        let item = items.last();
        let title = collapse_white_space(item.title);
        match web_url(trimmed(item.link)) {
            None => before,
            Some(url) => if title.len() == 0 || has_url(before, url.href) {
                before
            } else {
                before.push(
                    ResultModel {
                        title,
                        url: url.href,
                        snippet: collapse_white_space(item.description),
                    },
                )
            },
        }
    }
}

/// The results of a search: the first `limit` results of the feed.
pub open spec fn search_results(items: Seq<RssItemModel>, limit: nat) -> Seq<ResultModel> {
    if feed_results(items).len() <= limit {
        feed_results(items)
    } else {
        feed_results(items).take(limit as int)
    }
}

/// The results of a longer feed begin with those of a shorter one.
proof fn lemma_feed_results_prefix(items: Seq<RssItemModel>, i: int)
    requires
        0 <= i <= items.len(),
    ensures
        feed_results(items.take(i)).len() <= feed_results(items).len(),
        feed_results(items).take(feed_results(items.take(i)).len() as int) == feed_results(items.take(i)),
    decreases items.len() - i,
{
    if i == items.len() {
        assert(items.take(i) =~= items);
    } else {
        lemma_feed_results_prefix(items, i + 1);
        let shorter = feed_results(items.take(i));
        let longer = feed_results(items.take(i + 1));
        assert(items.take(i + 1).drop_last() =~= items.take(i));
        assert(longer.take(shorter.len() as int) =~= shorter);
        let all = feed_results(items);
        assert(all.take(shorter.len() as int) =~= all.take(longer.len() as int).take(shorter.len() as int));
    }
}

/// Whether a result with this URL was already kept.
fn contains_url(results: &Vec<WebSearchResult>, url: &str) -> (r: bool)
    ensures
        r == has_url(results.deep_view(), url@),
{
    let n = results.len();
    for i in 0..n
        invariant
            n == results@.len(),
            forall|j: int| 0 <= j < i ==> #[trigger] results@[j].url@ != url@,
    {
        if same_text(results[i].url.as_str(), url) {
            assert(results.deep_view()[i as int].url == url@);
            return true;
        }
    }
    assert forall|j: int| 0 <= j < results.deep_view().len() implies #[trigger] results.deep_view()[j].url
        != url@ by {
        assert(results.deep_view()[j] == results@[j].deep_view());
    }
    false
}

/// Keeps the first `limit` acceptable results of the feed items.
pub fn select_search_results(items: &Vec<RssItem>, limit: usize) -> (res: Vec<WebSearchResult>)
    ensures
        res.deep_view() == search_results(items.deep_view(), limit as nat),
{
    let ghost all = items.deep_view();
    let n = items.len();
    let mut results: Vec<WebSearchResult> = Vec::new();
    let mut i: usize = 0;
    while i < n && results.len() < limit
        invariant
            n == items@.len() == all.len(),
            all == items.deep_view(),
            i <= n,
            results.deep_view() == feed_results(all.take(i as int)),
            results@.len() <= limit,
        decreases n - i,
    {
        let item = &items[i];
        proof {
            assert(all.take(i + 1).drop_last() =~= all.take(i as int));
            assert(all.take(i + 1).last() == item.deep_view());
        }
        let title = normalize_string(item.title.as_str());
        let link = trim(item.link.as_str());
        match public_http_url(link.as_str()) {
            None => {},
            Some(url) => {
                if !title.as_str().is_empty() && !contains_url(&results, url.href.as_str()) {
                    let snippet = normalize_string(item.description.as_str());
                    let result = WebSearchResult { title, url: url.href, snippet };
                    let ghost before = results.deep_view();
                    results.push(result);
                    assert(results.deep_view() =~= before.push(result.deep_view()));
                }
            },
        }
        i = i + 1;
    }
    proof {
        lemma_feed_results_prefix(all, i as int);
        if i == n {
            assert(all.take(n as int) =~= all);
        }
    }
    results
}

/// What a search gives: the results, or the message of the refusal when the
/// feed could not be read (`feed` holds the items, or the reader's error).
pub fn parse_search_results(feed: Result<Vec<RssItem>, String>, limit: usize) -> (res: Result<
    Vec<WebSearchResult>,
    AppError,
>)
    ensures
        match (feed, res) {
            (Ok(items), Ok(results)) => results.deep_view() == search_results(items.deep_view(), limit as nat),
            (Err(detail), Err(e)) => web_error(
                e,
                "The web search service returned an invalid results feed: "@ + detail@,
            ),
            _ => false,
        },
{
    match feed {
        Ok(items) => Ok(select_search_results(&items, limit)),
        Err(detail) => Err(
            AppError::WebTool(
                concat("The web search service returned an invalid results feed: ", detail.as_str()),
            ),
        ),
    }
}

// ---------------------------------------------------------------------------
// What the activity panel and the model receive
// ---------------------------------------------------------------------------

/// The line that says which result pages come next.
pub open spec fn next_action_line(pages_to_fetch: nat) -> Seq<char> {
    if pages_to_fetch == 0 {
        "No result pages are available to fetch."@
    } else {
        "Next: Taurus will fetch the "@ + decimal(pages_to_fetch) + " highest-ranked result page(s)."@
    }
}

/// One numbered result: its title, URL and snippet on their own lines.
pub open spec fn result_entry(position: nat, result: ResultModel) -> Seq<char> {
    decimal(position) + ". "@ + result.title + "\n"@ + result.url + "\n"@ + result.snippet
}

/// The numbered results.
pub open spec fn result_entries(results: Seq<ResultModel>) -> Seq<Seq<char>> {
    Seq::new(results.len(), |i: int| result_entry((i + 1) as nat, results[i]))
}

/// The activity-panel detail of a search: the query, the number of results,
/// what comes next, and each result, separated by blank lines.
pub open spec fn search_detail(query: Seq<char>, results: Seq<ResultModel>, pages_to_fetch: nat) -> Seq<char> {
    join_with(
        seq![
            "Query: "@ + trimmed(query),
            "Found "@ + decimal(results.len()) + " web search result(s):"@,
            next_action_line(pages_to_fetch),
        ] + result_entries(results),
        "\n\n"@,
    )
}

/// The activity-panel detail of a search.
pub fn format_search_detail(query: &str, results: &Vec<WebSearchResult>, pages_to_fetch: usize) -> (res: String)
    ensures
        res@ == search_detail(query@, results.deep_view(), pages_to_fetch as nat),
{
    let next_action = if pages_to_fetch == 0 {
        owned("No result pages are available to fetch.")
    } else {
        let mut line = concat("Next: Taurus will fetch the ", decimal_usize(pages_to_fetch).as_str());
        line.append(" highest-ranked result page(s).");
        line
    };
    let mut found = concat("Found ", decimal_usize(results.len()).as_str());
    found.append(" web search result(s):");
    let mut lines: Vec<String> = Vec::new();
    lines.push(concat("Query: ", trim(query).as_str()));
    lines.push(found);
    lines.push(next_action);
    let ghost all = results.deep_view();
    let ghost head = lines.deep_view();
    assert(head =~= seq![
        "Query: "@ + trimmed(query@),
        "Found "@ + decimal(all.len()) + " web search result(s):"@,
        next_action_line(pages_to_fetch as nat),
    ]);
    assert(head + result_entries(all).take(0) =~= head);
    let n = results.len();
    for i in 0..n
        invariant
            n == results@.len() == all.len(),
            all == results.deep_view(),
            head.len() == 3,
            lines.deep_view() == head + result_entries(all).take(i as int),
    {
        let mut entry = decimal_usize(i + 1);
        entry.append(". ");
        entry.append(results[i].title.as_str());
        entry.append("\n");
        entry.append(results[i].url.as_str());
        entry.append("\n");
        entry.append(results[i].snippet.as_str());
        proof {
            assert(all[i as int] == results@[i as int].deep_view());
        }
        let ghost before = lines.deep_view();
        lines.push(entry);
        assert(lines.deep_view() =~= before.push(entry@));
        assert(result_entries(all).take(i + 1) =~= result_entries(all).take(i as int).push(entry@));
    }
    assert(result_entries(all).take(n as int) =~= result_entries(all));
    assert(lines.deep_view() =~= head + result_entries(all));
    join_strings(&lines, "\n\n")
}

/// The activity-panel detail of a fetched page: where it was found, its title,
/// how long its text is, and the whole text.
pub open spec fn page_detail(page: PageModel) -> Seq<char> {
    let title = match page.title {
        Some(t) => t,
        None => "Untitled page"@,
    };
    "URL: "@ + page.url + "\nTitle: "@ + title + "\nFetched content ("@ + decimal(page.content.len())
        + " characters):\n\n"@ + page.content + link_section(page.links)
}

/// One discovered link as the activity panel lists it.
pub open spec fn link_entry(link: LinkModel) -> Seq<char> {
    "- "@ + link.label + ": "@ + link.url
}

/// The listed links.
pub open spec fn link_entries(links: Seq<LinkModel>) -> Seq<Seq<char>> {
    Seq::new(links.len(), |i: int| link_entry(links[i]))
}

/// The bounded list of a page's discovered links that ends its detail; nothing
/// when it has none.
pub open spec fn link_section(links: Seq<LinkModel>) -> Seq<char> {
    if links.len() == 0 {
        Seq::empty()
    } else {
        "\n\nLinks found on the page ("@ + decimal(links.len()) + "):\n"@ + join_with(
            link_entries(links),
            "\n"@,
        )
    }
}

/// The list of discovered links that ends a page's detail.
fn format_link_section(links: &Vec<PageLink>) -> (res: String)
    ensures
        res@ == link_section(links.deep_view()),
{
    if links.len() == 0 {
        return String::new();
    }
    let ghost all = links.deep_view();
    let n = links.len();
    let mut entries: Vec<String> = Vec::new();
    assert(entries.deep_view() =~= link_entries(all).take(0));
    for i in 0..n
        invariant
            n == links@.len() == all.len(),
            all == links.deep_view(),
            entries.deep_view() == link_entries(all).take(i as int),
    {
        let mut entry = concat("- ", links[i].label.as_str());
        entry.append(": ");
        entry.append(links[i].url.as_str());
        proof {
            assert(all[i as int] == links@[i as int].deep_view());
        }
        let ghost before = entries.deep_view();
        entries.push(entry);
        assert(entries.deep_view() =~= before.push(entry@));
        assert(link_entries(all).take(i + 1) =~= link_entries(all).take(i as int).push(entry@));
    }
    assert(link_entries(all).take(n as int) =~= link_entries(all));
    let mut out = concat("\n\nLinks found on the page (", decimal_usize(n).as_str());
    out.append("):\n");
    out.append(join_strings(&entries, "\n").as_str());
    out
}

/// The activity-panel detail of a fetched page.
pub fn format_page_detail(page: &WebPage) -> (res: String)
    ensures
        res@ == page_detail(page.deep_view()),
{
    let mut out = concat("URL: ", page.url.as_str());
    out.append("\nTitle: ");
    match &page.title {
        Some(t) => out.append(t.as_str()),
        None => out.append("Untitled page"),
    }
    out.append("\nFetched content (");
    out.append(decimal_usize(page.content.as_str().unicode_len()).as_str());
    out.append(" characters):\n\n");
    out.append(page.content.as_str());
    out.append(format_link_section(&page.links).as_str());
    out
}

/// The JSON object of one search result.
pub open spec fn result_json(result: ResultModel) -> Seq<char> {
    "{\"title\":"@ + json_string_literal(result.title) + ",\"url\":"@ + json_string_literal(result.url)
        + ",\"snippet\":"@ + json_string_literal(result.snippet) + "}"@
}

/// The JSON array of the results that the model receives.
pub open spec fn results_json(results: Seq<ResultModel>) -> Seq<char> {
    "["@ + join_with(results.map_values(|r: ResultModel| result_json(r)), ","@) + "]"@
}

/// Quotes a text for JSON; a failure of the encoder would be reported with
/// `failure` before its message, but encoding a string does not fail.
fn quoted(text: &str, failure: &str) -> (res: Result<String, AppError>)
    ensures
        res matches Ok(q) && q@ == json_string_literal(text@),
{
    match json_quote(text) {
        Ok(q) => Ok(q),
        Err(error) => Err(AppError::WebTool(concat(failure, error.as_str()))),
    }
}

/// The JSON array of the results that the model receives.
pub fn search_results_json(results: &Vec<WebSearchResult>) -> (res: Result<String, AppError>)
    ensures
        res matches Ok(text) && text@ == results_json(results.deep_view()),
{
    let ghost all = results.deep_view();
    let ghost encode = |r: ResultModel| result_json(r);
    let failure = "Could not encode search results: ";
    let n = results.len();
    let mut items: Vec<String> = Vec::new();
    assert(all.take(0).map_values(encode) =~= Seq::<Seq<char>>::empty());
    assert(items.deep_view() =~= Seq::<Seq<char>>::empty());
    for i in 0..n
        invariant
            n == results@.len() == all.len(),
            all == results.deep_view(),
            encode == (|r: ResultModel| result_json(r)),
            all.take(i as int).map_values(encode) == items.deep_view(),
    {
        assert(all[i as int] == results@[i as int].deep_view());
        let title = match quoted(results[i].title.as_str(), failure) {
            Ok(q) => q,
            Err(e) => {
                return Err(e);
            },
        };
        let url = match quoted(results[i].url.as_str(), failure) {
            Ok(q) => q,
            Err(e) => {
                return Err(e);
            },
        };
        let snippet = match quoted(results[i].snippet.as_str(), failure) {
            Ok(q) => q,
            Err(e) => {
                return Err(e);
            },
        };
        let mut item = concat("{\"title\":", title.as_str());
        item.append(",\"url\":");
        item.append(url.as_str());
        item.append(",\"snippet\":");
        item.append(snippet.as_str());
        item.append("}");
        let ghost before = items.deep_view();
        items.push(item);
        assert(items.deep_view() =~= before.push(item@));
        assert(all.take(i + 1).map_values(encode) =~= all.take(i as int).map_values(encode).push(
            encode(all[i as int]),
        ));
    }
    assert(all.take(n as int) =~= all);
    let mut out = owned("[");
    out.append(join_strings(&items, ",").as_str());
    out.append("]");
    Ok(out)
}

/// The JSON object of a fetched page that the model receives: its URL, title,
/// the first `MAX_AGENT_PAGE_CHARACTERS` characters of its text, whether the
/// text was cut, and its links.
pub open spec fn page_evidence_json(page: PageModel) -> Seq<char> {
    let excerpt = truncated_with(page.content, MAX_AGENT_PAGE_CHARACTERS as nat, TRUNCATION_NOTICE@);
    let truncated: Seq<char> = if page.content.len() > MAX_AGENT_PAGE_CHARACTERS {
        "true"@
    } else {
        "false"@
    };
    let title: Seq<char> = match page.title {
        Some(t) => json_string_literal(t),
        None => "null"@,
    };
    "{\"url\":"@ + json_string_literal(page.url) + ",\"title\":"@ + title + ",\"content_excerpt\":"@
        + json_string_literal(excerpt) + ",\"content_truncated\":"@ + truncated + ",\"links\":["@
        + links_json_text(page.links) + "]}"@
}

/// The JSON object of a fetched page that the model receives.
pub fn serialize_page_evidence(page: &WebPage) -> (res: Result<String, AppError>)
    ensures
        res matches Ok(text) && text@ == page_evidence_json(page.deep_view()),
{
    let failure = "Could not encode fetched page: ";
    let character_count = page.content.as_str().unicode_len();
    let excerpt = truncate_characters(page.content.as_str(), MAX_AGENT_PAGE_CHARACTERS);
    let url = match quoted(page.url.as_str(), failure) {
        Ok(q) => q,
        Err(e) => {
            return Err(e);
        },
    };
    let title = match &page.title {
        Some(t) => match quoted(t.as_str(), failure) {
            Ok(q) => q,
            Err(e) => {
                return Err(e);
            },
        },
        None => owned("null"),
    };
    let excerpt_json = match quoted(excerpt.as_str(), failure) {
        Ok(q) => q,
        Err(e) => {
            return Err(e);
        },
    };
    let mut out = concat("{\"url\":", url.as_str());
    out.append(",\"title\":");
    out.append(title.as_str());
    out.append(",\"content_excerpt\":");
    out.append(excerpt_json.as_str());
    let links = match links_json(&page.links, failure) {
        Ok(text) => text,
        Err(e) => {
            return Err(e);
        },
    };
    out.append(",\"content_truncated\":");
    if character_count > MAX_AGENT_PAGE_CHARACTERS {
        out.append("true");
    } else {
        out.append("false");
    }
    out.append(",\"links\":[");
    out.append(links.as_str());
    out.append("]}");
    Ok(out)
}

/// The JSON object of one link.
pub open spec fn link_json(link: LinkModel) -> Seq<char> {
    "{\"label\":"@ + json_string_literal(link.label) + ",\"url\":"@ + json_string_literal(link.url) + "}"@
}

/// The JSON objects of the links, separated by commas.
pub open spec fn links_json_text(links: Seq<LinkModel>) -> Seq<char> {
    join_with(links.map_values(|l: LinkModel| link_json(l)), ","@)
}

/// The JSON objects of the links, separated by commas.
fn links_json(links: &Vec<PageLink>, failure: &str) -> (res: Result<String, AppError>)
    ensures
        res matches Ok(text) && text@ == links_json_text(links.deep_view()),
{
    let ghost all = links.deep_view();
    let ghost encode = |l: LinkModel| link_json(l);
    let n = links.len();
    let mut items: Vec<String> = Vec::new();
    assert(all.take(0).map_values(encode) =~= Seq::<Seq<char>>::empty());
    assert(items.deep_view() =~= Seq::<Seq<char>>::empty());
    for i in 0..n
        invariant
            n == links@.len() == all.len(),
            all == links.deep_view(),
            encode == (|l: LinkModel| link_json(l)),
            all.take(i as int).map_values(encode) == items.deep_view(),
    {
        assert(all[i as int] == links@[i as int].deep_view());
        let label = match quoted(links[i].label.as_str(), failure) {
            Ok(q) => q,
            Err(e) => {
                return Err(e);
            },
        };
        let url = match quoted(links[i].url.as_str(), failure) {
            Ok(q) => q,
            Err(e) => {
                return Err(e);
            },
        };
        let mut item = concat("{\"label\":", label.as_str());
        item.append(",\"url\":");
        item.append(url.as_str());
        item.append("}");
        let ghost before = items.deep_view();
        items.push(item);
        assert(items.deep_view() =~= before.push(item@));
        assert(all.take(i + 1).map_values(encode) =~= all.take(i as int).map_values(encode).push(
            encode(all[i as int]),
        ));
    }
    assert(all.take(n as int) =~= all);
    Ok(join_strings(&items, ","))
}

// ---------------------------------------------------------------------------
// The tools as the model sees them
// ---------------------------------------------------------------------------

/// What the model reads of the search tool.
pub const SEARCH_TOOL_DESCRIPTION: &'static str = "Search the public web for current or external information. Returns titles, URLs, and snippets.";

/// The JSON schema of the search tool's arguments.
pub const SEARCH_TOOL_PARAMETERS: &'static str = "{\"properties\":{\"max_results\":{\"default\":5,\"maximum\":10,\"minimum\":1,\"type\":\"integer\"},\"query\":{\"description\":\"A focused web search query.\",\"type\":\"string\"}},\"required\":[\"query\"],\"type\":\"object\"}";

/// What the model reads of the page fetch tool.
pub const FETCH_TOOL_DESCRIPTION: &'static str = "Fetch a public HTTP or HTTPS web page and return its readable text. Use it to inspect promising search results.";

/// The JSON schema of the page fetch tool's arguments.
pub const FETCH_TOOL_PARAMETERS: &'static str = "{\"properties\":{\"url\":{\"description\":\"The absolute public HTTP or HTTPS URL to fetch.\",\"type\":\"string\"}},\"required\":[\"url\"],\"type\":\"object\"}";

/// A function tool with the given name, description and parameter schema.
pub open spec fn is_function_tool(
    definition: ToolDefinition,
    name: Seq<char>,
    description: Seq<char>,
    parameters: Seq<char>,
) -> bool {
    &&& definition.tool_type@ == "function"@
    &&& definition.function.name@ == name
    &&& definition.function.description@ == description
    &&& definition.function.parameters@ == parameters
}

fn tool_definition(name: &str, description: &str, parameters: &str) -> (res: ToolDefinition)
    ensures
        is_function_tool(res, name@, description@, parameters@),
{
    ToolDefinition {
        tool_type: function_tool_type(),
        function: ToolFunctionDefinition {
            name: owned(name),
            description: owned(description),
            parameters: owned(parameters),
        },
    }
}

impl WebTools {
    /// The two web tools: web search, then page fetch.
    pub fn definitions() -> (res: Vec<ToolDefinition>)
        ensures
            res@.len() == 2,
            is_function_tool(
                res@[0],
                SEARCH_WEB_TOOL_NAME@,
                SEARCH_TOOL_DESCRIPTION@,
                SEARCH_TOOL_PARAMETERS@,
            ),
            is_function_tool(
                res@[1],
                FETCH_WEB_PAGE_TOOL_NAME@,
                FETCH_TOOL_DESCRIPTION@,
                FETCH_TOOL_PARAMETERS@,
            ),
    {
        let mut definitions: Vec<ToolDefinition> = Vec::new();
        definitions.push(tool_definition(SEARCH_WEB_TOOL_NAME, SEARCH_TOOL_DESCRIPTION, SEARCH_TOOL_PARAMETERS));
        definitions.push(tool_definition(FETCH_WEB_PAGE_TOOL_NAME, FETCH_TOOL_DESCRIPTION, FETCH_TOOL_PARAMETERS));
        definitions
    }
}

/// The call that fetches the page at `url`.
pub open spec fn fetch_call(url: Seq<char>) -> ToolCallModel {
    ToolCallModel {
        tool_type: "function"@,
        index: None,
        name: FETCH_WEB_PAGE_TOOL_NAME@,
        arguments: spec_json_object_text("url"@, url),
    }
}

/// The calls that fetch the pages of the first `AUTO_FETCH_RESULT_LIMIT` results.
pub open spec fn fetch_calls(results: Seq<ResultModel>) -> Seq<ToolCallModel> {
    let count: int = if results.len() < AUTO_FETCH_RESULT_LIMIT {
        results.len() as int
    } else {
        AUTO_FETCH_RESULT_LIMIT as int
    };
    Seq::new(count as nat, |i: int| fetch_call(results[i].url))
}

/// The calls that fetch the pages of the highest-ranked results.
pub fn page_fetch_calls(results: &Vec<WebSearchResult>) -> (res: Vec<ToolCall>)
    ensures
        res.deep_view() == fetch_calls(results.deep_view()),
        res@.len() <= AUTO_FETCH_RESULT_LIMIT,
        forall|i: int|
            0 <= i < res@.len() ==> spec_json_string_field(#[trigger] res@[i].function.arguments@, "url"@)
                == Some(results@[i].url@),
        forall|i: int|
            0 <= i < res@.len() ==> (#[trigger] call_description(
                res@[i].function.name@,
                res@[i].function.arguments@,
            )).1 == "URL: "@ + results@[i].url@,
{
    let count = if results.len() < AUTO_FETCH_RESULT_LIMIT {
        results.len()
    } else {
        AUTO_FETCH_RESULT_LIMIT
    };
    let mut calls: Vec<ToolCall> = Vec::new();
    for i in 0..count
        invariant
            count <= results@.len(),
            count == fetch_calls(results.deep_view()).len(),
            calls@.len() == i,
            forall|j: int| 0 <= j < i ==> #[trigger] calls@[j].deep_view() == fetch_calls(results.deep_view())[j],
            forall|j: int|
                0 <= j < i ==> spec_json_string_field(#[trigger] calls@[j].function.arguments@, "url"@)
                    == Some(results@[j].url@),
            forall|j: int|
                0 <= j < i ==> spec_json_string_value(#[trigger] calls@[j].function.arguments@) is None,
            forall|j: int| 0 <= j < i ==> (#[trigger] calls@[j]).function.name@ == FETCH_WEB_PAGE_TOOL_NAME@,
    {
        let call = ToolCall {
            tool_type: function_tool_type(),
            function: ToolFunctionCall {
                index: None,
                name: owned(FETCH_WEB_PAGE_TOOL_NAME),
                arguments: json_object_text("url", results[i].url.as_str()),
            },
        };
        assert(results.deep_view()[i as int] == results@[i as int].deep_view());
        calls.push(call);
    }
    assert(calls.deep_view() =~= fetch_calls(results.deep_view()));
    proof {
        reveal_strlit("search_web");
        reveal_strlit("fetch_web_page");
        assert(SEARCH_WEB_TOOL_NAME@.len() != FETCH_WEB_PAGE_TOOL_NAME@.len());
        assert forall|i: int| 0 <= i < calls@.len() implies (#[trigger] call_description(
            calls@[i].function.name@,
            calls@[i].function.arguments@,
        )).1 == "URL: "@ + results@[i].url@ by {
            assert(calls@[i].function.name@ == FETCH_WEB_PAGE_TOOL_NAME@);
        }
    }
    calls
}

/// The text of the argument `key` of a tool call: the string at that key of
/// the arguments (of the JSON document a JSON string holds, when the arguments
/// are one), or "Unavailable".
pub open spec fn argument_text(arguments: Seq<char>, key: Seq<char>) -> Seq<char> {
    let field = match spec_json_string_value(arguments) {
        Some(inner) => spec_json_string_field(inner, key),
        None => spec_json_string_field(arguments, key),
    };
    match field {
        Some(value) => value,
        None => "Unavailable"@,
    }
}

/// The text of the argument `key` of a tool call, or "Unavailable".
pub fn argument_string(arguments: &str, key: &str) -> (res: String)
    ensures
        res@ == argument_text(arguments@, key@),
{
    let field = match json_string_value(arguments) {
        Some(inner) => json_string_field(inner.as_str(), key),
        None => json_string_field(arguments, key),
    };
    match field {
        Some(value) => value,
        None => owned("Unavailable"),
    }
}

/// The label and detail with which the activity panel announces a tool call.
pub open spec fn call_description(name: Seq<char>, arguments: Seq<char>) -> (Seq<char>, Seq<char>) {
    if name == SEARCH_WEB_TOOL_NAME@ {
        ("Searching the web"@, "Query: "@ + argument_text(arguments, "query"@))
    } else if name == FETCH_WEB_PAGE_TOOL_NAME@ {
        let url = argument_text(arguments, "url"@);
        let label = match url_parse_outcome(url) {
            Ok(parsed) => match parsed.host_text {
                Some(host) => "Reading "@ + host,
                None => "Reading a web page"@,
            },
            Err(_) => "Reading a web page"@,
        };
        (label, "URL: "@ + url)
    } else {
        ("Running "@ + name, "The model requested a tool."@)
    }
}

/// The label and detail with which the activity panel announces a tool call.
pub fn describe_tool_call(call: &ToolCall) -> (res: (String, String))
    ensures
        (res.0@, res.1@) == call_description(call.function.name@, call.function.arguments@),
{
    let name = call.function.name.as_str();
    if same_text(name, SEARCH_WEB_TOOL_NAME) {
        let query = argument_string(call.function.arguments.as_str(), "query");
        (owned("Searching the web"), concat("Query: ", query.as_str()))
    } else if same_text(name, FETCH_WEB_PAGE_TOOL_NAME) {
        let url = argument_string(call.function.arguments.as_str(), "url");
        let label = match parse_url(url.as_str()) {
            Ok(parsed) => match &parsed.host_text {
                Some(host) => concat("Reading ", host.as_str()),
                None => owned("Reading a web page"),
            },
            Err(_) => owned("Reading a web page"),
        };
        (label, concat("URL: ", url.as_str()))
    } else {
        (concat("Running ", name), owned("The model requested a tool."))
    }
}

/// The web tool that a call names.
#[derive(Debug, Clone, Copy, PartialEq, Eq, Structural)]
pub enum WebToolKind {
    Search,
    Fetch,
}

/// The web tool that a call names, or the refusal of an unknown one.
pub fn web_tool_kind(name: &str) -> (res: Result<WebToolKind, AppError>)
    ensures
        name@ == SEARCH_WEB_TOOL_NAME@ ==> res == Ok::<WebToolKind, AppError>(WebToolKind::Search),
        name@ == FETCH_WEB_PAGE_TOOL_NAME@ ==> res == Ok::<WebToolKind, AppError>(WebToolKind::Fetch),
        name@ != SEARCH_WEB_TOOL_NAME@ && name@ != FETCH_WEB_PAGE_TOOL_NAME@ ==> (res matches Err(e)
            && web_error(e, "Unknown web tool '"@ + name@ + "'."@)),
{
    proof {
        reveal_strlit("search_web");
        reveal_strlit("fetch_web_page");
        assert(SEARCH_WEB_TOOL_NAME@.len() != FETCH_WEB_PAGE_TOOL_NAME@.len());
    }
    if same_text(name, SEARCH_WEB_TOOL_NAME) {
        Ok(WebToolKind::Search)
    } else if same_text(name, FETCH_WEB_PAGE_TOOL_NAME) {
        Ok(WebToolKind::Fetch)
    } else {
        let mut message = concat("Unknown web tool '", name);
        message.append("'.");
        Err(AppError::WebTool(message))
    }
}

/// Why the arguments of a tool call could not be read.
#[derive(Debug, Clone, Copy, PartialEq, Eq, Structural)]
pub enum ArgumentsProblem {
    /// The arguments were a JSON string that does not hold JSON.
    NotJson,
    /// The arguments do not fit the tool.
    Invalid,
}

/// The refusal of arguments that could not be read, with the reader's error.
pub fn tool_arguments_error(problem: ArgumentsProblem, detail: &str) -> (res: AppError)
    ensures
        problem == ArgumentsProblem::NotJson ==> web_error(res, "Tool arguments were not valid JSON: "@ + detail@),
        problem == ArgumentsProblem::Invalid ==> web_error(res, "Tool arguments were invalid: "@ + detail@),
{
    match problem {
        ArgumentsProblem::NotJson => AppError::WebTool(concat("Tool arguments were not valid JSON: ", detail)),
        ArgumentsProblem::Invalid => AppError::WebTool(concat("Tool arguments were invalid: ", detail)),
    }
}

/// The JSON document that holds the arguments of a tool call: the arguments
/// themselves, or, when they are a JSON string, the document that string
/// holds; or the refusal of arguments that are not JSON, or of a string that
/// does not hold JSON.
pub open spec fn arguments_document(arguments: Seq<char>) -> Result<Seq<char>, Seq<char>> {
    match spec_json_syntax_error(arguments) {
        Some(detail) => Err("Tool arguments were invalid: "@ + detail),
        None => match spec_json_string_value(arguments) {
            Some(inner) => match spec_json_syntax_error(inner) {
                Some(detail) => Err("Tool arguments were not valid JSON: "@ + detail),
                None => Ok(inner),
            },
            None => Ok(arguments),
        },
    }
}

/// The JSON document that holds the arguments of a tool call, for the tool to
/// read its typed arguments from.
pub fn tool_arguments_document(arguments: &str) -> (res: Result<String, AppError>)
    ensures
        match arguments_document(arguments@) {
            Ok(document) => res matches Ok(text) && text@ == document,
            Err(message) => res matches Err(e) && web_error(e, message),
        },
{
    if let Some(detail) = json_syntax_error(arguments) {
        return Err(tool_arguments_error(ArgumentsProblem::Invalid, detail.as_str()));
    }
    match json_string_value(arguments) {
        Some(inner) => match json_syntax_error(inner.as_str()) {
            Some(detail) => Err(tool_arguments_error(ArgumentsProblem::NotJson, detail.as_str())),
            None => Ok(inner),
        },
        None => Ok(owned(arguments)),
    }
}

/// What a search call hands back: the results as JSON for the model, the
/// detail for the activity panel, and the calls that fetch the
/// highest-ranked pages.
pub fn search_execution(query: &str, results: Vec<WebSearchResult>) -> (res: Result<ToolExecution, AppError>)
    ensures
        res matches Ok(x) && x.content@ == results_json(results.deep_view()) && x.detail@ == search_detail(
            query@,
            results.deep_view(),
            fetch_calls(results.deep_view()).len(),
        ) && x.follow_up_calls.deep_view() == fetch_calls(results.deep_view()),
{
    let follow_up_calls = page_fetch_calls(&results);
    let detail = format_search_detail(query, &results, follow_up_calls.len());
    match search_results_json(&results) {
        Ok(content) => Ok(ToolExecution { content, detail, follow_up_calls }),
        Err(e) => Err(e),
    }
}

/// What a page fetch call hands back: the compact page evidence for the
/// model, the whole page for the activity panel, and no further calls.
pub fn fetch_execution(page: &WebPage) -> (res: Result<ToolExecution, AppError>)
    ensures
        res matches Ok(x) && x.content@ == page_evidence_json(page.deep_view()) && x.detail@ == page_detail(
            page.deep_view(),
        ) && x.follow_up_calls@.len() == 0,
{
    let detail = format_page_detail(page);
    match serialize_page_evidence(page) {
        Ok(content) => Ok(ToolExecution { content, detail, follow_up_calls: Vec::new() }),
        Err(e) => Err(e),
    }
}

/// Which web transfer failed.
#[derive(Debug, Clone, Copy, PartialEq, Eq, Structural)]
pub enum WebTransfer {
    /// Sending the search request.
    Search,
    /// Sending a page request.
    PageRequest,
    /// Resolving a page's host.
    Resolve,
    /// Reading a response body.
    ReadBody,
}

/// The message that opens the report of a failed transfer.
pub open spec fn transfer_prefix(transfer: WebTransfer) -> Seq<char> {
    match transfer {
        WebTransfer::Search => "Web search request failed: "@,
        WebTransfer::PageRequest => "Page fetch request failed: "@,
        WebTransfer::Resolve => "Could not resolve page host: "@,
        WebTransfer::ReadBody => "Could not read web response: "@,
    }
}

/// The failure of a web transfer, with the transport's error.
pub fn transfer_failure(transfer: WebTransfer, detail: &str) -> (res: AppError)
    ensures
        web_error(res, transfer_prefix(transfer) + detail@),
{
    let prefix = match transfer {
        WebTransfer::Search => "Web search request failed: ",
        WebTransfer::PageRequest => "Page fetch request failed: ",
        WebTransfer::Resolve => "Could not resolve page host: ",
        WebTransfer::ReadBody => "Could not read web response: ",
    };
    AppError::WebTool(concat(prefix, detail))
}

// ---------------------------------------------------------------------------
// Laws
// ---------------------------------------------------------------------------

/// Every URL the fetcher accepts, given as text or reached by a redirect, is
/// an absolute HTTP or HTTPS URL with an allowed host and no credentials.
pub proof fn law_accepted_urls_are_fetchable(raw: Seq<char>, current: UrlModel, location: Option<Seq<char>>)
    ensures
        public_url_outcome(raw) matches Ok(url) ==> fetchable(url),
        redirect_outcome(current, location) matches Ok(url) ==> fetchable(url),
{
}

/// No host that names the local machine or network, and no IPv4 host outside
/// the public ranges, is ever accepted.
pub proof fn law_local_hosts_are_refused(raw: Seq<char>)
    ensures
        public_url_outcome(raw) matches Ok(url) ==> match url.host {
            Some(HostModel::Domain(name)) => !local_host_name(normalized_host_name(name)) && (ipv4_literal(
                normalized_host_name(name),
            ) matches Some(octets) ==> ipv4_public(octets)),
            Some(HostModel::Ipv4(octets)) => ipv4_public(octets),
            _ => true,
        },
{
}

/// The results kept from a feed: at most `limit`, each with a title, and no
/// URL twice.
pub proof fn law_search_results_are_distinct(items: Seq<RssItemModel>, limit: nat)
    ensures
        search_results(items, limit).len() <= limit,
        forall|i: int|
            0 <= i < search_results(items, limit).len() ==> #[trigger] search_results(items, limit)[i].title.len() > 0,
        forall|i: int, j: int|
            0 <= i < j < search_results(items, limit).len() ==> #[trigger] search_results(items, limit)[i].url
                != #[trigger] search_results(items, limit)[j].url,
{
    lemma_feed_results_distinct(items);
    let all = feed_results(items);
    let kept = search_results(items, limit);
    if all.len() > limit {
        assert forall|i: int| 0 <= i < kept.len() implies #[trigger] kept[i].title.len() > 0 by {
            assert(kept[i] == all[i]);
        }
        assert forall|i: int, j: int| 0 <= i < j < kept.len() implies #[trigger] kept[i].url != #[trigger] kept[j].url by {
            assert(kept[i] == all[i]);
            assert(kept[j] == all[j]);
        }
    }
}

/// The results of a whole feed have titles and distinct URLs.
proof fn lemma_feed_results_distinct(items: Seq<RssItemModel>)
    ensures
        forall|i: int| 0 <= i < feed_results(items).len() ==> #[trigger] feed_results(items)[i].title.len() > 0,
        forall|i: int, j: int|
            0 <= i < j < feed_results(items).len() ==> #[trigger] feed_results(items)[i].url
                != #[trigger] feed_results(items)[j].url,
    decreases items.len(),
{
    if items.len() > 0 {
        lemma_feed_results_distinct(items.drop_last());
        let before = feed_results(items.drop_last());
        let all = feed_results(items);
        if all.len() > before.len() {
            assert forall|i: int, j: int| 0 <= i < j < all.len() implies #[trigger] all[i].url != #[trigger] all[j].url by {
                if j == all.len() - 1 {
                    assert(all[i] == before[i]);
                    assert(!has_url(before, all[j].url));
                } else {
                    assert(all[i] == before[i]);
                    assert(all[j] == before[j]);
                }
            }
            assert forall|i: int| 0 <= i < all.len() implies #[trigger] all[i].title.len() > 0 by {
                if i < all.len() - 1 {
                    assert(all[i] == before[i]);
                }
            }
        }
    }
}

/// What the model receives of a page is compact: at most
/// `MAX_AGENT_PAGE_CHARACTERS` characters of its text, the whole text when it
/// is that short; while the activity panel's detail ends with the whole text.
pub proof fn law_page_evidence_is_compact(page: PageModel)
    ensures
        truncated_with(page.content, MAX_AGENT_PAGE_CHARACTERS as nat, TRUNCATION_NOTICE@).len()
            <= MAX_AGENT_PAGE_CHARACTERS,
        page.content.len() <= MAX_AGENT_PAGE_CHARACTERS ==> truncated_with(
            page.content,
            MAX_AGENT_PAGE_CHARACTERS as nat,
            TRUNCATION_NOTICE@,
        ) == page.content,
        has_infix(page_detail(page), page.content),
        has_suffix(page_detail(page), link_section(page.links)),
        page.links.len() == 0 ==> has_suffix(page_detail(page), page.content),
{
    reveal_strlit("\n[Page content truncated]");
    lemma_truncated_len(page.content, MAX_AGENT_PAGE_CHARACTERS as nat, TRUNCATION_NOTICE@);
    let detail = page_detail(page);
    let section = link_section(page.links);
    let start = detail.len() - section.len() - page.content.len();
    assert(detail.subrange(start, start + page.content.len()) =~= page.content);
    assert(detail.subrange(detail.len() - section.len(), detail.len() as int) =~= section);
    if page.links.len() == 0 {
        assert(section.len() == 0);
        assert(detail.subrange(detail.len() - page.content.len(), detail.len() as int) =~= page.content);
    }
}

/// A fetched page keeps at most `MAX_PAGE_LINKS` links, each with a label, an
/// absolute HTTP or HTTPS URL resolved from the page, and no URL twice.
pub proof fn law_page_links_are_bounded_and_distinct(
    base: Seq<char>,
    anchors: Option<Seq<(Seq<Seq<char>>, Option<Seq<char>>)>>,
)
    ensures
        page_links(base, anchors).len() <= MAX_PAGE_LINKS,
        forall|i: int|
            0 <= i < page_links(base, anchors).len() ==> (#[trigger] page_links(base, anchors)[i]).label.len() > 0
                && exists|href: Seq<char>| link_target(base, href) == Some(page_links(base, anchors)[i].url),
        forall|i: int, j: int|
            0 <= i < j < page_links(base, anchors).len() ==> #[trigger] page_links(base, anchors)[i].url
                != #[trigger] page_links(base, anchors)[j].url,
{
    match anchors {
        None => {},
        Some(a) => {
            lemma_anchor_links_distinct(base, a);
            let all = anchor_links(base, a);
            let kept = page_links(base, anchors);
            if all.len() > MAX_PAGE_LINKS {
                assert forall|i: int| 0 <= i < kept.len() implies (#[trigger] kept[i]).label.len() > 0
                    && exists|href: Seq<char>| link_target(base, href) == Some(kept[i].url) by {
                    assert(kept[i] == all[i]);
                }
                assert forall|i: int, j: int| 0 <= i < j < kept.len() implies #[trigger] kept[i].url
                    != #[trigger] kept[j].url by {
                    assert(kept[i] == all[i]);
                    assert(kept[j] == all[j]);
                }
            }
        },
    }
}

/// The links of a whole run of anchors have labels, web targets and distinct
/// URLs.
proof fn lemma_anchor_links_distinct(base: Seq<char>, anchors: Seq<(Seq<Seq<char>>, Option<Seq<char>>)>)
    ensures
        forall|i: int|
            0 <= i < anchor_links(base, anchors).len() ==> (#[trigger] anchor_links(base, anchors)[i]).label.len()
                > 0 && exists|href: Seq<char>| link_target(base, href) == Some(anchor_links(base, anchors)[i].url),
        forall|i: int, j: int|
            0 <= i < j < anchor_links(base, anchors).len() ==> #[trigger] anchor_links(base, anchors)[i].url
                != #[trigger] anchor_links(base, anchors)[j].url,
    decreases anchors.len(),
{
    if anchors.len() > 0 {
        lemma_anchor_links_distinct(base, anchors.drop_last());
        let before = anchor_links(base, anchors.drop_last());
        let all = anchor_links(base, anchors);
        if all.len() > before.len() {
            let href = anchors.last().1->0;
            assert forall|i: int, j: int| 0 <= i < j < all.len() implies #[trigger] all[i].url
                != #[trigger] all[j].url by {
                assert(all[i] == before[i]);
                if j == all.len() - 1 {
                    assert(!has_link_url(before, all[j].url));
                } else {
                    assert(all[j] == before[j]);
                }
            }
            assert forall|i: int| 0 <= i < all.len() implies (#[trigger] all[i]).label.len() > 0
                && exists|h: Seq<char>| link_target(base, h) == Some(all[i].url) by {
                if i < all.len() - 1 {
                    assert(all[i] == before[i]);
                } else {
                    assert(link_target(base, href) == Some(all[i].url));
                }
            }
        }
    }
}

/// A fetched page's text is at most `MAX_PAGE_CHARACTERS` characters.
pub proof fn law_page_text_is_bounded(url: Seq<char>, declared_html: bool, bytes: Seq<u8>)
    ensures
        body_outcome(url, declared_html, bytes) matches Ok(page) ==> page.content.len() <= MAX_PAGE_CHARACTERS,
{
    reveal_strlit("\n[Page content truncated]");
    let body = spec_utf8_lossy(bytes);
    lemma_truncated_len(trimmed(body), MAX_PAGE_CHARACTERS as nat, TRUNCATION_NOTICE@);
    let title = spec_html_first_texts(body, TITLE_SELECTOR@);
    let groups = spec_html_scoped_texts(body, ROOT_SELECTOR@, CONTENT_SELECTOR@);
    lemma_truncated_len(page_text(groups), MAX_PAGE_CHARACTERS as nat, TRUNCATION_NOTICE@);
}

} // verus!
