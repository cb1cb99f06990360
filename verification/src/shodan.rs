//! The remote-device discovery pipeline: a fixed set of query templates run
//! against a search provider, classification of raw matches into typed
//! device records, canonical URL construction, and deduplication by network
//! address; plus the single bounded-timeout payload fetch.
//!
//! The provider itself is an external collaborator: callers issue the HTTP
//! requests this module plans and feed the outcomes back in.

use vstd::prelude::*;
use vstd::string::StrSliceExecFns;
use vstd::string::StringExecFns;

use crate::text::spec_ci_contains;
use crate::text::spec_contains;
use crate::text::spec_decimal;
use crate::text::spec_lex_le;
use crate::text::spec_lex_lt;
use crate::text::str_contains;
use crate::text::str_contains_ci;
use crate::text::str_le;
use crate::text::u64_to_string;

verus! {

/// One raw match as the search provider reports it.
#[derive(Debug, Clone)]
pub struct ShodanResult {
    pub ip: String,
    pub port: u16,
    pub hostname: Option<String>,
    pub location: Option<ShodanLocation>,
    pub org: Option<String>,
    /// Free-text banner blob the classification heuristics inspect.
    pub data: String,
    pub timestamp: String,
    pub transport: String,
    pub product: Option<String>,
}

/// Geographic metadata carried through from a raw match.
#[derive(Debug, Clone)]
pub struct ShodanLocation {
    pub country_name: Option<String>,
    pub city: Option<String>,
    pub region_code: Option<String>,
}

/// One page of search results. Facet buckets are carried through as named
/// groups; nothing downstream reads them.
#[derive(Debug, Clone)]
pub struct ShodanSearchResponse {
    pub matches: Vec<ShodanResult>,
    pub total: u64,
    pub facets: Option<Vec<(String, Vec<ShodanFacet>)>>,
}

/// One facet bucket of a search response.
#[derive(Debug, Clone)]
pub struct ShodanFacet {
    pub count: u64,
    pub value: String,
}

/// A discovered remote device with its canonical access URL.
#[derive(Debug, Clone)]
pub struct RemoteWebcam {
    pub ip: String,
    pub port: u16,
    pub url: String,
    pub hostname: Option<String>,
    pub location: Option<ShodanLocation>,
    pub org: Option<String>,
    pub product: Option<String>,
    pub last_seen: String,
    pub access_type: WebcamAccessType,
}

/// How a discovered device is likely accessed.
#[derive(Debug, Clone, Copy, PartialEq, Eq, Structural)]
pub enum WebcamAccessType {
    MJPEG,
    RTSP,
    HTTP,
    Unknown,
}

/// The discovery error taxonomy.
#[derive(Debug, Clone)]
pub enum ShodanError {
    HttpError(String),
    NoApiKey,
    InvalidQuery(String),
    RateLimitExceeded,
    Unauthorized,
    Generic(String),
}

/// The rendered message for each error, as a caller sees it.
pub open spec fn spec_shodan_error_message(e: ShodanError) -> Seq<char> {
    match e {
        ShodanError::HttpError(m) => "HTTP request failed: "@ + m@,
        ShodanError::NoApiKey => "API key not provided"@,
        ShodanError::InvalidQuery(m) => "Invalid query: "@ + m@,
        ShodanError::RateLimitExceeded => "Rate limit exceeded"@,
        ShodanError::Unauthorized => "Unauthorized - check API key"@,
        ShodanError::Generic(m) => "Generic error: "@ + m@,
    }
}

impl ShodanError {
    /// Renders the error as its human-readable message.
    pub fn message(&self) -> (r: String)
        ensures
            r@ == spec_shodan_error_message(*self),
    {
        match self {
            ShodanError::HttpError(m) => String::from_str("HTTP request failed: ").concat(
                m.as_str(),
            ),
            ShodanError::NoApiKey => String::from_str("API key not provided"),
            ShodanError::InvalidQuery(m) => String::from_str("Invalid query: ").concat(m.as_str()),
            ShodanError::RateLimitExceeded => String::from_str("Rate limit exceeded"),
            ShodanError::Unauthorized => String::from_str("Unauthorized - check API key"),
            ShodanError::Generic(m) => String::from_str("Generic error: ").concat(m.as_str()),
        }
    }
}

/// The planning half of the provider client: the credential, the provider's
/// base URL, and the fixed query templates. Issuing the planned requests is
/// the caller's business.
#[derive(Debug, Clone)]
pub struct ShodanClient {
    pub api_key: String,
    pub base_url: String,
}

/// The fixed, ordered list of query templates: heuristic signatures of
/// common camera servers.
pub open spec fn spec_webcam_queries() -> Seq<Seq<char>> {
    seq![
        "Server: SQ-WEBCAM"@,
        "Server: yawcam"@,
        "Server: webcamXP"@,
        "\"Server: IP Webcam Server\""@,
        "\"200 OK\" \"Content-Type: multipart/x-mixed-replace\""@,
        "port:8080 \"mjpeg\""@,
        "port:8081 \"mjpeg\""@,
        "port:554 \"rtsp\""@,
        "\"axis video server\""@,
        "\"live view axis\""@,
        "inurl:\"view/view.shtml\""@,
        "inurl:\"ViewerFrame?Mode=\""@,
        "inurl:\"MultiCameraFrame?Mode=\""@,
    ]
}

/// At most this many templates are queried per discovery call, to respect
/// the provider's rate limits.
pub const QUERY_PREFIX_LIMIT: usize = 3;

/// The per-query result cap: an explicit overall limit is spread evenly
/// over the queried prefix of templates; with none, a fixed cap of ten
/// applies.
pub open spec fn spec_per_query_limit(limit: Option<u32>) -> u32 {
    match limit {
        Some(l) => (l / (QUERY_PREFIX_LIMIT as u32)) as u32,
        None => 10u32,
    }
}

/// One planned provider query.
#[derive(Debug, Clone)]
pub struct SearchQuery {
    pub query: String,
    pub limit: Option<u32>,
}

/// One planned HTTP GET against the provider.
#[derive(Debug, Clone)]
pub struct SearchRequest {
    pub url: String,
    pub params: Vec<(String, String)>,
}

impl ShodanClient {
    /// A client for the given credential, against the provider's fixed API
    /// endpoint.
    pub fn new(api_key: String) -> (c: Self)
        ensures
            c.api_key == api_key,
            c.base_url@ == "https://api.shodan.io"@,
    {
        ShodanClient { api_key, base_url: String::from_str("https://api.shodan.io") }
    }

    /// The full template list, in its fixed order.
    pub fn webcam_queries(&self) -> (qs: Vec<String>)
        ensures
            qs@.len() == spec_webcam_queries().len(),
            forall|i: int| 0 <= i < qs@.len() ==> qs@[i]@ == spec_webcam_queries()[i],
    {
        let mut qs: Vec<String> = Vec::new();
        qs.push(String::from_str("Server: SQ-WEBCAM"));
        qs.push(String::from_str("Server: yawcam"));
        qs.push(String::from_str("Server: webcamXP"));
        qs.push(String::from_str("\"Server: IP Webcam Server\""));
        qs.push(String::from_str("\"200 OK\" \"Content-Type: multipart/x-mixed-replace\""));
        qs.push(String::from_str("port:8080 \"mjpeg\""));
        qs.push(String::from_str("port:8081 \"mjpeg\""));
        qs.push(String::from_str("port:554 \"rtsp\""));
        qs.push(String::from_str("\"axis video server\""));
        qs.push(String::from_str("\"live view axis\""));
        qs.push(String::from_str("inurl:\"view/view.shtml\""));
        qs.push(String::from_str("inurl:\"ViewerFrame?Mode=\""));
        qs.push(String::from_str("inurl:\"MultiCameraFrame?Mode=\""));
        qs
    }

    /// Plans one discovery call: the first templates up to the prefix cap,
    /// each carrying the per-query limit. Never more than three queries,
    /// whatever the requested limit.
    pub fn search_webcams_plan(&self, limit: Option<u32>) -> (plan: Vec<SearchQuery>)
        ensures
            plan@.len() <= QUERY_PREFIX_LIMIT,
            plan@.len() == 3,
            forall|i: int|
                0 <= i < plan@.len() ==> plan@[i].query@ == spec_webcam_queries()[i]
                    && plan@[i].limit == Some(spec_per_query_limit(limit)),
    {
        let per_query: u32 = match limit {
            Some(l) => l / (QUERY_PREFIX_LIMIT as u32),
            None => 10,
        };
        let mut all = self.webcam_queries();
        let mut plan: Vec<SearchQuery> = Vec::new();
        while plan.len() < QUERY_PREFIX_LIMIT
            invariant
                all@.len() + plan@.len() == spec_webcam_queries().len(),
                plan@.len() <= QUERY_PREFIX_LIMIT,
                per_query == spec_per_query_limit(limit),
                forall|i: int|
                    0 <= i < all@.len() ==> all@[i]@ == spec_webcam_queries()[plan@.len() + i],
                forall|i: int|
                    0 <= i < plan@.len() ==> plan@[i].query@ == spec_webcam_queries()[i]
                        && plan@[i].limit == Some(spec_per_query_limit(limit)),
            decreases QUERY_PREFIX_LIMIT - plan@.len(),
        {
            let q = all.remove(0);
            plan.push(SearchQuery { query: q, limit: Some(per_query) });
        }
        plan
    }

    /// Builds the provider request for one query: the search endpoint with
    /// the credential, the query text, and the limit if one is set.
    pub fn search_request(&self, query: &str, limit: Option<u32>) -> (r: SearchRequest)
        ensures
            r.url@ == self.base_url@ + "/shodan/host/search"@,
            r.params@.len() == if limit is Some {
                3int
            } else {
                2int
            },
            r.params@[0].0@ == "key"@ && r.params@[0].1@ == self.api_key@,
            r.params@[1].0@ == "query"@ && r.params@[1].1@ == query@,
            limit matches Some(l) ==> r.params@[2].0@ == "limit"@ && r.params@[2].1@
                == spec_decimal(l as nat),
    {
        let url = self.base_url.clone().concat("/shodan/host/search");
        let mut params: Vec<(String, String)> = Vec::new();
        params.push((String::from_str("key"), self.api_key.clone()));
        params.push((String::from_str("query"), String::from_str(query)));
        if let Some(l) = limit {
            params.push((String::from_str("limit"), u64_to_string(l as u64)));
        }
        SearchRequest { url, params }
    }

    /// Maps a provider response status outside success to its error:
    /// authentication failure and rate-limit exhaustion are distinguished,
    /// everything else is generic with the status and body text kept for
    /// diagnostics.
    pub fn search_error_for(&self, status: u16, text: String) -> (e: ShodanError)
        ensures
            status == 401 ==> e is Unauthorized,
            status == 429 ==> e is RateLimitExceeded,
            status != 401 && status != 429 ==> (e matches ShodanError::Generic(m) && m@ == "HTTP "@
                + spec_decimal(status as nat) + ": "@ + text@),
    {
        if status == 401 {
            ShodanError::Unauthorized
        } else if status == 429 {
            ShodanError::RateLimitExceeded
        } else {
            let m = String::from_str("HTTP ").concat(
                u64_to_string(status as u64).as_str(),
            ).concat(": ").concat(text.as_str());
            ShodanError::Generic(m)
        }
    }

    /// Classifies a raw match from its banner text and port: an MJPEG or
    /// multipart marker means a streaming device, the RTSP port or marker
    /// means RTSP, the common web ports mean plain HTTP, anything else is
    /// unknown.
    pub fn determine_access_type(&self, result: &ShodanResult) -> (t: WebcamAccessType)
        ensures
            t == spec_classify(result.data@, result.port),
    {
        let data = result.data.as_str();
        if str_contains_ci(data, "mjpeg") || str_contains_ci(data, "multipart/x-mixed-replace") {
            WebcamAccessType::MJPEG
        } else if result.port == 554 || str_contains_ci(data, "rtsp") {
            WebcamAccessType::RTSP
        } else if result.port == 80 || result.port == 8080 || result.port == 8081 {
            WebcamAccessType::HTTP
        } else {
            WebcamAccessType::Unknown
        }
    }
}

/// The access-type classification of a banner and port.
pub open spec fn spec_classify(data: Seq<char>, port: u16) -> WebcamAccessType {
    if spec_ci_contains(data, "mjpeg"@) || spec_ci_contains(data, "multipart/x-mixed-replace"@) {
        WebcamAccessType::MJPEG
    } else if port == 554 || spec_ci_contains(data, "rtsp"@) {
        WebcamAccessType::RTSP
    } else if port == 80 || port == 8080 || port == 8081 {
        WebcamAccessType::HTTP
    } else {
        WebcamAccessType::Unknown
    }
}

/// The known streaming endpoint paths, in the order they are tried.
pub open spec fn spec_mjpeg_endpoints() -> Seq<Seq<char>> {
    seq![
        "/mjpeg"@,
        "/video.mjpg"@,
        "/video.cgi"@,
        "/snapshot.jpg"@,
        "/image.jpg"@,
        "/cam.jpg"@,
    ]
}

/// The endpoint path chosen for a streaming device: the first known path
/// the banner mentions, or the default streaming path.
pub open spec fn spec_mjpeg_path(data: Seq<char>) -> Seq<char> {
    if spec_contains(data, "/mjpeg"@) {
        "/mjpeg"@
    } else if spec_contains(data, "/video.mjpg"@) {
        "/video.mjpg"@
    } else if spec_contains(data, "/video.cgi"@) {
        "/video.cgi"@
    } else if spec_contains(data, "/snapshot.jpg"@) {
        "/snapshot.jpg"@
    } else if spec_contains(data, "/image.jpg"@) {
        "/image.jpg"@
    } else if spec_contains(data, "/cam.jpg"@) {
        "/cam.jpg"@
    } else {
        "/mjpeg"@
    }
}

/// The canonical access URL for a match under a given classification.
pub open spec fn spec_url(m: ShodanResult, t: WebcamAccessType) -> Seq<char> {
    match t {
        WebcamAccessType::MJPEG => "http://"@ + m.ip@ + ":"@ + spec_decimal(m.port as nat)
            + spec_mjpeg_path(m.data@),
        WebcamAccessType::RTSP => "rtsp://"@ + m.ip@ + ":"@ + spec_decimal(m.port as nat) + "/"@,
        WebcamAccessType::HTTP => "http://"@ + m.ip@ + ":"@ + spec_decimal(m.port as nat) + "/"@,
        WebcamAccessType::Unknown => "http://"@ + m.ip@ + ":"@ + spec_decimal(m.port as nat)
            + "/"@,
    }
}

impl ShodanClient {
    /// Builds the canonical URL for a classified match. For a streaming
    /// device the banner is scanned for the known endpoint paths in order;
    /// the first mentioned wins, with the default streaming path as the
    /// fallback.
    pub fn construct_webcam_url(&self, result: &ShodanResult, access_type: &WebcamAccessType) -> (r:
        Option<String>)
        ensures
            r matches Some(u) && u@ == spec_url(*result, *access_type),
    {
        let host = result.ip.clone();
        let port = u64_to_string(result.port as u64);
        match access_type {
            WebcamAccessType::MJPEG => {
                let data = result.data.as_str();
                let endpoint: &'static str = if str_contains(data, "/mjpeg") {
                    "/mjpeg"
                } else if str_contains(data, "/video.mjpg") {
                    "/video.mjpg"
                } else if str_contains(data, "/video.cgi") {
                    "/video.cgi"
                } else if str_contains(data, "/snapshot.jpg") {
                    "/snapshot.jpg"
                } else if str_contains(data, "/image.jpg") {
                    "/image.jpg"
                } else if str_contains(data, "/cam.jpg") {
                    "/cam.jpg"
                } else {
                    "/mjpeg"
                };
                Some(
                    String::from_str("http://").concat(host.as_str()).concat(":").concat(
                        port.as_str(),
                    ).concat(endpoint),
                )
            },
            WebcamAccessType::RTSP => Some(
                String::from_str("rtsp://").concat(host.as_str()).concat(":").concat(
                    port.as_str(),
                ).concat("/"),
            ),
            WebcamAccessType::HTTP => Some(
                String::from_str("http://").concat(host.as_str()).concat(":").concat(
                    port.as_str(),
                ).concat("/"),
            ),
            WebcamAccessType::Unknown => Some(
                String::from_str("http://").concat(host.as_str()).concat(":").concat(
                    port.as_str(),
                ).concat("/"),
            ),
        }
    }
}

/// `w` is the typed record for the raw match `m`: the metadata is carried
/// through, and the classification and canonical URL follow the heuristics.
pub open spec fn spec_is_extract(m: ShodanResult, w: RemoteWebcam) -> bool {
    &&& w.ip == m.ip
    &&& w.port == m.port
    &&& w.url@ == spec_url(m, spec_classify(m.data@, m.port))
    &&& w.hostname == m.hostname
    &&& w.location == m.location
    &&& w.org == m.org
    &&& w.product == m.product
    &&& w.last_seen == m.timestamp
    &&& w.access_type == spec_classify(m.data@, m.port)
}

/// `w` is an element of `s`, the first there with its address.
pub open spec fn spec_first_with_ip(s: Seq<RemoteWebcam>, w: RemoteWebcam) -> bool {
    exists|k: int|
        0 <= k < s.len() && s[k] == w && (forall|j: int| 0 <= j < k ==> s[j].ip@ != w.ip@)
}

/// Strictly ascending by address; in particular, no address repeats.
pub open spec fn spec_sorted_by_ip(s: Seq<RemoteWebcam>) -> bool {
    forall|i: int, j: int| 0 <= i < j < s.len() ==> spec_lex_lt(s[i].ip@, s[j].ip@)
}

impl ShodanClient {
    /// Builds the typed record for one raw match.
    pub fn extract_webcam_info(&self, result: ShodanResult) -> (r: Option<RemoteWebcam>)
        ensures
            r matches Some(w) && spec_is_extract(result, w),
    {
        let access_type = self.determine_access_type(&result);
        let url = match self.construct_webcam_url(&result, &access_type) {
            Some(u) => u,
            None => {
                return vstd::pervasive::unreached();
            },
        };
        Some(
            RemoteWebcam {
                ip: result.ip,
                port: result.port,
                url,
                hostname: result.hostname,
                location: result.location,
                org: result.org,
                product: result.product,
                last_seen: result.timestamp,
                access_type,
            },
        )
    }

    /// Builds the typed record for every match of one search response.
    pub fn process_search_results(&self, response: ShodanSearchResponse) -> (r: Vec<RemoteWebcam>)
        ensures
            r@.len() == response.matches@.len(),
            forall|i: int|
                0 <= i < r@.len() ==> spec_is_extract(response.matches@[i], #[trigger] r@[i]),
    {
        let mut ms = response.matches;
        let ghost all = ms@;
        let mut out: Vec<RemoteWebcam> = Vec::new();
        while ms.len() > 0
            invariant
                out@.len() + ms@.len() == all.len(),
                ms@ =~= all.skip(out@.len() as int),
                forall|i: int| 0 <= i < out@.len() ==> spec_is_extract(all[i], #[trigger] out@[i]),
            decreases ms@.len(),
        {
            let ghost n = out@.len() as int;
            let m = ms.remove(0);
            proof {
                assert(m == all[n]);
            }
            match self.extract_webcam_info(m) {
                Some(w) => out.push(w),
                None => {
                    proof {
                        assert(false);
                    }
                },
            }
            proof {
                assert(ms@ =~= all.skip(out@.len() as int));
            }
        }
        out
    }
}

/// The position where a record with address `ip` would be inserted to keep
/// `out` ascending: the first index whose record is not strictly before
/// `ip`.
fn ip_lower_bound(out: &Vec<RemoteWebcam>, ip: &String) -> (p: usize)
    ensures
        p <= out@.len(),
        forall|q: int| 0 <= q < p ==> !spec_lex_le(ip@, #[trigger] out@[q].ip@),
        p < out@.len() ==> spec_lex_le(ip@, out@[p as int].ip@),
{
    let mut p: usize = 0;
    loop
        invariant
            p <= out@.len(),
            forall|q: int| 0 <= q < p ==> !spec_lex_le(ip@, #[trigger] out@[q].ip@),
        decreases out@.len() - p,
    {
        if p == out.len() {
            return p;
        }
        if str_le(ip.as_str(), out[p].ip.as_str()) {
            return p;
        }
        p += 1;
    }
}

/// Some record of `out` carries the address `ip`.
pub open spec fn spec_covers(out: Seq<RemoteWebcam>, ip: Seq<char>) -> bool {
    exists|i: int| 0 <= i < out.len() && #[trigger] out[i].ip@ == ip
}

/// Every address among the first `n` records of `all` is carried by some
/// record of `out`.
pub open spec fn spec_covered(all: Seq<RemoteWebcam>, n: int, out: Seq<RemoteWebcam>) -> bool {
    forall|k: int| 0 <= k < n ==> spec_covers(out, #[trigger] all[k].ip@)
}

/// Every record of `out` is the first record of its address among the first
/// `n` records of `all`.
pub open spec fn spec_all_first(all: Seq<RemoteWebcam>, n: int, out: Seq<RemoteWebcam>) -> bool {
    forall|i: int| 0 <= i < out.len() ==> spec_first_with_ip(all.take(n), #[trigger] out[i])
}

/// No record of a strictly ascending run carries the address of a record
/// standing at its lower bound without equality there.
proof fn lemma_lower_bound_fresh(out: Seq<RemoteWebcam>, m: RemoteWebcam, pi: int)
    requires
        spec_sorted_by_ip(out),
        0 <= pi <= out.len(),
        forall|q: int| 0 <= q < pi ==> !spec_lex_le(m.ip@, #[trigger] out[q].ip@),
        pi < out.len() ==> spec_lex_le(m.ip@, out[pi].ip@),
        pi < out.len() ==> out[pi].ip@ != m.ip@,
    ensures
        forall|q: int| 0 <= q < out.len() ==> #[trigger] out[q].ip@ != m.ip@,
{
    assert forall|q: int| 0 <= q < out.len() implies #[trigger] out[q].ip@ != m.ip@ by {
        if out[q].ip@ == m.ip@ {
            crate::text::lemma_lex_refl(m.ip@);
            if q > pi {
                // the run ascends strictly from `pi` to `q`, yet `m`'s
                // address lies at or before `pi` and equals `q`'s
                assert(spec_lex_lt(out[pi].ip@, out[q].ip@));
            }
        }
    }
}

/// Inserting a record of fresh address at its lower bound keeps the run
/// strictly ascending.
proof fn lemma_insert_sorted(out: Seq<RemoteWebcam>, m: RemoteWebcam, pi: int)
    requires
        spec_sorted_by_ip(out),
        0 <= pi <= out.len(),
        forall|q: int| 0 <= q < pi ==> !spec_lex_le(m.ip@, #[trigger] out[q].ip@),
        pi < out.len() ==> spec_lex_le(m.ip@, out[pi].ip@),
        forall|q: int| 0 <= q < out.len() ==> #[trigger] out[q].ip@ != m.ip@,
    ensures
        spec_sorted_by_ip(out.insert(pi, m)),
{
    out.insert_ensures(pi, m);
    let s = out.insert(pi, m);
    assert forall|i: int, j: int| 0 <= i < j < s.len() implies spec_lex_lt(s[i].ip@, s[j].ip@) by {
        if j < pi {
            assert(s[i] == out[i] && s[j] == out[j]);
            assert(spec_lex_lt(out[i].ip@, out[j].ip@));
        } else if j == pi {
            assert(s[i] == out[i] && s[j] == m);
        } else if i < pi {
            assert(s[i] == out[i] && s[j] == out[j - 1]);
            assert(spec_lex_lt(out[i].ip@, out[j - 1].ip@));
        } else if i == pi {
            assert(s[i] == m && s[j] == out[j - 1]);
            if spec_lex_le(out[j - 1].ip@, m.ip@) {
                if j - 1 == pi {
                    crate::text::lemma_lex_antisym(out[pi].ip@, m.ip@);
                } else {
                    assert(spec_lex_lt(out[pi].ip@, out[j - 1].ip@));
                    crate::text::lemma_lex_trans(out[j - 1].ip@, m.ip@, out[pi].ip@);
                }
            }
        } else {
            assert(s[i] == out[i - 1] && s[j] == out[j - 1]);
            assert(spec_lex_lt(out[i - 1].ip@, out[j - 1].ip@));
        }
    }
}

/// A record that is the first of its address within a prefix stays so when
/// the prefix grows.
proof fn lemma_first_with_ip_grows(all: Seq<RemoteWebcam>, n: int, w: RemoteWebcam)
    requires
        0 <= n < all.len(),
        spec_first_with_ip(all.take(n), w),
    ensures
        spec_first_with_ip(all.take(n + 1), w),
{
    let prefix = all.take(n);
    let prefix1 = all.take(n + 1);
    let k = choose|k: int|
        0 <= k < prefix.len() && prefix[k] == w && (forall|j: int|
            0 <= j < k ==> prefix[j].ip@ != w.ip@);
    assert(prefix1[k] == w);
    assert(forall|j: int| 0 <= j < k ==> prefix1[j].ip@ != w.ip@);
    assert(spec_first_with_ip(prefix1, w));
}

/// One kept step of the deduplication: the next record's address is
/// already carried, and the held run absorbs it unchanged.
proof fn lemma_dedup_skip_step(
    all: Seq<RemoteWebcam>,
    n: int,
    out: Seq<RemoteWebcam>,
    pi: int,
)
    requires
        0 <= n < all.len(),
        spec_all_first(all, n, out),
        spec_covered(all, n, out),
        0 <= pi < out.len(),
        out[pi].ip@ == all[n].ip@,
    ensures
        spec_all_first(all, n + 1, out),
        spec_covered(all, n + 1, out),
{
    assert forall|i: int|
        0 <= i < out.len() implies spec_first_with_ip(all.take(n + 1), #[trigger] out[i]) by {
        lemma_first_with_ip_grows(all, n, out[i]);
    }
    assert forall|k: int| 0 <= k < n + 1 implies spec_covers(out, #[trigger] all[k].ip@) by {
        if k == n {
            assert(out[pi].ip@ == all[k].ip@);
        }
    }
}

/// One inserting step of the deduplication: the next record's address is
/// fresh, and it joins the held run at its lower bound.
proof fn lemma_dedup_insert_step(
    all: Seq<RemoteWebcam>,
    n: int,
    out: Seq<RemoteWebcam>,
    pi: int,
)
    requires
        0 <= n < all.len(),
        spec_sorted_by_ip(out),
        spec_all_first(all, n, out),
        spec_covered(all, n, out),
        0 <= pi <= out.len(),
        forall|q: int| 0 <= q < pi ==> !spec_lex_le(all[n].ip@, #[trigger] out[q].ip@),
        pi < out.len() ==> spec_lex_le(all[n].ip@, out[pi].ip@),
        pi < out.len() ==> out[pi].ip@ != all[n].ip@,
    ensures
        spec_sorted_by_ip(out.insert(pi, all[n])),
        spec_all_first(all, n + 1, out.insert(pi, all[n])),
        spec_covered(all, n + 1, out.insert(pi, all[n])),
{
    let m = all[n];
    lemma_lower_bound_fresh(out, m, pi);
    lemma_insert_sorted(out, m, pi);
    out.insert_ensures(pi, m);
    let s = out.insert(pi, m);
    // The next record is the first of its address: every earlier address is
    // carried by the run, and the run nowhere carries the next one.
    assert forall|j: int| 0 <= j < n implies #[trigger] all.take(n + 1)[j].ip@ != m.ip@ by {
        if all[j].ip@ == m.ip@ {
            assert(spec_covers(out, all[j].ip@));
            let i = choose|i: int| 0 <= i < out.len() && #[trigger] out[i].ip@ == all[j].ip@;
        }
    }
    assert(all.take(n + 1)[n] == m);
    assert(spec_first_with_ip(all.take(n + 1), m));
    assert forall|i: int|
        0 <= i < s.len() implies spec_first_with_ip(all.take(n + 1), #[trigger] s[i]) by {
        if i == pi {
            assert(s[i] == m);
        } else {
            let iold: int = if i < pi {
                i
            } else {
                i - 1
            };
            assert(s[i] == out[iold]);
            lemma_first_with_ip_grows(all, n, out[iold]);
        }
    }
    assert forall|k: int| 0 <= k < n + 1 implies spec_covers(s, #[trigger] all[k].ip@) by {
        if k == n {
            assert(s[pi].ip@ == all[k].ip@);
        } else {
            let i = choose|i: int| 0 <= i < out.len() && #[trigger] out[i].ip@ == all[k].ip@;
            if i < pi {
                assert(s[i].ip@ == all[k].ip@);
            } else {
                assert(s[i + 1].ip@ == all[k].ip@);
            }
        }
    }
}

/// Sorts typed records by address and drops every record whose address a
/// record earlier in the input already carries: of records with equal
/// addresses, the first in the input wins.
pub fn dedup_webcams(webcams: Vec<RemoteWebcam>) -> (r: Vec<RemoteWebcam>)
    ensures
        spec_sorted_by_ip(r@),
        spec_all_first(webcams@, webcams@.len() as int, r@),
        spec_covered(webcams@, webcams@.len() as int, r@),
{
    let ghost all = webcams@;
    let mut rest = webcams;
    let total = rest.len();
    let mut out: Vec<RemoteWebcam> = Vec::new();
    let mut n: usize = 0;
    while rest.len() > 0
        invariant
            all.len() == total,
            n + rest@.len() == all.len(),
            rest@ =~= all.skip(n as int),
            spec_sorted_by_ip(out@),
            spec_all_first(all, n as int, out@),
            spec_covered(all, n as int, out@),
        decreases rest@.len(),
    {
        let m = rest.remove(0);
        proof {
            assert(m == all[n as int]);
        }
        let p = ip_lower_bound(&out, &m.ip);
        let is_dup = if p < out.len() {
            out[p].ip.eq(&m.ip)
        } else {
            false
        };
        if is_dup {
            proof {
                lemma_dedup_skip_step(all, n as int, out@, p as int);
            }
        } else {
            let ghost out_old = out@;
            proof {
                lemma_dedup_insert_step(all, n as int, out_old, p as int);
            }
            out.insert(p, m);
            proof {
                assert(out@ == out_old.insert(p as int, m));
            }
        }
        n += 1;
        proof {
            assert(rest@ =~= all.skip(n as int));
        }
    }
    proof {
        assert(all.take(n as int) =~= all);
        assert(spec_all_first(all, n as int, out@));
        assert(spec_covered(all, n as int, out@));
    }
    out
}

/// The matches of the successful outcomes, in query order: the list the
/// original accumulation walks.
pub open spec fn spec_flat_matches(
    results: Seq<Result<ShodanSearchResponse, ShodanError>>,
) -> Seq<ShodanResult>
    decreases results.len(),
{
    if results.len() == 0 {
        Seq::empty()
    } else {
        spec_flat_matches(results.drop_last()) + (match results.last() {
            Ok(resp) => resp.matches@,
            Err(_) => Seq::empty(),
        })
    }
}

/// Growing the outcome list by one grows the accumulated matches by that
/// outcome's matches, or by nothing when it failed.
proof fn lemma_flat_matches_take(
    results: Seq<Result<ShodanSearchResponse, ShodanError>>,
    t: int,
)
    requires
        0 <= t < results.len(),
    ensures
        results[t] matches Ok(resp) ==> spec_flat_matches(results.take(t + 1))
            == spec_flat_matches(results.take(t)) + resp.matches@,
        results[t] is Err ==> spec_flat_matches(results.take(t + 1)) == spec_flat_matches(
            results.take(t),
        ),
{
    let t1 = results.take(t + 1);
    assert(t1.drop_last() =~= results.take(t));
    assert(t1.last() == results[t]);
    if results[t] is Err {
        assert(spec_flat_matches(t1) =~= spec_flat_matches(results.take(t)));
    }
}

/// `w` is the typed record of the first accumulated match carrying its
/// address.
pub open spec fn spec_first_extract_of(ms: Seq<ShodanResult>, w: RemoteWebcam) -> bool {
    exists|k: int|
        0 <= k < ms.len() && spec_is_extract(#[trigger] ms[k], w) && (forall|j: int|
            0 <= j < k ==> ms[j].ip@ != w.ip@)
}

/// Some query outcome succeeded.
pub open spec fn spec_any_ok(results: Seq<Result<ShodanSearchResponse, ShodanError>>) -> bool {
    exists|i: int| 0 <= i < results.len() && #[trigger] results[i] is Ok
}

impl ShodanClient {
    /// Folds the per-query outcomes of one discovery call into its final
    /// record list: matches of successful queries are classified and then
    /// deduplicated by address — of accumulated matches sharing an address,
    /// the first in query order wins. A failing query is tolerated; an
    /// error (the first query's) surfaces only when every query failed.
    pub fn search_webcams_collect(
        &self,
        results: Vec<Result<ShodanSearchResponse, ShodanError>>,
    ) -> (r: Result<Vec<RemoteWebcam>, ShodanError>)
        ensures
            results@.len() == 0 ==> (r matches Ok(v) && v@.len() == 0),
            spec_any_ok(results@) ==> r is Ok,
            results@.len() > 0 && !spec_any_ok(results@) ==> (r matches Err(e) && results@[0]
                matches Err(e0) && e == e0),
            r matches Ok(v) ==> {
                &&& spec_sorted_by_ip(v@)
                &&& forall|i: int|
                    0 <= i < v@.len() ==> spec_first_extract_of(
                        spec_flat_matches(results@),
                        #[trigger] v@[i],
                    )
                &&& forall|k: int|
                    0 <= k < spec_flat_matches(results@).len() ==> spec_covers(
                        v@,
                        #[trigger] spec_flat_matches(results@)[k].ip@,
                    )
            },
    {
        let ghost all_r = results@;
        let mut rest = results;
        let total = rest.len();
        let mut gathered: Vec<RemoteWebcam> = Vec::new();
        let mut first_err: Option<ShodanError> = None;
        let mut any_ok = false;
        let mut t: usize = 0;
        while rest.len() > 0
            invariant
                all_r.len() == total,
                t + rest@.len() == all_r.len(),
                rest@ =~= all_r.skip(t as int),
                any_ok == spec_any_ok(all_r.take(t as int)),
                t > 0 && !(all_r[0] is Ok) ==> (first_err matches Some(e) && all_r[0] matches Err(
                    e0,
                ) && e == e0),
                gathered@.len() == spec_flat_matches(all_r.take(t as int)).len(),
                forall|j: int|
                    0 <= j < gathered@.len() ==> spec_is_extract(
                        spec_flat_matches(all_r.take(t as int))[j],
                        #[trigger] gathered@[j],
                    ),
            decreases rest@.len(),
        {
            let ghost ti = t as int;
            let ghost gathered_old = gathered@;
            let ghost flat_old = spec_flat_matches(all_r.take(ti));
            let outcome = rest.remove(0);
            proof {
                assert(outcome == all_r[ti]);
                lemma_flat_matches_take(all_r, ti);
            }
            match outcome {
                Ok(resp) => {
                    let ghost resp_matches = resp.matches@;
                    let mut ws = self.process_search_results(resp);
                    let ghost ws_view = ws@;
                    gathered.append(&mut ws);
                    any_ok = true;
                    proof {
                        assert(gathered@ == gathered_old + ws_view);
                        let flat_new = spec_flat_matches(all_r.take(ti + 1));
                        assert(flat_new == flat_old + resp_matches);
                        assert(spec_any_ok(all_r.take(ti + 1))) by {
                            assert(all_r.take(ti + 1)[ti] is Ok);
                        }
                        assert forall|j: int|
                            0 <= j < gathered@.len() implies spec_is_extract(
                            flat_new[j],
                            #[trigger] gathered@[j],
                        ) by {
                            if j < gathered_old.len() {
                                assert(gathered@[j] == gathered_old[j]);
                                assert(flat_new[j] == flat_old[j]);
                            } else {
                                assert(gathered@[j] == ws_view[j - gathered_old.len()]);
                                assert(flat_new[j] == resp_matches[j - gathered_old.len()]);
                            }
                        }
                    }
                },
                Err(e) => {
                    if t == 0 {
                        first_err = Some(e);
                    }
                    proof {
                        assert(!(all_r.take(ti + 1)[ti] is Ok));
                        if any_ok {
                            let i = choose|i: int|
                                0 <= i < all_r.take(ti).len() && #[trigger] all_r.take(
                                    ti,
                                )[i] is Ok;
                            assert(all_r.take(ti + 1)[i] is Ok);
                        }
                        assert forall|i: int|
                            0 <= i < all_r.take(ti + 1).len() && #[trigger] all_r.take(
                                ti + 1,
                            )[i] is Ok implies spec_any_ok(all_r.take(ti)) by {
                            assert(all_r.take(ti)[i] is Ok);
                        }
                    }
                },
            }
            t += 1;
            proof {
                assert(rest@ =~= all_r.skip(t as int));
            }
        }
        proof {
            assert(all_r.take(t as int) =~= all_r);
        }
        if !any_ok && t > 0 {
            let e = match first_err {
                Some(e) => e,
                None => vstd::pervasive::unreached(),
            };
            return Err(e);
        }
        let ghost gathered_view = gathered@;
        let ghost flat = spec_flat_matches(all_r);
        let deduped = dedup_webcams(gathered);
        proof {
            assert(gathered_view.take(gathered_view.len() as int) =~= gathered_view);
            if all_r.len() == 0 && deduped@.len() > 0 {
                assert(spec_first_with_ip(gathered_view, deduped@[0]));
                assert(gathered_view.len() == 0);
                assert(false);
            }
            assert forall|i: int|
                0 <= i < deduped@.len() implies spec_first_extract_of(
                flat,
                #[trigger] deduped@[i],
            ) by {
                assert(spec_first_with_ip(gathered_view, deduped@[i]));
                let k = choose|k: int|
                    0 <= k < gathered_view.len() && gathered_view[k] == deduped@[i] && (forall|
                        j: int,
                    |
                        0 <= j < k ==> gathered_view[j].ip@ != deduped@[i].ip@);
                assert(spec_is_extract(flat[k], deduped@[i]));
                assert forall|j: int| 0 <= j < k implies flat[j].ip@ != deduped@[i].ip@ by {
                    assert(spec_is_extract(flat[j], gathered_view[j]));
                    assert(flat[j].ip == gathered_view[j].ip);
                }
            }
            assert forall|k: int| 0 <= k < flat.len() implies spec_covers(
                deduped@,
                #[trigger] flat[k].ip@,
            ) by {
                assert(spec_is_extract(flat[k], gathered_view[k]));
                assert(spec_covers(deduped@, gathered_view[k].ip@));
            }
        }
        Ok(deduped)
    }

    /// Plans the single payload fetch for a discovered device: one request
    /// to its canonical URL under the fixed ten-second timeout.
    pub fn fetch_webcam_image_request(&self, webcam: &RemoteWebcam) -> (p: FetchPlan)
        ensures
            p.url == webcam.url,
            p.timeout_secs == 10,
    {
        FetchPlan { url: webcam.url.clone(), timeout_secs: 10 }
    }

    /// Settles the fetch from its outcome: an HTTP-success status yields the
    /// payload; any other status, and a transport failure or timeout, is the
    /// one uniform fetch-failure kind, carrying the status or transport text
    /// for diagnostics.
    pub fn fetch_webcam_image_settle(&self, outcome: FetchOutcome) -> (r: Result<
        Vec<u8>,
        ShodanError,
    >)
        ensures
            outcome matches FetchOutcome::Response { status, body } ==> {
                &&& 200 <= status < 300 ==> (r matches Ok(b) && b == body)
                &&& !(200 <= status < 300) ==> (r matches Err(e) && e matches ShodanError::Generic(
                    m,
                ) && m@ == "HTTP "@ + spec_decimal(status as nat))
            },
            outcome matches FetchOutcome::TransportError(t) ==> (r matches Err(e) && e matches
                ShodanError::Generic(m) && m == t),
    {
        match outcome {
            FetchOutcome::Response { status, body } => {
                if 200 <= status && status < 300 {
                    Ok(body)
                } else {
                    let m = String::from_str("HTTP ").concat(u64_to_string(status as u64).as_str());
                    Err(ShodanError::Generic(m))
                }
            },
            FetchOutcome::TransportError(t) => Err(ShodanError::Generic(t)),
        }
    }
}

/// One planned HTTP GET against a discovered device.
#[derive(Debug, Clone)]
pub struct FetchPlan {
    pub url: String,
    pub timeout_secs: u64,
}

/// What one fetch attempt came back with: a status and body, or a transport
/// failure (a timeout among them).
#[derive(Debug)]
pub enum FetchOutcome {
    Response { status: u16, body: Vec<u8> },
    TransportError(String),
}

/// Two records of a deduplicated discovery result never share an address:
/// with coverage of every queried match, each discovered address is
/// represented exactly once.
pub proof fn lemma_dedup_unique(r: Seq<RemoteWebcam>, i: int, j: int)
    requires
        spec_sorted_by_ip(r),
        0 <= i < r.len(),
        0 <= j < r.len(),
        i != j,
    ensures
        r[i].ip@ != r[j].ip@,
{
    if r[i].ip@ == r[j].ip@ {
        crate::text::lemma_lex_refl(r[i].ip@);
        if i < j {
            assert(spec_lex_lt(r[i].ip@, r[j].ip@));
        } else {
            assert(spec_lex_lt(r[j].ip@, r[i].ip@));
        }
    }
}

/// A discovery result holds exactly one record for any address it covers:
/// raw matches sharing an address collapse to a single typed record.
pub proof fn lemma_exactly_one_per_address(v: Seq<RemoteWebcam>, ip: Seq<char>)
    requires
        spec_sorted_by_ip(v),
        spec_covers(v, ip),
    ensures
        exists|i: int|
            0 <= i < v.len() && #[trigger] v[i].ip@ == ip && (forall|j: int|
                0 <= j < v.len() && #[trigger] v[j].ip@ == ip ==> j == i),
{
    let i = choose|i: int| 0 <= i < v.len() && #[trigger] v[i].ip@ == ip;
    assert forall|j: int| 0 <= j < v.len() && #[trigger] v[j].ip@ == ip implies j == i by {
        if j != i {
            lemma_dedup_unique(v, i, j);
        }
    }
}

} // verus!
