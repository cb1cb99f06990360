//! The discovery pipeline: query planning, classification, URL
//! construction, deduplication, and the bounded fetch.

use mcp_webcam::shodan::FetchOutcome;
use mcp_webcam::shodan::ShodanResult;
use mcp_webcam::shodan::ShodanSearchResponse;
use mcp_webcam::RemoteWebcam;
use mcp_webcam::ShodanClient;
use mcp_webcam::ShodanError;
use mcp_webcam::WebcamAccessType;

fn client() -> ShodanClient {
    ShodanClient::new("SECRET-REDACTED".to_string())
}

fn raw(ip: &str, port: u16, data: &str) -> ShodanResult {
    ShodanResult {
        ip: ip.to_string(),
        port,
        hostname: None,
        location: None,
        org: None,
        data: data.to_string(),
        timestamp: "2024-01-01T00:00:00Z".to_string(),
        transport: "tcp".to_string(),
        product: None,
    }
}

#[test]
fn plan_never_issues_more_than_three_queries() {
    let c = client();
    for limit in [None, Some(0), Some(5), Some(1000), Some(u32::MAX)] {
        let plan = c.search_webcams_plan(limit);
        assert_eq!(plan.len(), 3);
    }
}

#[test]
fn plan_spreads_the_limit_over_the_queried_prefix() {
    let c = client();
    let plan = c.search_webcams_plan(Some(39));
    assert_eq!(plan[0].query.as_str(), "Server: SQ-WEBCAM");
    assert_eq!(plan[1].query.as_str(), "Server: yawcam");
    assert_eq!(plan[2].query.as_str(), "Server: webcamXP");
    for q in &plan {
        assert_eq!(q.limit, Some(13));
    }
    let plan = c.search_webcams_plan(Some(20));
    for q in &plan {
        assert_eq!(q.limit, Some(6));
    }
    let plan = c.search_webcams_plan(None);
    for q in &plan {
        assert_eq!(q.limit, Some(10));
    }
}

#[test]
fn the_template_list_is_fixed() {
    let c = client();
    let qs = c.webcam_queries();
    assert_eq!(qs.len(), 13);
    assert_eq!(qs[3].as_str(), "\"Server: IP Webcam Server\"");
    assert_eq!(qs[12].as_str(), "inurl:\"MultiCameraFrame?Mode=\"");
}

#[test]
fn multipart_banner_classifies_as_streaming() {
    let c = client();
    let m = raw("1.2.3.4", 9999, "HTTP/1.0 200 OK Content-Type: MULTIPART/X-MIXED-REPLACE");
    assert_eq!(c.determine_access_type(&m), WebcamAccessType::MJPEG);
}

#[test]
fn port_554_classifies_as_rtsp() {
    let c = client();
    let m = raw("1.2.3.4", 554, "nothing of note");
    assert_eq!(c.determine_access_type(&m), WebcamAccessType::RTSP);
    let m = raw("1.2.3.4", 9000, "RTSP/1.0 200 OK");
    assert_eq!(c.determine_access_type(&m), WebcamAccessType::RTSP);
}

#[test]
fn port_8080_with_no_other_signal_classifies_as_http() {
    let c = client();
    let m = raw("1.2.3.4", 8080, "Server: boring");
    assert_eq!(c.determine_access_type(&m), WebcamAccessType::HTTP);
    let m = raw("1.2.3.4", 12345, "Server: boring");
    assert_eq!(c.determine_access_type(&m), WebcamAccessType::Unknown);
}

#[test]
fn streaming_url_takes_the_first_known_endpoint() {
    let c = client();
    let m = raw("10.0.0.9", 8081, "mjpeg stream at /video.cgi and /cam.jpg");
    let t = c.determine_access_type(&m);
    assert_eq!(t, WebcamAccessType::MJPEG);
    let url = c.construct_webcam_url(&m, &t).unwrap();
    assert_eq!(url.as_str(), "http://10.0.0.9:8081/video.cgi");
}

#[test]
fn streaming_url_falls_back_to_the_default_path() {
    let c = client();
    let m = raw("10.0.0.9", 8081, "mjpeg but no path mentioned");
    let url = c.construct_webcam_url(&m, &WebcamAccessType::MJPEG).unwrap();
    assert_eq!(url.as_str(), "http://10.0.0.9:8081/mjpeg");
}

#[test]
fn rtsp_and_http_urls_are_root_paths() {
    let c = client();
    let m = raw("10.0.0.9", 554, "rtsp");
    let url = c.construct_webcam_url(&m, &WebcamAccessType::RTSP).unwrap();
    assert_eq!(url.as_str(), "rtsp://10.0.0.9:554/");
    let url = c.construct_webcam_url(&m, &WebcamAccessType::HTTP).unwrap();
    assert_eq!(url.as_str(), "http://10.0.0.9:554/");
    let url = c.construct_webcam_url(&m, &WebcamAccessType::Unknown).unwrap();
    assert_eq!(url.as_str(), "http://10.0.0.9:554/");
}

#[test]
fn search_request_carries_key_query_and_limit() {
    let c = client();
    let r = c.search_request("port:554 \"rtsp\"", Some(25));
    assert_eq!(r.url.as_str(), "https://api.shodan.io/shodan/host/search");
    assert_eq!(r.params.len(), 3);
    assert_eq!(r.params[0].0.as_str(), "key");
    assert_eq!(r.params[0].1.as_str(), "SECRET-REDACTED");
    assert_eq!(r.params[1].0.as_str(), "query");
    assert_eq!(r.params[1].1.as_str(), "port:554 \"rtsp\"");
    assert_eq!(r.params[2].0.as_str(), "limit");
    assert_eq!(r.params[2].1.as_str(), "25");
    let r = c.search_request("x", None);
    assert_eq!(r.params.len(), 2);
}

#[test]
fn provider_statuses_map_to_distinguishable_errors() {
    let c = client();
    assert!(matches!(c.search_error_for(401, String::new()), ShodanError::Unauthorized));
    assert!(matches!(c.search_error_for(429, String::new()), ShodanError::RateLimitExceeded));
    match c.search_error_for(500, "boom".to_string()) {
        ShodanError::Generic(m) => assert_eq!(m.as_str(), "HTTP 500: boom"),
        other => panic!("unexpected error {:?}", other),
    }
}

#[test]
fn duplicate_addresses_collapse_to_the_first_occurrence() {
    let c = client();
    let response = ShodanSearchResponse {
        facets: None,
        matches: vec![
            raw("2.2.2.2", 8080, "mjpeg"),
            raw("2.2.2.2", 554, "rtsp banner"),
            raw("1.1.1.1", 8080, "plain"),
        ],
        total: 3,
    };
    let webcams = c.process_search_results(response);
    assert_eq!(webcams.len(), 3);
    let deduped = mcp_webcam::shodan::dedup_webcams(webcams);
    assert_eq!(deduped.len(), 2);
    // sorted by address, and the first raw match for 2.2.2.2 won
    assert_eq!(deduped[0].ip.as_str(), "1.1.1.1");
    assert_eq!(deduped[1].ip.as_str(), "2.2.2.2");
    assert_eq!(deduped[1].port, 8080);
    assert_eq!(deduped[1].access_type, WebcamAccessType::MJPEG);
}

#[test]
fn extraction_carries_the_match_through() {
    let c = client();
    let mut m = raw("9.9.9.9", 554, "rtsp");
    m.org = Some("Example Org".to_string());
    m.product = Some("cam-server".to_string());
    let w = c.extract_webcam_info(m).unwrap();
    assert_eq!(w.ip.as_str(), "9.9.9.9");
    assert_eq!(w.port, 554);
    assert_eq!(w.url.as_str(), "rtsp://9.9.9.9:554/");
    assert_eq!(w.org.as_deref(), Some("Example Org"));
    assert_eq!(w.product.as_deref(), Some("cam-server"));
    assert_eq!(w.last_seen.as_str(), "2024-01-01T00:00:00Z");
    assert_eq!(w.access_type, WebcamAccessType::RTSP);
}

#[test]
fn partial_failure_returns_what_was_gathered() {
    let c = client();
    let results = vec![
        Err(ShodanError::RateLimitExceeded),
        Ok(ShodanSearchResponse { facets: None, matches: vec![raw("3.3.3.3", 8080, "x")], total: 1 }),
        Err(ShodanError::Unauthorized),
    ];
    let webcams = c.search_webcams_collect(results).unwrap();
    assert_eq!(webcams.len(), 1);
    assert_eq!(webcams[0].ip.as_str(), "3.3.3.3");
}

#[test]
fn total_failure_surfaces_the_first_error() {
    let c = client();
    let results = vec![
        Err(ShodanError::Unauthorized),
        Err(ShodanError::RateLimitExceeded),
        Err(ShodanError::Generic("x".to_string())),
    ];
    let r = c.search_webcams_collect(results);
    assert!(matches!(r, Err(ShodanError::Unauthorized)));
}

#[test]
fn collect_deduplicates_across_queries() {
    let c = client();
    let results = vec![
        Ok(ShodanSearchResponse { facets: None, matches: vec![raw("5.5.5.5", 8080, "a")], total: 1 }),
        Ok(ShodanSearchResponse { facets: None, matches: vec![raw("5.5.5.5", 8081, "b")], total: 1 }),
    ];
    let webcams = c.search_webcams_collect(results).unwrap();
    assert_eq!(webcams.len(), 1);
    assert_eq!(webcams[0].port, 8080);
}

#[test]
fn fetch_plan_uses_the_canonical_url_and_fixed_timeout() {
    let c = client();
    let m = raw("6.6.6.6", 80, "x");
    let t = c.determine_access_type(&m);
    let w: RemoteWebcam = c.extract_webcam_info(m).unwrap();
    assert_eq!(t, WebcamAccessType::HTTP);
    let plan = c.fetch_webcam_image_request(&w);
    assert_eq!(plan.url.as_str(), "http://6.6.6.6:80/");
    assert_eq!(plan.timeout_secs, 10);
}

#[test]
fn fetch_success_returns_the_payload() {
    let c = client();
    let r = c.fetch_webcam_image_settle(FetchOutcome::Response {
        status: 200,
        body: vec![1, 2, 3],
    });
    assert_eq!(r.unwrap(), vec![1, 2, 3]);
}

#[test]
fn fetch_bad_status_is_a_failure_with_the_status() {
    let c = client();
    let r = c.fetch_webcam_image_settle(FetchOutcome::Response { status: 404, body: vec![] });
    match r {
        Err(ShodanError::Generic(m)) => assert_eq!(m.as_str(), "HTTP 404"),
        other => panic!("unexpected {:?}", other),
    }
}

#[test]
fn fetch_timeout_is_a_failure_not_a_hang() {
    let c = client();
    let r = c.fetch_webcam_image_settle(FetchOutcome::TransportError(
        "request timed out after 10s".to_string(),
    ));
    match r {
        Err(ShodanError::Generic(m)) => assert_eq!(m.as_str(), "request timed out after 10s"),
        other => panic!("unexpected {:?}", other),
    }
}

#[test]
fn shodan_error_messages_render() {
    assert_eq!(ShodanError::NoApiKey.message().as_str(), "API key not provided");
    assert_eq!(ShodanError::RateLimitExceeded.message().as_str(), "Rate limit exceeded");
    assert_eq!(ShodanError::Unauthorized.message().as_str(), "Unauthorized - check API key");
    assert_eq!(
        ShodanError::HttpError("reset".to_string()).message().as_str(),
        "HTTP request failed: reset"
    );
    assert_eq!(
        ShodanError::InvalidQuery("empty".to_string()).message().as_str(),
        "Invalid query: empty"
    );
    assert_eq!(
        ShodanError::Generic("x".to_string()).message().as_str(),
        "Generic error: x"
    );
}
