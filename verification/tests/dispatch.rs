//! The tool dispatcher: registry contents, closed-world routing, and
//! envelope normalization of successes and domain errors.

use base64::Engine as _;

use mcp_webcam::mcp_server::handle_capture_image;
use mcp_webcam::mcp_server::handle_capture_remote_image;
use mcp_webcam::mcp_server::handle_get_camera_info;
use mcp_webcam::mcp_server::handle_list_cameras;
use mcp_webcam::mcp_server::handle_search_webcams;
use mcp_webcam::mcp_server::handle_unknown_tool;
use mcp_webcam::mcp_server::make_remote_webcam;
use mcp_webcam::mcp_server::missing_url_envelope;
use mcp_webcam::mcp_server::require_url;
use mcp_webcam::mcp_server::ContentItem;
use mcp_webcam::mcp_server::Metadata;
use mcp_webcam::mcp_server::ToolRoute;
use mcp_webcam::webcam::encode_frame;
use mcp_webcam::CameraInfo;
use mcp_webcam::ShodanError;
use mcp_webcam::WebcamAccessType;
use mcp_webcam::WebcamError;
use mcp_webcam::WebcamMcpServer;

fn text_of(item: &ContentItem) -> &str {
    match item {
        ContentItem::Text { text } => text.as_str(),
        ContentItem::Image { .. } => panic!("expected a text item"),
    }
}

fn cam(index: u32, name: &str) -> CameraInfo {
    CameraInfo {
        index,
        name: name.to_string(),
        description: String::new(),
        available: true,
    }
}

#[test]
fn registry_without_credential_holds_local_tools_only() {
    let s = WebcamMcpServer::new(None);
    assert!(!s.remote_enabled());
    let defs = s.tool_definitions();
    assert_eq!(defs.len(), 3);
    assert_eq!(defs[0].name.as_str(), "list_cameras");
    assert_eq!(defs[1].name.as_str(), "capture_image");
    assert_eq!(defs[2].name.as_str(), "get_camera_info");
    assert_eq!(defs[1].schema.len(), 1);
    assert_eq!(defs[1].schema[0].name.as_str(), "camera_index");
    assert_eq!(defs[1].schema[0].json_type.as_str(), "number");
    assert!(!defs[1].schema[0].required);
}

#[test]
fn registry_with_credential_adds_remote_tools() {
    let s = WebcamMcpServer::new(Some("SECRET-REDACTED".to_string()));
    assert!(s.remote_enabled());
    let defs = s.tool_definitions();
    assert_eq!(defs.len(), 5);
    assert_eq!(defs[3].name.as_str(), "search_webcams");
    assert_eq!(defs[4].name.as_str(), "capture_remote_image");
    assert_eq!(defs[4].schema.len(), 3);
    assert_eq!(defs[4].schema[0].name.as_str(), "url");
    assert!(defs[4].schema[0].required);
    assert!(!defs[4].schema[1].required);
}

#[test]
fn routing_is_closed_over_the_registry() {
    let with = WebcamMcpServer::new(Some("SECRET-REDACTED".to_string()));
    let without = WebcamMcpServer::new(None);
    assert_eq!(with.route_tool("list_cameras"), ToolRoute::ListCameras);
    assert_eq!(with.route_tool("capture_image"), ToolRoute::CaptureImage);
    assert_eq!(with.route_tool("get_camera_info"), ToolRoute::GetCameraInfo);
    assert_eq!(with.route_tool("search_webcams"), ToolRoute::SearchWebcams);
    assert_eq!(with.route_tool("capture_remote_image"), ToolRoute::CaptureRemoteImage);
    // unregistered tools do not route, even if they exist elsewhere
    assert_eq!(without.route_tool("search_webcams"), ToolRoute::Unknown);
    assert_eq!(without.route_tool("capture_remote_image"), ToolRoute::Unknown);
    assert_eq!(with.route_tool("nonexistent_tool"), ToolRoute::Unknown);
}

#[test]
fn unknown_tool_yields_a_structured_envelope() {
    let e = handle_unknown_tool("nonexistent_tool");
    assert_eq!(e.error.as_deref(), Some("Tool not found"));
    assert_eq!(e.content.len(), 1);
    assert_eq!(text_of(&e.content[0]), "Unknown tool: nonexistent_tool");
    assert!(e.cameras.is_none() && e.webcams.is_none() && e.metadata.is_none());
}

#[test]
fn list_envelope_counts_cameras() {
    let e = handle_list_cameras(Ok(vec![cam(0, "a"), cam(1, "b")]));
    assert_eq!(text_of(&e.content[0]), "Found 2 camera(s)");
    assert_eq!(e.cameras.as_ref().unwrap().len(), 2);
    assert!(e.error.is_none());
}

#[test]
fn list_envelope_renders_the_error() {
    let e = handle_list_cameras(Err(WebcamError::LocalCamerasNotSupported));
    assert_eq!(
        text_of(&e.content[0]),
        "Error listing cameras: Local camera support not compiled in"
    );
    assert_eq!(e.error.as_deref(), Some("Local camera support not compiled in"));
    assert_eq!(e.cameras.as_ref().unwrap().len(), 0);
}

#[test]
fn capture_envelope_carries_image_and_metadata() {
    let c = encode_frame(vec![200u8, 100, 50], 1, 1, 3).unwrap();
    let e = handle_capture_image(&Ok(c.clone()));
    assert_eq!(e.content.len(), 2);
    match &e.content[0] {
        ContentItem::Image { data, mime_type } => {
            assert_eq!(mime_type.as_str(), "image/jpeg");
            // the payload is base64 of a real JPEG stream, not the raw frame
            let bytes = base64::engine::general_purpose::STANDARD
                .decode(data.as_str())
                .expect("valid base64");
            assert_eq!(&bytes[..2], &[0xFF, 0xD8]);
        }
        ContentItem::Text { .. } => panic!("expected the image first"),
    }
    let summary = text_of(&e.content[1]);
    assert!(summary.starts_with("Captured 1x1 image from camera 3 at "));
    match e.metadata.as_ref().unwrap() {
        Metadata::Capture { width, height, camera_index, mime_type, .. } => {
            assert_eq!((*width, *height, *camera_index), (1, 1, 3));
            assert_eq!(mime_type.as_str(), "image/jpeg");
        }
        Metadata::RemoteCapture { .. } => panic!("expected local capture metadata"),
    }
}

#[test]
fn capture_envelope_renders_the_error() {
    let e = handle_capture_image(&Err(WebcamError::CameraNotFound { index: 9 }));
    assert_eq!(text_of(&e.content[0]), "Error capturing image: Camera not found: 9");
    assert_eq!(e.error.as_deref(), Some("Camera not found: 9"));
}

#[test]
fn mismatched_frame_buffer_is_an_image_processing_error() {
    let r = encode_frame(vec![1u8, 2, 3, 4], 1, 1, 0);
    assert!(matches!(r, Err(WebcamError::ImageProcessing(_))));
}

#[test]
fn info_envelope_reports_totals_and_current() {
    let e = handle_get_camera_info(Some(1), Ok(vec![cam(0, "a"), cam(1, "b")]));
    assert_eq!(text_of(&e.content[0]), "Camera info: 2 total cameras, current: Some(1)");
    let report = e.camera_info.as_ref().unwrap();
    assert_eq!(report.total_cameras, 2);
    assert_eq!(report.current_camera, Some(1));
    assert_eq!(report.available_cameras.len(), 2);

    let e = handle_get_camera_info(None, Ok(vec![]));
    assert_eq!(text_of(&e.content[0]), "Camera info: 0 total cameras, current: None");
}

#[test]
fn search_envelope_counts_webcams() {
    let w = make_remote_webcam(&"http://7.7.7.7:80/".to_string(), Some("7.7.7.7".to_string()), Some(80));
    let e = handle_search_webcams(Ok(vec![w]));
    assert_eq!(text_of(&e.content[0]), "Found 1 remote webcam(s) via Shodan search");
    assert_eq!(e.total, Some(1));
    assert_eq!(e.webcams.as_ref().unwrap().len(), 1);

    let e = handle_search_webcams(Err(ShodanError::Unauthorized));
    assert_eq!(
        text_of(&e.content[0]),
        "Error searching webcams via Shodan: Unauthorized - check API key"
    );
    assert_eq!(e.error.as_deref(), Some("Unauthorized - check API key"));
}

#[test]
fn remote_capture_envelope_encodes_the_payload() {
    let url = "http://8.8.8.8:80/".to_string();
    let e = handle_capture_remote_image(&url, Ok(vec![0u8, 1, 2]));
    assert_eq!(e.content.len(), 2);
    match &e.content[0] {
        ContentItem::Image { data, mime_type } => {
            // base64 of [0, 1, 2]; an unencoded pass-through would differ
            assert_eq!(data.as_str(), "AAEC");
            assert_eq!(mime_type.as_str(), "image/jpeg");
        }
        ContentItem::Text { .. } => panic!("expected the image first"),
    }
    assert_eq!(text_of(&e.content[1]), "Captured image from remote webcam: http://8.8.8.8:80/");
    match e.metadata.as_ref().unwrap() {
        Metadata::RemoteCapture { source, url: u, size_bytes, .. } => {
            assert_eq!(source.as_str(), "remote_webcam");
            assert_eq!(u.as_str(), "http://8.8.8.8:80/");
            assert_eq!(*size_bytes, 3);
        }
        Metadata::Capture { .. } => panic!("expected remote capture metadata"),
    }
}

#[test]
fn remote_capture_envelope_renders_the_error() {
    let url = "http://8.8.8.8:80/".to_string();
    let e = handle_capture_remote_image(&url, Err(ShodanError::Generic("HTTP 404".to_string())));
    assert_eq!(
        text_of(&e.content[0]),
        "Error capturing remote image from http://8.8.8.8:80/: Generic error: HTTP 404"
    );
    assert_eq!(e.error.as_deref(), Some("Generic error: HTTP 404"));
}

#[test]
fn required_url_is_validated_not_crashed_on() {
    assert_eq!(require_url(Some("http://x/".to_string())).unwrap().as_str(), "http://x/");
    let e = require_url(None).unwrap_err();
    assert_eq!(e.error.as_deref(), Some("Missing required parameters"));
}

#[test]
fn missing_url_parameter_is_an_envelope_not_a_crash() {
    let e = missing_url_envelope();
    assert_eq!(text_of(&e.content[0]), "Please provide 'url' parameter with the webcam URL");
    assert_eq!(e.error.as_deref(), Some("Missing required parameters"));
}

#[test]
fn stand_in_remote_webcam_defaults() {
    let w = make_remote_webcam(&"http://x/".to_string(), None, None);
    assert_eq!(w.ip.as_str(), "unknown");
    assert_eq!(w.port, 80);
    assert_eq!(w.url.as_str(), "http://x/");
    assert_eq!(w.access_type, WebcamAccessType::HTTP);
    assert!(w.hostname.is_none() && w.location.is_none() && w.org.is_none() && w.product.is_none());
}
