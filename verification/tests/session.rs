//! The device session's single-slot state machine: open, implicit open on
//! capture, and settling after failures.

use mcp_webcam::webcam::CameraDevice;
use mcp_webcam::webcam::CameraQuery;
use mcp_webcam::webcam::FrameOutcome;
use mcp_webcam::WebcamError;
use mcp_webcam::WebcamManager;

fn opened(m: &mut WebcamManager, index: u32) {
    let begun = m.open_camera_begin();
    let _ = begun;
    let r = m.open_camera_settle(index, Ok(()));
    assert!(r.is_ok());
}

#[test]
fn new_session_is_closed() {
    let m = WebcamManager::new();
    assert_eq!(m.get_current_camera_info(), None);
    let m = WebcamManager::default();
    assert_eq!(m.get_current_camera_info(), None);
}

#[test]
fn successful_open_reports_its_index() {
    let mut m = WebcamManager::new();
    opened(&mut m, 2);
    assert_eq!(m.get_current_camera_info(), Some(2));
    opened(&mut m, 7);
    assert_eq!(m.get_current_camera_info(), Some(7));
}

#[test]
fn failed_open_leaves_no_handle() {
    let mut m = WebcamManager::new();
    opened(&mut m, 1);
    let prev = m.open_camera_begin();
    assert_eq!(prev, Some(1));
    assert_eq!(m.get_current_camera_info(), None);
    let r = m.open_camera_settle(3, Err("device is busy".to_string()));
    assert!(matches!(r, Err(WebcamError::CameraOpen(_))));
    assert_eq!(m.get_current_camera_info(), None);
}

#[test]
fn capture_with_no_open_targets_default_index() {
    let m = WebcamManager::new();
    let plan = m.plan_capture(None);
    assert_eq!(plan.target, 0);
    assert!(plan.open_needed);
    assert_eq!(plan.close_first, None);
}

#[test]
fn capture_of_other_index_closes_current_first() {
    let mut m = WebcamManager::new();
    opened(&mut m, 1);
    let plan = m.plan_capture(Some(4));
    assert_eq!(plan.target, 4);
    assert!(plan.open_needed);
    assert_eq!(plan.close_first, Some(1));
}

#[test]
fn capture_of_open_index_reuses_handle() {
    let mut m = WebcamManager::new();
    opened(&mut m, 4);
    let plan = m.plan_capture(Some(4));
    assert_eq!(plan.target, 4);
    assert!(!plan.open_needed);
    assert_eq!(plan.close_first, None);
}

#[test]
fn capture_failure_keeps_session_consistent() {
    let mut m = WebcamManager::new();
    opened(&mut m, 0);
    let r = m.capture_image_settle(
        0,
        FrameOutcome::FrameError { message: "frame timed out".to_string(), handle_lost: false },
    );
    assert!(matches!(r, Err(WebcamError::CameraOpen(_))));
    assert_eq!(m.get_current_camera_info(), Some(0));

    let r = m.capture_image_settle(
        0,
        FrameOutcome::FrameError { message: "handle died".to_string(), handle_lost: true },
    );
    assert!(r.is_err());
    assert_eq!(m.get_current_camera_info(), None);
}

#[test]
fn capture_success_keeps_handle_open() {
    let mut m = WebcamManager::new();
    opened(&mut m, 1);
    let rgb = vec![10u8, 20, 30];
    let r = m.capture_image_settle(1, FrameOutcome::Frame { rgb, width: 1, height: 1 });
    let c = r.expect("a one-pixel frame encodes");
    assert_eq!(c.camera_index, 1);
    assert_eq!(m.get_current_camera_info(), Some(1));
}

#[test]
fn two_sequential_captures_serialize() {
    // Two capture calls one after the other: the second call's plan is
    // determined by whichever device the first call left current.
    let mut m = WebcamManager::new();
    let plan1 = m.plan_capture(Some(1));
    assert!(plan1.open_needed);
    let _ = m.open_camera_begin();
    m.open_camera_settle(1, Ok(())).unwrap();
    let _ = m
        .capture_image_settle(1, FrameOutcome::Frame { rgb: vec![0, 0, 0], width: 1, height: 1 })
        .unwrap();

    let plan2 = m.plan_capture(None);
    assert_eq!(plan2.target, 0);
    assert!(plan2.open_needed);
    assert_eq!(plan2.close_first, Some(1));
}

#[test]
fn list_cameras_maps_devices_in_order() {
    let m = WebcamManager::new();
    let q = CameraQuery::Devices(vec![
        CameraDevice { name: "front".to_string(), description: "USB".to_string() },
        CameraDevice { name: "rear".to_string(), description: "CSI".to_string() },
    ]);
    let cams = m.list_cameras(q).unwrap();
    assert_eq!(cams.len(), 2);
    assert_eq!(cams[0].index, 0);
    assert_eq!(cams[0].name.as_str(), "front");
    assert_eq!(cams[0].description.as_str(), "USB");
    assert!(cams[0].available);
    assert_eq!(cams[1].index, 1);
    assert_eq!(cams[1].name.as_str(), "rear");
}

#[test]
fn list_cameras_prefers_empty_list_over_error() {
    let m = WebcamManager::new();
    let cams = m
        .list_cameras(CameraQuery::QueryFailed("backend unavailable".to_string()))
        .unwrap();
    assert!(cams.is_empty());
}

#[test]
fn list_cameras_without_support_is_a_hard_failure() {
    let m = WebcamManager::new();
    let r = m.list_cameras(CameraQuery::Unsupported);
    assert!(matches!(r, Err(WebcamError::LocalCamerasNotSupported)));
}

#[test]
fn camera_not_found_message_holds_the_index() {
    let e = WebcamError::CameraNotFound { index: 5 };
    assert_eq!(e.message().as_str(), "Camera not found: 5");
    let e = WebcamError::CameraOpen("no device".to_string());
    assert_eq!(e.message().as_str(), "Failed to open camera: no device");
    let e = WebcamError::LocalCamerasNotSupported;
    assert_eq!(e.message().as_str(), "Local camera support not compiled in");
    let e = WebcamError::NoCamerasAvailable;
    assert_eq!(e.message().as_str(), "No cameras available");
    let e = WebcamError::ImageProcessing("bad frame".to_string());
    assert_eq!(e.message().as_str(), "Image processing error: bad frame");
}
