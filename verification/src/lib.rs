//! Verified core of an MCP webcam server: a tool-dispatch layer over a
//! single-slot local device session, plus a remote-device discovery pipeline
//! with classification, deduplication and bounded querying.

pub mod encode;
pub mod mcp_server;
pub mod shodan;
pub mod text;
pub mod webcam;

pub use mcp_server::WebcamMcpServer;
pub use shodan::RemoteWebcam;
pub use shodan::ShodanClient;
pub use shodan::ShodanError;
pub use shodan::WebcamAccessType;
pub use webcam::CameraInfo;
pub use webcam::CaptureResult;
pub use webcam::WebcamError;
pub use webcam::WebcamManager;

use vstd::prelude::*;

verus! {

/// The default camera index used when a capture request names none.
pub const DEFAULT_CAMERA_INDEX: u32 = 0;

/// Index a capture call targets: the requested one, or the default.
pub fn capture_target(requested: Option<u32>) -> (t: u32)
    ensures
        t == spec_capture_target(requested),
{
    match requested {
        Some(i) => i,
        None => DEFAULT_CAMERA_INDEX,
    }
}

/// Index a capture call targets, at the specification level.
pub open spec fn spec_capture_target(requested: Option<u32>) -> u32 {
    match requested {
        Some(i) => i,
        None => DEFAULT_CAMERA_INDEX,
    }
}

} // verus!
