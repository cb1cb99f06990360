//! The tool dispatcher: the capability registry, closed-world routing of
//! tool names, and the normalization of every outcome — success or domain
//! error — into one uniform response envelope.
//!
//! Remote-discovery tools are registered only when a search-provider
//! credential is present; routing is closed over the registered names, so an
//! unregistered name yields a displayable "tool not found" envelope, never a
//! failure.

use vstd::prelude::*;
use vstd::string::StringExecFns;

use crate::encode::base64_encode;
use crate::encode::base64_of;
use crate::encode::now_rfc3339;
use crate::encode::rfc3339_shaped;
use crate::shodan::spec_shodan_error_message;
use crate::shodan::RemoteWebcam;
use crate::shodan::ShodanClient;
use crate::shodan::ShodanError;
use crate::shodan::WebcamAccessType;
use crate::text::spec_decimal;
use crate::text::str_eq;
use crate::text::u64_to_string;
use crate::webcam::spec_webcam_error_message;
use crate::webcam::CameraInfo;
use crate::webcam::CaptureResult;
use crate::webcam::WebcamError;
use crate::webcam::WebcamManager;

verus! {

/// One parameter of a tool's input schema.
#[derive(Debug)]
pub struct ParamSpec {
    pub name: String,
    pub json_type: String,
    pub description: String,
    pub required: bool,
}

/// One registered tool: its unique name, a human description, and its
/// parameter schema.
#[derive(Debug)]
pub struct ToolDefinition {
    pub name: String,
    pub description: String,
    pub schema: Vec<ParamSpec>,
}

/// One item of an envelope's displayable content.
#[derive(Debug)]
pub enum ContentItem {
    Text { text: String },
    Image { data: String, mime_type: String },
}

/// The structured metadata block of a successful capture.
#[derive(Debug)]
pub enum Metadata {
    Capture { width: u32, height: u32, camera_index: u32, timestamp: String, mime_type: String },
    RemoteCapture { source: String, url: String, size_bytes: u64, timestamp: String },
}

/// The camera overview carried by the info tool's envelope.
#[derive(Debug)]
pub struct CameraInfoReport {
    pub available_cameras: Vec<CameraInfo>,
    pub current_camera: Option<u32>,
    pub total_cameras: u64,
}

/// The uniform response envelope: displayable content always; a
/// machine-checkable `error` for domain failures; and the tool-specific
/// payload blocks where they apply.
#[derive(Debug)]
pub struct Envelope {
    pub content: Vec<ContentItem>,
    pub error: Option<String>,
    pub cameras: Option<Vec<CameraInfo>>,
    pub camera_info: Option<CameraInfoReport>,
    pub webcams: Option<Vec<RemoteWebcam>>,
    pub total: Option<u64>,
    pub metadata: Option<Metadata>,
}

/// `c` is a text item reading `s`.
pub open spec fn spec_text_item(c: ContentItem, s: Seq<char>) -> bool {
    c matches ContentItem::Text { text } && text@ == s
}

/// `c` is an image item with payload `data` and the given MIME type.
pub open spec fn spec_image_item(c: ContentItem, data: Seq<char>, mime: Seq<char>) -> bool {
    c matches ContentItem::Image { data: d, mime_type: m } && d@ == data && m@ == mime
}

/// No tool-specific payload block is set.
pub open spec fn spec_no_payload(e: Envelope) -> bool {
    &&& e.cameras is None
    &&& e.camera_info is None
    &&& e.webcams is None
    &&& e.total is None
    &&& e.metadata is None
}

fn blank_envelope() -> (e: Envelope)
    ensures
        e.content@.len() == 0,
        e.error is None,
        spec_no_payload(e),
{
    Envelope {
        content: Vec::new(),
        error: None,
        cameras: None,
        camera_info: None,
        webcams: None,
        total: None,
        metadata: None,
    }
}

/// Routing targets: the registered tools, and the closed-world rest.
#[derive(Debug, Clone, Copy, PartialEq, Eq, Structural)]
pub enum ToolRoute {
    ListCameras,
    CaptureImage,
    GetCameraInfo,
    SearchWebcams,
    CaptureRemoteImage,
    Unknown,
}

/// The registered tool names, in registry order: the local-device tools
/// always, the remote-discovery tools only with a credential.
pub open spec fn spec_registry_names(remote: bool) -> Seq<Seq<char>> {
    if remote {
        seq![
            "list_cameras"@,
            "capture_image"@,
            "get_camera_info"@,
            "search_webcams"@,
            "capture_remote_image"@,
        ]
    } else {
        seq!["list_cameras"@, "capture_image"@, "get_camera_info"@]
    }
}

/// The closed routing of a tool name: remote tools route only when they are
/// registered, and any other name is unknown.
pub open spec fn spec_route(name: Seq<char>, remote: bool) -> ToolRoute {
    if name == "list_cameras"@ {
        ToolRoute::ListCameras
    } else if name == "capture_image"@ {
        ToolRoute::CaptureImage
    } else if name == "get_camera_info"@ {
        ToolRoute::GetCameraInfo
    } else if remote && name == "search_webcams"@ {
        ToolRoute::SearchWebcams
    } else if remote && name == "capture_remote_image"@ {
        ToolRoute::CaptureRemoteImage
    } else {
        ToolRoute::Unknown
    }
}

/// Routing is closed over the registry: a name routes to a tool exactly
/// when the registry holds it.
pub proof fn lemma_route_closed_world(name: Seq<char>, remote: bool)
    ensures
        (spec_route(name, remote) is Unknown) <==> !spec_registry_names(remote).contains(name),
{
    let names = spec_registry_names(remote);
    if spec_route(name, remote) is Unknown {
        assert forall|i: int| 0 <= i < names.len() implies names[i] != name by {
            if remote {
                assert(names[0] == "list_cameras"@);
                assert(names[1] == "capture_image"@);
                assert(names[2] == "get_camera_info"@);
                assert(names[3] == "search_webcams"@);
                assert(names[4] == "capture_remote_image"@);
            } else {
                assert(names[0] == "list_cameras"@);
                assert(names[1] == "capture_image"@);
                assert(names[2] == "get_camera_info"@);
            }
        }
    } else {
        if name == "list_cameras"@ {
            assert(names[0] == name);
        } else if name == "capture_image"@ {
            assert(names[1] == name);
        } else if name == "get_camera_info"@ {
            assert(names[2] == name);
        } else if remote && name == "search_webcams"@ {
            assert(names[3] == name);
        } else {
            assert(names[4] == name);
        }
    }
}

/// The dispatcher-visible server state: the exclusively owned device
/// session, and the discovery client when a credential was supplied.
pub struct WebcamMcpServer {
    pub webcam_manager: WebcamManager,
    pub shodan_client: Option<ShodanClient>,
}

/// `p` describes the parameter `name` of JSON type `ty`.
pub open spec fn spec_param_is(
    p: ParamSpec,
    name: Seq<char>,
    ty: Seq<char>,
    desc: Seq<char>,
    required: bool,
) -> bool {
    &&& p.name@ == name
    &&& p.json_type@ == ty
    &&& p.description@ == desc
    &&& p.required == required
}

fn param(name: &str, json_type: &str, description: &str, required: bool) -> (p: ParamSpec)
    ensures
        spec_param_is(p, name@, json_type@, description@, required),
{
    ParamSpec {
        name: String::from_str(name),
        json_type: String::from_str(json_type),
        description: String::from_str(description),
        required,
    }
}

impl WebcamMcpServer {
    /// A fresh server: a closed device session, and remote discovery
    /// enabled exactly when a provider credential is given.
    pub fn new(api_key: Option<String>) -> (s: Self)
        ensures
            s.webcam_manager.current_index is None,
            api_key matches Some(k) ==> (s.shodan_client matches Some(c) && c.api_key == k
                && c.base_url@ == "https://api.shodan.io"@),
            api_key is None ==> s.shodan_client is None,
    {
        let shodan_client = match api_key {
            Some(k) => Some(ShodanClient::new(k)),
            None => None,
        };
        WebcamMcpServer { webcam_manager: WebcamManager::new(), shodan_client }
    }

    /// Whether the remote-discovery tools are registered.
    pub fn remote_enabled(&self) -> (r: bool)
        ensures
            r == (self.shodan_client is Some),
    {
        self.shodan_client.is_some()
    }

    /// The capability registry, fixed at construction: the three
    /// local-device tools always, the two remote-discovery tools only with
    /// a credential.
    pub fn tool_definitions(&self) -> (r: Vec<ToolDefinition>)
        ensures
            r@.len() == spec_registry_names(self.shodan_client is Some).len(),
            forall|i: int|
                0 <= i < r@.len() ==> #[trigger] r@[i].name@ == spec_registry_names(
                    self.shodan_client is Some,
                )[i],
            r@[0].description@ == "List all available local camera devices"@,
            r@[0].schema@.len() == 0,
            r@[1].description@ == "Capture an image from a local camera"@,
            r@[1].schema@.len() == 1,
            spec_param_is(
                r@[1].schema@[0],
                "camera_index"@,
                "number"@,
                "Camera index to use (optional, defaults to 0)"@,
                false,
            ),
            r@[2].description@ == "Get information about available local cameras"@,
            r@[2].schema@.len() == 0,
            self.shodan_client is Some ==> {
                &&& r@[3].description@ == "Search for remote webcams using Shodan"@
                &&& r@[3].schema@.len() == 1
                &&& spec_param_is(
                    r@[3].schema@[0],
                    "limit"@,
                    "number"@,
                    "Maximum number of results (optional, defaults to 20)"@,
                    false,
                )
                &&& r@[4].description@ == "Capture image from a remote webcam"@
                &&& r@[4].schema@.len() == 3
                &&& spec_param_is(
                    r@[4].schema@[0],
                    "url"@,
                    "string"@,
                    "Webcam URL to capture from"@,
                    true,
                )
                &&& spec_param_is(r@[4].schema@[1], "ip"@, "string"@, "IP address (optional)"@, false)
                &&& spec_param_is(
                    r@[4].schema@[2],
                    "port"@,
                    "number"@,
                    "Port number (optional)"@,
                    false,
                )
            },
    {
        let mut r: Vec<ToolDefinition> = Vec::new();
        r.push(
            ToolDefinition {
                name: String::from_str("list_cameras"),
                description: String::from_str("List all available local camera devices"),
                schema: Vec::new(),
            },
        );
        let mut capture_schema: Vec<ParamSpec> = Vec::new();
        capture_schema.push(
            param("camera_index", "number", "Camera index to use (optional, defaults to 0)", false),
        );
        r.push(
            ToolDefinition {
                name: String::from_str("capture_image"),
                description: String::from_str("Capture an image from a local camera"),
                schema: capture_schema,
            },
        );
        r.push(
            ToolDefinition {
                name: String::from_str("get_camera_info"),
                description: String::from_str("Get information about available local cameras"),
                schema: Vec::new(),
            },
        );
        if self.shodan_client.is_some() {
            let mut search_schema: Vec<ParamSpec> = Vec::new();
            search_schema.push(
                param("limit", "number", "Maximum number of results (optional, defaults to 20)", false),
            );
            r.push(
                ToolDefinition {
                    name: String::from_str("search_webcams"),
                    description: String::from_str("Search for remote webcams using Shodan"),
                    schema: search_schema,
                },
            );
            let mut remote_schema: Vec<ParamSpec> = Vec::new();
            remote_schema.push(param("url", "string", "Webcam URL to capture from", true));
            remote_schema.push(param("ip", "string", "IP address (optional)", false));
            remote_schema.push(param("port", "number", "Port number (optional)", false));
            r.push(
                ToolDefinition {
                    name: String::from_str("capture_remote_image"),
                    description: String::from_str("Capture image from a remote webcam"),
                    schema: remote_schema,
                },
            );
        }
        r
    }

    /// Routes a tool name, closed over the registered tools.
    pub fn route_tool(&self, name: &str) -> (r: ToolRoute)
        ensures
            r == spec_route(name@, self.shodan_client is Some),
    {
        let remote = self.shodan_client.is_some();
        if str_eq(name, "list_cameras") {
            ToolRoute::ListCameras
        } else if str_eq(name, "capture_image") {
            ToolRoute::CaptureImage
        } else if str_eq(name, "get_camera_info") {
            ToolRoute::GetCameraInfo
        } else if remote && str_eq(name, "search_webcams") {
            ToolRoute::SearchWebcams
        } else if remote && str_eq(name, "capture_remote_image") {
            ToolRoute::CaptureRemoteImage
        } else {
            ToolRoute::Unknown
        }
    }
}

/// The summary line of a successful enumeration.
pub open spec fn spec_found_cameras_text(n: nat) -> Seq<char> {
    "Found "@ + spec_decimal(n) + " camera(s)"@
}

/// The envelope for the camera-list tool: the list with a count summary on
/// success; on failure an empty list beside the rendered error.
pub fn handle_list_cameras(outcome: Result<Vec<CameraInfo>, WebcamError>) -> (e: Envelope)
    ensures
        e.camera_info is None && e.webcams is None && e.total is None && e.metadata is None,
        e.content@.len() == 1,
        outcome matches Ok(cams) ==> {
            &&& spec_text_item(e.content@[0], spec_found_cameras_text(cams@.len()))
            &&& e.cameras matches Some(cs) && cs@ == cams@
            &&& e.error is None
        },
        outcome matches Err(err) ==> {
            &&& spec_text_item(
                e.content@[0],
                "Error listing cameras: "@ + spec_webcam_error_message(err),
            )
            &&& e.cameras matches Some(cs) && cs@.len() == 0
            &&& e.error matches Some(m) && m@ == spec_webcam_error_message(err)
        },
{
    let mut e = blank_envelope();
    match outcome {
        Ok(cams) => {
            let text = String::from_str("Found ").concat(
                u64_to_string(cams.len() as u64).as_str(),
            ).concat(" camera(s)");
            e.content.push(ContentItem::Text { text });
            e.cameras = Some(cams);
        },
        Err(err) => {
            let msg = err.message();
            let text = String::from_str("Error listing cameras: ").concat(msg.as_str());
            e.content.push(ContentItem::Text { text });
            e.cameras = Some(Vec::new());
            e.error = Some(msg);
        },
    }
    e
}

/// The summary line of a successful capture.
pub open spec fn spec_captured_text(c: CaptureResult) -> Seq<char> {
    "Captured "@ + spec_decimal(c.width as nat) + "x"@ + spec_decimal(c.height as nat)
        + " image from camera "@ + spec_decimal(c.camera_index as nat) + " at "@ + c.timestamp@
}

/// The envelope for the local capture tool: the encoded image with its
/// summary and metadata on success, the rendered error otherwise.
pub fn handle_capture_image(outcome: &Result<CaptureResult, WebcamError>) -> (e: Envelope)
    ensures
        e.cameras is None && e.camera_info is None && e.webcams is None && e.total is None,
        outcome matches Ok(c) ==> {
            &&& e.content@.len() == 2
            &&& spec_image_item(e.content@[0], c.image_data@, c.mime_type@)
            &&& spec_text_item(e.content@[1], spec_captured_text(*c))
            &&& e.metadata matches Some(m) && m == (Metadata::Capture {
                width: c.width,
                height: c.height,
                camera_index: c.camera_index,
                timestamp: c.timestamp,
                mime_type: c.mime_type,
            })
            &&& e.error is None
        },
        outcome matches Err(err) ==> {
            &&& e.content@.len() == 1
            &&& spec_text_item(
                e.content@[0],
                "Error capturing image: "@ + spec_webcam_error_message(*err),
            )
            &&& e.error matches Some(m) && m@ == spec_webcam_error_message(*err)
            &&& e.metadata is None
        },
{
    let mut e = blank_envelope();
    match outcome {
        Ok(c) => {
            e.content.push(
                ContentItem::Image { data: c.image_data.clone(), mime_type: c.mime_type.clone() },
            );
            let text = String::from_str("Captured ").concat(
                u64_to_string(c.width as u64).as_str(),
            ).concat("x").concat(u64_to_string(c.height as u64).as_str()).concat(
                " image from camera ",
            ).concat(u64_to_string(c.camera_index as u64).as_str()).concat(" at ").concat(
                c.timestamp.as_str(),
            );
            e.content.push(ContentItem::Text { text });
            e.metadata = Some(
                Metadata::Capture {
                    width: c.width,
                    height: c.height,
                    camera_index: c.camera_index,
                    timestamp: c.timestamp.clone(),
                    mime_type: c.mime_type.clone(),
                },
            );
        },
        Err(err) => {
            let msg = err.message();
            let text = String::from_str("Error capturing image: ").concat(msg.as_str());
            e.content.push(ContentItem::Text { text });
            e.error = Some(msg);
        },
    }
    e
}

/// How an optional open index is displayed in the info summary.
pub open spec fn spec_current_camera_text(current: Option<u32>) -> Seq<char> {
    match current {
        Some(i) => "Some("@ + spec_decimal(i as nat) + ")"@,
        None => "None"@,
    }
}

/// The summary line of the camera-info tool.
pub open spec fn spec_camera_info_text(n: nat, current: Option<u32>) -> Seq<char> {
    "Camera info: "@ + spec_decimal(n) + " total cameras, current: "@ + spec_current_camera_text(
        current,
    )
}

/// The envelope for the camera-info tool: the overview of available cameras
/// and the currently open index, or the rendered error.
pub fn handle_get_camera_info(
    current: Option<u32>,
    outcome: Result<Vec<CameraInfo>, WebcamError>,
) -> (e: Envelope)
    ensures
        e.cameras is None && e.webcams is None && e.total is None && e.metadata is None,
        e.content@.len() == 1,
        outcome matches Ok(cams) ==> {
            &&& spec_text_item(e.content@[0], spec_camera_info_text(cams@.len(), current))
            &&& e.camera_info matches Some(ci) && ci.available_cameras@ == cams@
                && ci.current_camera == current && ci.total_cameras == cams@.len()
            &&& e.error is None
        },
        outcome matches Err(err) ==> {
            &&& spec_text_item(
                e.content@[0],
                "Error getting camera info: "@ + spec_webcam_error_message(err),
            )
            &&& e.camera_info is None
            &&& e.error matches Some(m) && m@ == spec_webcam_error_message(err)
        },
{
    let mut e = blank_envelope();
    match outcome {
        Ok(cams) => {
            let current_text = match current {
                Some(i) => String::from_str("Some(").concat(
                    u64_to_string(i as u64).as_str(),
                ).concat(")"),
                None => String::from_str("None"),
            };
            let text = String::from_str("Camera info: ").concat(
                u64_to_string(cams.len() as u64).as_str(),
            ).concat(" total cameras, current: ").concat(current_text.as_str());
            e.content.push(ContentItem::Text { text });
            let total = cams.len() as u64;
            e.camera_info = Some(
                CameraInfoReport {
                    available_cameras: cams,
                    current_camera: current,
                    total_cameras: total,
                },
            );
        },
        Err(err) => {
            let msg = err.message();
            let text = String::from_str("Error getting camera info: ").concat(msg.as_str());
            e.content.push(ContentItem::Text { text });
            e.error = Some(msg);
        },
    }
    e
}

/// The summary line of a successful discovery call.
pub open spec fn spec_found_webcams_text(n: nat) -> Seq<char> {
    "Found "@ + spec_decimal(n) + " remote webcam(s) via Shodan search"@
}

/// The envelope for the discovery tool: the record list with its count on
/// success, the rendered error otherwise.
pub fn handle_search_webcams(outcome: Result<Vec<RemoteWebcam>, ShodanError>) -> (e: Envelope)
    ensures
        e.cameras is None && e.camera_info is None && e.metadata is None,
        e.content@.len() == 1,
        outcome matches Ok(ws) ==> {
            &&& spec_text_item(e.content@[0], spec_found_webcams_text(ws@.len()))
            &&& e.webcams matches Some(v) && v@ == ws@
            &&& e.total == Some(ws@.len() as u64)
            &&& e.error is None
        },
        outcome matches Err(err) ==> {
            &&& spec_text_item(
                e.content@[0],
                "Error searching webcams via Shodan: "@ + spec_shodan_error_message(err),
            )
            &&& e.webcams is None && e.total is None
            &&& e.error matches Some(m) && m@ == spec_shodan_error_message(err)
        },
{
    let mut e = blank_envelope();
    match outcome {
        Ok(ws) => {
            let text = String::from_str("Found ").concat(
                u64_to_string(ws.len() as u64).as_str(),
            ).concat(" remote webcam(s) via Shodan search");
            e.content.push(ContentItem::Text { text });
            e.total = Some(ws.len() as u64);
            e.webcams = Some(ws);
        },
        Err(err) => {
            let msg = err.message();
            let text = String::from_str("Error searching webcams via Shodan: ").concat(
                msg.as_str(),
            );
            e.content.push(ContentItem::Text { text });
            e.error = Some(msg);
        },
    }
    e
}

/// The stand-in record the remote-capture tool fetches from: the caller's
/// URL with whatever address details were supplied.
pub fn make_remote_webcam(url: &String, ip: Option<String>, port: Option<u16>) -> (w: RemoteWebcam)
    ensures
        w.url == *url,
        ip matches Some(i) ==> w.ip == i,
        ip is None ==> w.ip@ == "unknown"@,
        port matches Some(p) ==> w.port == p,
        port is None ==> w.port == 80,
        w.hostname is None && w.location is None && w.org is None && w.product is None,
        rfc3339_shaped(w.last_seen@),
        w.access_type == WebcamAccessType::HTTP,
{
    RemoteWebcam {
        ip: match ip {
            Some(i) => i,
            None => String::from_str("unknown"),
        },
        port: match port {
            Some(p) => p,
            None => 80,
        },
        url: url.clone(),
        hostname: None,
        location: None,
        org: None,
        product: None,
        last_seen: now_rfc3339(),
        access_type: WebcamAccessType::HTTP,
    }
}

/// The envelope for a remote-capture call whose required `url` parameter is
/// missing: a displayable prompt beside the machine-checkable error.
pub fn missing_url_envelope() -> (e: Envelope)
    ensures
        spec_no_payload(e),
        e.content@.len() == 1,
        spec_text_item(e.content@[0], "Please provide 'url' parameter with the webcam URL"@),
        e.error matches Some(m) && m@ == "Missing required parameters"@,
{
    let mut e = blank_envelope();
    e.content.push(
        ContentItem::Text {
            text: String::from_str("Please provide 'url' parameter with the webcam URL"),
        },
    );
    e.error = Some(String::from_str("Missing required parameters"));
    e
}

/// The required `url` parameter of a remote capture: present, it is the
/// fetch target; missing, the call answers with the missing-parameter
/// envelope instead of failing.
pub fn require_url(url: Option<String>) -> (r: Result<String, Envelope>)
    ensures
        url matches Some(u) ==> r == Ok::<String, Envelope>(u),
        url is None ==> (r matches Err(e) && spec_no_payload(e) && e.content@.len() == 1
            && spec_text_item(e.content@[0], "Please provide 'url' parameter with the webcam URL"@)
            && (e.error matches Some(m) && m@ == "Missing required parameters"@)),
{
    match url {
        Some(u) => Ok(u),
        None => Err(missing_url_envelope()),
    }
}

/// The summary line of a successful remote capture.
pub open spec fn spec_remote_captured_text(url: Seq<char>) -> Seq<char> {
    "Captured image from remote webcam: "@ + url
}

/// The envelope for the remote-capture tool: the fetched payload encoded
/// for transport on success, the rendered error otherwise.
pub fn handle_capture_remote_image(url: &String, outcome: Result<Vec<u8>, ShodanError>) -> (e:
    Envelope)
    requires
        outcome matches Ok(bytes) ==> bytes@.len() * 4 <= usize::MAX,
    ensures
        e.cameras is None && e.camera_info is None && e.webcams is None && e.total is None,
        outcome matches Ok(bytes) ==> {
            &&& e.content@.len() == 2
            &&& spec_image_item(e.content@[0], base64_of(bytes@), "image/jpeg"@)
            &&& spec_text_item(e.content@[1], spec_remote_captured_text(url@))
            &&& e.metadata matches Some(m) && m matches Metadata::RemoteCapture {
                source,
                url: u,
                size_bytes,
                timestamp,
            } && source@ == "remote_webcam"@ && u == *url && size_bytes == bytes@.len()
                && rfc3339_shaped(timestamp@)
            &&& e.error is None
        },
        outcome matches Err(err) ==> {
            &&& e.content@.len() == 1
            &&& spec_text_item(
                e.content@[0],
                "Error capturing remote image from "@ + url@ + ": "@ + spec_shodan_error_message(
                    err,
                ),
            )
            &&& e.metadata is None
            &&& e.error matches Some(m) && m@ == spec_shodan_error_message(err)
        },
{
    let mut e = blank_envelope();
    match outcome {
        Ok(bytes) => {
            let data = base64_encode(&bytes);
            e.content.push(
                ContentItem::Image { data, mime_type: String::from_str("image/jpeg") },
            );
            let text = String::from_str("Captured image from remote webcam: ").concat(
                url.as_str(),
            );
            e.content.push(ContentItem::Text { text });
            e.metadata = Some(
                Metadata::RemoteCapture {
                    source: String::from_str("remote_webcam"),
                    url: url.clone(),
                    size_bytes: bytes.len() as u64,
                    timestamp: now_rfc3339(),
                },
            );
        },
        Err(err) => {
            let msg = err.message();
            let text = String::from_str("Error capturing remote image from ").concat(
                url.as_str(),
            ).concat(": ").concat(msg.as_str());
            e.content.push(ContentItem::Text { text });
            e.error = Some(msg);
        },
    }
    e
}

/// The envelope for a name outside the registry: structured and
/// displayable, with the uniform "Tool not found" error — never a
/// protocol-level failure.
pub fn handle_unknown_tool(name: &str) -> (e: Envelope)
    ensures
        spec_no_payload(e),
        e.content@.len() == 1,
        spec_text_item(e.content@[0], "Unknown tool: "@ + name@),
        e.error matches Some(m) && m@ == "Tool not found"@,
{
    let mut e = blank_envelope();
    let text = String::from_str("Unknown tool: ").concat(name);
    e.content.push(ContentItem::Text { text });
    e.error = Some(String::from_str("Tool not found"));
    e
}

} // verus!
