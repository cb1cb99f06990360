//! The local device session: enumeration of capture devices, the single-slot
//! open-device state machine, and the assembly of a capture result from a raw
//! frame.
//!
//! The session owns at most one open device at a time. Opening a different
//! index releases the current handle first, and a failed open or a fatal
//! capture failure always settles the session back to the closed state, so
//! the session never points at a released handle.

use vstd::prelude::*;
use vstd::string::StringExecFns;

use crate::encode::base64_encode;
use crate::encode::base64_of;
use crate::encode::jpeg_accepts;
use crate::encode::jpeg_encode;
use crate::encode::jpeg_of;
use crate::encode::now_rfc3339;
use crate::encode::rfc3339_shaped;
use crate::spec_capture_target;

verus! {

/// Description of one enumerated capture device.
#[derive(Debug, Clone)]
pub struct CameraInfo {
    pub index: u32,
    pub name: String,
    pub description: String,
    pub available: bool,
}

/// One captured frame, encoded for transport.
#[derive(Debug, Clone)]
pub struct CaptureResult {
    /// Base64-encoded image payload.
    pub image_data: String,
    pub mime_type: String,
    pub width: u32,
    pub height: u32,
    pub timestamp: String,
    pub camera_index: u32,
}

/// The local-device error taxonomy.
#[derive(Debug, Clone)]
pub enum WebcamError {
    CameraNotFound { index: u32 },
    CameraOpen(String),
    ImageProcessing(String),
    NoCamerasAvailable,
    LocalCamerasNotSupported,
}

/// The rendered message for each error, as a caller sees it.
pub open spec fn spec_webcam_error_message(e: WebcamError) -> Seq<char> {
    match e {
        WebcamError::CameraNotFound { index } => "Camera not found: "@ + crate::text::spec_decimal(
            index as nat,
        ),
        WebcamError::CameraOpen(m) => "Failed to open camera: "@ + m@,
        WebcamError::ImageProcessing(m) => "Image processing error: "@ + m@,
        WebcamError::NoCamerasAvailable => "No cameras available"@,
        WebcamError::LocalCamerasNotSupported => "Local camera support not compiled in"@,
    }
}

impl WebcamError {
    /// Renders the error as its human-readable message.
    pub fn message(&self) -> (r: String)
        ensures
            r@ == spec_webcam_error_message(*self),
    {
        match self {
            WebcamError::CameraNotFound { index } => {
                let s = String::from_str("Camera not found: ");
                s.concat(crate::text::u64_to_string(*index as u64).as_str())
            },
            WebcamError::CameraOpen(m) => {
                let s = String::from_str("Failed to open camera: ");
                s.concat(m.as_str())
            },
            WebcamError::ImageProcessing(m) => {
                let s = String::from_str("Image processing error: ");
                s.concat(m.as_str())
            },
            WebcamError::NoCamerasAvailable => String::from_str("No cameras available"),
            WebcamError::LocalCamerasNotSupported => String::from_str(
                "Local camera support not compiled in",
            ),
        }
    }
}

/// What the device subsystem reported when asked to enumerate devices.
pub enum CameraQuery {
    /// Enumeration succeeded, with one entry per device.
    Devices(Vec<CameraDevice>),
    /// The subsystem could be reached but the query failed.
    QueryFailed(String),
    /// Device support is absent altogether.
    Unsupported,
}

/// Name and description of one device, as the subsystem reports them.
pub struct CameraDevice {
    pub name: String,
    pub description: String,
}

/// The camera list built from an enumeration: one entry per device, indexed
/// in enumeration order, all marked available.
pub open spec fn spec_camera_list(d: Seq<CameraDevice>) -> Seq<CameraInfo> {
    Seq::new(
        d.len(),
        |i: int|
            CameraInfo {
                index: i as u32,
                name: d[i].name,
                description: d[i].description,
                available: true,
            },
    )
}

/// An event the session's state machine consumes.
pub enum SessionEvent {
    /// An attempt to open the device at `index` ended, successfully or not.
    Opened { index: u32, ok: bool },
    /// A capture attempt ended; on failure the handle may have died.
    Captured { ok: bool, handle_lost: bool },
}

/// How one event moves the session's open slot.
pub open spec fn spec_session_step(s: Option<u32>, ev: SessionEvent) -> Option<u32> {
    match ev {
        SessionEvent::Opened { index, ok } => if ok {
            Some(index)
        } else {
            None
        },
        SessionEvent::Captured { ok, handle_lost } => if !ok && handle_lost {
            None
        } else {
            s
        },
    }
}

/// The session's open slot after a whole run of events.
pub open spec fn spec_session_run(s: Option<u32>, evs: Seq<SessionEvent>) -> Option<u32>
    decreases evs.len(),
{
    if evs.len() == 0 {
        s
    } else {
        spec_session_step(spec_session_run(s, evs.drop_last()), evs.last())
    }
}

/// What a capture call must do before a frame can be taken, given the
/// session's current slot: which index it targets, whether that index must
/// be opened first, and which open handle must be released before that.
pub struct CapturePlan {
    pub target: u32,
    pub open_needed: bool,
    pub close_first: Option<u32>,
}

/// The plan for a capture request against a given session slot.
pub open spec fn spec_plan_capture(s: Option<u32>, requested: Option<u32>) -> CapturePlan {
    let target = spec_capture_target(requested);
    if s == Some(target) {
        CapturePlan { target, open_needed: false, close_first: None }
    } else {
        CapturePlan { target, open_needed: true, close_first: s }
    }
}

/// The single-slot record of which local device is open.
pub struct WebcamManager {
    pub current_index: Option<u32>,
}

/// Outcome of one frame grab from the open device.
pub enum FrameOutcome {
    /// A packed RGB8 frame with its dimensions.
    Frame { rgb: Vec<u8>, width: u32, height: u32 },
    /// The grab failed; `handle_lost` says whether the handle itself died.
    FrameError { message: String, handle_lost: bool },
}

impl WebcamManager {
    /// A fresh session with no open device.
    pub fn new() -> (s: Self)
        ensures
            s.current_index is None,
    {
        WebcamManager { current_index: None }
    }

    /// Which index is open, if any.
    pub fn get_current_camera_info(&self) -> (r: Option<u32>)
        ensures
            r == self.current_index,
    {
        self.current_index
    }

    /// Builds the camera list from an enumeration outcome. A failed query
    /// yields an empty list rather than an error; only absent device support
    /// is a hard failure.
    pub fn list_cameras(&self, q: CameraQuery) -> (r: Result<Vec<CameraInfo>, WebcamError>)
        requires
            q matches CameraQuery::Devices(d) ==> d@.len() <= u32::MAX,
        ensures
            q matches CameraQuery::Devices(d) ==> (r matches Ok(c) && c@ == spec_camera_list(d@)),
            q matches CameraQuery::QueryFailed(m) ==> (r matches Ok(c) && c@ =~= Seq::<
                CameraInfo,
            >::empty()),
            q is Unsupported ==> (r matches Err(e) && e is LocalCamerasNotSupported),
    {
        match q {
            CameraQuery::Devices(mut d) => {
                let ghost all = d@;
                let mut out: Vec<CameraInfo> = Vec::new();
                let mut i: u32 = 0;
                while d.len() > 0
                    invariant
                        all.len() <= u32::MAX,
                        i + d@.len() == all.len(),
                        d@ =~= all.skip(i as int),
                        out@.len() == i,
                        forall|k: int| 0 <= k < i ==> out@[k] == spec_camera_list(all)[k],
                    decreases d@.len(),
                {
                    let dev = d.remove(0);
                    proof {
                        assert(dev == all[i as int]);
                    }
                    out.push(
                        CameraInfo {
                            index: i,
                            name: dev.name,
                            description: dev.description,
                            available: true,
                        },
                    );
                    i += 1;
                    proof {
                        assert(d@ =~= all.skip(i as int));
                    }
                }
                proof {
                    assert(out@ =~= spec_camera_list(all));
                }
                Ok(out)
            },
            CameraQuery::QueryFailed(_m) => Ok(Vec::new()),
            CameraQuery::Unsupported => Err(WebcamError::LocalCamerasNotSupported),
        }
    }

    /// First half of an open: the currently open handle, if any, is released
    /// before a new open is attempted, so the slot is empty either way.
    /// Returns the index that must actually be released.
    pub fn open_camera_begin(&mut self) -> (prev: Option<u32>)
        ensures
            final(self).current_index is None,
            prev == old(self).current_index,
    {
        let prev = self.current_index;
        self.current_index = None;
        prev
    }

    /// Second half of an open: records the outcome reported for the device
    /// at `index`. On success the slot holds `index`; on failure it stays
    /// empty, never pointing at the released handle.
    pub fn open_camera_settle(&mut self, index: u32, outcome: Result<(), String>) -> (r: Result<
        (),
        WebcamError,
    >)
        ensures
            final(self).current_index == spec_session_step(
                old(self).current_index,
                SessionEvent::Opened { index, ok: outcome is Ok },
            ),
            outcome is Ok ==> r is Ok && final(self).current_index == Some(index),
            outcome matches Err(m) ==> (r matches Err(e) && e == WebcamError::CameraOpen(m))
                && final(self).current_index is None,
    {
        match outcome {
            Ok(()) => {
                self.current_index = Some(index);
                Ok(())
            },
            Err(m) => {
                self.current_index = None;
                Err(WebcamError::CameraOpen(m))
            },
        }
    }

    /// What a capture request will do: capture with no index targets the
    /// default index, a target equal to the open index reuses the handle,
    /// and any other target releases the open handle before opening its own.
    pub fn plan_capture(&self, requested: Option<u32>) -> (p: CapturePlan)
        ensures
            p == spec_plan_capture(self.current_index, requested),
    {
        let target = crate::capture_target(requested);
        let same = match self.current_index {
            Some(j) => j == target,
            None => false,
        };
        if same {
            CapturePlan { target, open_needed: false, close_first: None }
        } else {
            CapturePlan { target, open_needed: true, close_first: self.current_index }
        }
    }

    /// Settles the session after a frame grab on the open device and builds
    /// the capture result. A failed grab leaves the slot unchanged, or
    /// empties it when the handle itself died; it never leaves the slot
    /// pointing at a released handle.
    pub fn capture_image_settle(&mut self, target: u32, outcome: FrameOutcome) -> (r: Result<
        CaptureResult,
        WebcamError,
    >)
        requires
            old(self).current_index == Some(target),
        ensures
            final(self).current_index == old(self).current_index || final(self).current_index
                is None,
            outcome matches FrameOutcome::FrameError { message, handle_lost } ==> {
                &&& r matches Err(e) && e == WebcamError::CameraOpen(message)
                &&& final(self).current_index == spec_session_step(
                    old(self).current_index,
                    SessionEvent::Captured { ok: false, handle_lost },
                )
            },
            outcome matches FrameOutcome::Frame { rgb, width, height } ==> {
                &&& final(self).current_index == old(self).current_index
                &&& (r matches Ok(c) ==> rgb@.len() == 3 * (width as nat) * (height as nat)
                    && spec_capture_result_fields(c, rgb@, width, height, target))
                &&& (r matches Err(e) ==> e is ImageProcessing)
                &&& (rgb@.len() != 3 * (width as nat) * (height as nat) ==> r is Err)
                &&& (rgb@.len() == 3 * (width as nat) * (height as nat) && jpeg_accepts(
                    rgb@,
                    width,
                    height,
                ) && jpeg_of(rgb@, width, height).len() * 4 <= usize::MAX ==> r is Ok)
            },
    {
        match outcome {
            FrameOutcome::Frame { rgb, width, height } => encode_frame(rgb, width, height, target),
            FrameOutcome::FrameError { message, handle_lost } => {
                if handle_lost {
                    self.current_index = None;
                }
                Err(WebcamError::CameraOpen(message))
            },
        }
    }
}

impl Default for WebcamManager {
    /// A fresh session, exactly as `new` builds it.
    fn default() -> (s: Self)
        ensures
            s.current_index is None,
    {
        WebcamManager::new()
    }
}

/// The fields a capture result built from frame `rgb` of size
/// `width` x `height` on device `camera_index` must carry: the payload is
/// the base64 rendering of the JPEG encoding of the frame, and the
/// timestamp has the RFC 3339 shape.
pub open spec fn spec_capture_result_fields(
    c: CaptureResult,
    rgb: Seq<u8>,
    width: u32,
    height: u32,
    camera_index: u32,
) -> bool {
    &&& c.image_data@ == base64_of(jpeg_of(rgb, width, height))
    &&& c.mime_type@ == "image/jpeg"@
    &&& c.width == width
    &&& c.height == height
    &&& c.camera_index == camera_index
    &&& rfc3339_shaped(c.timestamp@)
}

/// Packs an already JPEG-encoded frame into a capture result. `None` only
/// when the payload is too large for the base64 engine's buffer arithmetic.
pub fn capture_result_from_jpeg(jpeg: &Vec<u8>, width: u32, height: u32, camera_index: u32) -> (r:
    Option<CaptureResult>)
    ensures
        jpeg@.len() * 4 <= usize::MAX ==> (r matches Some(c) && c.image_data@ == base64_of(jpeg@)
            && c.mime_type@ == "image/jpeg"@ && c.width == width && c.height == height
            && c.camera_index == camera_index && rfc3339_shaped(c.timestamp@)),
        jpeg@.len() * 4 > usize::MAX ==> r is None,
{
    if jpeg.len() > usize::MAX / 4 {
        return None;
    }
    let image_data = base64_encode(jpeg);
    Some(
        CaptureResult {
            image_data,
            mime_type: String::from_str("image/jpeg"),
            width,
            height,
            timestamp: now_rfc3339(),
            camera_index,
        },
    )
}

/// Encodes a packed RGB8 frame as JPEG and packs it into a capture result.
/// A buffer that does not match its dimensions, or one the encoder rejects,
/// is an image-processing error.
pub fn encode_frame(rgb: Vec<u8>, width: u32, height: u32, camera_index: u32) -> (r: Result<
    CaptureResult,
    WebcamError,
>)
    ensures
        r matches Ok(c) ==> rgb@.len() == 3 * (width as nat) * (height as nat)
            && spec_capture_result_fields(c, rgb@, width, height, camera_index),
        r matches Err(e) ==> e is ImageProcessing,
        rgb@.len() != 3 * (width as nat) * (height as nat) ==> r is Err,
        rgb@.len() == 3 * (width as nat) * (height as nat) && jpeg_accepts(rgb@, width, height)
            && jpeg_of(rgb@, width, height).len() * 4 <= usize::MAX ==> r is Ok,
{
    let w128 = width as u128;
    let h128 = height as u128;
    proof {
        assert(3 * w128 * h128 <= 3 * 0xffff_ffffu128 * 0xffff_ffffu128) by (nonlinear_arith)
            requires
                w128 <= 0xffff_ffffu128,
                h128 <= 0xffff_ffffu128,
        ;
    }
    let expected = 3u128 * w128 * h128;
    if (rgb.len() as u128) != expected {
        return Err(
            WebcamError::ImageProcessing(
                String::from_str("frame buffer does not match its dimensions"),
            ),
        );
    }
    let jpeg = match jpeg_encode(rgb, width, height) {
        Ok(j) => j,
        Err(m) => {
            return Err(WebcamError::ImageProcessing(m));
        },
    };
    match capture_result_from_jpeg(&jpeg, width, height, camera_index) {
        Some(c) => Ok(c),
        None => Err(
            WebcamError::ImageProcessing(String::from_str("encoded image too large to transport")),
        ),
    }
}

/// After a successful open of `index` the session reports exactly that
/// index; the slot being a single optional value, it never reports more
/// than one open index.
pub proof fn lemma_open_reports_current(s: Option<u32>, index: u32)
    ensures
        spec_session_step(s, SessionEvent::Opened { index, ok: true }) == Some(index),
{
}

/// A run of events that ends with a successful open of `index` reports
/// that index, whatever came before.
pub proof fn lemma_run_ends_with_open(s: Option<u32>, evs: Seq<SessionEvent>, index: u32)
    requires
        evs.len() > 0,
        evs.last() == (SessionEvent::Opened { index, ok: true }),
    ensures
        spec_session_run(s, evs) == Some(index),
{
}

/// A capture event never leaves the slot pointing at a released handle:
/// the slot stays what it was, or empties.
pub proof fn lemma_capture_settles(s: Option<u32>, ok: bool, handle_lost: bool)
    ensures
        spec_session_step(s, SessionEvent::Captured { ok, handle_lost }) == s
            || spec_session_step(s, SessionEvent::Captured { ok, handle_lost }) is None,
{
}

/// The event order of a capture call: a request without an index targets
/// the default one; a target equal to the open index reuses the handle with
/// nothing closed; any other target closes the open handle before its own
/// open; and from a closed session an open is always needed.
pub proof fn lemma_capture_plan_order(s: Option<u32>, requested: Option<u32>)
    ensures
        requested is None ==> spec_plan_capture(s, requested).target
            == crate::DEFAULT_CAMERA_INDEX,
        s is None ==> spec_plan_capture(s, requested).open_needed && spec_plan_capture(
            s,
            requested,
        ).close_first is None,
        (s matches Some(j) && j != spec_capture_target(requested)) ==> (spec_plan_capture(
            s,
            requested,
        ).close_first == s && spec_plan_capture(s, requested).open_needed),
        s == Some(spec_capture_target(requested)) ==> !spec_plan_capture(
            s,
            requested,
        ).open_needed && spec_plan_capture(s, requested).close_first is None,
{
}

/// Runs of session events compose: handling two calls one after the other
/// leaves the session exactly as running the second call's events from the
/// first call's final state. With the session held exclusively for each
/// whole call, concurrent calls serialize to such a composition, and the
/// second call's outcome is a function of the state the first left behind.
pub proof fn lemma_session_run_append(
    s: Option<u32>,
    evs1: Seq<SessionEvent>,
    evs2: Seq<SessionEvent>,
)
    ensures
        spec_session_run(s, evs1 + evs2) == spec_session_run(spec_session_run(s, evs1), evs2),
    decreases evs2.len(),
{
    if evs2.len() == 0 {
        assert(evs1 + evs2 =~= evs1);
    } else {
        lemma_session_run_append(s, evs1, evs2.drop_last());
        assert((evs1 + evs2).drop_last() =~= evs1 + evs2.drop_last());
        assert((evs1 + evs2).last() == evs2.last());
    }
}

} // verus!
