//! The decision core of the async-to-sync bridge. A background task owns a
//! `WorkerCore`; the synchronous facade talks to it over a bounded
//! command/response channel pair. Everything the worker decides — how a
//! delivered buffer becomes a response, what a reconfiguration does to the
//! session and the stored request — lives here with contracts; the channels,
//! the executor and the actual device calls stay outside.

use vstd::prelude::*;

use crate::config::CameraConfig;
use crate::config::Priority;
use crate::fourcc::PixelFormat;
use crate::stream::CaptureSession;
use crate::stream::StreamState;

verus! {

/// What the facade asks of the background task.
#[derive(Clone, Copy, Debug, PartialEq, Eq, Structural)]
pub enum Command {
    /// Deliver the next frame.
    NextFrame,
    /// Tear the session down, reopen at the given size and restart.
    SetResolution(u32, u32),
    /// Shut the task down.
    Stop,
}

/// What the background task answers.
#[derive(Debug)]
pub enum Response {
    /// One frame, copied into an owned buffer for the crossing.
    FrameData { width: u32, height: u32, data: Vec<u8>, fourcc: u32 },
    /// A property change completed.
    PropertySet,
    /// Something failed; the text explains.
    ErrorMsg(String),
    /// The stream ended.
    EndOfStream,
}

/// The raw four-character code a format travels as across the bridge.
pub open spec fn fourcc_code_of(f: PixelFormat) -> u32 {
    match f {
        PixelFormat::Known(cc) => cc.0,
        PixelFormat::Unknown(v) => v,
    }
}

/// Extracts the raw code a format travels as across the bridge.
pub fn fourcc_code(f: PixelFormat) -> (r: u32)
    ensures
        r == fourcc_code_of(f),
{
    match f {
        PixelFormat::Known(cc) => cc.0,
        PixelFormat::Unknown(v) => v,
    }
}

/// The state the background task owns: the current session — absent before
/// the first successful open and between teardown and reopen during a hot
/// reload — and the request the next (re)open will use. The command channel
/// itself never changes identity.
pub struct WorkerCore {
    session: Option<CaptureSession>,
    config: CameraConfig,
}

impl WorkerCore {
    /// The structural invariant: whatever session is present is well-formed.
    pub closed spec fn wf(&self) -> bool {
        match self.session {
            Some(s) => s.wf(),
            None => true,
        }
    }

    /// The session the worker currently owns, if any.
    pub closed spec fn spec_session(&self) -> Option<CaptureSession> {
        self.session
    }

    /// The request the next open will use.
    pub closed spec fn spec_config(&self) -> CameraConfig {
        self.config
    }

    /// A worker with no session yet, remembering the initial request.
    pub fn new(config: CameraConfig) -> (r: Self)
        ensures
            r.wf(),
            r.spec_session() is None,
            r.spec_config() == config,
    {
        WorkerCore { session: None, config }
    }

    /// Installs a freshly opened session (after the initial open or a
    /// successful reload).
    pub fn adopt_session(&mut self, s: CaptureSession)
        requires
            old(self).wf(),
            s.wf(),
        ensures
            final(self).wf(),
            final(self).spec_session() == Some(s),
            final(self).spec_config() == old(self).spec_config(),
    {
        self.session = Some(s);
    }

    /// Whether a session is currently installed.
    pub fn has_session(&self) -> (r: bool)
        ensures
            r == (self.spec_session() is Some),
    {
        self.session.is_some()
    }

    /// The request the next open will use.
    pub fn config(&self) -> (r: &CameraConfig)
        ensures
            *r == self.spec_config(),
    {
        &self.config
    }

    /// The answer to `NextFrame` when no session is installed.
    pub fn missing_session_response(&self) -> (r: Response)
        ensures
            r matches Response::ErrorMsg(m) && m@ == "Camera not opened"@,
    {
        Response::ErrorMsg("Camera not opened".to_owned())
    }

    /// Turns one buffer the backend delivered into the response to
    /// `NextFrame`: frame data on a running session with an acceptable
    /// payload, an error text otherwise (and then whatever session was
    /// installed is untouched).
    pub fn on_frame(&mut self, data: Vec<u8>, stride: usize, hw_ns: u64, arrival_ns: u64) -> (r:
        Response)
        requires
            old(self).wf(),
        ensures
            final(self).wf(),
            final(self).spec_config() == old(self).spec_config(),
            old(self).spec_session() is None ==> (r matches Response::ErrorMsg(_)
                && final(self).spec_session() is None),
            ({
                let s = old(self).spec_session();
                s matches Some(s) ==> {
                    &&& final(self).spec_session() is Some
                    &&& (s.spec_state() == StreamState::Running && s.spec_sequence() < u64::MAX
                        && s.payload_ok(data@.len() as int, stride as int)) ==> {
                        &&& r matches Response::FrameData { width, height, data: d, fourcc }
                            && width == s.spec_fmt().width && height == s.spec_fmt().height && d@
                            == data@ && fourcc == fourcc_code_of(s.spec_fmt().format)
                        &&& final(self).spec_session().unwrap().spec_sequence()
                            == s.spec_sequence() + 1
                        &&& final(self).spec_session().unwrap().spec_fmt() == s.spec_fmt()
                        &&& final(self).spec_session().unwrap().spec_state()
                            == StreamState::Running
                    }
                    &&& !(s.spec_state() == StreamState::Running && s.spec_sequence() < u64::MAX
                        && s.payload_ok(data@.len() as int, stride as int)) ==> (
                    r matches Response::ErrorMsg(_) && final(self).spec_session() == Some(s))
                }
            }),
    {
        let taken = self.session.take();
        match taken {
            None => {
                self.session = taken;
                Response::ErrorMsg("Camera not opened".to_owned())
            },
            Some(mut s) => {
                if s.sequence() == u64::MAX {
                    self.session = Some(s);
                    return Response::ErrorMsg("Frame counter exhausted".to_owned());
                }
                let res = s.accept_buffer(data, stride, hw_ns, arrival_ns);
                self.session = Some(s);
                match res {
                    Ok(frame) => {
                        let fourcc = fourcc_code(frame.format);
                        Response::FrameData {
                            width: frame.width,
                            height: frame.height,
                            data: frame.data,
                            fourcc,
                        }
                    },
                    Err(e) => Response::ErrorMsg(e.into_message()),
                }
            },
        }
    }

    /// Begins a hot reload for `SetResolution(w, h)`: the session leaves the
    /// worker (the caller stops and drops it, releasing the device before the
    /// driver reopens), and the stored request becomes a fresh one demanding
    /// exactly `w` by `h`.
    pub fn begin_reconfigure(&mut self, w: u32, h: u32) -> (r: Option<CaptureSession>)
        requires
            old(self).wf(),
        ensures
            final(self).wf(),
            final(self).spec_session() is None,
            r == old(self).spec_session(),
            final(self).spec_config().resolution_req@ === Seq::<(u32, u32, Priority)>::empty()
                .push((w, h, Priority::Required)),
            final(self).spec_config().fps_req is None,
            final(self).spec_config().format_req@ === Seq::<(PixelFormat, Priority)>::empty(),
            final(self).spec_config().buffer_count == 3,
    {
        let taken = self.session.take();
        self.config = CameraConfig::new().resolution(w, h, Priority::Required);
        taken
    }

    /// Completes a hot reload whose reopen succeeded: the new session is
    /// installed and the facade learns that the property was set.
    pub fn complete_reconfigure(&mut self, s: CaptureSession) -> (r: Response)
        requires
            old(self).wf(),
            s.wf(),
        ensures
            final(self).wf(),
            final(self).spec_session() == Some(s),
            final(self).spec_config() == old(self).spec_config(),
            r matches Response::PropertySet,
    {
        self.session = Some(s);
        Response::PropertySet
    }

    /// Completes a hot reload whose reopen failed: the worker stays without a
    /// session — later `NextFrame` commands fail cleanly until a reconfigure
    /// succeeds — and the facade gets the error text.
    pub fn fail_reconfigure(&mut self, msg: String) -> (r: Response)
        requires
            old(self).wf(),
        ensures
            final(self).wf(),
            final(self).spec_session() is None,
            final(self).spec_config() == old(self).spec_config(),
            r matches Response::ErrorMsg(m) && m@ == msg@,
    {
        self.session = None;
        Response::ErrorMsg(msg)
    }

    /// Shuts the worker down (on `Stop` or a closed command channel): the
    /// session leaves the worker so the caller can stop and drop it,
    /// releasing the hardware.
    pub fn on_stop(&mut self) -> (r: Option<CaptureSession>)
        requires
            old(self).wf(),
        ensures
            final(self).wf(),
            final(self).spec_session() is None,
            r == old(self).spec_session(),
    {
        self.session.take()
    }
}

/// The width and height packed into one 64-bit frame-size word, as Media
/// Foundation media types carry them: width in the high half, height in the
/// low half.
pub fn parse_frame_size(frame_size: u64) -> (r: (u32, u32))
    ensures
        r.0 == frame_size / 0x1_0000_0000,
        r.1 == frame_size % 0x1_0000_0000,
{
    let width = (frame_size / 0x1_0000_0000) as u32;
    let height = (frame_size % 0x1_0000_0000) as u32;
    (width, height)
}

/// Packs width and height into the 64-bit frame-size word of a Media
/// Foundation media type.
pub fn pack_frame_size(width: u32, height: u32) -> (r: u64)
    ensures
        r == width * 0x1_0000_0000 + height,
        r / 0x1_0000_0000 == width,
        r % 0x1_0000_0000 == height,
{
    let r = (width as u64) * 0x1_0000_0000 + (height as u64);
    proof {
        assert(r / 0x1_0000_0000 == width && r % 0x1_0000_0000 == height) by (nonlinear_arith)
            requires
                r == width * 0x1_0000_0000 + height,
                width <= 0xFFFF_FFFF,
                height <= 0xFFFF_FFFF,
        ;
    }
    r
}

} // verus!
