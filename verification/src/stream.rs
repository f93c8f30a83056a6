//! The capture session: the verified core of a stream's data plane. It owns
//! the session state machine (`Idle` / `Running`), the frame counter and the
//! clock synchronizer, validates every buffer the backend delivers, and
//! assembles well-formed frames.

use vstd::prelude::*;

use crate::clock::spec_correct;
use crate::clock::window_after;
use crate::clock::ClockSynchronizer;
use crate::error::CameraError;
use crate::frame::Frame;
use crate::frame::FrameMetadata;
use crate::frame::Timestamp;
use crate::negotiate::NegotiatedFormat;

verus! {

/// The states of a session: buffers are only delivered while `Running`.
#[derive(Clone, Copy, Debug, PartialEq, Eq, Structural)]
pub enum StreamState {
    Idle,
    Running,
}

/// The number of PLL samples a session's synchronizer keeps.
pub const SESSION_PLL_WINDOW: usize = 30;

/// One capture session, created from a negotiated format and torn down as a
/// whole on reconfiguration.
pub struct CaptureSession {
    state: StreamState,
    fmt: NegotiatedFormat,
    clock: ClockSynchronizer,
    sequence: u64,
    buffer_count: usize,
}

impl CaptureSession {
    /// The structural invariant.
    pub closed spec fn wf(&self) -> bool {
        self.clock.wf()
    }

    /// The session's state.
    pub closed spec fn spec_state(&self) -> StreamState {
        self.state
    }

    /// The format the session was configured with.
    pub closed spec fn spec_fmt(&self) -> NegotiatedFormat {
        self.fmt
    }

    /// The sequence number of the last delivered frame (0 before the first).
    pub closed spec fn spec_sequence(&self) -> u64 {
        self.sequence
    }

    /// The session's clock synchronizer.
    pub closed spec fn spec_clock(&self) -> ClockSynchronizer {
        self.clock
    }

    /// The ring depth the session was configured with.
    pub closed spec fn spec_buffer_count(&self) -> usize {
        self.buffer_count
    }

    /// A fresh session in `Idle`, with an empty clock window and the frame
    /// counter at zero.
    pub fn new(fmt: NegotiatedFormat, buffer_count: usize) -> (r: Self)
        ensures
            r.wf(),
            r.spec_state() == StreamState::Idle,
            r.spec_fmt() == fmt,
            r.spec_sequence() == 0,
            r.spec_buffer_count() == buffer_count,
            r.spec_clock().spec_history().len() == 0,
            r.spec_clock().spec_window_size() == SESSION_PLL_WINDOW,
    {
        CaptureSession {
            state: StreamState::Idle,
            fmt,
            clock: ClockSynchronizer::new(SESSION_PLL_WINDOW),
            sequence: 0,
            buffer_count,
        }
    }

    /// The sequence number of the last delivered frame.
    pub fn sequence(&self) -> (r: u64)
        ensures
            r == self.spec_sequence(),
    {
        self.sequence
    }

    /// The session's state, for callers.
    pub fn state(&self) -> (r: StreamState)
        ensures
            r == self.spec_state(),
    {
        self.state
    }

    /// The negotiated format, for callers.
    pub fn negotiated(&self) -> (r: NegotiatedFormat)
        ensures
            r == self.spec_fmt(),
    {
        self.fmt
    }

    /// Enables delivery. Idempotent: starting a running session changes
    /// nothing and still succeeds.
    pub fn start(&mut self) -> (r: Result<(), CameraError>)
        requires
            old(self).wf(),
        ensures
            final(self).wf(),
            r is Ok,
            final(self).spec_state() == StreamState::Running,
            final(self).spec_fmt() == old(self).spec_fmt(),
            final(self).spec_sequence() == old(self).spec_sequence(),
            final(self).spec_clock() == old(self).spec_clock(),
            final(self).spec_buffer_count() == old(self).spec_buffer_count(),
    {
        self.state = StreamState::Running;
        Ok(())
    }

    /// Disables delivery. Idempotent: stopping an idle session changes
    /// nothing and still succeeds.
    pub fn stop(&mut self) -> (r: Result<(), CameraError>)
        requires
            old(self).wf(),
        ensures
            final(self).wf(),
            r is Ok,
            final(self).spec_state() == StreamState::Idle,
            final(self).spec_fmt() == old(self).spec_fmt(),
            final(self).spec_sequence() == old(self).spec_sequence(),
            final(self).spec_clock() == old(self).spec_clock(),
            final(self).spec_buffer_count() == old(self).spec_buffer_count(),
    {
        self.state = StreamState::Idle;
        Ok(())
    }

    /// Whether a payload of `data_len` bytes is acceptable for the session's
    /// format and the stride the driver reported: compressed formats carry
    /// whatever the driver says, uncompressed ones must cover every row.
    pub open spec fn payload_ok(&self, data_len: int, stride: int) -> bool {
        self.spec_fmt().format.spec_is_compressed() || data_len >= stride * self.spec_fmt().height
    }

    /// Takes one buffer the backend delivered and turns it into a frame.
    ///
    /// In `Idle` the call fails with `Io` and changes nothing — buffers are
    /// only accepted on a started session. In `Running`, a payload too short
    /// for the reported stride is rejected with `Io`, again changing nothing;
    /// an acceptable payload advances the frame counter, feeds the clock
    /// synchronizer and yields a well-formed frame carrying the corrected
    /// timestamp.
    pub fn accept_buffer(
        &mut self,
        data: Vec<u8>,
        stride: usize,
        hw_ns: u64,
        arrival_ns: u64,
    ) -> (r: Result<Frame, CameraError>)
        requires
            old(self).wf(),
            old(self).spec_sequence() < u64::MAX,
        ensures
            final(self).wf(),
            old(self).spec_state() == StreamState::Idle ==> {
                &&& *final(self) == *old(self)
                &&& r matches Err(e) && e matches CameraError::Io(m) && m@
                    == "Stream not started"@
            },
            old(self).spec_state() == StreamState::Running && !old(self).payload_ok(
                data@.len() as int,
                stride as int,
            ) ==> {
                &&& *final(self) == *old(self)
                &&& r matches Err(e) && e matches CameraError::Io(m) && m@
                    == "Buffer too short for negotiated geometry"@
            },
            old(self).spec_state() == StreamState::Running && old(self).payload_ok(
                data@.len() as int,
                stride as int,
            ) ==> {
                &&& r matches Ok(f)
                &&& f.wf()
                &&& f.data@ == data@
                &&& f.width == old(self).spec_fmt().width
                &&& f.height == old(self).spec_fmt().height
                &&& f.stride == stride
                &&& f.format == old(self).spec_fmt().format
                &&& f.sequence == old(self).spec_sequence() + 1
                &&& f.timestamp.hw_raw_ns == hw_ns
                &&& f.timestamp.system_synced_ns == spec_correct(
                    final(self).spec_clock().spec_history(),
                    hw_ns,
                )
                &&& final(self).spec_state() == StreamState::Running
                &&& final(self).spec_fmt() == old(self).spec_fmt()
                &&& final(self).spec_sequence() == old(self).spec_sequence() + 1
                &&& final(self).spec_buffer_count() == old(self).spec_buffer_count()
                &&& final(self).spec_clock().spec_history() == window_after(
                    old(self).spec_clock().spec_history(),
                    old(self).spec_clock().spec_window_size() as int,
                    hw_ns,
                    arrival_ns,
                )
            },
    {
        if matches!(self.state, StreamState::Idle) {
            return Err(CameraError::Io("Stream not started".to_owned()));
        }
        if !self.fmt.format.is_compressed() {
            let dlen = data.len();
            let need = stride.checked_mul(self.fmt.height as usize);
            let long_enough = match need {
                Some(n) => dlen >= n,
                None => false,
            };
            if !long_enough {
                return Err(CameraError::Io("Buffer too short for negotiated geometry".to_owned()));
            }
        }

        let synced = self.clock.correct(hw_ns, arrival_ns);
        self.sequence = self.sequence + 1;

        Ok(
            Frame {
                data,
                width: self.fmt.width,
                height: self.fmt.height,
                stride,
                format: self.fmt.format,
                sequence: self.sequence,
                timestamp: Timestamp { hw_raw_ns: hw_ns, system_synced_ns: synced },
                metadata: FrameMetadata::default(),
            },
        )
    }

    /// The simulation escape hatch of real hardware sessions: frame injection
    /// is not supported and says so.
    pub fn inject_frame(&mut self, frame: Frame) -> (r: Result<(), CameraError>)
        requires
            old(self).wf(),
        ensures
            final(self).wf(),
            *final(self) == *old(self),
            r matches Err(e) && e matches CameraError::SimulationError(m) && m@
                == "Not supported on a hardware session"@,
    {
        let _ = frame;
        Err(CameraError::SimulationError("Not supported on a hardware session".to_owned()))
    }
}

} // verus!
