//! Sending a run of frames to one port, event by event.
//!
//! Each frame is written on an open connection, opening the device first
//! where none is held. A failed open is retried after the port's wait delay,
//! without end, or reported at once where the port has no delay. After each
//! frame the connection is closed where the port does not keep it open. A
//! reply may be read after the last frame. A write or read that fails with
//! the device-unhealthy category releases the connection, so the next use of
//! the port opens the device afresh; any other failure is reported and the
//! connection kept.

use vstd::prelude::*;

use crate::port::{Port, PortView};

verus! {

/// Category of a failed read or write.
#[derive(Debug, Clone, Copy, PartialEq, Eq, Structural)]
pub enum Failure {
    /// The device is gone or broken: its connection must be released.
    Unhealthy,
    /// Any other I/O error.
    Io,
}

/// Why a transmission failed.
#[derive(Debug, Clone, Copy, PartialEq, Eq, Structural)]
pub enum TransportError {
    /// The device could not be opened and the port has no wait delay.
    Open,
    Write(Failure),
    Read(Failure),
}

/// What the caller must do next on the device.
#[derive(Debug, Clone, Copy, PartialEq, Eq, Structural)]
pub enum Action {
    /// Open the device with the port's path, baud rate and timeout.
    Open,
    /// Wait this many milliseconds, after_close report `Slept`.
    Sleep(u64),
    /// Write the frame of this index, whole.
    Write(usize),
    /// Read exactly this many bytes of reply.
    Read(usize),
    /// Release the connection.
    Close,
    /// Nothing more to do: every frame, and the reply if any, went through.
    Done,
    /// Nothing more to do: the transmission failed.
    Failed(TransportError),
}

/// What happened when the caller did the last action.
#[derive(Debug, Clone, Copy, PartialEq, Eq, Structural)]
pub enum Event {
    Opened,
    OpenFailed,
    Slept,
    Written,
    WriteFailed(Failure),
    ReplyRead,
    ReadFailed(Failure),
    Closed,
}

/// A run of frames on its way to one port.
pub struct Transmission {
    frames: Vec<Vec<u8>>,
    reply_len: usize,
    written: usize,
    pending: Action,
    after_close: Option<Action>,
}

/// What a transmission is: its frames, the reply to read after the last one
/// (0 bytes for none), how many frames were written, the action the caller
/// must do next, and what follows the close where one is pending.
pub struct TxView {
    pub frames: Seq<Seq<u8>>,
    pub reply_len: nat,
    pub written: nat,
    pub pending: Action,
    pub after_close: Option<Action>,
}

/// The bytes of each frame.
pub open spec fn frame_views(frames: Seq<Vec<u8>>) -> Seq<Seq<u8>> {
    frames.map_values(|f: Vec<u8>| f@)
}

/// The first action of a transmission on `port`: write at once where a
/// connection is held, else open the device.
pub open spec fn first_action(port: PortView) -> Action {
    if port.connected {
        Action::Write(0)
    } else {
        Action::Open
    }
}

impl TxView {
    pub open spec fn with_pending(self, pending: Action) -> TxView {
        TxView { pending, ..self }
    }

    /// Consistency of the state: a write is always of the next frame, a read
    /// follows the last frame, success comes only after the last frame, and
    /// a close that leads on to another frame comes before the last frame.
    pub open spec fn wf(self) -> bool {
        &&& 1 <= self.frames.len() <= usize::MAX
        &&& self.reply_len <= usize::MAX
        &&& self.written <= self.frames.len()
        &&& (self.pending matches Action::Write(i) ==> i == self.written && i < self.frames.len())
        &&& (self.pending matches Action::Read(n) ==> n == self.reply_len && n > 0 && self.written
            == self.frames.len())
        &&& (self.pending is Open || self.pending is Sleep ==> self.written < self.frames.len())
        &&& (self.pending is Close && self.after_close is None ==> self.written < self.frames.len())
        &&& (self.pending is Done ==> self.written == self.frames.len())
        &&& (self.after_close matches Some(a) ==> a is Done || a is Failed)
        &&& (self.pending is Close && self.after_close == Some(Action::Done) ==> self.written
            == self.frames.len())
    }

    /// State after a frame, and its reply if any, went through.
    pub open spec fn after_frame(self, port: PortView) -> (TxView, PortView) {
        if !port.keep_open {
            let after_close = if self.written == self.frames.len() {
                Some(Action::Done)
            } else {
                None
            };
            (TxView { pending: Action::Close, after_close, ..self }, port.with_connection(false))
        } else if self.written == self.frames.len() {
            (self.with_pending(Action::Done), port)
        } else {
            (self.with_pending(Action::Write(self.written as usize)), port)
        }
    }

    /// State after a failed write or read: a device-unhealthy failure
    /// releases the connection and has it closed before the failure is
    /// reported; any other is reported at once.
    pub open spec fn after_failure(self, port: PortView, error: TransportError, failure: Failure) -> (
        TxView,
        PortView,
    ) {
        if failure is Unhealthy {
            (
                TxView { pending: Action::Close, after_close: Some(Action::Failed(error)), ..self },
                port.with_connection(false),
            )
        } else {
            (self.with_pending(Action::Failed(error)), port)
        }
    }

    /// The transition on `event`, from this state and `port`. An event that
    /// does not answer the pending action changes nothing.
    pub open spec fn next(self, port: PortView, event: Event) -> (TxView, PortView) {
        match (self.pending, event) {
            (Action::Open, Event::Opened) => (
                self.with_pending(Action::Write(self.written as usize)),
                port.with_connection(true),
            ),
            (Action::Open, Event::OpenFailed) => match port.wait_delay_ms {
                Some(delay) => (self.with_pending(Action::Sleep(delay)), port),
                None => (self.with_pending(Action::Failed(TransportError::Open)), port),
            },
            (Action::Sleep(_), Event::Slept) => (self.with_pending(Action::Open), port),
            (Action::Write(_), Event::Written) => {
                let t = TxView { written: self.written + 1, ..self };
                if t.written == t.frames.len() && t.reply_len > 0 {
                    (t.with_pending(Action::Read(t.reply_len as usize)), port)
                } else {
                    t.after_frame(port)
                }
            },
            (Action::Write(_), Event::WriteFailed(f)) => self.after_failure(
                port,
                TransportError::Write(f),
                f,
            ),
            (Action::Read(_), Event::ReplyRead) => self.after_frame(port),
            (Action::Read(_), Event::ReadFailed(f)) => self.after_failure(
                port,
                TransportError::Read(f),
                f,
            ),
            (Action::Close, Event::Closed) => match self.after_close {
                Some(last) => (self.with_pending(last), port),
                None => (self.with_pending(Action::Open), port),
            },
            _ => (self, port),
        }
    }

    /// Every transition keeps the state consistent.
    pub proof fn lemma_next_wf(self, port: PortView, event: Event)
        requires
            self.wf(),
        ensures
            self.next(port, event).0.wf(),
    {
    }

    /// Frames go out one at a time and in order: a write is always of the
    /// frame after those already written, the count of written frames grows
    /// by one exactly when a write went through, and the frames never change.
    pub proof fn lemma_writes_in_order(self, port: PortView, event: Event)
        requires
            self.wf(),
        ensures
            ({
                let n = self.next(port, event).0;
                &&& n.frames == self.frames
                &&& (n.pending matches Action::Write(i) ==> i == n.written && i < n.frames.len())
                &&& (n.written == self.written || (n.written == self.written + 1
                    && self.pending is Write && event == Event::Written))
            }),
    {
    }

    /// Once the last frame is written nothing more is written, whatever happens.
    pub proof fn lemma_no_write_after_last_frame(self, port: PortView, event: Event)
        requires
            self.wf(),
            self.written == self.frames.len(),
        ensures
            !(self.next(port, event).0.pending is Write),
            self.next(port, event).0.written == self.written,
    {
    }

    /// A transmission reports success only once every frame went through.
    pub proof fn lemma_done_after_all_frames(self, port: PortView, event: Event)
        requires
            self.wf(),
        ensures
            self.next(port, event).0.pending is Done ==> self.next(port, event).0.written
                == self.frames.len(),
    {
    }

    /// A write or read that fails as device-unhealthy releases the port's
    /// connection and has it closed; once that is done the transmission
    /// fails, and the next transmission on the port opens the device afresh.
    pub proof fn lemma_unhealthy_forces_reopen(self, port: PortView, event: Event)
        requires
            self.wf(),
            (self.pending is Write && event == Event::WriteFailed(Failure::Unhealthy)) || (
            self.pending is Read && event == Event::ReadFailed(Failure::Unhealthy)),
        ensures
            ({
                let (n, p) = self.next(port, event);
                let (m, q) = n.next(p, Event::Closed);
                &&& !p.connected
                &&& p == port.with_connection(false)
                &&& n.pending == Action::Close
                &&& m.pending is Failed
                &&& q == p
                &&& first_action(q) == Action::Open
            }),
    {
    }
}

impl View for Transmission {
    type V = TxView;

    closed spec fn view(&self) -> TxView {
        TxView {
            frames: frame_views(self.frames@),
            reply_len: self.reply_len as nat,
            written: self.written as nat,
            pending: self.pending,
            after_close: self.after_close,
        }
    }
}

impl Transmission {
    /// The frames, in the order they are written.
    pub open spec fn spec_frames(&self) -> Seq<Seq<u8>> {
        self@.frames
    }

    /// Bytes of reply to read after the last frame; 0 for none.
    pub open spec fn spec_reply_len(&self) -> nat {
        self@.reply_len
    }

    /// Frames written so far.
    pub open spec fn spec_written(&self) -> nat {
        self@.written
    }

    /// The action the caller must do next.
    pub open spec fn spec_pending(&self) -> Action {
        self@.pending
    }

    pub open spec fn wf(&self) -> bool {
        self@.wf()
    }

    /// A transmission of `frames` on `port`, after_close a reply of `reply_len`
    /// bytes where that is not 0. Run it at once: its first action is
    /// decided by whether `port` holds a connection now.
    pub fn new(frames: Vec<Vec<u8>>, reply_len: usize, port: &Port) -> (r: Transmission)
        requires
            frames@.len() >= 1,
        ensures
            r.wf(),
            r.spec_frames() == frame_views(frames@),
            r.spec_reply_len() == reply_len,
            r.spec_written() == 0,
            r.spec_pending() == first_action(port@),
    {
        let _ = frames.len();
        let pending = if port.connected() {
            Action::Write(0)
        } else {
            Action::Open
        };
        Transmission { frames, reply_len, written: 0, pending, after_close: None }
    }

    /// The action the caller must do next.
    pub fn pending(&self) -> (r: Action)
        ensures
            r == self.spec_pending(),
    {
        self.pending
    }

    pub fn frame_count(&self) -> (r: usize)
        ensures
            r == self.spec_frames().len(),
    {
        self.frames.len()
    }

    /// Frame `i`, as it goes over the wire.
    pub fn frame(&self, i: usize) -> (r: &Vec<u8>)
        requires
            i < self.spec_frames().len(),
        ensures
            r@ == self.spec_frames()[i as int],
    {
        &self.frames[i]
    }

    fn after_frame_exec(&mut self, port: &mut Port)
        ensures
            (final(self)@, final(port)@) == old(self)@.after_frame(old(port)@),
            final(self).frames == old(self).frames,
    {
        if !port.keep_open() {
            self.after_close = if self.written == self.frames.len() {
                Some(Action::Done)
            } else {
                None
            };
            self.pending = Action::Close;
            port.close();
        } else if self.written == self.frames.len() {
            self.pending = Action::Done;
        } else {
            self.pending = Action::Write(self.written);
        }
    }

    fn after_failure_exec(&mut self, port: &mut Port, error: TransportError, failure: Failure)
        ensures
            (final(self)@, final(port)@) == old(self)@.after_failure(old(port)@, error, failure),
    {
        match failure {
            Failure::Unhealthy => {
                self.after_close = Some(Action::Failed(error));
                self.pending = Action::Close;
                port.close();
            },
            Failure::Io => {
                self.pending = Action::Failed(error);
            },
        }
    }

    /// Takes in what happened on the device and returns what to do next.
    pub fn step(&mut self, port: &mut Port, event: Event) -> (r: Action)
        requires
            old(self).wf(),
        ensures
            (final(self)@, final(port)@) == old(self)@.next(old(port)@, event),
            final(self).wf(),
            r == final(self).spec_pending(),
    {
        match (self.pending, event) {
            (Action::Open, Event::Opened) => {
                self.pending = Action::Write(self.written);
                port.open_succeeded();
            },
            (Action::Open, Event::OpenFailed) => {
                match port.wait_delay_ms() {
                    Some(delay) => {
                        self.pending = Action::Sleep(delay);
                    },
                    None => {
                        self.pending = Action::Failed(TransportError::Open);
                    },
                }
            },
            (Action::Sleep(_), Event::Slept) => {
                self.pending = Action::Open;
            },
            (Action::Write(_), Event::Written) => {
                assert(self.written < self.frames@.len());
                self.written = self.written + 1;
                if self.written == self.frames.len() && self.reply_len > 0 {
                    self.pending = Action::Read(self.reply_len);
                } else {
                    self.after_frame_exec(port);
                }
            },
            (Action::Write(_), Event::WriteFailed(f)) => {
                self.after_failure_exec(port, TransportError::Write(f), f);
            },
            (Action::Read(_), Event::ReplyRead) => {
                self.after_frame_exec(port);
            },
            (Action::Read(_), Event::ReadFailed(f)) => {
                self.after_failure_exec(port, TransportError::Read(f), f);
            },
            (Action::Close, Event::Closed) => {
                match self.after_close {
                    Some(last) => {
                        self.pending = last;
                    },
                    None => {
                        self.pending = Action::Open;
                    },
                }
            },
            _ => {},
        }
        proof {
            old(self)@.lemma_next_wf(old(port)@, event);
        }
        self.pending
    }
}

} // verus!
