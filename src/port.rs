//! One side's serial port: its settings and whether a connection to the
//! device is held.
//!
//! The port itself performs no I/O. A [`Transmission`] decides, event by
//! event, what the caller must do on the device (open it, wait, write a
//! frame, read a reply, close it) and keeps the port's connection state in
//! step with what it asked for.

use vstd::prelude::*;

use crate::config::PortDto;
use crate::gray_image::GrayImage;
use crate::protocol::{
    commit_cols_bytes, commit_cols_frame, frame_bytes, send_col_bytes, send_col_frame,
    version_query_frame, Command, HEIGHT, RESPONSE_LEN, WIDTH,
};
use crate::transmission::{first_action, frame_views, Transmission};

verus! {

/// Why an image cannot be shown.
#[derive(Debug, Clone, Copy, PartialEq, Eq, Structural)]
pub enum DisplayError {
    /// The image is not 9 columns by 34 rows; these are its dimensions.
    WrongSize { width: u32, height: u32 },
}

/// Brightness values of column `c`, top to bottom.
pub open spec fn column_of(img: GrayImage, c: int) -> Seq<u8> {
    Seq::new(HEIGHT as nat, |r: int| img.pixel_at(c, r))
}

/// The frames that show `img`: one `SendCol` for each column, left to right,
/// then one `CommitCols`, so that a frame cut short never shows.
pub open spec fn display_frames(img: GrayImage) -> Seq<Seq<u8>> {
    Seq::new(
        (WIDTH + 1) as nat,
        |i: int|
            if i < WIDTH {
                send_col_bytes(i as u8, column_of(img, i))
            } else {
                commit_cols_bytes()
            },
    )
}

/// Showing an image takes ten frames: a `SendCol` for each column 0 to 8,
/// in order, each carrying that column's 34 brightness values, then one
/// `CommitCols`.
pub proof fn lemma_display_frames_shape(img: GrayImage)
    ensures
        display_frames(img).len() == 10,
        forall|i: int|
            0 <= i < 9 ==> {
                let f = #[trigger] display_frames(img)[i];
                &&& f.len() == 38
                &&& f[2] == Command::SendCol.spec_opcode()
                &&& f[3] == i
                &&& f.subrange(4, 38) == column_of(img, i)
            },
        display_frames(img)[9] == seq![0x32u8, 0xACu8, 0x08u8],
{
    assert forall|i: int| 0 <= i < 9 implies {
        let f = #[trigger] display_frames(img)[i];
        &&& f.len() == 38
        &&& f[2] == Command::SendCol.spec_opcode()
        &&& f[3] == i
        &&& f.subrange(4, 38) == column_of(img, i)
    } by {
        let f = display_frames(img)[i];
        assert(f.subrange(4, 38) =~= column_of(img, i));
    }
    assert(display_frames(img)[9] =~= seq![0x32u8, 0xACu8, 0x08u8]);
}

/// Whether `img` has the display's native size.
pub open spec fn fits_display(img: GrayImage) -> bool {
    img.spec_width() == WIDTH && img.spec_height() == HEIGHT
}

/// What a port is: its settings, and whether a connection is held.
pub struct PortView {
    pub path: Seq<char>,
    pub baud_rate: u32,
    pub timeout_ms: u64,
    pub keep_open: bool,
    pub wait_delay_ms: Option<u64>,
    /// A connection is held: only after a successful open, until a close.
    pub connected: bool,
}

impl PortView {
    /// The same port with its connection held or released.
    pub open spec fn with_connection(self, connected: bool) -> PortView {
        PortView { connected, ..self }
    }
}

/// A serial port: settings that never change, and whether a connection is held.
#[derive(Debug)]
pub struct Port {
    path: String,
    baud_rate: u32,
    timeout_ms: u64,
    keep_open: bool,
    wait_delay_ms: Option<u64>,
    connected: bool,
}

impl View for Port {
    type V = PortView;

    closed spec fn view(&self) -> PortView {
        PortView {
            path: self.path@,
            baud_rate: self.baud_rate,
            timeout_ms: self.timeout_ms,
            keep_open: self.keep_open,
            wait_delay_ms: self.wait_delay_ms,
            connected: self.connected,
        }
    }
}

impl Port {
    pub open spec fn spec_path(&self) -> Seq<char> {
        self@.path
    }

    pub open spec fn spec_baud_rate(&self) -> u32 {
        self@.baud_rate
    }

    pub open spec fn spec_timeout_ms(&self) -> u64 {
        self@.timeout_ms
    }

    pub open spec fn spec_keep_open(&self) -> bool {
        self@.keep_open
    }

    pub open spec fn spec_wait_delay_ms(&self) -> Option<u64> {
        self@.wait_delay_ms
    }

    /// Whether a connection is held: only after a successful open, until a close.
    pub open spec fn is_connected(&self) -> bool {
        self@.connected
    }

    /// A port with the given settings and no connection yet: it opens on first use.
    pub fn try_from(value: PortDto) -> (r: Port)
        ensures
            r.spec_path() == value.path@,
            r.spec_baud_rate() == value.baud_rate,
            r.spec_timeout_ms() == value.timeout_ms,
            r.spec_keep_open() == value.keep_open,
            r.spec_wait_delay_ms() == value.wait_delay_ms,
            !r.is_connected(),
    {
        Port {
            path: value.path,
            baud_rate: value.baud_rate,
            timeout_ms: value.timeout_ms,
            keep_open: value.keep_open,
            wait_delay_ms: value.wait_delay_ms,
            connected: false,
        }
    }

    /// Device path to open.
    pub fn path(&self) -> (r: &String)
        ensures
            r@ == self.spec_path(),
    {
        &self.path
    }

    pub fn baud_rate(&self) -> (r: u32)
        ensures
            r == self.spec_baud_rate(),
    {
        self.baud_rate
    }

    /// I/O timeout, in milliseconds.
    pub fn timeout_ms(&self) -> (r: u64)
        ensures
            r == self.spec_timeout_ms(),
    {
        self.timeout_ms
    }

    pub fn keep_open(&self) -> (r: bool)
        ensures
            r == self.spec_keep_open(),
    {
        self.keep_open
    }

    /// Delay between attempts to open the device, in milliseconds; without
    /// one a failed open is reported at once.
    pub fn wait_delay_ms(&self) -> (r: Option<u64>)
        ensures
            r == self.spec_wait_delay_ms(),
    {
        self.wait_delay_ms
    }

    pub fn connected(&self) -> (r: bool)
        ensures
            r == self.is_connected(),
    {
        self.connected
    }

    /// Drops the connection; nothing happens where none is held.
    pub fn close(&mut self)
        ensures
            final(self)@ == old(self)@.with_connection(false),
    {
        self.connected = false;
    }

    /// The frames that show `img` on this port, ready to send; an image that
    /// is not 9 by 34 is refused before anything is sent.
    pub fn display_gray_image(&self, img: &GrayImage) -> (r: Result<Transmission, DisplayError>)
        ensures
            r is Err <==> !fits_display(*img),
            r matches Err(DisplayError::WrongSize { width, height }) ==> width == img.spec_width()
                && height == img.spec_height(),
            r matches Ok(t) ==> {
                &&& t.wf()
                &&& t.spec_frames() == display_frames(*img)
                &&& t.spec_reply_len() == 0
                &&& t.spec_written() == 0
                &&& t.spec_pending() == first_action(self@)
            },
    {
        let width = img.width();
        let height = img.height();
        if width != WIDTH as u32 || height != HEIGHT as u32 {
            return Err(DisplayError::WrongSize { width, height });
        }
        let mut frames: Vec<Vec<u8>> = Vec::with_capacity(WIDTH + 1);
        let mut col: usize = 0;
        while col < WIDTH
            invariant
                col <= WIDTH,
                fits_display(*img),
                frames@.len() == col,
                frame_views(frames@) == display_frames(*img).subrange(0, col as int),
            decreases WIDTH - col,
        {
            let mut brightnesses: Vec<u8> = Vec::with_capacity(HEIGHT);
            let mut row: usize = 0;
            while row < HEIGHT
                invariant
                    row <= HEIGHT,
                    col < WIDTH,
                    fits_display(*img),
                    brightnesses@ == column_of(*img, col as int).subrange(0, row as int),
                decreases HEIGHT - row,
            {
                brightnesses.push(img.get_pixel(col as u32, row as u32));
                row = row + 1;
                assert(brightnesses@ =~= column_of(*img, col as int).subrange(0, row as int));
            }
            assert(brightnesses@ =~= column_of(*img, col as int));
            let frame = send_col_frame(col as u8, brightnesses.as_slice());
            let ghost before = frames@;
            frames.push(frame);
            assert(frames@ == before.push(frame));
            assert(display_frames(*img)[col as int] == send_col_bytes(col as u8, column_of(*img, col as int)));
            col = col + 1;
            assert forall|i: int| 0 <= i < col implies #[trigger] frame_views(frames@)[i]
                == display_frames(*img).subrange(0, col as int)[i] by {
                if i < col - 1 {
                    assert(frame_views(before)[i] == display_frames(*img).subrange(0, col - 1)[i]);
                } else {
                    assert(frame_views(frames@)[i] == frames@[i]@);
                    assert(frames@[i] == frame);
                }
            }
            assert(frame_views(frames@) =~= display_frames(*img).subrange(0, col as int));
        }
        let ghost before = frames@;
        let commit = commit_cols_frame();
        frames.push(commit);
        assert(frames@ == before.push(commit));
        assert forall|i: int| 0 <= i <= WIDTH implies #[trigger] frame_views(frames@)[i]
            == display_frames(*img)[i] by {
            if i < WIDTH {
                assert(frame_views(before)[i] == display_frames(*img).subrange(0, WIDTH as int)[i]);
            }
        }
        assert(frame_views(frames@) =~= display_frames(*img));
        Ok(Transmission::new(frames, 0, self))
    }

    /// The version query for this port: one frame, then a 32-byte reply,
    /// which `DeviceVersion::from_response` decodes.
    pub fn get_device_version(&self) -> (r: Transmission)
        ensures
            r.wf(),
            r.spec_frames() == seq![frame_bytes(Command::Version, Seq::empty())],
            r.spec_reply_len() == RESPONSE_LEN,
            r.spec_written() == 0,
            r.spec_pending() == first_action(self@),
    {
        let frames: Vec<Vec<u8>> = vec![version_query_frame()];
        assert(frame_views(frames@) =~= seq![frame_bytes(Command::Version, Seq::empty())]);
        Transmission::new(frames, RESPONSE_LEN, self)
    }

    /// Records that the device was opened.
    pub(crate) fn open_succeeded(&mut self)
        ensures
            final(self)@ == old(self)@.with_connection(true),
    {
        self.connected = true;
    }
}

} // verus!
