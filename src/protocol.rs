//! Framing of device commands.
//!
//! Every command is laid out in a fixed 64-byte buffer: two magic bytes, one
//! opcode byte, then the opcode's arguments, left-aligned, with the rest of the
//! buffer zero. Only the first `3 + args.len()` bytes go over the wire.

use vstd::prelude::*;

verus! {

/// First byte of the protocol's magic marker.
pub const MAGIC_0: u8 = 0x32;

/// Second byte of the protocol's magic marker.
pub const MAGIC_1: u8 = 0xAC;

/// Size of the buffer that a command is laid out in.
pub const FRAME_SIZE: usize = 64;

/// Bytes before the arguments: the magic marker and the opcode.
pub const HEADER_LEN: usize = 3;

/// Most argument bytes that fit in one frame.
pub const MAX_ARGS_LEN: usize = 61;

/// Columns of the display.
pub const WIDTH: usize = 9;

/// Rows of the display.
pub const HEIGHT: usize = 34;

/// Bytes of the device's reply to a query.
pub const RESPONSE_LEN: usize = 32;

/// The device's command set.
#[derive(Clone, Copy, Debug, PartialEq, Eq, Structural)]
pub enum Command {
    Brightness,
    Pattern,
    Bootloader,
    Sleeping,
    Animate,
    Panic,
    DisplayBwImage,
    SendCol,
    CommitCols,
    B1Reserved,
    StartGame,
    GameControl,
    GameStatus,
    SetColor,
    DisplayOn,
    InvertScreen,
    SetPixelColumn,
    FlushFramebuffer,
    ClearRam,
    ScreenSaver,
    Fps,
    PowerMode,
    AnimationPeriod,
    PwmFreq,
    DebugMode,
    Version,
}

impl Command {
    /// The byte that identifies the command on the wire.
    pub open spec fn spec_opcode(self) -> u8 {
        match self {
            Command::Brightness => 0x00,
            Command::Pattern => 0x01,
            Command::Bootloader => 0x02,
            Command::Sleeping => 0x03,
            Command::Animate => 0x04,
            Command::Panic => 0x05,
            Command::DisplayBwImage => 0x06,
            Command::SendCol => 0x07,
            Command::CommitCols => 0x08,
            Command::B1Reserved => 0x09,
            Command::StartGame => 0x10,
            Command::GameControl => 0x11,
            Command::GameStatus => 0x12,
            Command::SetColor => 0x13,
            Command::DisplayOn => 0x14,
            Command::InvertScreen => 0x15,
            Command::SetPixelColumn => 0x16,
            Command::FlushFramebuffer => 0x17,
            Command::ClearRam => 0x18,
            Command::ScreenSaver => 0x19,
            Command::Fps => 0x1A,
            Command::PowerMode => 0x1B,
            Command::AnimationPeriod => 0x1C,
            Command::PwmFreq => 0x1E,
            Command::DebugMode => 0x1F,
            Command::Version => 0x20,
        }
    }

    #[verifier::when_used_as_spec(spec_opcode)]
    pub fn opcode(self) -> (r: u8)
        ensures
            r == self.spec_opcode(),
    {
        match self {
            Command::Brightness => 0x00,
            Command::Pattern => 0x01,
            Command::Bootloader => 0x02,
            Command::Sleeping => 0x03,
            Command::Animate => 0x04,
            Command::Panic => 0x05,
            Command::DisplayBwImage => 0x06,
            Command::SendCol => 0x07,
            Command::CommitCols => 0x08,
            Command::B1Reserved => 0x09,
            Command::StartGame => 0x10,
            Command::GameControl => 0x11,
            Command::GameStatus => 0x12,
            Command::SetColor => 0x13,
            Command::DisplayOn => 0x14,
            Command::InvertScreen => 0x15,
            Command::SetPixelColumn => 0x16,
            Command::FlushFramebuffer => 0x17,
            Command::ClearRam => 0x18,
            Command::ScreenSaver => 0x19,
            Command::Fps => 0x1A,
            Command::PowerMode => 0x1B,
            Command::AnimationPeriod => 0x1C,
            Command::PwmFreq => 0x1E,
            Command::DebugMode => 0x1F,
            Command::Version => 0x20,
        }
    }
}

/// The bytes that go over the wire for `command` with `args`.
pub open spec fn frame_bytes(command: Command, args: Seq<u8>) -> Seq<u8> {
    seq![MAGIC_0, MAGIC_1, command.spec_opcode()] + args
}

/// The full 64-byte buffer for `command` with `args`: the wire bytes, then zeros.
pub open spec fn frame_buffer(command: Command, args: Seq<u8>) -> Seq<u8> {
    frame_bytes(command, args) + Seq::new((FRAME_SIZE - HEADER_LEN - args.len()) as nat, |_i: int| 0u8)
}

/// Lays out `command` and `args` in a zeroed 64-byte buffer.
pub fn prepare_command_buffer(command: Command, args: &[u8]) -> (r: Vec<u8>)
    requires
        args@.len() <= MAX_ARGS_LEN,
    ensures
        r@ == frame_buffer(command, args@),
{
    let mut buffer: Vec<u8> = Vec::with_capacity(FRAME_SIZE);
    buffer.push(MAGIC_0);
    buffer.push(MAGIC_1);
    buffer.push(command.opcode());
    let mut i: usize = 0;
    while i < args.len()
        invariant
            i <= args@.len(),
            buffer@ == frame_bytes(command, args@.subrange(0, i as int)),
        decreases args@.len() - i,
    {
        buffer.push(args[i]);
        i = i + 1;
        assert(args@.subrange(0, i as int) == args@.subrange(0, i - 1) + seq![args@[i - 1]]);
    }
    assert(args@.subrange(0, args@.len() as int) == args@);
    while buffer.len() < FRAME_SIZE
        invariant
            HEADER_LEN + args@.len() <= buffer@.len() <= FRAME_SIZE,
            buffer@ == frame_bytes(command, args@) + Seq::new(
                (buffer@.len() - HEADER_LEN - args@.len()) as nat,
                |_i: int| 0u8,
            ),
        decreases FRAME_SIZE - buffer@.len(),
    {
        buffer.push(0);
    }
    assert(buffer@ =~= frame_buffer(command, args@));
    buffer
}

/// The bytes to transmit for `command` with `args`: the head of its buffer.
pub fn encode_command(command: Command, args: &[u8]) -> (r: Vec<u8>)
    requires
        args@.len() <= MAX_ARGS_LEN,
    ensures
        r@ == frame_bytes(command, args@),
{
    let mut buffer = prepare_command_buffer(command, args);
    buffer.truncate(HEADER_LEN + args.len());
    assert(buffer@ =~= frame_bytes(command, args@));
    buffer
}

/// Built-in patterns that the device can show.
#[derive(Clone, Copy, Debug, PartialEq, Eq, Structural)]
pub enum Pattern {
    Percentage,
    Gradient,
    DoubleGradient,
    LotusSideways,
    Zigzag,
    AllOn,
    Panic,
    LotusTopDown,
}

impl Pattern {
    /// The argument byte that selects the pattern.
    pub open spec fn spec_code(self) -> u8 {
        match self {
            Pattern::Percentage => 0,
            Pattern::Gradient => 1,
            Pattern::DoubleGradient => 2,
            Pattern::LotusSideways => 3,
            Pattern::Zigzag => 4,
            Pattern::AllOn => 5,
            Pattern::Panic => 6,
            Pattern::LotusTopDown => 7,
        }
    }

    #[verifier::when_used_as_spec(spec_code)]
    pub fn code(self) -> (r: u8)
        ensures
            r == self.spec_code(),
    {
        match self {
            Pattern::Percentage => 0,
            Pattern::Gradient => 1,
            Pattern::DoubleGradient => 2,
            Pattern::LotusSideways => 3,
            Pattern::Zigzag => 4,
            Pattern::AllOn => 5,
            Pattern::Panic => 6,
            Pattern::LotusTopDown => 7,
        }
    }
}

/// Arguments of `SendCol`: the column index, then the column's brightness values.
pub open spec fn send_col_args(index: u8, vals: Seq<u8>) -> Seq<u8> {
    seq![index] + vals
}

/// The wire bytes that stage column `index` with brightness values `vals`.
pub open spec fn send_col_bytes(index: u8, vals: Seq<u8>) -> Seq<u8> {
    frame_bytes(Command::SendCol, send_col_args(index, vals))
}

/// The wire bytes that latch all staged columns onto the display.
pub open spec fn commit_cols_bytes() -> Seq<u8> {
    frame_bytes(Command::CommitCols, Seq::empty())
}

/// Frame that stages one column of brightness values; it shows only after a commit.
pub fn send_col_frame(index: u8, vals: &[u8]) -> (r: Vec<u8>)
    requires
        vals@.len() < MAX_ARGS_LEN,
    ensures
        r@ == send_col_bytes(index, vals@),
{
    let mut args: Vec<u8> = Vec::with_capacity(vals.len() + 1);
    args.push(index);
    let mut i: usize = 0;
    while i < vals.len()
        invariant
            i <= vals@.len(),
            args@ == send_col_args(index, vals@.subrange(0, i as int)),
        decreases vals@.len() - i,
    {
        args.push(vals[i]);
        i = i + 1;
        assert(vals@.subrange(0, i as int) == vals@.subrange(0, i - 1) + seq![vals@[i - 1]]);
    }
    assert(vals@.subrange(0, vals@.len() as int) == vals@);
    encode_command(Command::SendCol, args.as_slice())
}

/// Frame that makes the staged columns visible at once.
pub fn commit_cols_frame() -> (r: Vec<u8>)
    ensures
        r@ == commit_cols_bytes(),
{
    let args: Vec<u8> = Vec::new();
    encode_command(Command::CommitCols, args.as_slice())
}

/// Frame that asks the device for its firmware version.
pub fn version_query_frame() -> (r: Vec<u8>)
    ensures
        r@ == frame_bytes(Command::Version, Seq::empty()),
{
    let args: Vec<u8> = Vec::new();
    encode_command(Command::Version, args.as_slice())
}

/// Frame that makes the device show one of its built-in patterns.
pub fn pattern_cmd(arg: Pattern) -> (r: Vec<u8>)
    ensures
        r@ == frame_bytes(Command::Pattern, seq![arg.spec_code()]),
{
    let args: Vec<u8> = vec![arg.code()];
    encode_command(Command::Pattern, args.as_slice())
}

/// One frame per device, in the order given: the same command for each.
pub fn simple_cmd_multiple(serialdevs: &Vec<String>, command: Command, args: &[u8]) -> (r: Vec<(String, Vec<u8>)>)
    requires
        args@.len() <= MAX_ARGS_LEN,
    ensures
        r@.len() == serialdevs@.len(),
        forall|k: int|
            0 <= k < r@.len() ==> (#[trigger] r@[k]).0@ == serialdevs@[k]@ && r@[k].1@ == frame_bytes(
                command,
                args@,
            ),
{
    let mut writes: Vec<(String, Vec<u8>)> = Vec::new();
    let mut i: usize = 0;
    while i < serialdevs.len()
        invariant
            i <= serialdevs@.len(),
            args@.len() <= MAX_ARGS_LEN,
            writes@.len() == i,
            forall|k: int|
                0 <= k < i ==> (#[trigger] writes@[k]).0@ == serialdevs@[k]@ && writes@[k].1@
                    == frame_bytes(command, args@),
        decreases serialdevs@.len() - i,
    {
        let device = serialdevs[i].clone();
        let frame = encode_command(command, args);
        writes.push((device, frame));
        i = i + 1;
    }
    writes
}

} // verus!
