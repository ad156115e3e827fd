//! airfrog's binary API: shared server/client constants and types, and the
//! wire format of each operation.
//!
//! A request is a command byte, a fixed number of further bytes for that
//! command, and, for the bulk commands, a variable number of data bytes
//! whose count the fixed bytes give. All multi-byte fields are
//! little-endian.

use crate::fmt::{append_dec, dec, push_str, string_of};
use vstd::prelude::*;

verus! {

/// Port used to serve binary API requests (0x4146 is "AF").
pub const PORT: u16 = 4146;

/// Binary API version.
pub const VERSION: u8 = 0x01;

/// Maximum number of words supported on a bulk data request.
pub const MAX_WORD_COUNT: u16 = 256;

// Binary API command types
pub const CMD_DP_READ: u8 = 0x00;

pub const CMD_DP_WRITE: u8 = 0x01;

pub const CMD_AP_READ: u8 = 0x02;

pub const CMD_AP_WRITE: u8 = 0x03;

pub const CMD_AP_BULK_READ: u8 = 0x12;

pub const CMD_AP_BULK_WRITE: u8 = 0x13;

pub const CMD_MULTI_REG_WRITE: u8 = 0x14;

pub const CMD_PING: u8 = 0xF0;

pub const CMD_RESET_TARGET: u8 = 0xF1;

pub const CMD_CLOCK: u8 = 0xF2;

pub const CMD_SET_SPEED: u8 = 0xF3;

pub const CMD_DISCONNECT: u8 = 0xFF;

// Binary API response codes
pub const RSP_OK: u8 = 0x00;

pub const RSP_ERR_CMD: u8 = 0x81;

pub const RSP_ERR_SWD: u8 = 0x82;

pub const RSP_ERR_TIMEOUT: u8 = 0x83;

pub const RSP_ERR_NET: u8 = 0x84;

pub const RSP_ERR_API: u8 = 0x85;

/// Binary API single byte command codes.
#[derive(Debug, Clone, Copy, PartialEq, Eq, Structural)]
pub enum Command {
    DpRead,
    DpWrite,
    ApRead,
    ApWrite,
    ApBulkRead,
    ApBulkWrite,
    MultiRegWrite,
    Ping,
    ResetTarget,
    Clock,
    SetSpeed,
    Disconnect,
}

/// The byte that stands for a command on the wire.
pub open spec fn command_byte(c: Command) -> u8 {
    match c {
        Command::DpRead => CMD_DP_READ,
        Command::DpWrite => CMD_DP_WRITE,
        Command::ApRead => CMD_AP_READ,
        Command::ApWrite => CMD_AP_WRITE,
        Command::ApBulkRead => CMD_AP_BULK_READ,
        Command::ApBulkWrite => CMD_AP_BULK_WRITE,
        Command::MultiRegWrite => CMD_MULTI_REG_WRITE,
        Command::Ping => CMD_PING,
        Command::ResetTarget => CMD_RESET_TARGET,
        Command::Clock => CMD_CLOCK,
        Command::SetSpeed => CMD_SET_SPEED,
        Command::Disconnect => CMD_DISCONNECT,
    }
}

/// Whether `b` is the byte of some command.
pub open spec fn is_command_byte(b: u8) -> bool {
    exists|c: Command| command_byte(c) == b
}

/// The number of bytes that follow a command byte, before any variable
/// data.
pub open spec fn fixed_len(c: Command) -> nat {
    match c {
        Command::DpRead => 1,
        Command::DpWrite => 5,
        Command::ApRead => 1,
        Command::ApWrite => 5,
        Command::ApBulkRead => 3,
        Command::ApBulkWrite => 3,
        Command::MultiRegWrite => 2,
        Command::Ping | Command::ResetTarget | Command::Disconnect => 0,
        Command::Clock => 3,
        Command::SetSpeed => 1,
    }
}

/// Whether a command is followed by variable data (a bulk command).
pub open spec fn is_bulk(c: Command) -> bool {
    c is ApBulkRead || c is ApBulkWrite || c is MultiRegWrite
}

impl Command {
    /// The command's byte on the wire.
    pub fn to_byte(self) -> (r: u8)
        ensures
            r == command_byte(self),
    {
        match self {
            Command::DpRead => CMD_DP_READ,
            Command::DpWrite => CMD_DP_WRITE,
            Command::ApRead => CMD_AP_READ,
            Command::ApWrite => CMD_AP_WRITE,
            Command::ApBulkRead => CMD_AP_BULK_READ,
            Command::ApBulkWrite => CMD_AP_BULK_WRITE,
            Command::MultiRegWrite => CMD_MULTI_REG_WRITE,
            Command::Ping => CMD_PING,
            Command::ResetTarget => CMD_RESET_TARGET,
            Command::Clock => CMD_CLOCK,
            Command::SetSpeed => CMD_SET_SPEED,
            Command::Disconnect => CMD_DISCONNECT,
        }
    }

    /// The command a byte stands for, or `ProtocolError::Command` with the
    /// byte when no command has it.
    pub fn from_byte(cmd: u8) -> (r: Result<Self, ProtocolError>)
        ensures
            match r {
                Ok(c) => command_byte(c) == cmd,
                Err(e) => e == ProtocolError::Command(cmd) && !is_command_byte(cmd),
            },
    {
        match cmd {
            CMD_DP_READ => Ok(Self::DpRead),
            CMD_DP_WRITE => Ok(Self::DpWrite),
            CMD_AP_READ => Ok(Self::ApRead),
            CMD_AP_WRITE => Ok(Self::ApWrite),
            CMD_AP_BULK_READ => Ok(Self::ApBulkRead),
            CMD_AP_BULK_WRITE => Ok(Self::ApBulkWrite),
            CMD_MULTI_REG_WRITE => Ok(Self::MultiRegWrite),
            CMD_PING => Ok(Self::Ping),
            CMD_RESET_TARGET => Ok(Self::ResetTarget),
            CMD_CLOCK => Ok(Self::Clock),
            CMD_SET_SPEED => Ok(Self::SetSpeed),
            CMD_DISCONNECT => Ok(Self::Disconnect),
            _ => {
                assert forall|c: Command| command_byte(c) != cmd by {
                    match c {
                        _ => {},
                    }
                }
                Err(ProtocolError::Command(cmd))
            },
        }
    }

    /// How many more bytes to read for this command, and whether the command
    /// receives further variable data (is a bulk command).
    pub fn remaining_bytes(&self) -> (r: Result<(usize, bool), ProtocolError>)
        ensures
            r matches Ok((n, bulk)) && n == fixed_len(*self) && bulk == is_bulk(*self),
    {
        match self {
            Self::DpRead => Ok((1, false)),
            Self::DpWrite => Ok((5, false)),
            Self::ApRead => Ok((1, false)),
            Self::ApWrite => Ok((5, false)),
            Self::ApBulkRead => Ok((3, true)),
            Self::ApBulkWrite => Ok((3, true)),
            Self::MultiRegWrite => Ok((2, true)),
            Self::Ping | Self::ResetTarget | Self::Disconnect => Ok((0, false)),
            Self::Clock => Ok((3, false)),
            Self::SetSpeed => Ok((1, false)),
        }
    }

    /// How many variable bytes this command needs for `count` words (or
    /// register writes): four per word for the AP bulk commands, six per
    /// register write for a multi-register write, none for the others.
    /// A count above [`MAX_WORD_COUNT`] is refused.
    pub fn var_bytes(&self, count: u16) -> (r: Result<usize, ProtocolError>)
        ensures
            match *self {
                Command::ApBulkRead | Command::ApBulkWrite => if count > MAX_WORD_COUNT {
                    r == Err::<usize, ProtocolError>(ProtocolError::Arg)
                } else {
                    r == Ok::<usize, ProtocolError>((count * 4) as usize)
                },
                Command::MultiRegWrite => if count > MAX_WORD_COUNT {
                    r == Err::<usize, ProtocolError>(ProtocolError::Arg)
                } else {
                    r == Ok::<usize, ProtocolError>((count * 6) as usize)
                },
                _ => r == Ok::<usize, ProtocolError>(0),
            },
    {
        match self {
            Self::ApBulkRead | Self::ApBulkWrite => {
                if count > MAX_WORD_COUNT {
                    Err(ProtocolError::Arg)
                } else {
                    Ok(count as usize * 4)
                }
            },
            Self::MultiRegWrite => {
                if count > MAX_WORD_COUNT {
                    Err(ProtocolError::Arg)
                } else {
                    Ok(count as usize * 6)
                }
            },
            _ => Ok(0),
        }
    }

    /// The command's name, as displayed.
    pub fn name(&self) -> (r: &'static str)
        ensures
            r@ == match *self {
                Command::DpRead => "DP Read"@,
                Command::DpWrite => "DP Write"@,
                Command::ApRead => "AP Read"@,
                Command::ApWrite => "AP Write"@,
                Command::ApBulkRead => "AP Bulk Read"@,
                Command::ApBulkWrite => "AP Bulk Write"@,
                Command::MultiRegWrite => "Multi Register Write"@,
                Command::Ping => "Ping"@,
                Command::ResetTarget => "Reset Target"@,
                Command::Clock => "Clock"@,
                Command::SetSpeed => "Set Speed"@,
                Command::Disconnect => "Disconnect"@,
            },
    {
        match self {
            Command::DpRead => "DP Read",
            Command::DpWrite => "DP Write",
            Command::ApRead => "AP Read",
            Command::ApWrite => "AP Write",
            Command::ApBulkRead => "AP Bulk Read",
            Command::ApBulkWrite => "AP Bulk Write",
            Command::MultiRegWrite => "Multi Register Write",
            Command::Ping => "Ping",
            Command::ResetTarget => "Reset Target",
            Command::Clock => "Clock",
            Command::SetSpeed => "Set Speed",
            Command::Disconnect => "Disconnect",
        }
    }
}

/// Binary API single byte response codes.
#[derive(Debug, Clone, Copy, PartialEq, Eq, Structural)]
pub enum ResponseCode {
    /// Success.
    Success,
    Cmd,
    Swd,
    Timeout,
    Net,
    Api,
}

/// The byte that stands for a response code on the wire.
pub open spec fn response_byte(r: ResponseCode) -> u8 {
    match r {
        ResponseCode::Success => RSP_OK,
        ResponseCode::Cmd => RSP_ERR_CMD,
        ResponseCode::Swd => RSP_ERR_SWD,
        ResponseCode::Timeout => RSP_ERR_TIMEOUT,
        ResponseCode::Net => RSP_ERR_NET,
        ResponseCode::Api => RSP_ERR_API,
    }
}

impl ResponseCode {
    /// The response code's byte on the wire.
    pub fn to_byte(self) -> (r: u8)
        ensures
            r == response_byte(self),
    {
        match self {
            ResponseCode::Success => RSP_OK,
            ResponseCode::Cmd => RSP_ERR_CMD,
            ResponseCode::Swd => RSP_ERR_SWD,
            ResponseCode::Timeout => RSP_ERR_TIMEOUT,
            ResponseCode::Net => RSP_ERR_NET,
            ResponseCode::Api => RSP_ERR_API,
        }
    }

    /// The response code's name, as displayed.
    pub fn name(&self) -> (r: &'static str)
        ensures
            r@ == match *self {
                ResponseCode::Success => "OK"@,
                ResponseCode::Cmd => "Command Error"@,
                ResponseCode::Swd => "SWD Error"@,
                ResponseCode::Timeout => "Timeout Error"@,
                ResponseCode::Net => "Network Error"@,
                ResponseCode::Api => "API Error"@,
            },
    {
        match self {
            ResponseCode::Success => "OK",
            ResponseCode::Cmd => "Command Error",
            ResponseCode::Swd => "SWD Error",
            ResponseCode::Timeout => "Timeout Error",
            ResponseCode::Net => "Network Error",
            ResponseCode::Api => "API Error",
        }
    }
}

/// airfrog SWD speed.
#[derive(Debug, Clone, Copy, PartialEq, Eq, Structural)]
pub enum Speed {
    /// Slow speed, 500 kHz.
    Slow,
    /// Medium speed, 1000 kHz.
    Medium,
    /// Fast speed, 2000 kHz.
    Fast,
    /// Turbo speed, 4000 kHz - this is the default speed.
    Turbo,
}

/// The byte that stands for a speed on the wire.
pub open spec fn speed_byte(s: Speed) -> u8 {
    match s {
        Speed::Turbo => 0,
        Speed::Fast => 1,
        Speed::Medium => 2,
        Speed::Slow => 3,
    }
}

/// The speed a kHz figure selects.
pub open spec fn speed_of_khz(khz: u32) -> Speed {
    if khz <= 750 {
        Speed::Slow
    } else if khz <= 1500 {
        Speed::Medium
    } else if khz <= 3000 {
        Speed::Fast
    } else {
        Speed::Turbo
    }
}

/// The nominal clock of a speed, in kHz.
pub open spec fn khz_of_speed(s: Speed) -> u32 {
    match s {
        Speed::Slow => 500,
        Speed::Medium => 1000,
        Speed::Fast => 2000,
        Speed::Turbo => 4000,
    }
}

impl Default for Speed {
    fn default() -> (r: Self)
        ensures
            r == Speed::Turbo,
    {
        Speed::Turbo
    }
}

impl Speed {
    /// The speed whose range holds `khz`: up to 750 Slow, up to 1500 Medium,
    /// up to 3000 Fast, Turbo above.
    pub fn from_khz(khz: u32) -> (r: Self)
        ensures
            r == speed_of_khz(khz),
    {
        if khz <= 750 {
            Speed::Slow
        } else if khz <= 1500 {
            Speed::Medium
        } else if khz <= 3000 {
            Speed::Fast
        } else {
            Speed::Turbo
        }
    }

    /// The nominal clock of this speed in kHz.
    pub fn to_khz(self) -> (r: u32)
        ensures
            r == khz_of_speed(self),
    {
        match self {
            Speed::Slow => 500,
            Speed::Medium => 1000,
            Speed::Fast => 2000,
            Speed::Turbo => 4000,
        }
    }

    /// The speed a byte stands for, or `ProtocolError::Arg` for a byte
    /// above 3.
    pub fn from_byte(byte: u8) -> (r: Result<Self, ProtocolError>)
        ensures
            match r {
                Ok(s) => speed_byte(s) == byte,
                Err(e) => e == ProtocolError::Arg && byte > 3,
            },
    {
        match byte {
            0 => Ok(Speed::Turbo),
            1 => Ok(Speed::Fast),
            2 => Ok(Speed::Medium),
            3 => Ok(Speed::Slow),
            _ => Err(ProtocolError::Arg),
        }
    }

    /// The speed's byte on the wire.
    pub fn to_byte(self) -> (r: u8)
        ensures
            r == speed_byte(self),
    {
        match self {
            Speed::Turbo => 0,
            Speed::Fast => 1,
            Speed::Medium => 2,
            Speed::Slow => 3,
        }
    }
}

/// Errors in sending or receiving commands over the binary API.
#[derive(Debug, Clone, Copy, PartialEq, Eq, Structural)]
pub enum ProtocolError {
    /// Invalid command byte received.
    Command(u8),
    /// Invalid argument provided.
    Arg,
}

/// Errors in parsing received commands over the binary API: either from
/// the transport that carries them, or in their content.
#[derive(Debug)]
pub enum ParseError<T> {
    Transport(T),
    Protocol(ProtocolError),
}

impl<T> From<ProtocolError> for ParseError<T> {
    fn from(e: ProtocolError) -> (r: Self) {
        ParseError::Protocol(e)
    }
}

impl<T> vstd::std_specs::convert::FromSpecImpl<ProtocolError> for ParseError<T> {
    open spec fn obeys_from_spec() -> bool {
        true
    }

    open spec fn from_spec(e: ProtocolError) -> ParseError<T> {
        ParseError::Protocol(e)
    }
}

impl<T> ParseError<T> {
    /// Wraps an error of the transport.
    pub fn transport(e: T) -> (r: Self)
        ensures
            r == ParseError::<T>::Transport(e),
    {
        ParseError::Transport(e)
    }
}

/// Writer for sending data to a stream.
pub trait SyncWriter {
    type Error;

    fn write_all(&mut self, buf: &[u8]) -> Result<(), Self::Error>;
}

/// The type of register being accessed in a command.
#[derive(Debug, PartialEq, Eq, Clone, Copy, Structural)]
pub enum RegType {
    /// Debug Port (DP) register.
    Dp,
    /// Access Port (AP) register.
    Ap,
}

/// One register write of a multi-register write.
#[derive(Debug, PartialEq, Eq, Clone, Copy, Structural)]
pub struct MultiReg {
    pub reg_type: RegType,
    pub reg: u8,
    pub data: u32,
}

/// SWDIO line state on clock operations.
#[derive(Debug, PartialEq, Eq, Clone, Copy, Structural)]
pub enum LineLevel {
    Low,
    High,
    Input,
}

/// The line level a 4-bit value stands for.
pub open spec fn level_of(bits: u8) -> Option<LineLevel> {
    if bits == 0 {
        Some(LineLevel::Low)
    } else if bits == 1 {
        Some(LineLevel::High)
    } else if bits == 2 {
        Some(LineLevel::Input)
    } else {
        None
    }
}

/// The 4-bit value that stands for a line level.
pub open spec fn level_bits(l: LineLevel) -> u8 {
    match l {
        LineLevel::Low => 0,
        LineLevel::High => 1,
        LineLevel::Input => 2,
    }
}

fn level_from_bits(bits: u8) -> (r: Option<LineLevel>)
    ensures
        r == level_of(bits),
{
    match bits {
        0 => Some(LineLevel::Low),
        1 => Some(LineLevel::High),
        2 => Some(LineLevel::Input),
        _ => None,
    }
}

impl LineLevel {
    /// The level (low nibble) and post level (high nibble) a byte stands
    /// for, or `ProtocolError::Arg` when either nibble is above 2.
    pub fn levels_from_byte(value: u8) -> (r: Result<(Self, Self), ProtocolError>)
        ensures
            match r {
                Ok((level, post)) => level_of(value & 0xF) == Some(level) && level_of(value >> 4u8)
                    == Some(post),
                Err(e) => e == ProtocolError::Arg && (level_of(value & 0xF) is None || level_of(
                    value >> 4u8,
                ) is None),
            },
    {
        let level = match level_from_bits(value & 0x0F) {
            Some(l) => l,
            None => {
                return Err(ProtocolError::Arg);
            },
        };
        let post_level = match level_from_bits(value >> 4) {
            Some(l) => l,
            None => {
                return Err(ProtocolError::Arg);
            },
        };
        Ok((level, post_level))
    }

    /// The 4-bit value of this level.
    pub fn to_bits(self) -> (r: u8)
        ensures
            r == level_bits(self),
    {
        match self {
            LineLevel::Low => 0,
            LineLevel::High => 1,
            LineLevel::Input => 2,
        }
    }
}

/// The command a byte stands for, where there is one.
pub open spec fn command_of_byte(b: u8) -> Option<Command> {
    if b == CMD_DP_READ {
        Some(Command::DpRead)
    } else if b == CMD_DP_WRITE {
        Some(Command::DpWrite)
    } else if b == CMD_AP_READ {
        Some(Command::ApRead)
    } else if b == CMD_AP_WRITE {
        Some(Command::ApWrite)
    } else if b == CMD_AP_BULK_READ {
        Some(Command::ApBulkRead)
    } else if b == CMD_AP_BULK_WRITE {
        Some(Command::ApBulkWrite)
    } else if b == CMD_MULTI_REG_WRITE {
        Some(Command::MultiRegWrite)
    } else if b == CMD_PING {
        Some(Command::Ping)
    } else if b == CMD_RESET_TARGET {
        Some(Command::ResetTarget)
    } else if b == CMD_CLOCK {
        Some(Command::Clock)
    } else if b == CMD_SET_SPEED {
        Some(Command::SetSpeed)
    } else if b == CMD_DISCONNECT {
        Some(Command::Disconnect)
    } else {
        None
    }
}

/// The speed a byte stands for, where there is one.
pub open spec fn speed_of_byte(b: u8) -> Option<Speed> {
    if b == 0 {
        Some(Speed::Turbo)
    } else if b == 1 {
        Some(Speed::Fast)
    } else if b == 2 {
        Some(Speed::Medium)
    } else if b == 3 {
        Some(Speed::Slow)
    } else {
        None
    }
}

/// A binary API operation, as received by the server or sent by a client.
#[derive(Debug, PartialEq, Eq, Clone)]
#[allow(inconsistent_fields)]
pub enum Op {
    DpRead { reg: u8 },
    DpWrite { reg: u8, data: u32 },
    ApRead { reg: u8 },
    ApWrite { reg: u8, data: u32 },
    ApBulkRead { reg: u8, count: u16 },
    ApBulkWrite { reg: u8, data: Vec<u32> },
    MultiRegWrite { count: u16, data: Vec<MultiReg> },
    Ping,
    ResetTarget,
    Clock { level: LineLevel, post_level: LineLevel, cycles: u16 },
    SetSpeed { speed: Speed },
    Disconnect,
}

/// The mathematical value of an [`Op`]: its data vectors as sequences.
#[allow(inconsistent_fields)]
pub ghost enum OpView {
    DpRead { reg: u8 },
    DpWrite { reg: u8, data: u32 },
    ApRead { reg: u8 },
    ApWrite { reg: u8, data: u32 },
    ApBulkRead { reg: u8, count: u16 },
    ApBulkWrite { reg: u8, data: Seq<u32> },
    MultiRegWrite { count: u16, data: Seq<MultiReg> },
    Ping,
    ResetTarget,
    Clock { level: LineLevel, post_level: LineLevel, cycles: u16 },
    SetSpeed { speed: Speed },
    Disconnect,
}

impl View for Op {
    type V = OpView;

    open spec fn view(&self) -> OpView {
        match self {
            Op::DpRead { reg } => OpView::DpRead { reg: *reg },
            Op::DpWrite { reg, data } => OpView::DpWrite { reg: *reg, data: *data },
            Op::ApRead { reg } => OpView::ApRead { reg: *reg },
            Op::ApWrite { reg, data } => OpView::ApWrite { reg: *reg, data: *data },
            Op::ApBulkRead { reg, count } => OpView::ApBulkRead { reg: *reg, count: *count },
            Op::ApBulkWrite { reg, data } => OpView::ApBulkWrite { reg: *reg, data: data@ },
            Op::MultiRegWrite { count, data } => OpView::MultiRegWrite { count: *count, data: data@ },
            Op::Ping => OpView::Ping,
            Op::ResetTarget => OpView::ResetTarget,
            Op::Clock { level, post_level, cycles } => OpView::Clock {
                level: *level,
                post_level: *post_level,
                cycles: *cycles,
            },
            Op::SetSpeed { speed } => OpView::SetSpeed { speed: *speed },
            Op::Disconnect => OpView::Disconnect,
        }
    }
}

/// A little-endian 16-bit value.
pub open spec fn le16(b0: u8, b1: u8) -> u16 {
    (b0 as u16) | ((b1 as u16) << 8u16)
}

/// A little-endian 32-bit value.
pub open spec fn le32(b0: u8, b1: u8, b2: u8, b3: u8) -> u32 {
    (b0 as u32) | ((b1 as u32) << 8u32) | ((b2 as u32) << 16u32) | ((b3 as u32) << 24u32)
}

/// The little-endian word at byte offset `i` of `s`.
pub open spec fn word_at(s: Seq<u8>, i: int) -> u32 {
    le32(s[i], s[i + 1], s[i + 2], s[i + 3])
}

/// The little-endian words that make up `s`, four bytes each.
pub open spec fn words_of(s: Seq<u8>) -> Seq<u32> {
    Seq::new(s.len() / 4, |i: int| word_at(s, 4 * i))
}

/// The register type a multi-register write's type byte stands for.
pub open spec fn reg_type_of(b: u8) -> RegType {
    if b == 0 {
        RegType::Dp
    } else {
        RegType::Ap
    }
}

/// Whether every six-byte record of `s` starts with a valid register type
/// byte (0 for DP, 1 for AP).
pub open spec fn valid_reg_types(s: Seq<u8>) -> bool {
    forall|i: int| 0 <= i < s.len() / 6 ==> #[trigger] s[6 * i] <= 1
}

/// The register writes that make up `s`, six bytes each: type, register,
/// little-endian word.
pub open spec fn multi_regs_of(s: Seq<u8>) -> Seq<MultiReg> {
    Seq::new(
        s.len() / 6,
        |i: int| MultiReg { reg_type: reg_type_of(s[6 * i]), reg: s[6 * i + 1], data: word_at(s, 6 * i + 2) },
    )
}

/// The number of variable bytes a command's fixed bytes call for, or the
/// error when the count they give is above [`MAX_WORD_COUNT`].
pub open spec fn var_len_of(c: Command, fixed: Seq<u8>) -> Result<nat, ProtocolError> {
    match c {
        Command::ApBulkWrite => {
            let n = le16(fixed[1], fixed[2]);
            if n > MAX_WORD_COUNT {
                Err(ProtocolError::Arg)
            } else {
                Ok((4 * n) as nat)
            }
        },
        Command::MultiRegWrite => {
            let n = le16(fixed[0], fixed[1]);
            if n > MAX_WORD_COUNT {
                Err(ProtocolError::Arg)
            } else {
                Ok((6 * n) as nat)
            }
        },
        _ => Ok(0),
    }
}

/// The operation that a command, its fixed bytes and its variable bytes
/// stand for, or the error in them (a bulk read of more than
/// [`MAX_WORD_COUNT`] words, a register type other than DP or AP, a line
/// level or speed that does not exist).
pub open spec fn decode(c: Command, fixed: Seq<u8>, var: Seq<u8>) -> Result<OpView, ProtocolError> {
    match c {
        Command::DpRead => Ok(OpView::DpRead { reg: fixed[0] }),
        Command::DpWrite => Ok(OpView::DpWrite { reg: fixed[0], data: word_at(fixed, 1) }),
        Command::ApRead => Ok(OpView::ApRead { reg: fixed[0] }),
        Command::ApWrite => Ok(OpView::ApWrite { reg: fixed[0], data: word_at(fixed, 1) }),
        Command::ApBulkRead => if le16(fixed[1], fixed[2]) > MAX_WORD_COUNT {
            Err(ProtocolError::Arg)
        } else {
            Ok(OpView::ApBulkRead { reg: fixed[0], count: le16(fixed[1], fixed[2]) })
        },
        Command::ApBulkWrite => Ok(OpView::ApBulkWrite { reg: fixed[0], data: words_of(var) }),
        Command::MultiRegWrite => if valid_reg_types(var) {
            Ok(OpView::MultiRegWrite { count: le16(fixed[0], fixed[1]), data: multi_regs_of(var) })
        } else {
            Err(ProtocolError::Arg)
        },
        Command::Ping => Ok(OpView::Ping),
        Command::ResetTarget => Ok(OpView::ResetTarget),
        Command::Clock => match (level_of(fixed[0] & 0xF), level_of(fixed[0] >> 4u8)) {
            (Some(level), Some(post_level)) => Ok(
                OpView::Clock { level, post_level, cycles: le16(fixed[1], fixed[2]) },
            ),
            _ => Err(ProtocolError::Arg),
        },
        Command::SetSpeed => match speed_of_byte(fixed[0]) {
            Some(speed) => Ok(OpView::SetSpeed { speed }),
            None => Err(ProtocolError::Arg),
        },
        Command::Disconnect => Ok(OpView::Disconnect),
    }
}

fn read_le16(b: &[u8], i: usize) -> (r: u16)
    requires
        i + 2 <= b@.len(),
    ensures
        r == le16(b@[i as int], b@[i + 1]),
{
    (b[i] as u16) | ((b[i + 1] as u16) << 8u16)
}

fn read_le32(b: &[u8], i: usize) -> (r: u32)
    requires
        i + 4 <= b@.len(),
    ensures
        r == word_at(b@, i as int),
{
    (b[i] as u32) | ((b[i + 1] as u32) << 8u32) | ((b[i + 2] as u32) << 16u32) | ((b[i + 3] as u32)
        << 24u32)
}

impl Op {
    /// A little-endian word from exactly four bytes; any other length is
    /// `ProtocolError::Arg`.
    pub fn parse_word(bytes: &[u8]) -> (r: Result<u32, ProtocolError>)
        ensures
            bytes@.len() == 4 ==> r == Ok::<u32, ProtocolError>(word_at(bytes@, 0)),
            bytes@.len() != 4 ==> r == Err::<u32, ProtocolError>(ProtocolError::Arg),
    {
        if bytes.len() != 4 {
            return Err(ProtocolError::Arg);
        }
        Ok(read_le32(bytes, 0))
    }

    /// A little-endian count from exactly two bytes; any other length is
    /// `ProtocolError::Arg`.
    pub fn parse_count(bytes: &[u8]) -> (r: Result<u16, ProtocolError>)
        ensures
            bytes@.len() == 2 ==> r == Ok::<u16, ProtocolError>(le16(bytes@[0], bytes@[1])),
            bytes@.len() != 2 ==> r == Err::<u16, ProtocolError>(ProtocolError::Arg),
    {
        if bytes.len() != 2 {
            return Err(ProtocolError::Arg);
        }
        Ok(read_le16(bytes, 0))
    }

    /// The number of variable data bytes to read after a command's fixed
    /// bytes: the word count they give times four for an AP bulk write,
    /// times six for a multi-register write, and none otherwise. A count
    /// above [`MAX_WORD_COUNT`] is `ProtocolError::Arg`.
    pub fn var_len(command: Command, fixed: &[u8]) -> (r: Result<usize, ProtocolError>)
        requires
            fixed@.len() == fixed_len(command),
        ensures
            match r {
                Ok(n) => var_len_of(command, fixed@) == Ok::<nat, ProtocolError>(n as nat),
                Err(e) => var_len_of(command, fixed@) == Err::<nat, ProtocolError>(e),
            },
    {
        match command {
            Command::ApBulkWrite => {
                let count = Self::parse_count(&fixed[1..3])?;
                command.var_bytes(count)
            },
            Command::MultiRegWrite => {
                let count = Self::parse_count(&fixed[0..2])?;
                command.var_bytes(count)
            },
            _ => Ok(0),
        }
    }

    /// Builds the operation from a command, its fixed bytes and its variable
    /// bytes, as received.
    pub fn from_bytes(command: Command, fixed: &[u8], var: &[u8]) -> (r: Result<Self, ProtocolError>)
        requires
            fixed@.len() == fixed_len(command),
            var_len_of(command, fixed@) == Ok::<nat, ProtocolError>(var@.len()),
        ensures
            match r {
                Ok(op) => decode(command, fixed@, var@) == Ok::<OpView, ProtocolError>(op@),
                Err(e) => decode(command, fixed@, var@) == Err::<OpView, ProtocolError>(e),
            },
    {
        match command {
            Command::DpRead => Ok(Op::DpRead { reg: fixed[0] }),
            Command::DpWrite => {
                let reg = fixed[0];
                let data = Self::parse_word(&fixed[1..5])?;
                proof {
                    assert(word_at(fixed@.subrange(1, 5), 0) == word_at(fixed@, 1));
                }
                Ok(Op::DpWrite { reg, data })
            },
            Command::ApRead => Ok(Op::ApRead { reg: fixed[0] }),
            Command::ApWrite => {
                let reg = fixed[0];
                let data = Self::parse_word(&fixed[1..5])?;
                proof {
                    assert(word_at(fixed@.subrange(1, 5), 0) == word_at(fixed@, 1));
                }
                Ok(Op::ApWrite { reg, data })
            },
            Command::ApBulkRead => {
                let reg = fixed[0];
                let count = Self::parse_count(&fixed[1..3])?;
                if count > MAX_WORD_COUNT {
                    return Err(ProtocolError::Arg);
                }
                Ok(Op::ApBulkRead { reg, count })
            },
            Command::ApBulkWrite => {
                let reg = fixed[0];
                let n = var.len() / 4;
                let mut data: Vec<u32> = Vec::new();
                let mut i: usize = 0;
                while i < n
                    invariant
                        n == var@.len() / 4,
                        var@.len() <= usize::MAX,
                        i <= n,
                        data@ =~= Seq::new(i as nat, |j: int| word_at(var@, 4 * j)),
                    decreases n - i,
                {
                    assert(4 * i + 4 <= var@.len()) by (nonlinear_arith)
                        requires i < n, n == var@.len() / 4;
                    data.push(read_le32(var, 4 * i));
                    i = i + 1;
                }
                assert(data@ =~= words_of(var@));
                Ok(Op::ApBulkWrite { reg, data })
            },
            Command::MultiRegWrite => {
                let count = Self::parse_count(&fixed[0..2])?;
                let n = var.len() / 6;
                let mut data: Vec<MultiReg> = Vec::new();
                let mut i: usize = 0;
                while i < n
                    invariant
                        n == var@.len() / 6,
                        var@.len() <= usize::MAX,
                        command == Command::MultiRegWrite,
                        i <= n,
                        data@ =~= multi_regs_of(var@).take(i as int),
                        forall|j: int| 0 <= j < i ==> #[trigger] var@[6 * j] <= 1,
                    decreases n - i,
                {
                    assert(6 * i + 6 <= var@.len()) by (nonlinear_arith)
                        requires i < n, n == var@.len() / 6;
                    let reg_type = match var[6 * i] {
                        0x00 => RegType::Dp,
                        0x01 => RegType::Ap,
                        _ => {
                            assert(var@[6 * i as int] > 1);
                            assert(!valid_reg_types(var@));
                            return Err(ProtocolError::Arg);
                        },
                    };
                    let reg = var[6 * i + 1];
                    let value = read_le32(var, 6 * i + 2);
                    data.push(MultiReg { reg_type, reg, data: value });
                    i = i + 1;
                }
                assert(data@ =~= multi_regs_of(var@));
                Ok(Op::MultiRegWrite { count, data })
            },
            Command::Ping => Ok(Op::Ping),
            Command::ResetTarget => Ok(Op::ResetTarget),
            Command::Clock => {
                let (level, post_level) = LineLevel::levels_from_byte(fixed[0])?;
                let cycles = read_le16(fixed, 1);
                Ok(Op::Clock { level, post_level, cycles })
            },
            Command::SetSpeed => {
                let speed = Speed::from_byte(fixed[0])?;
                Ok(Op::SetSpeed { speed })
            },
            Command::Disconnect => Ok(Op::Disconnect),
        }
    }
}

/// A 16-bit value as two little-endian bytes.
pub open spec fn bytes16(v: u16) -> Seq<u8> {
    seq![(v & 0xFF) as u8, (v >> 8u16) as u8]
}

/// A 32-bit value as four little-endian bytes.
pub open spec fn bytes32(v: u32) -> Seq<u8> {
    seq![(v & 0xFF) as u8, ((v >> 8u32) & 0xFF) as u8, ((v >> 16u32) & 0xFF) as u8, (v >> 24u32) as u8]
}

/// Words as consecutive little-endian byte quadruples.
pub open spec fn words_bytes(d: Seq<u32>) -> Seq<u8>
    decreases d.len(),
{
    if d.len() == 0 {
        Seq::empty()
    } else {
        words_bytes(d.drop_last()) + bytes32(d.last())
    }
}

/// The type byte of a register type.
pub open spec fn reg_type_byte(t: RegType) -> u8 {
    match t {
        RegType::Dp => 0,
        RegType::Ap => 1,
    }
}

/// One register write as its six-byte record.
pub open spec fn reg_record(m: MultiReg) -> Seq<u8> {
    seq![reg_type_byte(m.reg_type), m.reg] + bytes32(m.data)
}

/// Register writes as consecutive six-byte records.
pub open spec fn multi_bytes(d: Seq<MultiReg>) -> Seq<u8>
    decreases d.len(),
{
    if d.len() == 0 {
        Seq::empty()
    } else {
        multi_bytes(d.drop_last()) + reg_record(d.last())
    }
}

/// The command of an operation.
pub open spec fn op_command(op: OpView) -> Command {
    match op {
        OpView::DpRead { .. } => Command::DpRead,
        OpView::DpWrite { .. } => Command::DpWrite,
        OpView::ApRead { .. } => Command::ApRead,
        OpView::ApWrite { .. } => Command::ApWrite,
        OpView::ApBulkRead { .. } => Command::ApBulkRead,
        OpView::ApBulkWrite { .. } => Command::ApBulkWrite,
        OpView::MultiRegWrite { .. } => Command::MultiRegWrite,
        OpView::Ping => Command::Ping,
        OpView::ResetTarget => Command::ResetTarget,
        OpView::Clock { .. } => Command::Clock,
        OpView::SetSpeed { .. } => Command::SetSpeed,
        OpView::Disconnect => Command::Disconnect,
    }
}

/// The request a client sends for an operation: the command byte, its
/// fixed fields and any data, little-endian throughout. An AP bulk write
/// gives the number of its words as its count.
pub open spec fn encode(op: OpView) -> Seq<u8> {
    match op {
        OpView::DpRead { reg } => seq![CMD_DP_READ, reg],
        OpView::DpWrite { reg, data } => seq![CMD_DP_WRITE, reg] + bytes32(data),
        OpView::ApRead { reg } => seq![CMD_AP_READ, reg],
        OpView::ApWrite { reg, data } => seq![CMD_AP_WRITE, reg] + bytes32(data),
        OpView::ApBulkRead { reg, count } => seq![CMD_AP_BULK_READ, reg] + bytes16(count),
        OpView::ApBulkWrite { reg, data } => seq![CMD_AP_BULK_WRITE, reg] + bytes16(
            data.len() as u16,
        ) + words_bytes(data),
        OpView::MultiRegWrite { count, data } => seq![CMD_MULTI_REG_WRITE] + bytes16(count)
            + multi_bytes(data),
        OpView::Ping => seq![CMD_PING],
        OpView::ResetTarget => seq![CMD_RESET_TARGET],
        OpView::Clock { level, post_level, cycles } => seq![
            CMD_CLOCK,
            level_bits(level) | (level_bits(post_level) << 4u8),
        ] + bytes16(cycles),
        OpView::SetSpeed { speed } => seq![CMD_SET_SPEED, speed_byte(speed)],
        OpView::Disconnect => seq![CMD_DISCONNECT],
    }
}

/// Whether an operation can be sent as it is: a bulk read asks for, and a
/// bulk write holds, at most [`MAX_WORD_COUNT`] words, and a multi-register write's count is the
/// number of its writes and at most [`MAX_WORD_COUNT`].
pub open spec fn sendable(op: OpView) -> bool {
    match op {
        OpView::ApBulkRead { count, .. } => count <= MAX_WORD_COUNT,
        OpView::ApBulkWrite { data, .. } => data.len() <= MAX_WORD_COUNT,
        OpView::MultiRegWrite { count, data } => count == data.len() && count <= MAX_WORD_COUNT,
        _ => true,
    }
}

proof fn lemma_le32_bytes(w: u32)
    ensures
        le32(bytes32(w)[0], bytes32(w)[1], bytes32(w)[2], bytes32(w)[3]) == w,
{
    let b0 = (w & 0xFF) as u8;
    let b1 = ((w >> 8u32) & 0xFF) as u8;
    let b2 = ((w >> 16u32) & 0xFF) as u8;
    let b3 = (w >> 24u32) as u8;
    assert((b0 as u32) | ((b1 as u32) << 8u32) | ((b2 as u32) << 16u32) | ((b3 as u32) << 24u32)
        == w) by (bit_vector)
        requires
            b0 == (w & 0xFF) as u8,
            b1 == ((w >> 8u32) & 0xFF) as u8,
            b2 == ((w >> 16u32) & 0xFF) as u8,
            b3 == (w >> 24u32) as u8,
    ;
}

proof fn lemma_le16_bytes(v: u16)
    ensures
        le16(bytes16(v)[0], bytes16(v)[1]) == v,
{
    let b0 = (v & 0xFF) as u8;
    let b1 = (v >> 8u16) as u8;
    assert((b0 as u16) | ((b1 as u16) << 8u16) == v) by (bit_vector)
        requires
            b0 == (v & 0xFF) as u8,
            b1 == (v >> 8u16) as u8,
    ;
}

proof fn lemma_levels_byte(a: u8, b: u8)
    requires
        a <= 2,
        b <= 2,
    ensures
        (a | (b << 4u8)) & 0xF == a,
        (a | (b << 4u8)) >> 4u8 == b,
{
    assert((a | (b << 4u8)) & 0xF == a && (a | (b << 4u8)) >> 4u8 == b) by (bit_vector)
        requires
            a <= 2,
            b <= 2,
    ;
}

proof fn lemma_words_bytes(d: Seq<u32>)
    ensures
        words_bytes(d).len() == 4 * d.len(),
        forall|i: int, k: int|
            0 <= i < d.len() && 0 <= k < 4 ==> #[trigger] words_bytes(d)[4 * i + k] == bytes32(
                d[i],
            )[k],
    decreases d.len(),
{
    if d.len() > 0 {
        lemma_words_bytes(d.drop_last());
        let p = words_bytes(d.drop_last());
        assert forall|i: int, k: int| 0 <= i < d.len() && 0 <= k < 4 implies #[trigger] words_bytes(
            d,
        )[4 * i + k] == bytes32(d[i])[k] by {
            if i < d.len() - 1 {
                assert(words_bytes(d)[4 * i + k] == p[4 * i + k]);
            } else {
                assert(words_bytes(d)[4 * i + k] == bytes32(d.last())[4 * i + k - p.len()]);
            }
        }
    }
}

proof fn lemma_words_roundtrip(d: Seq<u32>)
    ensures
        words_of(words_bytes(d)) =~= d,
        words_bytes(d).len() == 4 * d.len(),
{
    lemma_words_bytes(d);
    let b = words_bytes(d);
    assert forall|i: int| 0 <= i < d.len() implies #[trigger] word_at(b, 4 * i) == d[i] by {
        assert(b[4 * i + 0] == bytes32(d[i])[0]);
        assert(b[4 * i + 1] == bytes32(d[i])[1]);
        assert(b[4 * i + 2] == bytes32(d[i])[2]);
        assert(b[4 * i + 3] == bytes32(d[i])[3]);
        lemma_le32_bytes(d[i]);
    }
    assert(b.len() / 4 == d.len());
}

proof fn lemma_multi_bytes(d: Seq<MultiReg>)
    ensures
        multi_bytes(d).len() == 6 * d.len(),
        forall|i: int, k: int|
            0 <= i < d.len() && 0 <= k < 6 ==> #[trigger] multi_bytes(d)[6 * i + k] == reg_record(
                d[i],
            )[k],
    decreases d.len(),
{
    if d.len() > 0 {
        lemma_multi_bytes(d.drop_last());
        let p = multi_bytes(d.drop_last());
        assert forall|i: int, k: int| 0 <= i < d.len() && 0 <= k < 6 implies #[trigger] multi_bytes(
            d,
        )[6 * i + k] == reg_record(d[i])[k] by {
            if i < d.len() - 1 {
                assert(multi_bytes(d)[6 * i + k] == p[6 * i + k]);
            } else {
                assert(multi_bytes(d)[6 * i + k] == reg_record(d.last())[6 * i + k - p.len()]);
            }
        }
    }
}

proof fn lemma_multi_roundtrip(d: Seq<MultiReg>)
    ensures
        multi_regs_of(multi_bytes(d)) =~= d,
        valid_reg_types(multi_bytes(d)),
        multi_bytes(d).len() == 6 * d.len(),
{
    lemma_multi_bytes(d);
    let b = multi_bytes(d);
    assert(b.len() / 6 == d.len());
    assert forall|i: int| 0 <= i < d.len() implies #[trigger] multi_regs_of(b)[i] == d[i] by {
        assert(b[6 * i + 0] == reg_record(d[i])[0]);
        assert(b[6 * i + 1] == reg_record(d[i])[1]);
        assert(b[6 * i + 2] == reg_record(d[i])[2]);
        assert(b[6 * i + 3] == reg_record(d[i])[3]);
        assert(b[6 * i + 4] == reg_record(d[i])[4]);
        assert(b[6 * i + 5] == reg_record(d[i])[5]);
        lemma_le32_bytes(d[i].data);
        assert(word_at(b, 6 * i + 2) == d[i].data);
    }
    assert forall|i: int| 0 <= i < b.len() / 6 implies #[trigger] b[6 * i] <= 1 by {
        assert(b[6 * i + 0] == reg_record(d[i])[0]);
    }
}

/// The type byte of a multi-register write record is 0 for a Debug Port
/// register and 1 for an Access Port register, both ways: the encoder
/// writes 0 for DP and 1 for AP, every record whose type byte is 0 decodes
/// as a DP write and every one whose byte is 1 as an AP write, and a
/// one-record request with type byte 0 (or 1), register `reg` and word
/// `data` decodes as exactly that DP (or AP) write.
pub proof fn lemma_multi_reg_type_bytes(m: MultiReg, s: Seq<u8>, i: int, reg: u8, data: u32)
    ensures
        reg_record(m)[0] == (if m.reg_type == RegType::Dp {
            0u8
        } else {
            1u8
        }),
        0 <= i < s.len() / 6 && s[6 * i] == 0 ==> multi_regs_of(s)[i].reg_type == RegType::Dp,
        0 <= i < s.len() / 6 && s[6 * i] == 1 ==> multi_regs_of(s)[i].reg_type == RegType::Ap,
        decode(Command::MultiRegWrite, seq![1u8, 0u8], seq![0u8, reg] + bytes32(data)) == Ok::<
            OpView,
            ProtocolError,
        >(
            OpView::MultiRegWrite {
                count: 1,
                data: seq![MultiReg { reg_type: RegType::Dp, reg, data }],
            },
        ),
        decode(Command::MultiRegWrite, seq![1u8, 0u8], seq![1u8, reg] + bytes32(data)) == Ok::<
            OpView,
            ProtocolError,
        >(
            OpView::MultiRegWrite {
                count: 1,
                data: seq![MultiReg { reg_type: RegType::Ap, reg, data }],
            },
        ),
{
    lemma_le32_bytes(data);
    assert(le16(1u8, 0u8) == 1) by (bit_vector);
    let v0 = seq![0u8, reg] + bytes32(data);
    let v1 = seq![1u8, reg] + bytes32(data);
    assert(word_at(v0, 2) == data);
    assert(word_at(v1, 2) == data);
    assert(valid_reg_types(v0)) by {
        assert forall|k: int| 0 <= k < v0.len() / 6 implies #[trigger] v0[6 * k] <= 1 by {
            assert(k == 0);
        }
    }
    assert(valid_reg_types(v1)) by {
        assert forall|k: int| 0 <= k < v1.len() / 6 implies #[trigger] v1[6 * k] <= 1 by {
            assert(k == 0);
        }
    }
    assert(multi_regs_of(v0) =~= seq![MultiReg { reg_type: RegType::Dp, reg, data }]);
    assert(multi_regs_of(v1) =~= seq![MultiReg { reg_type: RegType::Ap, reg, data }]);
}

/// Decoding what a client sends for an operation gives the operation back:
/// the first byte names its command, the command's fixed bytes call for
/// exactly the data bytes that follow, and those bytes decode to the
/// operation.
pub proof fn lemma_decode_encode(op: OpView)
    requires
        sendable(op),
    ensures
        ({
            let b = encode(op);
            let c = op_command(op);
            let k = fixed_len(c) as int;
            &&& b.len() >= 1 + k
            &&& command_of_byte(b[0]) == Some(c)
            &&& var_len_of(c, b.subrange(1, 1 + k)) == Ok::<nat, ProtocolError>((b.len() - 1 - k) as nat)
            &&& decode(c, b.subrange(1, 1 + k), b.subrange(1 + k, b.len() as int)) == Ok::<
                OpView,
                ProtocolError,
            >(op)
        }),
{
    let b = encode(op);
    let c = op_command(op);
    let k = fixed_len(c) as int;
    let fixed = b.subrange(1, 1 + k);
    let var = b.subrange(1 + k, b.len() as int);
    match op {
        OpView::DpWrite { reg, data } | OpView::ApWrite { reg, data } => {
            lemma_le32_bytes(data);
            assert(word_at(fixed, 1) == data);
        },
        OpView::ApBulkRead { reg, count } => {
            lemma_le16_bytes(count);
        },
        OpView::ApBulkWrite { reg, data } => {
            lemma_le16_bytes(data.len() as u16);
            lemma_words_roundtrip(data);
            assert(var =~= words_bytes(data));
            assert(le16(fixed[1], fixed[2]) == data.len());
        },
        OpView::MultiRegWrite { count, data } => {
            lemma_le16_bytes(count);
            lemma_multi_roundtrip(data);
            assert(var =~= multi_bytes(data));
        },
        OpView::Clock { level, post_level, cycles } => {
            lemma_levels_byte(level_bits(level), level_bits(post_level));
            lemma_le16_bytes(cycles);
        },
        _ => {},
    }
}

fn push_u16(v: &mut Vec<u8>, x: u16)
    ensures
        final(v)@ == old(v)@ + bytes16(x),
{
    v.push((x & 0xFF) as u8);
    v.push((x >> 8u16) as u8);
}

fn push_u32(v: &mut Vec<u8>, x: u32)
    ensures
        final(v)@ == old(v)@ + bytes32(x),
{
    v.push((x & 0xFF) as u8);
    v.push(((x >> 8u32) & 0xFF) as u8);
    v.push(((x >> 16u32) & 0xFF) as u8);
    v.push((x >> 24u32) as u8);
}

impl Op {
    /// The bytes a client sends for this operation.
    pub fn to_bytes(&self) -> (r: Vec<u8>)
        requires
            self matches Op::ApBulkWrite { data, .. } ==> data@.len() <= u16::MAX,
        ensures
            r@ == encode(self@),
    {
        let mut v: Vec<u8> = Vec::new();
        match self {
            Op::DpRead { reg } => {
                v.push(CMD_DP_READ);
                v.push(*reg);
            },
            Op::DpWrite { reg, data } => {
                v.push(CMD_DP_WRITE);
                v.push(*reg);
                push_u32(&mut v, *data);
            },
            Op::ApRead { reg } => {
                v.push(CMD_AP_READ);
                v.push(*reg);
            },
            Op::ApWrite { reg, data } => {
                v.push(CMD_AP_WRITE);
                v.push(*reg);
                push_u32(&mut v, *data);
            },
            Op::ApBulkRead { reg, count } => {
                v.push(CMD_AP_BULK_READ);
                v.push(*reg);
                push_u16(&mut v, *count);
            },
            Op::ApBulkWrite { reg, data } => {
                v.push(CMD_AP_BULK_WRITE);
                v.push(*reg);
                push_u16(&mut v, data.len() as u16);
                let ghost head = v@;
                let mut i: usize = 0;
                while i < data.len()
                    invariant
                        i <= data@.len(),
                        v@ == head + words_bytes(data@.take(i as int)),
                    decreases data@.len() - i,
                {
                    push_u32(&mut v, data[i]);
                    assert(data@.take(i + 1).drop_last() =~= data@.take(i as int));
                    i = i + 1;
                }
                assert(data@.take(data@.len() as int) =~= data@);
            },
            Op::MultiRegWrite { count, data } => {
                v.push(CMD_MULTI_REG_WRITE);
                push_u16(&mut v, *count);
                let ghost head = v@;
                let mut i: usize = 0;
                while i < data.len()
                    invariant
                        i <= data@.len(),
                        v@ == head + multi_bytes(data@.take(i as int)),
                    decreases data@.len() - i,
                {
                    let m = data[i];
                    v.push(
                        match m.reg_type {
                            RegType::Dp => 0,
                            RegType::Ap => 1,
                        },
                    );
                    v.push(m.reg);
                    push_u32(&mut v, m.data);
                    assert(data@.take(i + 1).drop_last() =~= data@.take(i as int));
                    i = i + 1;
                }
                assert(data@.take(data@.len() as int) =~= data@);
            },
            Op::Ping => {
                v.push(CMD_PING);
            },
            Op::ResetTarget => {
                v.push(CMD_RESET_TARGET);
            },
            Op::Clock { level, post_level, cycles } => {
                v.push(CMD_CLOCK);
                v.push(level.to_bits() | (post_level.to_bits() << 4u8));
                push_u16(&mut v, *cycles);
            },
            Op::SetSpeed { speed } => {
                v.push(CMD_SET_SPEED);
                v.push(speed.to_byte());
            },
            Op::Disconnect => {
                v.push(CMD_DISCONNECT);
            },
        }
        v
    }

    /// Sends this operation to a binary API server: writes the bytes of
    /// [`Op::to_bytes`] to `writer`, and returns what the writer returns.
    /// The result and the writer's new state are an outcome of one
    /// `write_all` call on the writer as it was, with exactly those bytes.
    pub fn sync_send<W: SyncWriter>(&self, writer: &mut W) -> (r: Result<(), W::Error>)
        requires
            self matches Op::ApBulkWrite { data, .. } ==> data@.len() <= u16::MAX,
        ensures
            exists|w: &mut W, buf: &[u8]|
                *w == *old(writer) && *final(w) == *final(writer) && buf@ == encode(self@)
                    && call_ensures(W::write_all, (w, buf), r),
    {
        let bytes = self.to_bytes();
        let buf = bytes.as_slice();
        let f = W::write_all;
        f(writer, buf)
    }
}


/// Numbers as `{:?}` renders a list of them: in brackets, comma separated.
pub open spec fn dec_list(v: Seq<u32>, n: nat) -> Seq<char>
    decreases n,
{
    if n == 0 {
        Seq::empty()
    } else if n == 1 {
        dec(v[0] as nat)
    } else {
        dec_list(v, (n - 1) as nat) + ", "@ + dec(v[n - 1] as nat)
    }
}

/// A register type as `{:?}` renders it.
pub open spec fn reg_type_debug(t: RegType) -> Seq<char> {
    match t {
        RegType::Dp => "Dp"@,
        RegType::Ap => "Ap"@,
    }
}

/// A register write as `{:?}` renders it.
pub open spec fn multi_reg_debug(m: MultiReg) -> Seq<char> {
    "MultiReg { reg_type: "@ + reg_type_debug(m.reg_type) + ", reg: "@ + dec(m.reg as nat)
        + ", data: "@ + dec(m.data as nat) + " }"@
}

/// Register writes as `{:?}` renders a list of them, without the brackets.
pub open spec fn multi_reg_list(v: Seq<MultiReg>, n: nat) -> Seq<char>
    decreases n,
{
    if n == 0 {
        Seq::empty()
    } else if n == 1 {
        multi_reg_debug(v[0])
    } else {
        multi_reg_list(v, (n - 1) as nat) + ", "@ + multi_reg_debug(v[n - 1])
    }
}

/// A line level as `{:?}` renders it.
pub open spec fn level_debug(l: LineLevel) -> Seq<char> {
    match l {
        LineLevel::Low => "Low"@,
        LineLevel::High => "High"@,
        LineLevel::Input => "Input"@,
    }
}

/// A speed as `{:?}` renders it.
pub open spec fn speed_debug(s: Speed) -> Seq<char> {
    match s {
        Speed::Slow => "Slow"@,
        Speed::Medium => "Medium"@,
        Speed::Fast => "Fast"@,
        Speed::Turbo => "Turbo"@,
    }
}

/// An operation as displayed: its name, or, in the alternate form, its
/// name and fields.
pub open spec fn op_text(op: Op, alternate: bool) -> Seq<char> {
    if alternate {
        match op {
            Op::DpRead { reg } => "DpRead(reg="@ + dec(reg as nat) + ")"@,
            Op::DpWrite { reg, data } => "DpWrite(reg="@ + dec(reg as nat) + ", data="@ + dec(data as nat) + ")"@,
            Op::ApRead { reg } => "ApRead(reg="@ + dec(reg as nat) + ")"@,
            Op::ApWrite { reg, data } => "ApWrite(reg="@ + dec(reg as nat) + ", data="@ + dec(data as nat) + ")"@,
            Op::ApBulkRead { reg, count } => "ApBulkRead(reg="@ + dec(reg as nat) + ", count="@ + dec(count as nat) + ")"@,
            Op::ApBulkWrite { reg, data } => "ApBulkWrite(reg="@ + dec(reg as nat) + ", data=["@ + dec_list(data@, data@.len()) + "])"@,
            Op::MultiRegWrite { count, data } => "MultiRegWrite(count="@ + dec(count as nat) + ", data=["@
                + multi_reg_list(data@, data@.len()) + "])"@,
            Op::Ping => "Ping"@,
            Op::ResetTarget => "ResetTarget"@,
            Op::Clock { level, post_level, cycles } => "Clock(level="@ + level_debug(level) + ", post_level="@
                + level_debug(post_level) + ", cycles="@ + dec(cycles as nat) + ")"@,
            Op::SetSpeed { speed } => "SetSpeed(speed="@ + speed_debug(speed) + ")"@,
            Op::Disconnect => "Disconnect"@,
        }
    } else {
        match op {
            Op::DpRead { .. } => "DP Read"@,
            Op::DpWrite { .. } => "DP Write"@,
            Op::ApRead { .. } => "AP Read"@,
            Op::ApWrite { .. } => "AP Write"@,
            Op::ApBulkRead { .. } => "AP Bulk Read"@,
            Op::ApBulkWrite { .. } => "AP Bulk Write"@,
            Op::MultiRegWrite { .. } => "Multi Register Write"@,
            Op::Ping => "Ping"@,
            Op::ResetTarget => "Reset Target"@,
            Op::Clock { .. } => "Clock"@,
            Op::SetSpeed { .. } => "Set Speed"@,
            Op::Disconnect => "Disconnect"@,
        }
    }
}

fn append_dec_list(s: &mut String, v: &Vec<u32>)
    ensures
        final(s)@ == old(s)@ + dec_list(v@, v@.len()),
{
    let ghost s0 = s@;
    let mut i: usize = 0;
    assert(s0 + dec_list(v@, 0) =~= s0);
    while i < v.len()
        invariant
            i <= v@.len(),
            s@ == s0 + dec_list(v@, i as nat),
        decreases v@.len() - i,
    {
        let ghost before = s@;
        if i > 0 {
            push_str(s, ", ");
        }
        append_dec(s, v[i] as u64);
        proof {
            if i == 0 {
                assert(s@ =~= s0 + dec_list(v@, 1));
            } else {
                assert(s@ =~= s0 + dec_list(v@, (i + 1) as nat));
            }
        }
        i = i + 1;
    }
}

fn append_multi_reg(s: &mut String, m: &MultiReg)
    ensures
        final(s)@ == old(s)@ + multi_reg_debug(*m),
{
    let ghost s0 = s@;
    push_str(s, "MultiReg { reg_type: ");
    push_str(s, match m.reg_type {
        RegType::Dp => "Dp",
        RegType::Ap => "Ap",
    });
    push_str(s, ", reg: ");
    append_dec(s, m.reg as u64);
    push_str(s, ", data: ");
    append_dec(s, m.data as u64);
    push_str(s, " }");
    assert(s@ =~= s0 + multi_reg_debug(*m));
}

fn append_multi_reg_list(s: &mut String, v: &Vec<MultiReg>)
    ensures
        final(s)@ == old(s)@ + multi_reg_list(v@, v@.len()),
{
    let ghost s0 = s@;
    let mut i: usize = 0;
    assert(s0 + multi_reg_list(v@, 0) =~= s0);
    while i < v.len()
        invariant
            i <= v@.len(),
            s@ == s0 + multi_reg_list(v@, i as nat),
        decreases v@.len() - i,
    {
        if i > 0 {
            push_str(s, ", ");
        }
        append_multi_reg(s, &v[i]);
        proof {
            if i == 0 {
                assert(s@ =~= s0 + multi_reg_list(v@, 1));
            } else {
                assert(s@ =~= s0 + multi_reg_list(v@, (i + 1) as nat));
            }
        }
        i = i + 1;
    }
}

fn level_name(l: LineLevel) -> (r: &'static str)
    ensures
        r@ == level_debug(l),
{
    match l {
        LineLevel::Low => "Low",
        LineLevel::High => "High",
        LineLevel::Input => "Input",
    }
}

impl Op {
    /// The operation as displayed (see [`op_text`]).
    pub fn to_string(&self, alternate: bool) -> (r: String)
        ensures
            r@ == op_text(*self, alternate),
    {
        if !alternate {
            return match self {
                Op::DpRead { .. } => string_of("DP Read"),
                Op::DpWrite { .. } => string_of("DP Write"),
                Op::ApRead { .. } => string_of("AP Read"),
                Op::ApWrite { .. } => string_of("AP Write"),
                Op::ApBulkRead { .. } => string_of("AP Bulk Read"),
                Op::ApBulkWrite { .. } => string_of("AP Bulk Write"),
                Op::MultiRegWrite { .. } => string_of("Multi Register Write"),
                Op::Ping => string_of("Ping"),
                Op::ResetTarget => string_of("Reset Target"),
                Op::Clock { .. } => string_of("Clock"),
                Op::SetSpeed { .. } => string_of("Set Speed"),
                Op::Disconnect => string_of("Disconnect"),
            };
        }
        let mut s = String::new();
        match self {
            Op::DpRead { reg } => {
                push_str(&mut s, "DpRead(reg=");
                append_dec(&mut s, *reg as u64);
                push_str(&mut s, ")");
            },
            Op::DpWrite { reg, data } => {
                push_str(&mut s, "DpWrite(reg=");
                append_dec(&mut s, *reg as u64);
                push_str(&mut s, ", data=");
                append_dec(&mut s, *data as u64);
                push_str(&mut s, ")");
            },
            Op::ApRead { reg } => {
                push_str(&mut s, "ApRead(reg=");
                append_dec(&mut s, *reg as u64);
                push_str(&mut s, ")");
            },
            Op::ApWrite { reg, data } => {
                push_str(&mut s, "ApWrite(reg=");
                append_dec(&mut s, *reg as u64);
                push_str(&mut s, ", data=");
                append_dec(&mut s, *data as u64);
                push_str(&mut s, ")");
            },
            Op::ApBulkRead { reg, count } => {
                push_str(&mut s, "ApBulkRead(reg=");
                append_dec(&mut s, *reg as u64);
                push_str(&mut s, ", count=");
                append_dec(&mut s, *count as u64);
                push_str(&mut s, ")");
            },
            Op::ApBulkWrite { reg, data } => {
                push_str(&mut s, "ApBulkWrite(reg=");
                append_dec(&mut s, *reg as u64);
                push_str(&mut s, ", data=[");
                append_dec_list(&mut s, data);
                push_str(&mut s, "])");
            },
            Op::MultiRegWrite { count, data } => {
                push_str(&mut s, "MultiRegWrite(count=");
                append_dec(&mut s, *count as u64);
                push_str(&mut s, ", data=[");
                append_multi_reg_list(&mut s, data);
                push_str(&mut s, "])");
            },
            Op::Ping => push_str(&mut s, "Ping"),
            Op::ResetTarget => push_str(&mut s, "ResetTarget"),
            Op::Clock { level, post_level, cycles } => {
                push_str(&mut s, "Clock(level=");
                push_str(&mut s, level_name(*level));
                push_str(&mut s, ", post_level=");
                push_str(&mut s, level_name(*post_level));
                push_str(&mut s, ", cycles=");
                append_dec(&mut s, *cycles as u64);
                push_str(&mut s, ")");
            },
            Op::SetSpeed { speed } => {
                push_str(&mut s, "SetSpeed(speed=");
                push_str(&mut s, match speed {
                    Speed::Slow => "Slow",
                    Speed::Medium => "Medium",
                    Speed::Fast => "Fast",
                    Speed::Turbo => "Turbo",
                });
                push_str(&mut s, ")");
            },
            Op::Disconnect => push_str(&mut s, "Disconnect"),
        }
        assert(s@ =~= op_text(*self, alternate));
        s
    }
}


/// Each speed's nominal clock falls back into that speed's range, and each
/// speed's byte reads back as that speed.
pub proof fn lemma_speed_roundtrip(s: Speed)
    ensures
        speed_of_khz(khz_of_speed(s)) == s,
        speed_byte(s) <= 3,
{
}

/// Distinct commands have distinct bytes, so a command's byte reads back as
/// that command.
pub proof fn lemma_command_bytes_distinct(a: Command, b: Command)
    ensures
        command_byte(a) == command_byte(b) ==> a == b,
{
}

/// Every error response code has its top bit set; success is zero.
pub proof fn lemma_error_responses_top_bit(r: ResponseCode)
    ensures
        r == ResponseCode::Success <==> response_byte(r) == 0,
        r != ResponseCode::Success ==> response_byte(r) >= 0x80,
{
}

/// A level and post level packed into a byte read back as themselves.
pub proof fn lemma_levels_roundtrip(level: LineLevel, post: LineLevel)
    ensures
        ({
            let b = (level_bits(level) | (level_bits(post) << 4u8)) as u8;
            level_of(b & 0xF) == Some(level) && level_of(b >> 4u8) == Some(post)
        }),
{
    let l = level_bits(level);
    let p = level_bits(post);
    assert(l <= 2 && p <= 2);
    assert(((l | (p << 4u8)) as u8) & 0xF == l && ((l | (p << 4u8)) as u8) >> 4u8 == p) by (bit_vector)
        requires l <= 2, p <= 2;
}

} // verus!
