//! ARM Serial Wire Debug: the error type shared by all SWD operations, the
//! protocol's speed and version settings, parity, and the binary API
//! server's decisions (handshake, what each outcome is answered with, and
//! the response bytes).

use crate::bin::{
    bytes16, bytes32, response_byte, words_bytes, LineLevel, Op, ProtocolError, ResponseCode,
    Speed as BinSpeed, VERSION,
};
use crate::fmt::{append_dec, dec, push_str, string_of};
use vstd::prelude::*;

verus! {

/// Core error type used by all SWD operations.
#[derive(Debug, Clone, PartialEq, Eq)]
pub enum SwdError {
    /// Transient error that can likely be retried successfully.
    WaitAck,
    /// A fault condition on the target; it needs a reset.
    FaultAck,
    /// No acknowledgement from the target; the value received is included.
    NoAck(u8),
    /// A parity error was detected while reading from the target.
    ReadParity,
    /// A Debug Port error, signalled via the DP CTRL/STAT register.
    DpError,
    /// The requested operation failed without an SWD protocol error.
    OperationFailed(String),
    /// The target is not ready to receive the requested operation.
    NotReady,
    /// The API was called incorrectly.
    Api,
    /// A network error occurred.
    Network,
    /// A timeout occurred while waiting for a response.
    Timeout,
    /// The requested operation is not supported.
    Unsupported,
}

/// The outcome of an SWD acknowledge value: 1 is OK, 2 is WAIT, 4 is
/// FAULT, anything else is no acknowledgement.
pub open spec fn ack_outcome(ack: u8) -> Result<(), SwdError> {
    if ack == 1 {
        Ok(())
    } else if ack == 2 {
        Err(SwdError::WaitAck)
    } else if ack == 4 {
        Err(SwdError::FaultAck)
    } else {
        Err(SwdError::NoAck(ack))
    }
}

/// Whether an error calls for a target reset.
pub open spec fn needs_reset(e: SwdError) -> bool {
    e is NoAck || e is FaultAck || e is ReadParity || e is DpError
}

/// The short name of an error.
pub open spec fn error_name(e: SwdError) -> Seq<char> {
    match e {
        SwdError::WaitAck => "Wait ACK"@,
        SwdError::FaultAck => "Fault ACK"@,
        SwdError::NoAck(_) => "No ACK"@,
        SwdError::ReadParity => "Read Parity Error"@,
        SwdError::DpError => "Debug Port Error"@,
        SwdError::OperationFailed(_) => "Operation Failed"@,
        SwdError::NotReady => "Not Ready"@,
        SwdError::Api => "API Error"@,
        SwdError::Network => "Network Error"@,
        SwdError::Timeout => "Timeout"@,
        SwdError::Unsupported => "Unsupported Operation"@,
    }
}

/// The kind of an error, as serialized.
pub open spec fn error_kind(e: SwdError) -> Seq<char> {
    match e {
        SwdError::WaitAck => "wait acknowledge"@,
        SwdError::FaultAck => "fault acknowledge"@,
        SwdError::NoAck(_) => "bad acknowledge"@,
        SwdError::ReadParity => "read parity error"@,
        SwdError::DpError => "debug port error"@,
        SwdError::OperationFailed(_) => "operation failed"@,
        SwdError::NotReady => "not ready"@,
        SwdError::Api => "api error"@,
        SwdError::Network => "network error"@,
        SwdError::Timeout => "timeout"@,
        SwdError::Unsupported => "unsupported operation"@,
    }
}

/// The detail of an error, as serialized: the message of a failed
/// operation, the value of a missing acknowledgement, otherwise empty.
pub open spec fn error_detail(e: SwdError) -> Seq<char> {
    match e {
        SwdError::OperationFailed(msg) => msg@,
        SwdError::NoAck(code) => dec(code as nat),
        _ => Seq::empty(),
    }
}

/// An error as displayed: its name, followed by the value or message it
/// carries.
pub open spec fn error_text(e: SwdError) -> Seq<char> {
    match e {
        SwdError::NoAck(ack) => error_name(e) + ": "@ + dec(ack as nat),
        SwdError::OperationFailed(msg) => error_name(e) + ": "@ + msg@,
        _ => error_name(e),
    }
}

impl SwdError {
    /// The outcome of an SWD acknowledge value.
    pub fn from_ack(ack: u8) -> (r: Result<(), SwdError>)
        ensures
            r == ack_outcome(ack),
    {
        match ack {
            1 => Ok(()),
            2 => Err(SwdError::WaitAck),
            4 => Err(SwdError::FaultAck),
            _ => Err(SwdError::NoAck(ack)),
        }
    }

    /// Whether the error requires a target reset to recover.
    pub fn requires_reset(&self) -> (r: bool)
        ensures
            r == needs_reset(*self),
    {
        match self {
            SwdError::NoAck(_) | SwdError::FaultAck | SwdError::ReadParity | SwdError::DpError => true,
            _ => false,
        }
    }

    /// Whether the error is transient and the operation can be retried.
    pub fn requires_retry(&self) -> (r: bool)
        ensures
            r == (*self is WaitAck),
    {
        match self {
            SwdError::WaitAck => true,
            _ => false,
        }
    }

    /// Whether the error needs something other than a reset or a retry.
    pub fn requires_other(&self) -> (r: bool)
        ensures
            r == (!needs_reset(*self) && !(*self is WaitAck)),
    {
        !self.requires_reset() && !self.requires_retry()
    }

    /// The short name of the error.
    pub fn as_str(&self) -> (r: &'static str)
        ensures
            r@ == error_name(*self),
    {
        match self {
            SwdError::WaitAck => "Wait ACK",
            SwdError::FaultAck => "Fault ACK",
            SwdError::NoAck(_) => "No ACK",
            SwdError::ReadParity => "Read Parity Error",
            SwdError::DpError => "Debug Port Error",
            SwdError::OperationFailed(_) => "Operation Failed",
            SwdError::NotReady => "Not Ready",
            SwdError::Api => "API Error",
            SwdError::Network => "Network Error",
            SwdError::Timeout => "Timeout",
            SwdError::Unsupported => "Unsupported Operation",
        }
    }

    /// The kind of the error, as serialized.
    pub fn kind(&self) -> (r: &'static str)
        ensures
            r@ == error_kind(*self),
    {
        match self {
            SwdError::WaitAck => "wait acknowledge",
            SwdError::FaultAck => "fault acknowledge",
            SwdError::NoAck(_) => "bad acknowledge",
            SwdError::ReadParity => "read parity error",
            SwdError::DpError => "debug port error",
            SwdError::OperationFailed(_) => "operation failed",
            SwdError::NotReady => "not ready",
            SwdError::Api => "api error",
            SwdError::Network => "network error",
            SwdError::Timeout => "timeout",
            SwdError::Unsupported => "unsupported operation",
        }
    }

    /// The detail of the error, as serialized.
    pub fn detail(&self) -> (r: String)
        ensures
            r@ == error_detail(*self),
    {
        match self {
            SwdError::OperationFailed(msg) => msg.clone(),
            SwdError::NoAck(code) => {
                let mut s = String::new();
                append_dec(&mut s, *code as u64);
                s
            },
            _ => String::new(),
        }
    }

    /// The error as displayed.
    pub fn to_string(&self) -> (r: String)
        ensures
            r@ == error_text(*self),
    {
        let mut s = string_of(self.as_str());
        match self {
            SwdError::NoAck(ack) => {
                push_str(&mut s, ": ");
                append_dec(&mut s, *ack as u64);
            },
            SwdError::OperationFailed(msg) => {
                push_str(&mut s, ": ");
                push_str(&mut s, msg.as_str());
            },
            _ => {},
        }
        s
    }
}

/// SWD protocol version.
#[derive(Debug, Clone, Copy, PartialEq, Eq, Structural)]
pub enum Version {
    /// SWD v1.0 - Examples: STM32F1, STM32F4.
    V1,
    /// SWD v2.0 - Examples: RP2040/Pico, RP2350/Pico 2.
    V2,
}

/// SWD protocol speed setting.
#[derive(Debug, Clone, Copy, PartialEq, Eq, Structural)]
pub enum Speed {
    /// Roughly 500kHz clock.
    Slow,
    /// Roughly 1MHz clock.
    Medium,
    /// Roughly 2MHz clock.
    Fast,
    /// Roughly 4MHz clock.
    Turbo,
}

impl Default for Speed {
    fn default() -> (r: Self)
        ensures
            r == Speed::Turbo,
    {
        Speed::Turbo
    }
}

/// The protocol speed of a binary API speed.
pub open spec fn speed_of_bin(s: BinSpeed) -> Speed {
    match s {
        BinSpeed::Slow => Speed::Slow,
        BinSpeed::Medium => Speed::Medium,
        BinSpeed::Fast => Speed::Fast,
        BinSpeed::Turbo => Speed::Turbo,
    }
}

impl From<BinSpeed> for Speed {
    fn from(value: BinSpeed) -> (r: Self) {
        match value {
            BinSpeed::Slow => Speed::Slow,
            BinSpeed::Medium => Speed::Medium,
            BinSpeed::Fast => Speed::Fast,
            BinSpeed::Turbo => Speed::Turbo,
        }
    }
}

impl vstd::std_specs::convert::FromSpecImpl<BinSpeed> for Speed {
    open spec fn obeys_from_spec() -> bool {
        true
    }

    open spec fn from_spec(v: BinSpeed) -> Speed {
        speed_of_bin(v)
    }
}

/// Delay cycles per clock phase of a speed.
pub open spec fn phase_cycles(s: Speed) -> u32 {
    match s {
        Speed::Slow => 75,
        Speed::Medium => 33,
        Speed::Fast => 10,
        Speed::Turbo => 0,
    }
}

impl Speed {
    /// The approximate clock of this speed in kHz.
    pub fn speed_khz(&self) -> (r: u32)
        ensures
            r == match *self {
                Speed::Slow => 500u32,
                Speed::Medium => 1000u32,
                Speed::Fast => 2000u32,
                Speed::Turbo => 4000u32,
            },
    {
        match self {
            Speed::Slow => 500,
            Speed::Medium => 1000,
            Speed::Fast => 2000,
            Speed::Turbo => 4000,
        }
    }

    /// Delay cycles while the clock is high.
    pub fn clock_high_cycles(&self) -> (r: u32)
        ensures
            r == phase_cycles(*self),
    {
        match self {
            Speed::Slow => 75,
            Speed::Medium => 33,
            Speed::Fast => 10,
            Speed::Turbo => 0,
        }
    }

    /// Delay cycles while the clock is low.
    pub fn clock_low_cycles(&self) -> (r: u32)
        ensures
            r == phase_cycles(*self),
    {
        match self {
            Speed::Slow => 75,
            Speed::Medium => 33,
            Speed::Fast => 10,
            Speed::Turbo => 0,
        }
    }
}

/// Possible SWD line states.
#[derive(Debug, PartialEq, Eq, Clone, Copy, Structural)]
pub enum LineState {
    /// Line set to low, output.
    Low,
    /// Line set to high, output.
    High,
    /// Line set to input.
    Input,
}

/// The line state a binary API line level asks for.
pub open spec fn state_of_level(l: LineLevel) -> LineState {
    match l {
        LineLevel::High => LineState::High,
        LineLevel::Low => LineState::Low,
        LineLevel::Input => LineState::Input,
    }
}

/// The binary API line level of a line state.
pub fn from_swd_line_state(state: LineState) -> (r: LineLevel)
    ensures
        state_of_level(r) == state,
{
    match state {
        LineState::High => LineLevel::High,
        LineState::Low => LineLevel::Low,
        LineState::Input => LineLevel::Input,
    }
}

/// The line state a binary API line level asks for.
pub fn into_swd_line_state(level: LineLevel) -> (r: LineState)
    ensures
        r == state_of_level(level),
{
    match level {
        LineLevel::High => LineState::High,
        LineLevel::Low => LineState::Low,
        LineLevel::Input => LineState::Input,
    }
}

/// The number of bits set among the lowest `n` bits of `x`.
pub open spec fn ones(x: u64, n: nat) -> nat
    decreases n,
{
    if n == 0 {
        0
    } else {
        ones(x, (n - 1) as nat) + (if (x >> (n - 1) as u64) & 1 == 1 {
            1nat
        } else {
            0nat
        })
    }
}

/// SWD parity: true for an odd number of bits set to 1.
pub fn calculate_parity(value: u64) -> (r: bool)
    ensures
        r == (ones(value, 64) % 2 == 1),
{
    let mut odd = false;
    let mut i: u64 = 0;
    while i < 64
        invariant
            i <= 64,
            odd == (ones(value, i as nat) % 2 == 1),
        decreases 64 - i,
    {
        if (value >> i) & 1 == 1 {
            odd = !odd;
        }
        i = i + 1;
    }
    odd
}

proof fn lemma_ones_xor(a: u64, b: u64, n: nat)
    ensures
        ones(a ^ b, n) % 2 == (ones(a, n) + ones(b, n)) % 2,
    decreases n,
{
    if n > 0 {
        lemma_ones_xor(a, b, (n - 1) as nat);
        let k = (n - 1) as u64;
        assert(((a ^ b) >> k) & 1 == 1 <==> (((a >> k) & 1 == 1) != ((b >> k) & 1 == 1)))
            by (bit_vector);
    }
}

/// The parity of two words combined bit by bit with XOR is odd exactly when
/// one of the two words has odd parity and the other even.
pub proof fn lemma_parity_xor(a: u64, b: u64)
    ensures
        (ones(a ^ b, 64) % 2 == 1) == ((ones(a, 64) % 2 == 1) != (ones(b, 64) % 2 == 1)),
{
    lemma_ones_xor(a, b, 64);
}

/// The 33 bits sent for a data word: the word, and its parity as bit 32.
pub fn word_with_parity(data: u32) -> (r: u64)
    ensures
        r == (if ones(data as u64, 64) % 2 == 1 {
            data as u64 + 0x1_0000_0000
        } else {
            data as int
        }),
{
    if calculate_parity(data as u64) {
        data as u64 + 0x1_0000_0000
    } else {
        data as u64
    }
}

/// Checks a word read from the target against the parity bit that
/// followed it.
pub fn check_parity(data: u32, parity: bool) -> (r: Result<u32, SwdError>)
    ensures
        r == (if (ones(data as u64, 64) % 2 == 1) == parity {
            Ok::<u32, SwdError>(data)
        } else {
            Err::<u32, SwdError>(SwdError::ReadParity)
        }),
{
    if calculate_parity(data as u64) != parity {
        Err(SwdError::ReadParity)
    } else {
        Ok(data)
    }
}

/// How many binary API calls between progress notes.
pub const API_CALL_LOG_INTERVAL: usize = 1000;

/// A binary API serving instance, counting the calls it has handled.
pub struct Api {
    /// The number of binary API calls handled in this instance.
    pub binary_api_calls: usize,
}

/// What the server does after receiving a request that could not be
/// parsed.
#[derive(Debug, PartialEq, Eq, Clone, Copy, Structural)]
pub enum ParseOutcome {
    /// Send this response code and close the connection.
    Respond(ResponseCode),
    /// Close the connection without a response, with this error.
    Fail,
}

/// What the server does with an operation it has received.
#[derive(Debug, PartialEq, Eq, Clone, Copy, Structural)]
pub enum LoopStep {
    /// End the session, sending this response code; no SWD call is made.
    Finish(ResponseCode),
    /// Carry the operation out on the SWD interface and answer it.
    Handle,
}

/// The bytes that answer a handled operation, in the order they are sent:
/// the response code's byte first, then the data, if there is any.
pub open spec fn answer_of(result: Result<Option<Seq<u8>>, SwdError>) -> Seq<u8> {
    match result {
        Ok(Some(data)) => seq![response_byte(ResponseCode::Success)] + data,
        Ok(None) => seq![response_byte(ResponseCode::Success)],
        Err(e) => seq![response_byte(response_for_error(e))],
    }
}

/// The response code a failed operation is answered with.
pub open spec fn response_for_error(e: SwdError) -> ResponseCode {
    match e {
        SwdError::Api | SwdError::Unsupported => ResponseCode::Api,
        SwdError::Network => ResponseCode::Net,
        SwdError::Timeout => ResponseCode::Timeout,
        _ => ResponseCode::Swd,
    }
}

impl Default for Api {
    fn default() -> (r: Self)
        ensures
            r.binary_api_calls == 0,
    {
        Api::new()
    }
}

impl Api {
    /// A new instance that has handled no calls.
    pub fn new() -> (r: Self)
        ensures
            r.binary_api_calls == 0,
    {
        Api { binary_api_calls: 0 }
    }

    /// The response code a failed operation is answered with: API misuse
    /// and unsupported operations are API errors, network errors and
    /// timeouts have their own codes, everything else is an SWD error.
    pub fn binary_api_response_from_swd_error(e: SwdError) -> (r: ResponseCode)
        ensures
            r == response_for_error(e),
    {
        match e {
            SwdError::Api | SwdError::Unsupported => ResponseCode::Api,
            SwdError::Network => ResponseCode::Net,
            SwdError::Timeout => ResponseCode::Timeout,
            _ => ResponseCode::Swd,
        }
    }

    /// The outcome of the handshake, given how many bytes the client's
    /// version acknowledgement read returned and the byte it holds: the
    /// client must echo [`VERSION`], and anything else is an API error.
    pub fn handshake_result(count: usize, ack: u8) -> (r: Result<(), SwdError>)
        ensures
            r == (if count != 0 && ack == VERSION {
                Ok::<(), SwdError>(())
            } else {
                Err::<(), SwdError>(SwdError::Api)
            }),
    {
        if count == 0 {
            return Err(SwdError::Api);
        }
        if ack == VERSION {
            Ok(())
        } else {
            Err(SwdError::Api)
        }
    }

    /// What the server does when a request's content is invalid (an API
    /// error response, then close), or its transport failed (close with a
    /// network error).
    pub fn parse_error_outcome(protocol_error: Option<ProtocolError>) -> (r: ParseOutcome)
        ensures
            r == (if protocol_error is Some {
                ParseOutcome::Respond(ResponseCode::Api)
            } else {
                ParseOutcome::Fail
            }),
    {
        match protocol_error {
            Some(_) => ParseOutcome::Respond(ResponseCode::Api),
            None => ParseOutcome::Fail,
        }
    }

    /// The response code and any data bytes that answer an operation's
    /// outcome.
    pub fn response_for(result: Result<Option<Vec<u8>>, SwdError>) -> (r: (ResponseCode, Option<Vec<u8>>))
        ensures
            match result {
                Ok(data) => r.0 == ResponseCode::Success && r.1 == data,
                Err(e) => r.0 == response_for_error(e) && r.1 is None,
            },
    {
        match result {
            Ok(data) => (ResponseCode::Success, data),
            Err(e) => (Self::binary_api_response_from_swd_error(e), None),
        }
    }

    /// What the server does with a received operation: a disconnect ends
    /// the session with the success code and makes no SWD call; every other
    /// operation is carried out and answered.
    pub fn op_outcome(op: &Op) -> (r: LoopStep)
        ensures
            (op@ is Disconnect) <==> r == LoopStep::Finish(ResponseCode::Success),
            !(op@ is Disconnect) <==> r == LoopStep::Handle,
    {
        match op {
            Op::Disconnect => LoopStep::Finish(ResponseCode::Success),
            _ => LoopStep::Handle,
        }
    }

    /// The bytes that answer a handled operation's outcome: the response
    /// code's byte (see [`Api::response_for`]), then any response data.
    pub fn answer_bytes(result: Result<Option<Vec<u8>>, SwdError>) -> (r: Vec<u8>)
        ensures
            r@ == answer_of(
                match result {
                    Ok(Some(d)) => Ok(Some(d@)),
                    Ok(None) => Ok(None),
                    Err(e) => Err(e),
                },
            ),
    {
        let (code, data) = Self::response_for(result);
        let mut v: Vec<u8> = Vec::new();
        v.push(code.to_byte());
        match data {
            Some(mut d) => {
                v.append(&mut d);
            },
            None => {},
        }
        v
    }

    /// Counts one handled call, and says whether a progress note is due
    /// (every [`API_CALL_LOG_INTERVAL`] calls).
    pub fn record_call(&mut self) -> (log_due: bool)
        requires
            old(self).binary_api_calls < usize::MAX,
        ensures
            final(self).binary_api_calls == old(self).binary_api_calls + 1,
            log_due == (final(self).binary_api_calls % API_CALL_LOG_INTERVAL == 0),
    {
        self.binary_api_calls = self.binary_api_calls + 1;
        self.binary_api_calls % API_CALL_LOG_INTERVAL == 0
    }

    /// The data that answers a single register read: the word,
    /// little-endian.
    pub fn word_response(data: u32) -> (r: Vec<u8>)
        ensures
            r@ == bytes32(data),
    {
        let mut v: Vec<u8> = Vec::new();
        v.push((data & 0xFF) as u8);
        v.push(((data >> 8u32) & 0xFF) as u8);
        v.push(((data >> 16u32) & 0xFF) as u8);
        v.push((data >> 24u32) as u8);
        v
    }

    /// The data that answers a bulk read: the count, then each word,
    /// little-endian.
    pub fn bulk_read_response(count: u16, words: &[u32]) -> (r: Vec<u8>)
        ensures
            r@ == bytes16(count) + words_bytes(words@),
    {
        let mut v: Vec<u8> = Vec::new();
        v.push((count & 0xFF) as u8);
        v.push((count >> 8u16) as u8);
        let ghost head = v@;
        let mut i: usize = 0;
        while i < words.len()
            invariant
                i <= words@.len(),
                head == bytes16(count),
                v@ == head + words_bytes(words@.take(i as int)),
            decreases words@.len() - i,
        {
            let w = words[i];
            v.push((w & 0xFF) as u8);
            v.push(((w >> 8u32) & 0xFF) as u8);
            v.push(((w >> 16u32) & 0xFF) as u8);
            v.push((w >> 24u32) as u8);
            assert(words@.take(i + 1).drop_last() =~= words@.take(i as int));
            i = i + 1;
        }
        assert(words@.take(words@.len() as int) =~= words@);
        v
    }
}


/// How a failed operation is answered, by the kind of its error: only a
/// timeout is answered with the timeout code (0x83); every SWD protocol
/// or target error (a WAIT, FAULT or missing acknowledge, a read parity or
/// Debug Port error, a failed operation, a target not ready) with the
/// register access error code (0x82); API misuse and unsupported
/// operations with the invalid parameter code (0x85); a network error
/// with the connection error code (0x84).
pub proof fn lemma_error_response_codes(e: SwdError)
    ensures
        (response_for_error(e) == ResponseCode::Timeout) <==> (e is Timeout),
        (response_byte(response_for_error(e)) == 0x83) <==> (e is Timeout),
        (needs_reset(e) || e is WaitAck || e is OperationFailed || e is NotReady) ==> (
        response_for_error(e) == ResponseCode::Swd && response_byte(response_for_error(e))
            == 0x82),
        (e is Api || e is Unsupported) <==> response_byte(response_for_error(e)) == 0x85,
        (e is Network) <==> response_byte(response_for_error(e)) == 0x84,
{
}

/// A word sent with its parity bit reads back intact: the low 32 bits of
/// the 33 sent are the word, bit 32 is its parity, and checking the word
/// against that bit succeeds.
pub proof fn lemma_parity_roundtrip(data: u32)
    ensures
        ({
            let p = ones(data as u64, 64) % 2 == 1;
            let sent = if p {
                data as u64 + 0x1_0000_0000
            } else {
                data as int
            };
            &&& sent % 0x1_0000_0000 == data
            &&& (sent / 0x1_0000_0000 == 1) == p
            &&& (if (ones(data as u64, 64) % 2 == 1) == p {
                Ok::<u32, SwdError>(data)
            } else {
                Err::<u32, SwdError>(SwdError::ReadParity)
            }) == Ok::<u32, SwdError>(data)
        }),
{
}

} // verus!
