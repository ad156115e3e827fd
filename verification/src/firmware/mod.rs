//! Firmware handling: the firmware types airfrog recognises on its target,
//! the firmware task's commands and responses, and the decisions the task
//! makes on them. Reading the target and running firmware plug-ins is the
//! task's own work; what it does with each result is decided here.

pub mod onerom;
pub mod onerom_lab;

use crate::fmt::{append_hex_word, hex_word, string_of};
use crate::http::{Method, StatusCode};
use crate::mcu::Mcu;
use crate::rtt::Control as RttControl;
use vstd::prelude::*;

verus! {

/// `serde_json::Value`: a JSON body carried through firmware commands and
/// responses without being read here.
#[verifier::external_type_specification]
#[verifier::external_body]
pub struct ExValue(serde_json::Value);

/// Firmware types airfrog recognises.
#[derive(Debug, Clone, Copy, PartialEq, Eq, Structural)]
pub enum FirmwareType {
    Unknown,
    OneRom,
    OneRomLab,
}

/// A firmware type as displayed.
pub open spec fn firmware_type_text(t: FirmwareType) -> Seq<char> {
    match t {
        FirmwareType::Unknown => "Unknown"@,
        FirmwareType::OneRom => "One ROM"@,
        FirmwareType::OneRomLab => "One ROM Lab"@,
    }
}

impl FirmwareType {
    /// The firmware type as displayed.
    pub fn to_string(&self) -> (r: String)
        ensures
            r@ == firmware_type_text(*self),
    {
        match self {
            FirmwareType::Unknown => string_of("Unknown"),
            FirmwareType::OneRom => string_of("One ROM"),
            FirmwareType::OneRomLab => string_of("One ROM Lab"),
        }
    }
}

/// A custom button on the firmware footer: its name, and the path below
/// `/www/firmware/` it fetches.
#[derive(Debug, PartialEq, Eq, Clone)]
pub struct WwwButton {
    pub name: String,
    pub path: String,
}

/// Firmware task errors.
#[derive(Debug, PartialEq, Eq, Clone, Copy, Structural)]
pub enum Error {
    /// The task is stopped.
    Stopped,
    /// The target reported an error.
    Target,
    /// A read was not word aligned.
    Alignment,
    /// No firmware was recognised.
    UnknownFirmware,
    /// The firmware does not implement the request.
    NotImplemented,
}

/// Firmware task state.
#[derive(Debug, PartialEq, Eq, Clone, Copy, Structural)]
pub enum State {
    Started,
    Stopped,
}

/// Controls the target task sends the firmware task.
#[derive(Debug)]
pub enum Control {
    /// The target connected, with this MCU.
    Start { mcu: Mcu },
    /// The target disconnected.
    Stop,
}

/// Firmware task commands.
#[derive(Debug)]
pub enum Command {
    /// The task's state.
    GetStatus,
    /// Detect and decode the firmware afresh.
    Refresh,
    /// The detected firmware type.
    GetFirmware,
    /// Key/value pairs summarising the firmware.
    GetSummaryKvp,
    /// An HTML description of the firmware.
    GetFullHtml,
    /// The firmware's custom buttons.
    GetButtons,
    /// A REST request below `/api/firmware`.
    HandleRest { method: Method, path: String, body: Option<serde_json::Value> },
    /// A web request below `/www/firmware`.
    HandleWww { method: Method, path: String, body: Option<String> },
}

/// Firmware task responses.
#[derive(Debug)]
pub enum Response {
    Status(State),
    Firmware(FirmwareType),
    Kvp(Vec<(String, String)>),
    Buttons(Vec<WwwButton>),
    Html { status: StatusCode, body: Option<String> },
    Json { status: StatusCode, body: Option<serde_json::Value> },
    Error(Error),
}

/// What the firmware task does with a command.
#[derive(Debug)]
pub enum Action {
    /// Answer with this response.
    Reply(Response),
    /// Detect and decode the firmware, then answer with its type.
    Detect,
    /// Ask the decoded firmware, then answer with what it returns.
    AskFirmware,
}

/// The firmware task's state: whether it runs, the target's MCU, and the
/// type of the firmware decoded from it.
pub struct Fw {
    pub state: State,
    pub mcu: Option<Mcu>,
    pub firmware: Option<FirmwareType>,
}

/// Whether a command needs decoded firmware to answer.
pub open spec fn needs_firmware(c: &Command) -> bool {
    !(c is GetStatus || c is Refresh || c is GetFirmware)
}

impl Fw {
    /// A stopped task with no MCU or firmware.
    pub fn new() -> (r: Self)
        ensures
            r.state == State::Stopped,
            r.mcu is None,
            r.firmware is None,
    {
        Fw { state: State::Stopped, mcu: None, firmware: None }
    }

    /// Decides what to do with a command. While stopped only the status is
    /// answered; anything else is `Stopped`. While started the status and
    /// the firmware type are answered at once and a refresh detects the
    /// firmware again; the rest go to the decoded firmware, or are
    /// `UnknownFirmware` where there is none.
    pub fn handle_command(&self, command: &Command) -> (r: Action)
        ensures
            self.state == State::Stopped ==> match r {
                Action::Reply(Response::Status(s)) => command is GetStatus && s == self.state,
                Action::Reply(Response::Error(e)) => !(command is GetStatus) && e == Error::Stopped,
                _ => false,
            },
            self.state == State::Started && command is GetStatus ==> (r matches Action::Reply(
                Response::Status(s),
            ) && s == self.state),
            self.state == State::Started && command is Refresh ==> r is Detect,
            self.state == State::Started && command is GetFirmware ==> (r matches Action::Reply(
                Response::Firmware(t),
            ) && t == match self.firmware {
                Some(t) => t,
                None => FirmwareType::Unknown,
            }),
            self.state == State::Started && needs_firmware(command) ==> match self.firmware {
                Some(_) => r is AskFirmware,
                None => (r matches Action::Reply(Response::Error(e)) && e == Error::UnknownFirmware),
            },
    {
        if self.state == State::Stopped {
            return match command {
                Command::GetStatus => Action::Reply(Response::Status(self.state)),
                _ => Action::Reply(Response::Error(Error::Stopped)),
            };
        }
        match command {
            Command::GetStatus => return Action::Reply(Response::Status(self.state)),
            Command::Refresh => return Action::Detect,
            Command::GetFirmware => {
                let t = match self.firmware {
                    Some(t) => t,
                    None => FirmwareType::Unknown,
                };
                return Action::Reply(Response::Firmware(t));
            },
            _ => {},
        }
        match self.firmware {
            Some(_) => Action::AskFirmware,
            None => Action::Reply(Response::Error(Error::UnknownFirmware)),
        }
    }

    /// Records the firmware a detection found, and returns its type
    /// (`Unknown` where none was found).
    pub fn set_firmware(&mut self, found: Option<FirmwareType>) -> (r: FirmwareType)
        ensures
            final(self).firmware == found,
            final(self).state == old(self).state,
            final(self).mcu == old(self).mcu,
            r == match found {
                Some(t) => t,
                None => FirmwareType::Unknown,
            },
    {
        self.firmware = found;
        match found {
            Some(t) => t,
            None => FirmwareType::Unknown,
        }
    }

    /// Starts for a newly connected target's MCU; firmware detection
    /// follows.
    pub fn start(&mut self, mcu: Mcu)
        ensures
            final(self).state == State::Started,
            final(self).mcu == Some(mcu),
            final(self).firmware == old(self).firmware,
    {
        self.mcu = Some(mcu);
        self.state = State::Started;
    }

    /// Stops: forgets the MCU and firmware, and stops RTT.
    pub fn stop(&mut self) -> (r: RttControl)
        ensures
            final(self).state == State::Stopped,
            final(self).mcu is None,
            final(self).firmware is None,
            r == RttControl::Stop,
    {
        self.mcu = None;
        self.state = State::Stopped;
        self.firmware = None;
        RttControl::Stop
    }

    /// Whether the task is stopped.
    pub fn is_stopped(&self) -> (r: bool)
        ensures
            r == (self.state == State::Stopped),
    {
        self.state == State::Stopped
    }

    /// Whether the task is started.
    pub fn _is_started(&self) -> (r: bool)
        ensures
            r == (self.state == State::Started),
    {
        self.state == State::Started
    }
}

/// How RTT follows a start: where the decoded firmware names an RTT
/// control block, RTT starts there; else nothing.
pub fn rtt_start(rtt_cb_address: Option<u32>) -> (r: Option<RttControl>)
    ensures
        r == match rtt_cb_address {
            Some(a) => Some(RttControl::Start { rtt_cb_loc: a }),
            None => None,
        },
{
    match rtt_cb_address {
        Some(a) => Some(RttControl::Start { rtt_cb_loc: a }),
        None => None,
    }
}

/// What a firmware plug-in answered.
pub enum FirmwareResult {
    Kvp(Result<Vec<(String, String)>, Error>),
    Html(Result<(StatusCode, Option<String>), Error>),
    Buttons(Result<Vec<WwwButton>, Error>),
    Json(Result<(StatusCode, Option<serde_json::Value>), Error>),
}

/// The firmware task's response to what a plug-in answered: its value in
/// the matching response, or its error.
pub fn firmware_response(result: FirmwareResult) -> (r: Response)
    ensures
        match result {
            FirmwareResult::Kvp(Ok(v)) => r matches Response::Kvp(w) && w == v,
            FirmwareResult::Html(Ok((s, b))) => r matches Response::Html { status, body } && status
                == s && body == b,
            FirmwareResult::Buttons(Ok(v)) => r matches Response::Buttons(w) && w == v,
            FirmwareResult::Json(Ok((s, b))) => r matches Response::Json { status, body } && status
                == s && body == b,
            FirmwareResult::Kvp(Err(e)) | FirmwareResult::Html(Err(e)) | FirmwareResult::Buttons(
                Err(e),
            ) | FirmwareResult::Json(Err(e)) => r == Response::Error(e),
        },
{
    match result {
        FirmwareResult::Kvp(Ok(v)) => Response::Kvp(v),
        FirmwareResult::Html(Ok((status, body))) => Response::Html { status, body },
        FirmwareResult::Buttons(Ok(v)) => Response::Buttons(v),
        FirmwareResult::Json(Ok((status, body))) => Response::Json { status, body },
        FirmwareResult::Kvp(Err(e)) => Response::Error(e),
        FirmwareResult::Html(Err(e)) => Response::Error(e),
        FirmwareResult::Buttons(Err(e)) => Response::Error(e),
        FirmwareResult::Json(Err(e)) => Response::Error(e),
    }
}

/// The target address (as `{:#010X}` renders it) and word count of a
/// firmware read of `len` bytes from `addr`; both must be word aligned,
/// else the read is an `Alignment` error.
pub fn read_request(addr: u32, len: usize) -> (r: Result<(String, usize), Error>)
    ensures
        match r {
            Ok((a, count)) => addr % 4 == 0 && len % 4 == 0 && a@ == hex_word(addr as nat) && count
                == len / 4,
            Err(e) => !(addr % 4 == 0 && len % 4 == 0) && e == Error::Alignment,
        },
{
    if addr % 4 != 0 {
        return Err(Error::Alignment);
    }
    if len % 4 != 0 {
        return Err(Error::Alignment);
    }
    let mut a = String::new();
    append_hex_word(&mut a, addr);
    Ok((a, len / 4))
}

/// Copies the bytes a firmware read returned into the reader's buffer;
/// a reported error or missing data is a `Target` error.
pub fn read_result(buf: &mut [u8], target_error: bool, data: Option<&[u8]>) -> (r: Result<(), Error>)
    requires
        !target_error && data is Some ==> data->0@.len() == old(buf)@.len(),
    ensures
        target_error || data is None ==> r == Err::<(), Error>(Error::Target) && final(buf)@
            == old(buf)@,
        !target_error && data is Some ==> r == Ok::<(), Error>(()) && final(buf)@ == data->0@,
{
    if target_error {
        return Err(Error::Target);
    }
    match data {
        None => Err(Error::Target),
        Some(bytes) => {
            let mut i: usize = 0;
            while i < buf.len()
                invariant
                    bytes@.len() == buf@.len(),
                    i <= buf@.len(),
                    forall|j: int| 0 <= j < i ==> buf@[j] == bytes@[j],
                decreases buf@.len() - i,
            {
                buf[i] = bytes[i];
                i = i + 1;
            }
            assert(buf@ =~= bytes@);
            Ok(())
        },
    }
}

} // verus!
