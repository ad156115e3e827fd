//! One ROM Lab firmware: what airfrog reads of it, its summary and
//! description, and its "Read ROM" page and API.

use crate::firmware::{Error, FirmwareType, WwwButton};
use crate::firmware::onerom::kvp_view;
use crate::fmt::{append_dec, append_hex_word, chars_of, dec, hex_word, push_str, rest_is, string_of};
use crate::http::assets::{asset_path, Asset};
use crate::http::html::{append_escaped, escape_html};
use crate::http::{Method, StatusCode};
use crate::mcu::Mcu;
use vstd::prelude::*;

verus! {

/// One ROM Lab's identity as a firmware type.
pub const FIRMWARE_TYPE: FirmwareType = FirmwareType::OneRomLab;

/// The firmware type key in a firmware description.
pub const AF_FW_TYPE: &'static str = "OneRomLab";

/// What One ROM Lab's flash records.
pub struct LabFlash {
    pub major_version: String,
    pub minor_version: String,
    pub patch_version: String,
    pub build_number: String,
    pub mcu: String,
    pub hw_rev: String,
    pub features: String,
    pub rtt_ptr: u32,
}

/// What a running One ROM Lab holds in RAM.
pub struct LabRam {
    pub rom_data_ptr: u32,
    pub rpc_cmd_channel_ptr: u32,
    pub rpc_rsp_channel_ptr: u32,
    pub rpc_cmd_channel_size: u16,
    pub rpc_rsp_channel_size: u16,
}

/// What was read of a One ROM Lab.
pub struct OneRomLab {
    pub flash: Option<LabFlash>,
    pub ram: Option<LabRam>,
}

/// One ROM Lab firmware, as decoded.
pub struct OneRomLabFirmware {
    pub info: OneRomLab,
}

/// The handler's facts about One ROM Lab.
pub struct OneRomLabHandlerInfo;

impl OneRomLabHandlerInfo {
    /// The firmware's name.
    pub fn name() -> (r: &'static str)
        ensures
            r@ == "One ROM Lab"@,
    {
        "One ROM Lab"
    }

    /// Whether One ROM Lab can run on an MCU: only on an STM32F4.
    pub fn supports_mcu(mcu: &Mcu) -> (r: bool)
        ensures
            r == (*mcu matches Mcu::Stm32(d) && d.is_stm32f4),
    {
        mcu.is_stm32f4()
    }
}

/// A field of the flash information, or `?` where there is none.
pub open spec fn or_q(v: Option<Seq<char>>) -> Seq<char> {
    match v {
        Some(x) => x,
        None => "?"@,
    }
}

/// A table row as the HTML builder writes it: a label cell and a value
/// cell, both escaped.
pub open spec fn row(acc: Seq<char>, label: Seq<char>, value: Seq<char>) -> Seq<char> {
    acc + "<tr>"@ + "<td class=\"label-col\">"@ + "<strong>"@ + escape_html(label) + "</strong></td>"@
        + "<td>"@ + escape_html(value) + "</td>"@ + "</tr>"@
}

fn append_row(s: &mut String, label: &str, value: &str)
    ensures
        final(s)@ == row(old(s)@, label@, value@),
{
    push_str(s, "<tr>");
    push_str(s, "<td class=\"label-col\">");
    push_str(s, "<strong>");
    append_escaped(s, label);
    push_str(s, "</strong></td>");
    push_str(s, "<td>");
    append_escaped(s, value);
    push_str(s, "</td>");
    push_str(s, "</tr>");
}

/// The description card: firmware name, version, hardware, features, and
/// the ROM data, RTT and RPC channel addresses and sizes (`?` or zero
/// where unknown).
pub open spec fn full_html(info: OneRomLab) -> Seq<char> {
    let flash = info.flash;
    let ram = info.ram;
    let maj = or_q(match flash { Some(f) => Some(f.major_version@), None => None });
    let min = or_q(match flash { Some(f) => Some(f.minor_version@), None => None });
    let pat = or_q(match flash { Some(f) => Some(f.patch_version@), None => None });
    let hw = or_q(match flash { Some(f) => Some(f.hw_rev@), None => None });
    let feat = or_q(match flash { Some(f) => Some(f.features@), None => None });
    let rom_data_ptr = match ram { Some(r) => r.rom_data_ptr, None => 0 };
    let rtt_ptr = match flash { Some(f) => f.rtt_ptr, None => 0 };
    let cmd_ptr = match ram { Some(r) => r.rpc_cmd_channel_ptr, None => 0 };
    let rsp_ptr = match ram { Some(r) => r.rpc_rsp_channel_ptr, None => 0 };
    let cmd_size = match ram { Some(r) => r.rpc_cmd_channel_size, None => 0 };
    let rsp_size = match ram { Some(r) => r.rpc_rsp_channel_size, None => 0 };
    let a = "<div"@ + " class=\""@ + escape_html("card"@) + "\""@ + ">"@ + "<h2>"@ + escape_html(
        "One ROM Lab"@,
    ) + "</h2>"@ + "<table"@ + " class=\""@ + escape_html("device-info"@) + "\""@ + ">"@;
    let b = row(a, "Firmware:"@, "One ROM Lab"@);
    let c = row(b, "Version:"@, "V"@ + maj + "."@ + min + "."@ + pat);
    let d = row(c, "Hardware:"@, hw);
    let e = row(d, "Features:"@, feat);
    let f = row(e, "ROM data:"@, hex_word(rom_data_ptr as nat));
    let g = row(f, "RTT data:"@, hex_word(rtt_ptr as nat));
    let h = row(g, "RPC Command Channel:"@, hex_word(cmd_ptr as nat));
    let i = row(h, "Channel Size:"@, dec(cmd_size as nat));
    let j = row(i, "RPC Response Channel:"@, hex_word(rsp_ptr as nat));
    let k = row(j, "Channel Size:"@, dec(rsp_size as nat));
    k + "</table>"@ + "</div>"@
}

/// The "Read ROM" page body: a button that reads the ROM, a result table
/// showing it has not been read yet, and the script that does the reading.
pub open spec fn read_rom_html() -> Seq<char> {
    "<h1>"@ + escape_html("Read ROM"@) + "</h1>"@ + "<div"@ + " class=\""@ + escape_html("card"@) + "\""@
        + ">"@ + "<div"@ + ">"@ + "<button onclick=\""@ + escape_html("readRom()"@) + "\">"@
        + escape_html("Read ROM"@) + "</button>"@ + "</div>"@ + "<br/>"@ + "<div"@ + " id=\""@
        + escape_html("rom-result"@) + "\""@ + ">"@ + "<table"@ + " class=\""@ + escape_html(
        "device-info"@,
    ) + "\""@ + ">"@ + "<tr>"@ + "<td class=\"label-col\""@ + " style=\"width: "@ + escape_html(
        "200px"@,
    ) + ";\""@ + "><strong>"@ + escape_html("ROM"@) + "</strong></td>"@ + "<td>"@ + escape_html(
        "Not yet read"@,
    ) + "</td>"@ + "</tr>"@ + "</table>"@ + "</div>"@ + "</div>"@ + "<script src=\""@ + escape_html(
        asset_path(Asset::OneRomLabReadRomJs),
    ) + "\"></script>"@
}

/// The summary rows shown in the target status card.
pub open spec fn summary_rows(info: OneRomLab) -> Seq<char> {
    let flash = info.flash;
    let maj = or_q(match flash { Some(f) => Some(f.major_version@), None => None });
    let min = or_q(match flash { Some(f) => Some(f.minor_version@), None => None });
    let pat = or_q(match flash { Some(f) => Some(f.patch_version@), None => None });
    let hw = match flash { Some(f) => f.hw_rev@, None => "Unknown"@ };
    let rom_data_ptr = match info.ram { Some(r) => r.rom_data_ptr, None => 0 };
    let rtt_ptr = match flash { Some(f) => f.rtt_ptr, None => 0 };
    "\n<tr>\n<td class=\"label-col\"><strong>Firmware:</strong></td>\n<td>One ROM Lab</td>\n</tr>\n<tr>\n<td class=\"label-col\"><strong>Version:</strong></td>\n<td>V"@ + maj + "."@ + min + "."@ + pat + "</td>\n</tr>\n<tr>\n<td class=\"label-col\"><strong>Hardware:</strong></td>\n<td>"@ + hw + "</td>\n</tr>\n<tr>\n<td class=\"label-col\"><strong>ROM data:</strong></td>\n<td>"@
        + hex_word(rom_data_ptr as nat) + "</td>\n</tr>\n<tr>\n<td class=\"label-col\"><strong>RTT data:</strong></td>\n<td>"@ + hex_word(rtt_ptr as nat) + "</td>\n</tr>\n        "@
}

/// The summary rows inside a card of their own.
pub open spec fn complete_html(info: OneRomLab) -> Seq<char> {
    "\n<div class=\"card\">\n<h2>One ROM Lab</h2>\n<table class=\"device-info\">\n"@ + summary_rows(info) + "\n</table>\n</div>\n        "@
}


fn field_or<'a>(v: Option<&'a String>, default: &'a str) -> (r: &'a str)
    ensures
        r@ == match v {
            Some(x) => x@,
            None => default@,
        },
{
    match v {
        Some(x) => x.as_str(),
        None => default,
    }
}

impl OneRomLabFirmware {
    /// The firmware type.
    pub fn fw_type(&self) -> (r: FirmwareType)
        ensures
            r == FirmwareType::OneRomLab,
    {
        FIRMWARE_TYPE
    }

    /// The RTT control block's address, where flash records a non-zero one.
    pub fn rtt_cb_address(&self) -> (r: Option<u32>)
        ensures
            r == match self.info.flash {
                Some(f) => if f.rtt_ptr != 0 {
                    Some(f.rtt_ptr)
                } else {
                    None
                },
                None => None,
            },
    {
        match &self.info.flash {
            Some(f) => if f.rtt_ptr != 0 {
                Some(f.rtt_ptr)
            } else {
                None
            },
            None => None,
        }
    }

    /// The summary: firmware name, then version, hardware revision and
    /// build features (each unknown without flash information), then the
    /// ROM data address (unknown without RAM information).
    pub fn get_summary_kvp(&self) -> (r: Result<Vec<(String, String)>, Error>)
        ensures
            r matches Ok(v) && kvp_view(v@) == seq![("Firmware"@, "One ROM Lab"@)] + match self.info.flash {
                Some(f) => seq![
                    ("Version"@, "v"@ + f.major_version@ + "."@ + f.minor_version@ + "."@ + f.patch_version@),
                    ("Hardware Revision"@, f.hw_rev@),
                    ("Build Features"@, f.features@),
                ],
                None => seq![
                    ("Version"@, "Unknown"@),
                    ("Hardware Revision"@, "Unknown"@),
                    ("Build Features"@, "Unknown"@),
                ],
            } + seq![
                ("ROM Data"@, match self.info.ram {
                    Some(r) => hex_word(r.rom_data_ptr as nat),
                    None => "Unknown"@,
                }),
            ],
    {
        let mut kvp: Vec<(String, String)> = Vec::new();
        kvp.push((string_of("Firmware"), string_of("One ROM Lab")));
        match &self.info.flash {
            Some(f) => {
                let mut v = string_of("v");
                push_str(&mut v, f.major_version.as_str());
                push_str(&mut v, ".");
                push_str(&mut v, f.minor_version.as_str());
                push_str(&mut v, ".");
                push_str(&mut v, f.patch_version.as_str());
                kvp.push((string_of("Version"), v));
                kvp.push((string_of("Hardware Revision"), string_of(f.hw_rev.as_str())));
                kvp.push((string_of("Build Features"), string_of(f.features.as_str())));
            },
            None => {
                kvp.push((string_of("Version"), string_of("Unknown")));
                kvp.push((string_of("Hardware Revision"), string_of("Unknown")));
                kvp.push((string_of("Build Features"), string_of("Unknown")));
            },
        }
        match &self.info.ram {
            Some(r) => {
                let mut a = String::new();
                append_hex_word(&mut a, r.rom_data_ptr);
                kvp.push((string_of("ROM Data"), a));
            },
            None => kvp.push((string_of("ROM Data"), string_of("Unknown"))),
        }
        assert(kvp_view(kvp@) =~= seq![("Firmware"@, "One ROM Lab"@)] + match self.info.flash {
            Some(f) => seq![
                ("Version"@, "v"@ + f.major_version@ + "."@ + f.minor_version@ + "."@ + f.patch_version@),
                ("Hardware Revision"@, f.hw_rev@),
                ("Build Features"@, f.features@),
            ],
            None => seq![
                ("Version"@, "Unknown"@),
                ("Hardware Revision"@, "Unknown"@),
                ("Build Features"@, "Unknown"@),
            ],
        } + seq![
            ("ROM Data"@, match self.info.ram {
                Some(r) => hex_word(r.rom_data_ptr as nat),
                None => "Unknown"@,
            }),
        ]);
        Ok(kvp)
    }

    /// The description card (see [`full_html`]), with `200 OK`.
    pub fn get_full_html(&self) -> (r: Result<(StatusCode, Option<String>), Error>)
        ensures
            r matches Ok((status, Some(h))) && status == StatusCode::Success && h@ == full_html(self.info),
    {
        let flash = &self.info.flash;
        let ram = &self.info.ram;
        let maj = field_or(match flash { Some(f) => Some(&f.major_version), None => None }, "?");
        let min = field_or(match flash { Some(f) => Some(&f.minor_version), None => None }, "?");
        let pat = field_or(match flash { Some(f) => Some(&f.patch_version), None => None }, "?");
        let hw = field_or(match flash { Some(f) => Some(&f.hw_rev), None => None }, "?");
        let feat = field_or(match flash { Some(f) => Some(&f.features), None => None }, "?");
        let rom_data_ptr: u32 = match ram { Some(r) => r.rom_data_ptr, None => 0 };
        let rtt_ptr: u32 = match flash { Some(f) => f.rtt_ptr, None => 0 };
        let cmd_ptr: u32 = match ram { Some(r) => r.rpc_cmd_channel_ptr, None => 0 };
        let rsp_ptr: u32 = match ram { Some(r) => r.rpc_rsp_channel_ptr, None => 0 };
        let cmd_size: u16 = match ram { Some(r) => r.rpc_cmd_channel_size, None => 0 };
        let rsp_size: u16 = match ram { Some(r) => r.rpc_rsp_channel_size, None => 0 };
        let mut s = string_of("<div");
        push_str(&mut s, " class=\"");
        append_escaped(&mut s, "card");
        push_str(&mut s, "\"");
        push_str(&mut s, ">");
        push_str(&mut s, "<h2>");
        append_escaped(&mut s, "One ROM Lab");
        push_str(&mut s, "</h2>");
        push_str(&mut s, "<table");
        push_str(&mut s, " class=\"");
        append_escaped(&mut s, "device-info");
        push_str(&mut s, "\"");
        push_str(&mut s, ">");
        append_row(&mut s, "Firmware:", "One ROM Lab");
        let mut version = string_of("V");
        push_str(&mut version, maj);
        push_str(&mut version, ".");
        push_str(&mut version, min);
        push_str(&mut version, ".");
        push_str(&mut version, pat);
        append_row(&mut s, "Version:", version.as_str());
        append_row(&mut s, "Hardware:", hw);
        append_row(&mut s, "Features:", feat);
        let mut v = String::new();
        append_hex_word(&mut v, rom_data_ptr);
        append_row(&mut s, "ROM data:", v.as_str());
        let mut v = String::new();
        append_hex_word(&mut v, rtt_ptr);
        append_row(&mut s, "RTT data:", v.as_str());
        let mut v = String::new();
        append_hex_word(&mut v, cmd_ptr);
        append_row(&mut s, "RPC Command Channel:", v.as_str());
        let mut v = String::new();
        append_dec(&mut v, cmd_size as u64);
        append_row(&mut s, "Channel Size:", v.as_str());
        let mut v = String::new();
        append_hex_word(&mut v, rsp_ptr);
        append_row(&mut s, "RPC Response Channel:", v.as_str());
        let mut v = String::new();
        append_dec(&mut v, rsp_size as u64);
        append_row(&mut s, "Channel Size:", v.as_str());
        push_str(&mut s, "</table>");
        push_str(&mut s, "</div>");
        Ok((StatusCode::Success, Some(s)))
    }

    /// The custom button: "Read ROM", at `read_rom`.
    pub fn get_buttons(&self) -> (r: Result<Vec<WwwButton>, Error>)
        ensures
            r matches Ok(v) && v@.len() == 1 && v@[0].name@ == "Read ROM"@ && v@[0].path@ == "read_rom"@,
    {
        let mut v: Vec<WwwButton> = Vec::new();
        v.push(WwwButton { name: string_of("Read ROM"), path: string_of("read_rom") });
        Ok(v)
    }

    /// The "Read ROM" page, for a `GET` without a body; anything else is
    /// `NotImplemented`.
    pub fn handle_www_read_rom(&self, method: Method, body: Option<String>) -> (r: Result<(StatusCode, Option<String>), Error>)
        ensures
            method != Method::Get || body is Some ==> r == Err::<(StatusCode, Option<String>), Error>(Error::NotImplemented),
            method == Method::Get && body is None ==> (r matches Ok((status, Some(h))) && status == StatusCode::Success && h@ == read_rom_html()),
    {
        if method != Method::Get {
            return Err(Error::NotImplemented);
        }
        if body.is_some() {
            return Err(Error::NotImplemented);
        }
        let mut s = string_of("<h1>");
        append_escaped(&mut s, "Read ROM");
        push_str(&mut s, "</h1>");
        push_str(&mut s, "<div");
        push_str(&mut s, " class=\"");
        append_escaped(&mut s, "card");
        push_str(&mut s, "\"");
        push_str(&mut s, ">");
        push_str(&mut s, "<div");
        push_str(&mut s, ">");
        push_str(&mut s, "<button onclick=\"");
        append_escaped(&mut s, "readRom()");
        push_str(&mut s, "\">");
        append_escaped(&mut s, "Read ROM");
        push_str(&mut s, "</button>");
        push_str(&mut s, "</div>");
        push_str(&mut s, "<br/>");
        push_str(&mut s, "<div");
        push_str(&mut s, " id=\"");
        append_escaped(&mut s, "rom-result");
        push_str(&mut s, "\"");
        push_str(&mut s, ">");
        push_str(&mut s, "<table");
        push_str(&mut s, " class=\"");
        append_escaped(&mut s, "device-info");
        push_str(&mut s, "\"");
        push_str(&mut s, ">");
        push_str(&mut s, "<tr>");
        push_str(&mut s, "<td class=\"label-col\"");
        push_str(&mut s, " style=\"width: ");
        append_escaped(&mut s, "200px");
        push_str(&mut s, ";\"");
        push_str(&mut s, "><strong>");
        append_escaped(&mut s, "ROM");
        push_str(&mut s, "</strong></td>");
        push_str(&mut s, "<td>");
        append_escaped(&mut s, "Not yet read");
        push_str(&mut s, "</td>");
        push_str(&mut s, "</tr>");
        push_str(&mut s, "</table>");
        push_str(&mut s, "</div>");
        push_str(&mut s, "</div>");
        push_str(&mut s, "<script src=\"");
        let path = Asset::OneRomLabReadRomJs.path();
        append_escaped(&mut s, path.as_str());
        push_str(&mut s, "\"></script>");
        Ok((StatusCode::Success, Some(s)))
    }

    /// Whether a REST request to read the ROM can go ahead: it must be a
    /// `POST` without a body, else it is `NotImplemented`.
    pub fn check_rest_read_rom(&self, method: Method, has_body: bool) -> (r: Result<(), Error>)
        ensures
            r == if method != Method::Post || has_body {
                Err::<(), Error>(Error::NotImplemented)
            } else {
                Ok::<(), Error>(())
            },
    {
        if method != Method::Post {
            return Err(Error::NotImplemented);
        }
        if has_body {
            return Err(Error::NotImplemented);
        }
        Ok(())
    }

    /// The RPC command and response channel addresses, from RAM; `None`
    /// without RAM information.
    pub fn rpc_config(&self) -> (r: Option<(u32, u32)>)
        ensures
            r == match self.info.ram {
                Some(ram) => Some((ram.rpc_cmd_channel_ptr, ram.rpc_rsp_channel_ptr)),
                None => None,
            },
    {
        match &self.info.ram {
            Some(ram) => Some((ram.rpc_cmd_channel_ptr, ram.rpc_rsp_channel_ptr)),
            None => None,
        }
    }
}

/// Whether a firmware sub-path names the "Read ROM" page or API.
pub fn is_read_rom(path: &str) -> (r: bool)
    ensures
        r == (path@ == "read_rom"@),
{
    let v = chars_of(path);
    assert(v@.skip(0) =~= v@);
    rest_is(&v, 0, "read_rom")
}

/// Renders One ROM Lab's firmware description (already read from JSON)
/// for the web pages.
#[derive(Debug, Default)]
pub struct JsonToHtmler {}

impl JsonToHtmler {
    /// The summary rows (see [`summary_rows`]).
    pub fn summary(&self, info: &OneRomLab) -> (r: String)
        ensures
            r@ == summary_rows(*info),
    {
        let flash = &info.flash;
        let maj = field_or(match flash { Some(f) => Some(&f.major_version), None => None }, "?");
        let min = field_or(match flash { Some(f) => Some(&f.minor_version), None => None }, "?");
        let pat = field_or(match flash { Some(f) => Some(&f.patch_version), None => None }, "?");
        let hw = field_or(match flash { Some(f) => Some(&f.hw_rev), None => None }, "Unknown");
        let rom_data_ptr: u32 = match &info.ram { Some(r) => r.rom_data_ptr, None => 0 };
        let rtt_ptr: u32 = match flash { Some(f) => f.rtt_ptr, None => 0 };
        let mut s = string_of("\n<tr>\n<td class=\"label-col\"><strong>Firmware:</strong></td>\n<td>One ROM Lab</td>\n</tr>\n<tr>\n<td class=\"label-col\"><strong>Version:</strong></td>\n<td>V");
        push_str(&mut s, maj);
        push_str(&mut s, ".");
        push_str(&mut s, min);
        push_str(&mut s, ".");
        push_str(&mut s, pat);
        push_str(&mut s, "</td>\n</tr>\n<tr>\n<td class=\"label-col\"><strong>Hardware:</strong></td>\n<td>");
        push_str(&mut s, hw);
        push_str(&mut s, "</td>\n</tr>\n<tr>\n<td class=\"label-col\"><strong>ROM data:</strong></td>\n<td>");
        append_hex_word(&mut s, rom_data_ptr);
        push_str(&mut s, "</td>\n</tr>\n<tr>\n<td class=\"label-col\"><strong>RTT data:</strong></td>\n<td>");
        append_hex_word(&mut s, rtt_ptr);
        push_str(&mut s, "</td>\n</tr>\n        ");
        s
    }

    /// The summary rows inside a card of their own.
    pub fn complete(&self, info: &OneRomLab) -> (r: String)
        ensures
            r@ == complete_html(*info),
    {
        let rows = self.summary(info);
        let mut s = string_of("\n<div class=\"card\">\n<h2>One ROM Lab</h2>\n<table class=\"device-info\">\n");
        push_str(&mut s, rows.as_str());
        push_str(&mut s, "\n</table>\n</div>\n        ");
        s
    }
}

} // verus!
