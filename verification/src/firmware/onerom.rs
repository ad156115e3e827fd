//! One ROM firmware: what airfrog reads of it from the target's flash and
//! RAM, the summary it shows, and its full description page.

use crate::firmware::{Error, FirmwareType};
use crate::fmt::{
    append_bool, append_dec, append_hex, append_hex_word, bool_text, dec, hex_upper, hex_word,
    push_str, rest_is, chars_of, string_of,
};
use crate::http::StatusCode;
use vstd::prelude::*;

verus! {

/// One ROM's identity as a firmware type.
pub const FIRMWARE_TYPE: FirmwareType = FirmwareType::OneRom;

/// A ROM image in a ROM set.
pub struct OneRomRom {
    /// The file the image was made from, where the firmware records it.
    pub filename: Option<String>,
    /// The ROM type, as displayed.
    pub rom_type: String,
    /// The chip select line states, as displayed.
    pub cs1_state: String,
    pub cs2_state: String,
    pub cs3_state: String,
}

/// A set of ROM images served together.
pub struct OneRomSet {
    /// Size of the set's image data in bytes.
    pub size: u32,
    /// Number of ROMs the firmware records for the set.
    pub rom_count: u8,
    /// The serving algorithm, as displayed.
    pub serve: String,
    /// Whether the set is served on any chip select (a multi-ROM socket).
    pub serve_any_cs: bool,
    /// The multi-ROM CS1 state, as displayed.
    pub multi_rom_cs1_state: String,
    /// The set's ROMs.
    pub roms: Vec<OneRomRom>,
}

/// One ROM's pin configuration; a pin of 255 is unused.
pub struct OneRomPins {
    pub rom_pins: u8,
    pub data_port: String,
    pub data: Vec<u8>,
    pub addr_port: String,
    pub addr: Vec<u8>,
    pub cs_port: String,
    pub cs1_2364: u8,
    pub cs1_2332: u8,
    pub cs2_2332: u8,
    pub cs1_2316: u8,
    pub cs2_2316: u8,
    pub cs3_2316: u8,
    pub ce_23128: u8,
    pub oe_23128: u8,
    pub x1: u8,
    pub x2: u8,
    pub x_jumper_pull: u8,
    pub sel_port: String,
    pub sel: [u8; 7],
    pub sel_jumper_pull: u8,
    pub status_port: String,
    pub status: u8,
}

/// What One ROM's flash records of its build and configuration.
pub struct OneRomFlash {
    pub major_version: u16,
    pub minor_version: u16,
    pub patch_version: u16,
    pub build_number: u16,
    pub build_date: Option<String>,
    pub commit: [u8; 8],
    pub hw_rev: Option<String>,
    /// The STM32 line and storage size, as displayed.
    pub stm_line: String,
    pub stm_storage: String,
    pub freq: u16,
    pub overclock: bool,
    pub swd_enabled: bool,
    pub preload_image_to_ram: bool,
    pub bootloader_capable: bool,
    pub status_led_enabled: bool,
    pub boot_logging_enabled: bool,
    pub mco_enabled: bool,
    pub rom_set_count: u8,
    pub boot_config: [u8; 4],
    pub rom_sets: Vec<OneRomSet>,
    pub pins: Option<OneRomPins>,
    /// What went wrong while parsing the flash, as displayed.
    pub parse_errors: Vec<String>,
    /// The RTT control block's address, where the firmware records extra
    /// information.
    pub rtt_ptr: Option<u32>,
}

/// What a running One ROM holds in RAM.
pub struct OneRomRam {
    pub image_sel: u8,
    pub rom_set_index: u8,
    pub count_rom_access: u8,
    pub last_parsed_access_count: u32,
    pub account_count_address: u32,
    pub rom_table_address: u32,
    pub rom_table_size: u32,
}

/// What was read of a One ROM.
pub struct OneRomInfo {
    pub flash: Option<OneRomFlash>,
    pub ram: Option<OneRomRam>,
}

/// One ROM firmware, as decoded.
pub struct OneRomFirmware {
    pub info: OneRomInfo,
}

/// The names of a set's ROMs joined by `/`, each `<unnamed>` where it has
/// none.
pub open spec fn rom_names(roms: Seq<OneRomRom>, n: nat) -> Seq<char>
    decreases n,
{
    if n == 0 {
        Seq::empty()
    } else {
        let name = match roms[n - 1].filename {
            Some(f) => f@,
            None => "<unnamed>"@,
        };
        if n == 1 {
            name
        } else {
            rom_names(roms, (n - 1) as nat) + "/"@ + name
        }
    }
}

/// The ROM set being served: its index, and where the set exists and has
/// ROMs, their names in bold; otherwise "unknown image".
pub open spec fn current_rom_text(flash: &OneRomFlash, ram: &OneRomRam) -> Seq<char> {
    let i = ram.rom_set_index as int;
    if i >= flash.rom_sets@.len() || flash.rom_sets@[i].roms@.len() == 0 {
        dec(i as nat) + " - unknown image"@
    } else {
        dec(i as nat) + " - <strong>"@ + rom_names(
            flash.rom_sets@[i].roms@,
            flash.rom_sets@[i].roms@.len(),
        ) + "</strong>"@
    }
}

/// The commit id: its bytes up to the first zero, as characters.
pub open spec fn commit_text(c: Seq<u8>) -> Seq<char>
    decreases c.len(),
{
    if c.len() == 0 || c[0] == 0 {
        Seq::empty()
    } else {
        seq![c[0] as char] + commit_text(c.drop_first())
    }
}

fn append_commit(s: &mut String, commit: &[u8; 8])
    ensures
        final(s)@ == old(s)@ + commit_text(commit@),
{
    let mut i: usize = 0;
    let ghost c = commit@;
    assert(c.skip(0) =~= c);
    while i < 8
        invariant
            c == commit@,
            c.len() == 8,
            i <= 8,
            old(s)@ + commit_text(c) == s@ + commit_text(c.skip(i as int)),
        decreases 8 - i,
    {
        if commit[i] == 0 {
            assert(commit_text(c.skip(i as int)) =~= Seq::<char>::empty());
            assert(s@ + Seq::<char>::empty() =~= s@);
            return;
        }
        let ghost before = s@;
        crate::fmt::push_char(s, commit[i] as char);
        assert(c.skip(i as int).drop_first() =~= c.skip(i + 1));
        assert(before + commit_text(c.skip(i as int)) =~= s@ + commit_text(c.skip(i + 1)));
        i = i + 1;
    }
    assert(commit_text(c.skip(8)) =~= Seq::<char>::empty());
    assert(s@ + Seq::<char>::empty() =~= s@);
}

impl OneRomFirmware {
    /// The firmware type.
    pub fn fw_type(&self) -> (r: FirmwareType)
        ensures
            r == FirmwareType::OneRom,
    {
        FIRMWARE_TYPE
    }

    /// The RTT control block's address, where the flash records one.
    pub fn rtt_cb_address(&self) -> (r: Option<u32>)
        ensures
            r == match self.info.flash {
                Some(f) => f.rtt_ptr,
                None => None,
            },
    {
        match &self.info.flash {
            Some(f) => f.rtt_ptr,
            None => None,
        }
    }

    /// The ROM set being served (see [`current_rom_text`]).
    pub fn get_current_rom_info(&self, fw_info: &OneRomFlash, ram_info: &OneRomRam) -> (r: String)
        ensures
            r@ == current_rom_text(fw_info, ram_info),
    {
        let set_index = ram_info.rom_set_index as usize;
        let mut s = String::new();
        append_dec(&mut s, set_index as u64);
        if set_index >= fw_info.rom_sets.len() || fw_info.rom_sets[set_index].roms.len() == 0 {
            push_str(&mut s, " - unknown image");
            return s;
        }
        push_str(&mut s, " - <strong>");
        let roms = &fw_info.rom_sets[set_index].roms;
        let mut j: usize = 0;
        let ghost s0 = s@;
        while j < roms.len()
            invariant
                j <= roms@.len(),
                roms@.len() > 0,
                s@ == s0 + rom_names(roms@, j as nat),
            decreases roms@.len() - j,
        {
            if j > 0 {
                push_str(&mut s, "/");
            }
            match &roms[j].filename {
                Some(f) => push_str(&mut s, f.as_str()),
                None => push_str(&mut s, "<unnamed>"),
            }
            proof {
                if j == 0 {
                    assert(s0 + rom_names(roms@, 0) =~= s0);
                }
            }
            j = j + 1;
        }
        push_str(&mut s, "</strong>");
        s
    }
}


/// A line shown only where a value is present: `pre`, the value, `post`.
pub open spec fn opt_line(acc: Seq<char>, pre: Seq<char>, v: Option<String>, post: Seq<char>) -> Seq<char> {
    match v {
        Some(x) => acc + pre + x@ + post,
        None => acc,
    }
}

fn append_opt_line(s: &mut String, pre: &str, v: &Option<String>, post: &str)
    ensures
        final(s)@ == opt_line(old(s)@, pre@, *v, post@),
{
    match v {
        Some(x) => {
            push_str(s, pre);
            push_str(s, x.as_str());
            push_str(s, post);
        },
        None => {},
    }
}

/// The core properties read from flash.
pub open spec fn flash_core(acc: Seq<char>, f: OneRomFlash) -> Seq<char> {
    let a = acc + "<p><strong>Version:</strong> "@ + dec(f.major_version as nat) + "."@ + dec(
        f.minor_version as nat,
    ) + "."@ + dec(f.patch_version as nat) + " (build "@ + dec(f.build_number as nat) + ")</p>"@;
    let b = opt_line(a, "<p><strong>Build Date:</strong> "@, f.build_date, "</p>"@);
    let c = b + "<p><strong>Git commit:</strong> "@ + commit_text(f.commit@) + "</p>"@;
    let d = opt_line(c, "<p><strong>Hardware:</strong> "@, f.hw_rev, "</p>"@);
    d + "<p><strong>STM32:</strong> "@ + f.stm_line@ + " / "@ + f.stm_storage@ + "</p>"@
        + "<p><strong>Frequency:</strong> "@ + dec(f.freq as nat) + " MHz (Overclocking: "@
        + bool_text(f.overclock) + ")</p>"@
}

fn append_flash_core(s: &mut String, f: &OneRomFlash)
    ensures
        final(s)@ == flash_core(old(s)@, *f),
{
    push_str(s, "<p><strong>Version:</strong> ");
    append_dec(s, f.major_version as u64);
    push_str(s, ".");
    append_dec(s, f.minor_version as u64);
    push_str(s, ".");
    append_dec(s, f.patch_version as u64);
    push_str(s, " (build ");
    append_dec(s, f.build_number as u64);
    push_str(s, ")</p>");
    append_opt_line(s, "<p><strong>Build Date:</strong> ", &f.build_date, "</p>");
    push_str(s, "<p><strong>Git commit:</strong> ");
    append_commit(s, &f.commit);
    push_str(s, "</p>");
    append_opt_line(s, "<p><strong>Hardware:</strong> ", &f.hw_rev, "</p>");
    push_str(s, "<p><strong>STM32:</strong> ");
    push_str(s, f.stm_line.as_str());
    push_str(s, " / ");
    push_str(s, f.stm_storage.as_str());
    push_str(s, "</p>");
    push_str(s, "<p><strong>Frequency:</strong> ");
    append_dec(s, f.freq as u64);
    push_str(s, " MHz (Overclocking: ");
    append_bool(s, f.overclock);
    push_str(s, ")</p>");
}

/// The runtime properties read from RAM.
pub open spec fn ram_props(acc: Seq<char>, flash: Option<OneRomFlash>, r: OneRomRam) -> Seq<char> {
    let output = match flash {
        Some(f) => current_rom_text(&f, &r),
        None => dec(r.rom_set_index as nat) + " - unknown image"@,
    };
    let a = acc + "<p><strong>Serving ROM/set:</strong> "@ + output + "</p>"@
        + "<p><strong>Image select jumpers:</strong> "@ + dec(r.image_sel as nat) + "</p>"@;
    let b = if r.count_rom_access > 0 {
        a + "<p><strong>Bytes served:</strong> "@ + dec(r.last_parsed_access_count as nat) + "</p>"@
    } else {
        a + "<p><strong>Bytes served:</strong> access count disabled</p>"@
    };
    let c = b + "<p><strong>Access count address:</strong> "@ + hex_word(
        r.account_count_address as nat,
    ) + "</p>"@ + "<p><strong>ROM table address:</strong> "@ + hex_word(
        r.rom_table_address as nat,
    ) + "</p>"@ + "<p><strong>ROM table size:</strong> "@ + dec(r.rom_table_size as nat)
        + " bytes</p>"@;
    match flash {
        Some(f) => if f.boot_logging_enabled && f.rtt_ptr is Some {
            c + "<p><strong>RTT Control Block:</strong> "@ + hex_word(f.rtt_ptr->0 as nat) + "</p>"@
        } else {
            c
        },
        None => c,
    }
}

impl OneRomFirmware {
    fn append_ram_props(&self, s: &mut String, flash: &Option<OneRomFlash>, r: &OneRomRam)
        ensures
            final(s)@ == ram_props(old(s)@, *flash, *r),
    {
        push_str(s, "<p><strong>Serving ROM/set:</strong> ");
        match flash {
            Some(f) => {
                let out = self.get_current_rom_info(f, r);
                push_str(s, out.as_str());
            },
            None => {
                append_dec(s, r.rom_set_index as u64);
                push_str(s, " - unknown image");
            },
        }
        push_str(s, "</p>");
        push_str(s, "<p><strong>Image select jumpers:</strong> ");
        append_dec(s, r.image_sel as u64);
        push_str(s, "</p>");
        if r.count_rom_access > 0 {
            push_str(s, "<p><strong>Bytes served:</strong> ");
            append_dec(s, r.last_parsed_access_count as u64);
            push_str(s, "</p>");
        } else {
            push_str(s, "<p><strong>Bytes served:</strong> access count disabled</p>");
        }
        push_str(s, "<p><strong>Access count address:</strong> ");
        append_hex_word(s, r.account_count_address);
        push_str(s, "</p>");
        push_str(s, "<p><strong>ROM table address:</strong> ");
        append_hex_word(s, r.rom_table_address);
        push_str(s, "</p>");
        push_str(s, "<p><strong>ROM table size:</strong> ");
        append_dec(s, r.rom_table_size as u64);
        push_str(s, " bytes</p>");
        match flash {
            Some(f) => {
                if f.boot_logging_enabled {
                    match f.rtt_ptr {
                        Some(p) => {
                            push_str(s, "<p><strong>RTT Control Block:</strong> ");
                            append_hex_word(s, p);
                            push_str(s, "</p>");
                        },
                        None => {},
                    }
                }
            },
            None => {},
        }
    }
}

/// The configurable options card.
pub open spec fn options_card(acc: Seq<char>, f: OneRomFlash) -> Seq<char> {
    let a = acc + "<div class=\"card\">"@ + "<h2>Configurable Options</h2>"@;
    let b = match f.pins {
        Some(p) => a + "<p><strong>ROM emulation:</strong> "@ + dec(p.rom_pins as nat) + " pin ROM</p>"@,
        None => a,
    };
    b + "<p><strong>Serve image from:</strong> "@ + (if f.preload_image_to_ram {
        "RAM"@
    } else {
        "false"@
    }) + "</p>"@ + "<p><strong>SWD enabled:</strong> "@ + bool_text(f.swd_enabled) + "</p>"@
        + "<p><strong>Boot logging:</strong> "@ + bool_text(f.boot_logging_enabled) + "</p>"@
        + "<p><strong>Status LED:</strong> "@ + bool_text(f.status_led_enabled) + "</p>"@
        + "<p><strong>STM bootloader:</strong> "@ + (if f.bootloader_capable {
        "true"@
    } else {
        "false"@
    }) + "</p>"@ + "<p><strong>MCO enabled:</strong> "@ + (if f.mco_enabled {
        "true (exposed via test pad)"@
    } else {
        "false"@
    }) + "</p>"@ + "<p><strong>Boot config:</strong> 0x"@ + hex_upper(f.boot_config[0] as nat, 2)
        + hex_upper(f.boot_config[1] as nat, 2) + hex_upper(f.boot_config[2] as nat, 2) + hex_upper(
        f.boot_config[3] as nat,
        2,
    ) + "</p>"@ + "</div>"@
}

fn append_options_card(s: &mut String, f: &OneRomFlash)
    ensures
        final(s)@ == options_card(old(s)@, *f),
{
    push_str(s, "<div class=\"card\">");
    push_str(s, "<h2>Configurable Options</h2>");
    match &f.pins {
        Some(p) => {
            push_str(s, "<p><strong>ROM emulation:</strong> ");
            append_dec(s, p.rom_pins as u64);
            push_str(s, " pin ROM</p>");
        },
        None => {},
    }
    push_str(s, "<p><strong>Serve image from:</strong> ");
    push_str(s, if f.preload_image_to_ram { "RAM" } else { "false" });
    push_str(s, "</p>");
    push_str(s, "<p><strong>SWD enabled:</strong> ");
    append_bool(s, f.swd_enabled);
    push_str(s, "</p>");
    push_str(s, "<p><strong>Boot logging:</strong> ");
    append_bool(s, f.boot_logging_enabled);
    push_str(s, "</p>");
    push_str(s, "<p><strong>Status LED:</strong> ");
    append_bool(s, f.status_led_enabled);
    push_str(s, "</p>");
    push_str(s, "<p><strong>STM bootloader:</strong> ");
    push_str(s, if f.bootloader_capable { "true" } else { "false" });
    push_str(s, "</p>");
    push_str(s, "<p><strong>MCO enabled:</strong> ");
    push_str(s, if f.mco_enabled { "true (exposed via test pad)" } else { "false" });
    push_str(s, "</p>");
    push_str(s, "<p><strong>Boot config:</strong> 0x");
    append_hex(s, f.boot_config[0] as u64, 2);
    append_hex(s, f.boot_config[1] as u64, 2);
    append_hex(s, f.boot_config[2] as u64, 2);
    append_hex(s, f.boot_config[3] as u64, 2);
    push_str(s, "</p>");
    push_str(s, "</div>");
}

/// The number of ROMs in the first `n` sets.
pub open spec fn rom_total(sets: Seq<OneRomSet>, n: nat) -> nat
    decreases n,
{
    if n == 0 {
        0
    } else {
        rom_total(sets, (n - 1) as nat) + sets[n - 1].roms@.len()
    }
}

/// A ROM's card.
pub open spec fn rom_card(acc: Seq<char>, j: nat, rom: OneRomRom) -> Seq<char> {
    acc + "<div class=\"card\">"@ + "<h4>ROM: "@ + dec(j) + "</h4>"@ + "<p><strong>Name:</strong> "@
        + match rom.filename {
        Some(f) => f@,
        None => "<not present>"@,
    } + "</p>"@ + "<p><strong>Type:</strong> "@ + rom.rom_type@ + "</p>"@
        + "<p><strong>CS States:</strong> "@ + rom.cs1_state@ + "/"@ + rom.cs2_state@ + "/"@
        + rom.cs3_state@ + "</p>"@ + "</div>"@
}

/// The cards of the first `n` ROMs of a set.
pub open spec fn rom_cards(acc: Seq<char>, roms: Seq<OneRomRom>, n: nat) -> Seq<char>
    decreases n,
{
    if n == 0 {
        acc
    } else {
        rom_card(rom_cards(acc, roms, (n - 1) as nat), (n - 1) as nat, roms[n - 1])
    }
}

/// How a set is served.
pub open spec fn set_type(set: OneRomSet) -> Seq<char> {
    if set.serve_any_cs {
        "Multi-ROM socket"@
    } else if set.rom_count > 1 {
        "Dynamic bank switching"@
    } else {
        "Single ROM image"@
    }
}

/// A set's card followed by its ROMs' cards, after a rule for all but the
/// first set.
pub open spec fn set_block(acc: Seq<char>, i: nat, set: OneRomSet) -> Seq<char> {
    let a = if i > 0 {
        acc + "<hr>"@
    } else {
        acc
    };
    let b = a + "<div class=\"card\">"@ + "<h3>ROM Set: "@ + dec(i) + "</h3>"@
        + "<p><strong>Set type:</strong> "@ + set_type(set) + "</p>"@ + "<p><strong>Size:</strong> "@
        + dec(set.size as nat) + " bytes</p>"@ + "<p><strong>ROM Count:</strong> "@ + dec(
        set.rom_count as nat,
    ) + "</p>"@ + "<p><strong>Algorithm:</strong> "@ + set.serve@ + "</p>"@
        + "<p><strong>Multi-ROM CS1:</strong> "@ + set.multi_rom_cs1_state@ + "</p>"@ + "</div>"@;
    rom_cards(b, set.roms@, set.roms@.len())
}

/// The blocks of the first `n` sets.
pub open spec fn set_blocks(acc: Seq<char>, sets: Seq<OneRomSet>, n: nat) -> Seq<char>
    decreases n,
{
    if n == 0 {
        acc
    } else {
        set_block(set_blocks(acc, sets, (n - 1) as nat), (n - 1) as nat, sets[n - 1])
    }
}

fn append_set_block(s: &mut String, i: usize, set: &OneRomSet)
    ensures
        final(s)@ == set_block(old(s)@, i as nat, *set),
{
    if i > 0 {
        push_str(s, "<hr>");
    }
    push_str(s, "<div class=\"card\">");
    push_str(s, "<h3>ROM Set: ");
    append_dec(s, i as u64);
    push_str(s, "</h3>");
    let st = if set.serve_any_cs {
        "Multi-ROM socket"
    } else if set.rom_count > 1 {
        "Dynamic bank switching"
    } else {
        "Single ROM image"
    };
    push_str(s, "<p><strong>Set type:</strong> ");
    push_str(s, st);
    push_str(s, "</p>");
    push_str(s, "<p><strong>Size:</strong> ");
    append_dec(s, set.size as u64);
    push_str(s, " bytes</p>");
    push_str(s, "<p><strong>ROM Count:</strong> ");
    append_dec(s, set.rom_count as u64);
    push_str(s, "</p>");
    push_str(s, "<p><strong>Algorithm:</strong> ");
    push_str(s, set.serve.as_str());
    push_str(s, "</p>");
    push_str(s, "<p><strong>Multi-ROM CS1:</strong> ");
    push_str(s, set.multi_rom_cs1_state.as_str());
    push_str(s, "</p>");
    push_str(s, "</div>");
    let ghost b = s@;
    let mut j: usize = 0;
    while j < set.roms.len()
        invariant
            j <= set.roms@.len(),
            s@ == rom_cards(b, set.roms@, j as nat),
        decreases set.roms@.len() - j,
    {
        let rom = &set.roms[j];
        push_str(s, "<div class=\"card\">");
        push_str(s, "<h4>ROM: ");
        append_dec(s, j as u64);
        push_str(s, "</h4>");
        push_str(s, "<p><strong>Name:</strong> ");
        match &rom.filename {
            Some(f) => push_str(s, f.as_str()),
            None => push_str(s, "<not present>"),
        }
        push_str(s, "</p>");
        push_str(s, "<p><strong>Type:</strong> ");
        push_str(s, rom.rom_type.as_str());
        push_str(s, "</p>");
        push_str(s, "<p><strong>CS States:</strong> ");
        push_str(s, rom.cs1_state.as_str());
        push_str(s, "/");
        push_str(s, rom.cs2_state.as_str());
        push_str(s, "/");
        push_str(s, rom.cs3_state.as_str());
        push_str(s, "</p>");
        push_str(s, "</div>");
        j = j + 1;
    }
}

/// Pin lines for the first `n` pins of a bank, skipping unused pins.
pub open spec fn pin_lines(acc: Seq<char>, prefix: Seq<char>, port: Seq<char>, pins: Seq<u8>, n: nat) -> Seq<char>
    decreases n,
{
    if n == 0 {
        acc
    } else {
        let a = pin_lines(acc, prefix, port, pins, (n - 1) as nat);
        if pins[n - 1] != 255 {
            a + "<p>"@ + prefix + dec((n - 1) as nat) + ": P"@ + port + ":"@ + dec(pins[n - 1] as nat)
                + "</p>"@
        } else {
            a
        }
    }
}

fn append_pin_lines(s: &mut String, prefix: &str, port: &str, pins: &[u8])
    ensures
        final(s)@ == pin_lines(old(s)@, prefix@, port@, pins@, pins@.len()),
{
    let ghost s0 = s@;
    let mut i: usize = 0;
    while i < pins.len()
        invariant
            i <= pins@.len(),
            s@ == pin_lines(s0, prefix@, port@, pins@, i as nat),
        decreases pins@.len() - i,
    {
        if pins[i] != 255 {
            push_str(s, "<p>");
            push_str(s, prefix);
            append_dec(s, i as u64);
            push_str(s, ": P");
            push_str(s, port);
            push_str(s, ":");
            append_dec(s, pins[i] as u64);
            push_str(s, "</p>");
        }
        i = i + 1;
    }
}

/// Chip select lines for the first `n` (pin, label) pairs, skipping unused
/// pins.
pub open spec fn cs_lines(acc: Seq<char>, port: Seq<char>, pairs: Seq<(u8, Seq<char>)>, n: nat) -> Seq<char>
    decreases n,
{
    if n == 0 {
        acc
    } else {
        let a = cs_lines(acc, port, pairs, (n - 1) as nat);
        if pairs[n - 1].0 != 255 {
            a + "<p>"@ + pairs[n - 1].1 + ": P"@ + port + ":"@ + dec(pairs[n - 1].0 as nat) + "</p>"@
        } else {
            a
        }
    }
}

/// The chip select pins, each with its label.
pub open spec fn cs_pairs(p: OneRomPins) -> Seq<(u8, Seq<char>)> {
    seq![
        (p.cs1_2364, "2364 CS1"@),
        (p.cs1_2332, "2332 CS1"@),
        (p.cs2_2332, "2332 CS2"@),
        (p.cs1_2316, "2316 CS1"@),
        (p.cs2_2316, "2316 CS2"@),
        (p.cs3_2316, "2316 CS3"@),
        (p.ce_23128, "23128 CE"@),
        (p.oe_23128, "23128 OE"@),
        (p.x1, "Multi X1"@),
        (p.x2, "Multi X2"@),
    ]
}

/// The pin configuration cards.
pub open spec fn pins_section(acc: Seq<char>, p: OneRomPins) -> Seq<char> {
    let a = acc + "<h2>Pin Configuration</h2>"@ + "<div class=\"card\">"@ + "<h3>Data pin mapping:</h3>"@;
    let b = pin_lines(a, "D"@, p.data_port@, p.data@, p.data@.len()) + "</div>"@
        + "<div class=\"card\">"@ + "<h3>Address pin mapping:</h3>"@;
    let c = pin_lines(b, "A"@, p.addr_port@, p.addr@, p.addr@.len()) + "</div>"@
        + "<div class=\"card\">"@ + "<h3>Chip select pins:</h3>"@;
    let d = cs_lines(c, p.cs_port@, cs_pairs(p), 10);
    let e = if p.x1 != 255 || p.x2 != 255 {
        d + "<p>Multi X1/X2 jumper pull: "@ + dec(p.x_jumper_pull as nat) + "</p>"@
    } else {
        d
    };
    let f = e + "<p>X1/2 jumper pull: "@ + dec(p.x_jumper_pull as nat) + "</p>"@ + "</div>"@
        + "<div class=\"card\">"@ + "<h3>Image select pins:</h3>"@;
    let g = pin_lines(f, "SEL"@, p.sel_port@, p.sel@, 7) + "<p>Select jumper pull: "@ + dec(
        p.sel_jumper_pull as nat,
    ) + "</p>"@ + "</div>"@ + "<div class=\"card\">"@ + "<h3>Status LED pin:</h3>"@;
    let h = if p.status_port@ == "None"@ {
        g + "<p>Pin: None</p>"@
    } else if p.status != 255 {
        g + "<p>Pin: P"@ + p.status_port@ + ":"@ + dec(p.status as nat) + "</p>"@
    } else {
        g
    };
    h + "</div>"@
}

fn append_pins_section(s: &mut String, p: &OneRomPins)
    ensures
        final(s)@ == pins_section(old(s)@, *p),
{
    push_str(s, "<h2>Pin Configuration</h2>");
    push_str(s, "<div class=\"card\">");
    push_str(s, "<h3>Data pin mapping:</h3>");
    append_pin_lines(s, "D", p.data_port.as_str(), p.data.as_slice());
    push_str(s, "</div>");
    push_str(s, "<div class=\"card\">");
    push_str(s, "<h3>Address pin mapping:</h3>");
    append_pin_lines(s, "A", p.addr_port.as_str(), p.addr.as_slice());
    push_str(s, "</div>");
    push_str(s, "<div class=\"card\">");
    push_str(s, "<h3>Chip select pins:</h3>");
    let pairs: [(u8, &str); 10] = [
        (p.cs1_2364, "2364 CS1"),
        (p.cs1_2332, "2332 CS1"),
        (p.cs2_2332, "2332 CS2"),
        (p.cs1_2316, "2316 CS1"),
        (p.cs2_2316, "2316 CS2"),
        (p.cs3_2316, "2316 CS3"),
        (p.ce_23128, "23128 CE"),
        (p.oe_23128, "23128 OE"),
        (p.x1, "Multi X1"),
        (p.x2, "Multi X2"),
    ];
    let ghost spairs = cs_pairs(*p);
    assert forall|k: int| 0 <= k < 10 implies (#[trigger] pairs@[k]).0 == spairs[k].0 && pairs@[k].1@ == spairs[k].1 by {}
    let ghost c = s@;
    let mut k: usize = 0;
    while k < 10
        invariant
            k <= 10,
            spairs == cs_pairs(*p),
            forall|m: int| 0 <= m < 10 ==> (#[trigger] pairs@[m]).0 == spairs[m].0 && pairs@[m].1@ == spairs[m].1,
            s@ == cs_lines(c, p.cs_port@, spairs, k as nat),
        decreases 10 - k,
    {
        let (pin, label) = pairs[k];
        if pin != 255 {
            push_str(s, "<p>");
            push_str(s, label);
            push_str(s, ": P");
            push_str(s, p.cs_port.as_str());
            push_str(s, ":");
            append_dec(s, pin as u64);
            push_str(s, "</p>");
        }
        k = k + 1;
    }
    if p.x1 != 255 || p.x2 != 255 {
        push_str(s, "<p>Multi X1/X2 jumper pull: ");
        append_dec(s, p.x_jumper_pull as u64);
        push_str(s, "</p>");
    }
    push_str(s, "<p>X1/2 jumper pull: ");
    append_dec(s, p.x_jumper_pull as u64);
    push_str(s, "</p>");
    push_str(s, "</div>");
    push_str(s, "<div class=\"card\">");
    push_str(s, "<h3>Image select pins:</h3>");
    append_pin_lines(s, "SEL", p.sel_port.as_str(), p.sel.as_slice());
    push_str(s, "<p>Select jumper pull: ");
    append_dec(s, p.sel_jumper_pull as u64);
    push_str(s, "</p>");
    push_str(s, "</div>");
    push_str(s, "<div class=\"card\">");
    push_str(s, "<h3>Status LED pin:</h3>");
    let port = chars_of(p.status_port.as_str());
    assert(port@.skip(0) =~= port@);
    if rest_is(&port, 0, "None") {
        push_str(s, "<p>Pin: None</p>");
    } else if p.status != 255 {
        push_str(s, "<p>Pin: P");
        push_str(s, p.status_port.as_str());
        push_str(s, ":");
        append_dec(s, p.status as u64);
        push_str(s, "</p>");
    }
    push_str(s, "</div>");
}

/// The list of parse errors, where there are any.
pub open spec fn error_items(acc: Seq<char>, errs: Seq<String>, n: nat) -> Seq<char>
    decreases n,
{
    if n == 0 {
        acc
    } else {
        error_items(acc, errs, (n - 1) as nat) + "<li>"@ + errs[n - 1]@ + "</li>"@
    }
}

/// Everything below the core card that flash information adds: options,
/// ROM summary and details, pins and parse errors.
pub open spec fn flash_sections(acc: Seq<char>, f: OneRomFlash) -> Seq<char> {
    let a = options_card(acc, f) + "<h2>ROMs Summary</h2>"@ + "<div class=\"card\">"@
        + "<p><strong>Total sets:</strong> "@ + dec(f.rom_set_count as nat) + "</p>"@
        + "<p><strong>Total ROMs:</strong> "@ + dec(rom_total(f.rom_sets@, f.rom_sets@.len()))
        + "</p>"@ + "</div>"@ + "<h2>ROM Details</h2>"@;
    let b = set_blocks(a, f.rom_sets@, f.rom_sets@.len());
    let c = match f.pins {
        Some(p) => pins_section(b, p),
        None => b,
    };
    if f.parse_errors@.len() > 0 {
        error_items(c + "<h2>Parse Errors</h2>"@ + "<ul>"@, f.parse_errors@, f.parse_errors@.len())
            + "</ul>"@
    } else {
        c
    }
}

/// One ROM's description page: a core card with what flash and RAM hold
/// (or an error line for each that could not be read), then, where flash
/// was read, its options, ROM sets and ROMs, pins and parse errors.
pub open spec fn full_html(info: OneRomInfo) -> Seq<char> {
    let a = "<div class=\"card\">"@ + "<h2>One ROM</h2>"@ + "<h3>Core Firmware Properties</h3>"@;
    let b = match info.flash {
        Some(f) => flash_core(a, f),
        None => a + "<p><strong>Error:</strong> No information available from flash</p>"@,
    } + "<h3>Runtime Properties</h3>"@;
    let c = match info.ram {
        Some(r) => ram_props(b, info.flash, r),
        None => b + "<p><strong>Error:</strong> No information available from RAM</p>"@,
    } + "</div>"@;
    match info.flash {
        Some(f) => flash_sections(c, f),
        None => c,
    }
}

/// Whether the ROM count of a flash's sets fits in a `usize`.
pub open spec fn rom_total_fits(info: OneRomInfo) -> bool {
    match info.flash {
        Some(f) => rom_total(f.rom_sets@, f.rom_sets@.len()) <= usize::MAX,
        None => true,
    }
}

proof fn lemma_rom_total_mono(sets: Seq<OneRomSet>, i: nat, n: nat)
    requires
        i <= n,
    ensures
        rom_total(sets, i) <= rom_total(sets, n),
    decreases n,
{
    if i < n {
        lemma_rom_total_mono(sets, i, (n - 1) as nat);
    }
}

fn append_flash_sections(s: &mut String, f: &OneRomFlash)
    requires
        rom_total(f.rom_sets@, f.rom_sets@.len()) <= usize::MAX,
    ensures
        final(s)@ == flash_sections(old(s)@, *f),
{
    append_options_card(s, f);
    push_str(s, "<h2>ROMs Summary</h2>");
    push_str(s, "<div class=\"card\">");
    push_str(s, "<p><strong>Total sets:</strong> ");
    append_dec(s, f.rom_set_count as u64);
    push_str(s, "</p>");
    let mut total: usize = 0;
    let mut i: usize = 0;
    while i < f.rom_sets.len()
        invariant
            i <= f.rom_sets@.len(),
            total == rom_total(f.rom_sets@, i as nat),
            rom_total(f.rom_sets@, f.rom_sets@.len()) <= usize::MAX,
        decreases f.rom_sets@.len() - i,
    {
        proof {
            lemma_rom_total_mono(f.rom_sets@, (i + 1) as nat, f.rom_sets@.len());
        }
        total = total + f.rom_sets[i].roms.len();
        i = i + 1;
    }
    push_str(s, "<p><strong>Total ROMs:</strong> ");
    append_dec(s, total as u64);
    push_str(s, "</p>");
    push_str(s, "</div>");
    push_str(s, "<h2>ROM Details</h2>");
    let ghost a = s@;
    let mut i: usize = 0;
    while i < f.rom_sets.len()
        invariant
            i <= f.rom_sets@.len(),
            s@ == set_blocks(a, f.rom_sets@, i as nat),
        decreases f.rom_sets@.len() - i,
    {
        append_set_block(s, i, &f.rom_sets[i]);
        i = i + 1;
    }
    match &f.pins {
        Some(p) => append_pins_section(s, p),
        None => {},
    }
    if f.parse_errors.len() > 0 {
        push_str(s, "<h2>Parse Errors</h2>");
        push_str(s, "<ul>");
        let ghost e = s@;
        let mut k: usize = 0;
        while k < f.parse_errors.len()
            invariant
                k <= f.parse_errors@.len(),
                s@ == error_items(e, f.parse_errors@, k as nat),
            decreases f.parse_errors@.len() - k,
        {
            push_str(s, "<li>");
            push_str(s, f.parse_errors[k].as_str());
            push_str(s, "</li>");
            k = k + 1;
        }
        push_str(s, "</ul>");
    }
}

impl OneRomFirmware {
    /// The description page (see [`full_html`]), with `200 OK`.
    pub fn get_full_html(&self) -> (r: Result<(StatusCode, Option<String>), Error>)
        requires
            rom_total_fits(self.info),
        ensures
            r matches Ok((status, Some(h))) && status == StatusCode::Success && h@ == full_html(
                self.info,
            ),
    {
        let fw_info = &self.info.flash;
        let ram_info = &self.info.ram;
        let mut html = string_of("<div class=\"card\">");
        push_str(&mut html, "<h2>One ROM</h2>");
        push_str(&mut html, "<h3>Core Firmware Properties</h3>");
        match fw_info {
            Some(f) => append_flash_core(&mut html, f),
            None => push_str(&mut html, "<p><strong>Error:</strong> No information available from flash</p>"),
        }
        push_str(&mut html, "<h3>Runtime Properties</h3>");
        match ram_info {
            Some(r) => self.append_ram_props(&mut html, fw_info, r),
            None => push_str(&mut html, "<p><strong>Error:</strong> No information available from RAM</p>"),
        }
        push_str(&mut html, "</div>");
        match fw_info {
            Some(f) => append_flash_sections(&mut html, f),
            None => {},
        }
        Ok((StatusCode::Success, Some(html)))
    }
}


/// Key/value pairs, as values.
pub open spec fn kvp_view(v: Seq<(String, String)>) -> Seq<(Seq<char>, Seq<char>)> {
    v.map_values(|p: (String, String)| (p.0@, p.1@))
}

/// One ROM's summary: version, hardware revision and emulated ROM (each
/// unknown without flash information), the ROM set being served (only
/// with both flash and RAM information), and the bytes served (where RAM
/// information is present and counting is on).
pub open spec fn summary_kvp(info: OneRomInfo) -> Seq<(Seq<char>, Seq<char>)> {
    let first = match info.flash {
        Some(f) => seq![
            ("Version"@, "v"@ + dec(f.major_version as nat) + "."@ + dec(f.minor_version as nat) + "."@
                + dec(f.patch_version as nat)),
            ("Hardware Revision"@, match f.hw_rev {
                Some(h) => h@,
                None => "Unknown"@,
            }),
            ("Emulating"@, match f.pins {
                Some(p) => dec(p.rom_pins as nat) + " pin ROM"@,
                None => "unknown ROM"@,
            }),
        ],
        None => seq![
            ("Version"@, "Unknown"@),
            ("Hardware Revision"@, "Unknown"@),
            ("Emulating"@, "unknown ROM"@),
        ],
    };
    let serving = match (info.flash, info.ram) {
        (Some(f), Some(r)) => current_rom_text(&f, &r),
        _ => "unavailable"@,
    };
    let served = match info.ram {
        Some(r) => if r.count_rom_access > 0 {
            dec(r.last_parsed_access_count as nat)
        } else {
            "unavailable"@
        },
        None => "unavailable"@,
    };
    first + seq![("Serving ROM/set"@, serving), ("Bytes served"@, served)]
}

fn pair(k: &str, v: String) -> (r: (String, String))
    ensures
        r.0@ == k@,
        r.1@ == v@,
{
    (string_of(k), v)
}

impl OneRomFirmware {
    /// The summary (see [`summary_kvp`]).
    pub fn get_summary_kvp(&self) -> (r: Result<Vec<(String, String)>, Error>)
        ensures
            r matches Ok(v) && kvp_view(v@) == summary_kvp(self.info),
    {
        let mut kvp: Vec<(String, String)> = Vec::new();
        match &self.info.flash {
            Some(flash) => {
                let mut version = string_of("v");
                append_dec(&mut version, flash.major_version as u64);
                push_str(&mut version, ".");
                append_dec(&mut version, flash.minor_version as u64);
                push_str(&mut version, ".");
                append_dec(&mut version, flash.patch_version as u64);
                kvp.push(pair("Version", version));
                let hw = match &flash.hw_rev {
                    Some(h) => string_of(h.as_str()),
                    None => string_of("Unknown"),
                };
                kvp.push(pair("Hardware Revision", hw));
                let emulating = match &flash.pins {
                    Some(p) => {
                        let mut e = String::new();
                        append_dec(&mut e, p.rom_pins as u64);
                        push_str(&mut e, " pin ROM");
                        e
                    },
                    None => string_of("unknown ROM"),
                };
                kvp.push(pair("Emulating", emulating));
            },
            None => {
                kvp.push(pair("Version", string_of("Unknown")));
                kvp.push(pair("Hardware Revision", string_of("Unknown")));
                kvp.push(pair("Emulating", string_of("unknown ROM")));
            },
        }
        let serving = match (&self.info.flash, &self.info.ram) {
            (Some(f), Some(r)) => self.get_current_rom_info(f, r),
            _ => string_of("unavailable"),
        };
        kvp.push(pair("Serving ROM/set", serving));
        let served = match &self.info.ram {
            Some(r) => if r.count_rom_access > 0 {
                let mut b = String::new();
                append_dec(&mut b, r.last_parsed_access_count as u64);
                b
            } else {
                string_of("unavailable")
            },
            None => string_of("unavailable"),
        };
        kvp.push(pair("Bytes served", served));
        assert(kvp_view(kvp@) =~= summary_kvp(self.info));
        Ok(kvp)
    }

    /// One ROM has no custom buttons.
    pub fn get_buttons(&self) -> (r: Result<Vec<crate::firmware::WwwButton>, Error>)
        ensures
            r == Err::<Vec<crate::firmware::WwwButton>, Error>(Error::NotImplemented),
    {
        Err(Error::NotImplemented)
    }
}

/// Whether One ROM can run on an MCU: an STM32F4 or an RP device.
pub open spec fn supports(mcu: crate::mcu::Mcu) -> bool {
    (mcu matches crate::mcu::Mcu::Stm32(d) && d.is_stm32f4) || mcu is Rp
}

/// Where the firmware parser looks for flash: `0x1000_0000` on RP
/// devices, `0x0800_0000` on STM32 devices; RAM is at `0x2000_0000` on
/// both.
pub fn parser_bases(mcu: &crate::mcu::Mcu) -> (r: (u32, u32))
    requires
        !(mcu is Unknown),
    ensures
        r.0 == (if mcu is Rp { 0x1000_0000u32 } else { 0x0800_0000u32 }),
        r.1 == 0x2000_0000u32,
{
    let base_flash_address: u32 = match mcu {
        crate::mcu::Mcu::Rp(_) => 0x1000_0000,
        _ => 0x0800_0000,
    };
    (base_flash_address, 0x2000_0000)
}

/// Whether the decoder tries to detect One ROM on an MCU (see
/// [`supports`]).
pub fn supports_mcu(mcu: &crate::mcu::Mcu) -> (r: bool)
    ensures
        r == supports(*mcu),
{
    mcu.is_stm32f4() || mcu.is_rp()
}

} // verus!
