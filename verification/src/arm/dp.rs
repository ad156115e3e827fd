//! ARM Debug Port registers.

use crate::arm::bits::{
    lemma_and_le, lemma_field_update, lemma_flag_update, lemma_shift_zero, with_field, with_flag,
};
use crate::arm::register::{DpRegister, ReadableRegister, RegisterDescriptor, WritableRegister};
use crate::fmt::{append_dec, append_hex_lower, append_hex_word, dec, hex_lower, hex_word, push_str};
use vstd::prelude::*;

verus! {

/// IDCODE register descriptor (read-only).
pub struct IdCodeRegister;

impl RegisterDescriptor for IdCodeRegister {
    fn address() -> (r: u8)
        ensures
            r == 0x00,
    {
        0x00
    }
}

impl ReadableRegister for IdCodeRegister {
    type Value = IdCode;

    fn from_raw(data: u32) -> (r: IdCode)
        ensures
            r@ == data,
    {
        IdCode(data)
    }
}

impl DpRegister for IdCodeRegister {}

/// ARM Debug Port IDCODE register data.
#[derive(Debug, Clone, Copy, PartialEq, Eq, Default, Structural)]
pub struct IdCode(u32);

impl View for IdCode {
    type V = u32;

    closed spec fn view(&self) -> u32 {
        self.0
    }
}

impl From<IdCode> for u32 {
    fn from(value: IdCode) -> (r: u32)
        ensures
            r == value@,
    {
        value.0
    }
}

impl vstd::std_specs::convert::FromSpecImpl<IdCode> for u32 {
    open spec fn obeys_from_spec() -> bool {
        true
    }

    closed spec fn from_spec(v: IdCode) -> u32 {
        v.0
    }
}

impl From<u32> for IdCode {
    fn from(value: u32) -> (r: IdCode)
        ensures
            r@ == value,
    {
        IdCode(value)
    }
}

impl vstd::std_specs::convert::FromSpecImpl<u32> for IdCode {
    open spec fn obeys_from_spec() -> bool {
        true
    }

    closed spec fn from_spec(v: u32) -> IdCode {
        IdCode(v)
    }
}

impl IdCode {
    /// The raw word as `0x` and eight upper-case hex digits.
    pub fn to_string(&self) -> (r: String)
        ensures
            r@ == hex_word(self@ as nat),
    {
        let mut s = String::new();
        append_hex_word(&mut s, self.0);
        s
    }
}

/// JEDEC designer code of ARM Ltd.
pub const DESIGNER_ARM: u16 = 0x23B;

/// Part number of an ARM Debug Port.
pub const PART_ARM_DEBUG_PORT: u8 = 0xBA;

/// The part description [`IdCode::part_description`] gives for an IDCODE.
pub open spec fn part_description_text(v: u32) -> Seq<char> {
    let designer = (v >> 1u32) & 0x7FF;
    let part = (v >> 20u32) & 0xFF;
    let version = (v >> 12u32) & 0xF;
    if designer == 0x23B && part == 0xBA {
        if version == 0 {
            "ARM Debug Port v0"@
        } else if version == 1 {
            "ARM Debug Port v1"@
        } else if version == 2 {
            "ARM Debug Port v2"@
        } else {
            "Unknown ARM Debug Port Version"@
        }
    } else {
        "unknown"@
    }
}

/// How an IDCODE is displayed: plainly as a hex word, or in the alternate
/// form with its part description (or a note that it is invalid).
pub open spec fn idcode_display_text(v: u32, alternate: bool) -> Seq<char> {
    if alternate {
        if v & 1 != 1 {
            "Invalid IDCODE: "@ + hex_word(v as nat) + " (LSB not set)"@
        } else {
            hex_word(v as nat) + " "@ + part_description_text(v)
        }
    } else {
        hex_word(v as nat)
    }
}

impl IdCode {
    pub fn new(value: u32) -> (r: Self)
        ensures
            r@ == value,
    {
        IdCode(value)
    }

    /// The raw IDCODE word.
    pub fn data(&self) -> (r: u32)
        ensures
            r == self@,
    {
        self.0
    }

    /// Revision field (bits 31:28).
    pub fn revision(&self) -> (r: u8)
        ensures
            r as u32 == (self@ >> 28u32) & 0xfu32,
    {
        let field = (self.0 >> 28) & 0xf;
        proof {
            lemma_and_le(self@ >> 28u32, 0xfu32);
        }
        field as u8
    }

    /// Part number (bits 27:20).
    pub fn part_number(&self) -> (r: u8)
        ensures
            r as u32 == (self@ >> 20u32) & 0xffu32,
    {
        let field = (self.0 >> 20) & 0xff;
        proof {
            lemma_and_le(self@ >> 20u32, 0xffu32);
        }
        field as u8
    }

    /// Version (bits 15:12).
    pub fn version(&self) -> (r: u8)
        ensures
            r as u32 == (self@ >> 12u32) & 0xfu32,
    {
        let field = (self.0 >> 12) & 0xf;
        proof {
            lemma_and_le(self@ >> 12u32, 0xfu32);
        }
        field as u8
    }

    /// MIN flag (bit 16).
    pub fn min(&self) -> (r: bool)
        ensures
            r == (self@ & 0x10000u32 != 0),
    {
        self.0 & 0x10000 != 0
    }

    /// JEDEC designer ID (bits 11:1).
    pub fn designer_id(&self) -> (r: u16)
        ensures
            r as u32 == (self@ >> 1u32) & 0x7ffu32,
    {
        let field = (self.0 >> 1) & 0x7ff;
        proof {
            lemma_and_le(self@ >> 1u32, 0x7ffu32);
        }
        field as u16
    }

    /// Whether the LSB is set, as it always is in a valid IDCODE.
    pub fn is_valid(&self) -> (r: bool)
        ensures
            r == (self@ & 1 == 1),
    {
        (self.0 & 1) == 1
    }

    /// RAO (bit 0).
    pub fn rao(&self) -> (r: bool)
        ensures
            r == (self@ & 0x1u32 != 0),
    {
        self.0 & 0x1 != 0
    }

    /// Manufacturer name, where known.
    pub fn designer_name(&self) -> (r: &'static str)
        ensures
            r@ == (if (self@ >> 1u32) & 0x7FF == 0x23B {
                "ARM Ltd"@
            } else {
                "Unknown"@
            }),
    {
        if self.designer_id() == DESIGNER_ARM {
            "ARM Ltd"
        } else {
            "Unknown"
        }
    }

    /// Part description, where known.
    pub fn part_description(&self) -> (r: &'static str)
        ensures
            r@ == part_description_text(self@),
    {
        if self.designer_id() == DESIGNER_ARM {
            if self.part_number() == PART_ARM_DEBUG_PORT {
                match self.version() {
                    0 => "ARM Debug Port v0",
                    1 => "ARM Debug Port v1",
                    2 => "ARM Debug Port v2",
                    _ => "Unknown ARM Debug Port Version",
                }
            } else {
                "unknown"
            }
        } else {
            "unknown"
        }
    }

    /// Whether this is an ARM Debug Port.
    pub fn is_arm_debug_port(&self) -> (r: bool)
        ensures
            r == ((self@ >> 1u32) & 0x7FF == 0x23B && (self@ >> 20u32) & 0xFF == 0xBA),
    {
        self.designer_id() == DESIGNER_ARM && self.part_number() == PART_ARM_DEBUG_PORT
    }

    pub fn from_u32(value: u32) -> (r: Self)
        ensures
            r@ == value,
    {
        IdCode(value)
    }

    /// The IDCODE as displayed, plainly or in the alternate form.
    pub fn display(&self, alternate: bool) -> (r: String)
        ensures
            r@ == idcode_display_text(self@, alternate),
    {
        let mut s = String::new();
        if alternate {
            if !self.is_valid() {
                push_str(&mut s, "Invalid IDCODE: ");
                append_hex_word(&mut s, self.0);
                push_str(&mut s, " (LSB not set)");
            } else {
                append_hex_word(&mut s, self.0);
                push_str(&mut s, " ");
                push_str(&mut s, self.part_description());
            }
        } else {
            append_hex_word(&mut s, self.0);
        }
        s
    }

    /// The IDCODE as `0x` and eight lower-case hex digits.
    pub fn to_lower_hex(&self) -> (r: String)
        ensures
            r@ == "0x"@ + hex_lower(self@ as nat, 8),
    {
        let mut s = String::new();
        push_str(&mut s, "0x");
        append_hex_lower(&mut s, self.0 as u64, 8);
        s
    }

    /// The IDCODE as `0x` and eight upper-case hex digits.
    pub fn to_upper_hex(&self) -> (r: String)
        ensures
            r@ == hex_word(self@ as nat),
    {
        self.to_string()
    }
}

/// ABORT register descriptor (write-only).
pub struct AbortRegister;

impl RegisterDescriptor for AbortRegister {
    fn address() -> (r: u8)
        ensures
            r == 0x00,
    {
        0x00
    }
}

impl WritableRegister for AbortRegister {
    type Value = Abort;

    fn to_raw(value: Abort) -> (r: u32)
        ensures
            r == value@,
    {
        value.0
    }
}

impl DpRegister for AbortRegister {}

/// ARM Debug Port ABORT register data.
#[derive(Debug, Clone, Copy, PartialEq, Eq, Default, Structural)]
pub struct Abort(u32);

impl View for Abort {
    type V = u32;

    closed spec fn view(&self) -> u32 {
        self.0
    }
}

impl From<Abort> for u32 {
    fn from(value: Abort) -> (r: u32)
        ensures
            r == value@,
    {
        value.0
    }
}

impl vstd::std_specs::convert::FromSpecImpl<Abort> for u32 {
    open spec fn obeys_from_spec() -> bool {
        true
    }

    closed spec fn from_spec(v: Abort) -> u32 {
        v.0
    }
}

impl Abort {
    /// The raw word as `0x` and eight upper-case hex digits.
    pub fn to_string(&self) -> (r: String)
        ensures
            r@ == hex_word(self@ as nat),
    {
        let mut s = String::new();
        append_hex_word(&mut s, self.0);
        s
    }
}

impl Abort {
    /// Sets or clears the sticky compare clear flag.
    pub fn set_stkcmpclr(&mut self, enable: bool)
        ensures
            final(self)@ == with_flag(old(self)@, 0x2u32, enable),
            (final(self)@ & 0x2u32 != 0) == enable,
            final(self)@ & !0x2u32 == old(self)@ & !0x2u32,
    {
        proof {
            lemma_flag_update(self@, 0x2u32, enable);
        }
        if enable {
            self.0 = self.0 | 0x2;
        } else {
            self.0 = self.0 & !0x2u32;
        }
    }

    /// Sets or clears the sticky error clear flag.
    pub fn set_stkerrclr(&mut self, enable: bool)
        ensures
            final(self)@ == with_flag(old(self)@, 0x4u32, enable),
            (final(self)@ & 0x4u32 != 0) == enable,
            final(self)@ & !0x4u32 == old(self)@ & !0x4u32,
    {
        proof {
            lemma_flag_update(self@, 0x4u32, enable);
        }
        if enable {
            self.0 = self.0 | 0x4;
        } else {
            self.0 = self.0 & !0x4u32;
        }
    }

    /// Sets or clears the write data error clear flag.
    pub fn set_wderrclr(&mut self, enable: bool)
        ensures
            final(self)@ == with_flag(old(self)@, 0x8u32, enable),
            (final(self)@ & 0x8u32 != 0) == enable,
            final(self)@ & !0x8u32 == old(self)@ & !0x8u32,
    {
        proof {
            lemma_flag_update(self@, 0x8u32, enable);
        }
        if enable {
            self.0 = self.0 | 0x8;
        } else {
            self.0 = self.0 & !0x8u32;
        }
    }

    /// Sets or clears the overrun error clear flag.
    pub fn set_orunerrclr(&mut self, enable: bool)
        ensures
            final(self)@ == with_flag(old(self)@, 0x10u32, enable),
            (final(self)@ & 0x10u32 != 0) == enable,
            final(self)@ & !0x10u32 == old(self)@ & !0x10u32,
    {
        proof {
            lemma_flag_update(self@, 0x10u32, enable);
        }
        if enable {
            self.0 = self.0 | 0x10;
        } else {
            self.0 = self.0 & !0x10u32;
        }
    }
}

/// CTRL/STAT register descriptor (read-write).
pub struct CtrlStatRegister;

impl RegisterDescriptor for CtrlStatRegister {
    fn address() -> (r: u8)
        ensures
            r == 0x04,
    {
        0x04
    }
}

impl ReadableRegister for CtrlStatRegister {
    type Value = CtrlStat;

    fn from_raw(data: u32) -> (r: CtrlStat)
        ensures
            r@ == data,
    {
        CtrlStat(data)
    }
}

impl WritableRegister for CtrlStatRegister {
    type Value = CtrlStat;

    fn to_raw(value: CtrlStat) -> (r: u32)
        ensures
            r == value@,
    {
        value.0
    }
}

impl DpRegister for CtrlStatRegister {}

/// ARM Debug Port CTRL/STAT register data.
#[derive(Debug, Clone, Copy, PartialEq, Eq, Default, Structural)]
pub struct CtrlStat(u32);

impl View for CtrlStat {
    type V = u32;

    closed spec fn view(&self) -> u32 {
        self.0
    }
}

impl From<CtrlStat> for u32 {
    fn from(value: CtrlStat) -> (r: u32)
        ensures
            r == value@,
    {
        value.0
    }
}

impl vstd::std_specs::convert::FromSpecImpl<CtrlStat> for u32 {
    open spec fn obeys_from_spec() -> bool {
        true
    }

    closed spec fn from_spec(v: CtrlStat) -> u32 {
        v.0
    }
}

impl From<u32> for CtrlStat {
    fn from(value: u32) -> (r: CtrlStat)
        ensures
            r@ == value,
    {
        CtrlStat(value)
    }
}

impl vstd::std_specs::convert::FromSpecImpl<u32> for CtrlStat {
    open spec fn obeys_from_spec() -> bool {
        true
    }

    closed spec fn from_spec(v: u32) -> CtrlStat {
        CtrlStat(v)
    }
}

impl CtrlStat {
    /// The raw word as `0x` and eight upper-case hex digits.
    pub fn to_string(&self) -> (r: String)
        ensures
            r@ == hex_word(self@ as nat),
    {
        let mut s = String::new();
        append_hex_word(&mut s, self.0);
        s
    }
}

/// Appends `name` to a comma-separated list held in `acc` when `present`.
pub open spec fn list_item(acc: Seq<char>, present: bool, name: Seq<char>) -> Seq<char> {
    if !present {
        acc
    } else if acc.len() == 0 {
        name
    } else {
        acc + ", "@ + name
    }
}

/// The error flags set in a CTRL/STAT word, comma separated.
pub open spec fn error_flag_list(v: u32) -> Seq<char> {
    list_item(
        list_item(
            list_item(
                list_item(list_item(Seq::empty(), v & 0x2 != 0, "STICKYORUN"@), v & 0x10 != 0, "STICKYCMP"@),
                v & 0x20 != 0,
                "STICKYERR"@,
            ),
            v & 0x80 != 0,
            "WDATAERR"@,
        ),
        v & 0x1 != 0,
        "ORUNDETECT"@,
    )
}

/// The error-state description [`CtrlStat::error_states`] gives.
pub open spec fn error_states_text(v: u32) -> Seq<char> {
    if error_flag_list(v).len() == 0 {
        "No errors"@ + (if v & 0x40 != 0 {
            " (READOK)"@
        } else {
            Seq::empty()
        })
    } else {
        "Errors: "@ + error_flag_list(v)
    }
}

/// The power-state description [`CtrlStat::power_states`] gives.
pub open spec fn power_states_text(v: u32) -> Seq<char> {
    "Debug: "@ + (if v & 0x10000000 != 0 { "REQ"@ } else { "off"@ }) + "/"@ + (if v & 0x20000000
        != 0 {
        "ACK"@
    } else {
        "nak"@
    }) + ", System: "@ + (if v & 0x40000000 != 0 { "REQ"@ } else { "off"@ }) + "/"@ + (if v
        & 0x80000000 != 0 {
        "ACK"@
    } else {
        "nak"@
    })
}

/// The name of a transaction mode.
pub open spec fn trnmode_name(mode: u32) -> Seq<char> {
    if mode == 0 {
        "Normal"@
    } else if mode == 1 {
        "Verify"@
    } else if mode == 2 {
        "Compare"@
    } else {
        "Reserved"@
    }
}

/// The transaction-state description [`CtrlStat::transaction_state`] gives.
pub open spec fn transaction_state_text(v: u32) -> Seq<char> {
    "Mode: "@ + trnmode_name((v >> 2u32) & 0x3) + ", Count: "@ + dec(((v >> 12u32) & 0xFFF) as nat)
        + ", Mask: 0x"@ + hex_lower(((v >> 8u32) & 0xF) as nat, 0)
}

/// Appends `name` to the comma-separated list in `s`, following
/// [`list_item`].
fn push_list_item(s: &mut String, present: bool, name: &str)
    ensures
        final(s)@ == list_item(old(s)@, present, name@),
{
    if present {
        if !s.as_str().is_empty() {
            push_str(s, ", ");
        }
        push_str(s, name);
    }
}

impl CtrlStat {
    /// Transaction mode: normal.
    pub const TRNMODE_NORMAL: u32 = 0b00;

    /// Transaction mode: pushed verify.
    pub const TRNMODE_VERIFY: u32 = 0b01;

    /// Transaction mode: pushed compare.
    pub const TRNMODE_COMPARE: u32 = 0b10;

    /// Raw register value.
    pub fn value(&self) -> (r: u32)
        ensures
            r == self@,
    {
        self.0
    }

    /// Overrun detection enable.
    pub fn orundetect(&self) -> (r: bool)
        ensures
            r == (self@ & 0x1u32 != 0),
    {
        self.0 & 0x1 != 0
    }

    /// Sticky overrun flag.
    pub fn stickyorun(&self) -> (r: bool)
        ensures
            r == (self@ & 0x2u32 != 0),
    {
        self.0 & 0x2 != 0
    }

    /// Transaction mode.
    pub fn trnmode(&self) -> (r: u32)
        ensures
            r == (self@ >> 2u32) & 0x3u32,
    {
        (self.0 >> 2) & 0x3
    }

    /// Sticky compare flag.
    pub fn stickycmp(&self) -> (r: bool)
        ensures
            r == (self@ & 0x10u32 != 0),
    {
        self.0 & 0x10 != 0
    }

    /// Sticky error flag.
    pub fn stickyerr(&self) -> (r: bool)
        ensures
            r == (self@ & 0x20u32 != 0),
    {
        self.0 & 0x20 != 0
    }

    /// Read OK flag.
    pub fn readok(&self) -> (r: bool)
        ensures
            r == (self@ & 0x40u32 != 0),
    {
        self.0 & 0x40 != 0
    }

    /// Write data error flag.
    pub fn wdataerr(&self) -> (r: bool)
        ensures
            r == (self@ & 0x80u32 != 0),
    {
        self.0 & 0x80 != 0
    }

    /// Mask lane value.
    pub fn masklane(&self) -> (r: u32)
        ensures
            r == (self@ >> 8u32) & 0xfu32,
    {
        (self.0 >> 8) & 0xf
    }

    /// Transaction count.
    pub fn trncnt(&self) -> (r: u32)
        ensures
            r == (self@ >> 12u32) & 0xfffu32,
    {
        (self.0 >> 12) & 0xfff
    }

    /// Debug reset request.
    pub fn cdbgrstreq(&self) -> (r: bool)
        ensures
            r == (self@ & 0x4000000u32 != 0),
    {
        self.0 & 0x4000000 != 0
    }

    /// Debug reset acknowledge.
    pub fn cdbgrstack(&self) -> (r: bool)
        ensures
            r == (self@ & 0x8000000u32 != 0),
    {
        self.0 & 0x8000000 != 0
    }

    /// Debug power-up request.
    pub fn cdbgpwrupreq(&self) -> (r: bool)
        ensures
            r == (self@ & 0x10000000u32 != 0),
    {
        self.0 & 0x10000000 != 0
    }

    /// Debug power-up acknowledge.
    pub fn cdbgpwrupack(&self) -> (r: bool)
        ensures
            r == (self@ & 0x20000000u32 != 0),
    {
        self.0 & 0x20000000 != 0
    }

    /// System power-up request.
    pub fn csyspwrupreq(&self) -> (r: bool)
        ensures
            r == (self@ & 0x40000000u32 != 0),
    {
        self.0 & 0x40000000 != 0
    }

    /// System power-up acknowledge.
    pub fn csyspwrupack(&self) -> (r: bool)
        ensures
            r == (self@ & 0x80000000u32 != 0),
    {
        self.0 & 0x80000000 != 0
    }

    /// Whether any sticky error flag (STICKYORUN, STICKYCMP, STICKYERR,
    /// WDATAERR) is set.
    pub fn has_errors(&self) -> (r: bool)
        ensures
            r == (self@ & 0x2 != 0 || self@ & 0x10 != 0 || self@ & 0x20 != 0 || self@ & 0x80 != 0),
    {
        self.stickyorun() || self.stickycmp() || self.stickyerr() || self.wdataerr()
            || self.stickyorun()
    }

    /// Sets or clears overrun detection enable.
    pub fn set_orundetect(&mut self, enable: bool)
        ensures
            final(self)@ == with_flag(old(self)@, 0x1u32, enable),
            (final(self)@ & 0x1u32 != 0) == enable,
            final(self)@ & !0x1u32 == old(self)@ & !0x1u32,
    {
        proof {
            lemma_flag_update(self@, 0x1u32, enable);
        }
        if enable {
            self.0 = self.0 | 0x1;
        } else {
            self.0 = self.0 & !0x1u32;
        }
    }

    /// Sets or clears the sticky overrun flag.
    pub fn set_stickyorun(&mut self, enable: bool)
        ensures
            final(self)@ == with_flag(old(self)@, 0x2u32, enable),
            (final(self)@ & 0x2u32 != 0) == enable,
            final(self)@ & !0x2u32 == old(self)@ & !0x2u32,
    {
        proof {
            lemma_flag_update(self@, 0x2u32, enable);
        }
        if enable {
            self.0 = self.0 | 0x2;
        } else {
            self.0 = self.0 & !0x2u32;
        }
    }

    /// Sets the transaction mode (its low two bits).
    pub fn set_trnmode(&mut self, mode: u32)
        ensures
            final(self)@ == with_field(old(self)@, mode, 0x3u32, 2u32),
            (final(self)@ >> 2u32) & 0x3u32 == mode & 0x3u32,
            final(self)@ & !(0x3u32 << 2u32) == old(self)@ & !(0x3u32 << 2u32),
    {
        proof {
            assert((0x3u32 << 2u32) >> 2u32 == 0x3u32) by (bit_vector);
            lemma_field_update(self@, mode, 0x3u32, 2u32);
        }
        self.0 = (self.0 & !(0x3u32 << 2u32)) | ((mode & 0x3) << 2u32);
    }

    /// Sets or clears the sticky compare flag.
    pub fn set_stickycmp(&mut self, enable: bool)
        ensures
            final(self)@ == with_flag(old(self)@, 0x10u32, enable),
            (final(self)@ & 0x10u32 != 0) == enable,
            final(self)@ & !0x10u32 == old(self)@ & !0x10u32,
    {
        proof {
            lemma_flag_update(self@, 0x10u32, enable);
        }
        if enable {
            self.0 = self.0 | 0x10;
        } else {
            self.0 = self.0 & !0x10u32;
        }
    }

    /// Sets or clears the sticky error flag.
    pub fn set_stickyerr(&mut self, enable: bool)
        ensures
            final(self)@ == with_flag(old(self)@, 0x20u32, enable),
            (final(self)@ & 0x20u32 != 0) == enable,
            final(self)@ & !0x20u32 == old(self)@ & !0x20u32,
    {
        proof {
            lemma_flag_update(self@, 0x20u32, enable);
        }
        if enable {
            self.0 = self.0 | 0x20;
        } else {
            self.0 = self.0 & !0x20u32;
        }
    }

    /// Sets the mask lane value (its low four bits).
    pub fn set_masklane(&mut self, mask: u32)
        ensures
            final(self)@ == with_field(old(self)@, mask, 0xfu32, 8u32),
            (final(self)@ >> 8u32) & 0xfu32 == mask & 0xfu32,
            final(self)@ & !(0xfu32 << 8u32) == old(self)@ & !(0xfu32 << 8u32),
    {
        proof {
            assert((0xfu32 << 8u32) >> 8u32 == 0xfu32) by (bit_vector);
            lemma_field_update(self@, mask, 0xfu32, 8u32);
        }
        self.0 = (self.0 & !(0xfu32 << 8u32)) | ((mask & 0xf) << 8u32);
    }

    /// Sets the transaction count (its low twelve bits).
    pub fn set_trncnt(&mut self, count: u32)
        ensures
            final(self)@ == with_field(old(self)@, count, 0xfffu32, 12u32),
            (final(self)@ >> 12u32) & 0xfffu32 == count & 0xfffu32,
            final(self)@ & !(0xfffu32 << 12u32) == old(self)@ & !(0xfffu32 << 12u32),
    {
        proof {
            assert((0xfffu32 << 12u32) >> 12u32 == 0xfffu32) by (bit_vector);
            lemma_field_update(self@, count, 0xfffu32, 12u32);
        }
        self.0 = (self.0 & !(0xfffu32 << 12u32)) | ((count & 0xfff) << 12u32);
    }

    /// Sets or clears the debug reset request.
    pub fn set_cdbgrstreq(&mut self, enable: bool)
        ensures
            final(self)@ == with_flag(old(self)@, 0x4000000u32, enable),
            (final(self)@ & 0x4000000u32 != 0) == enable,
            final(self)@ & !0x4000000u32 == old(self)@ & !0x4000000u32,
    {
        proof {
            lemma_flag_update(self@, 0x4000000u32, enable);
        }
        if enable {
            self.0 = self.0 | 0x4000000;
        } else {
            self.0 = self.0 & !0x4000000u32;
        }
    }

    /// Sets or clears the debug power-up request.
    pub fn set_cdbgpwrupreq(&mut self, enable: bool)
        ensures
            final(self)@ == with_flag(old(self)@, 0x10000000u32, enable),
            (final(self)@ & 0x10000000u32 != 0) == enable,
            final(self)@ & !0x10000000u32 == old(self)@ & !0x10000000u32,
    {
        proof {
            lemma_flag_update(self@, 0x10000000u32, enable);
        }
        if enable {
            self.0 = self.0 | 0x10000000;
        } else {
            self.0 = self.0 & !0x10000000u32;
        }
    }

    /// Sets or clears the system power-up request.
    pub fn set_csyspwrupreq(&mut self, enable: bool)
        ensures
            final(self)@ == with_flag(old(self)@, 0x40000000u32, enable),
            (final(self)@ & 0x40000000u32 != 0) == enable,
            final(self)@ & !0x40000000u32 == old(self)@ & !0x40000000u32,
    {
        proof {
            lemma_flag_update(self@, 0x40000000u32, enable);
        }
        if enable {
            self.0 = self.0 | 0x40000000;
        } else {
            self.0 = self.0 & !0x40000000u32;
        }
    }

    /// Description of the error flags.
    pub fn error_states(&self) -> (r: String)
        ensures
            r@ == error_states_text(self@),
    {
        let mut list = String::new();
        push_list_item(&mut list, self.stickyorun(), "STICKYORUN");
        push_list_item(&mut list, self.stickycmp(), "STICKYCMP");
        push_list_item(&mut list, self.stickyerr(), "STICKYERR");
        push_list_item(&mut list, self.wdataerr(), "WDATAERR");
        push_list_item(&mut list, self.orundetect(), "ORUNDETECT");
        let mut s = String::new();
        if list.as_str().is_empty() {
            push_str(&mut s, "No errors");
            if self.readok() {
                push_str(&mut s, " (READOK)");
            }
        } else {
            push_str(&mut s, "Errors: ");
            push_str(&mut s, list.as_str());
        }
        s
    }

    /// Description of the power request and acknowledge flags.
    pub fn power_states(&self) -> (r: String)
        ensures
            r@ == power_states_text(self@),
    {
        let mut s = String::new();
        push_str(&mut s, "Debug: ");
        push_str(&mut s, if self.cdbgpwrupreq() { "REQ" } else { "off" });
        push_str(&mut s, "/");
        push_str(&mut s, if self.cdbgpwrupack() { "ACK" } else { "nak" });
        push_str(&mut s, ", System: ");
        push_str(&mut s, if self.csyspwrupreq() { "REQ" } else { "off" });
        push_str(&mut s, "/");
        push_str(&mut s, if self.csyspwrupack() { "ACK" } else { "nak" });
        s
    }

    /// Description of the transaction mode, count and mask.
    pub fn transaction_state(&self) -> (r: String)
        ensures
            r@ == transaction_state_text(self@),
    {
        let mode = match self.trnmode() {
            0 => "Normal",
            1 => "Verify",
            2 => "Compare",
            _ => "Reserved",
        };
        let mut s = String::new();
        push_str(&mut s, "Mode: ");
        push_str(&mut s, mode);
        push_str(&mut s, ", Count: ");
        append_dec(&mut s, self.trncnt() as u64);
        push_str(&mut s, ", Mask: 0x");
        append_hex_lower(&mut s, self.masklane() as u64, 0);
        s
    }
}

/// SELECT register descriptor (read-write).
pub struct SelectRegister;

impl RegisterDescriptor for SelectRegister {
    fn address() -> (r: u8)
        ensures
            r == 0x08,
    {
        0x08
    }
}

impl ReadableRegister for SelectRegister {
    type Value = Select;

    fn from_raw(data: u32) -> (r: Select)
        ensures
            r@ == data,
    {
        Select(data)
    }
}

impl WritableRegister for SelectRegister {
    type Value = Select;

    fn to_raw(value: Select) -> (r: u32)
        ensures
            r == value@,
    {
        value.0
    }
}

impl DpRegister for SelectRegister {}

/// ARM Debug Port SELECT register data.
#[derive(Debug, Clone, Copy, PartialEq, Eq, Default, Structural)]
pub struct Select(u32);

impl View for Select {
    type V = u32;

    closed spec fn view(&self) -> u32 {
        self.0
    }
}

impl From<Select> for u32 {
    fn from(value: Select) -> (r: u32)
        ensures
            r == value@,
    {
        value.0
    }
}

impl vstd::std_specs::convert::FromSpecImpl<Select> for u32 {
    open spec fn obeys_from_spec() -> bool {
        true
    }

    closed spec fn from_spec(v: Select) -> u32 {
        v.0
    }
}

impl From<u32> for Select {
    fn from(value: u32) -> (r: Select)
        ensures
            r@ == value,
    {
        Select(value)
    }
}

impl vstd::std_specs::convert::FromSpecImpl<u32> for Select {
    open spec fn obeys_from_spec() -> bool {
        true
    }

    closed spec fn from_spec(v: u32) -> Select {
        Select(v)
    }
}

impl Select {
    /// The raw word as `0x` and eight upper-case hex digits.
    pub fn to_string(&self) -> (r: String)
        ensures
            r@ == hex_word(self@ as nat),
    {
        let mut s = String::new();
        append_hex_word(&mut s, self.0);
        s
    }
}

/// The selection description [`Select::selection_info`] gives.
pub open spec fn selection_info_text(v: u32) -> Seq<char> {
    "AP: "@ + dec(((v >> 24u32) & 0xFF) as nat) + ", DP Bank: "@ + dec((v & 0xF) as nat)
        + ", AP Bank: "@ + dec(((v >> 4u32) & 0xF) as nat)
}

impl Select {
    pub const DPBANKSEL_MASK: u32 = 0xF;

    pub const DPBANKSEL_SHIFT: u32 = 0;

    pub const APBANKSEL_MASK: u32 = 0xF;

    pub const APBANKSEL_SHIFT: u32 = 4;

    /// Raw register value.
    pub fn value(&self) -> (r: u32)
        ensures
            r == self@,
    {
        self.0
    }

    /// Access port select.
    pub fn apsel(&self) -> (r: u32)
        ensures
            r == (self@ >> 24u32) & 0xffu32,
    {
        (self.0 >> 24) & 0xff
    }

    /// DP bank select.
    pub fn dpbanksel(&self) -> (r: u32)
        ensures
            r == self@ & 0xfu32,
    {
        self.0 & 0xf
    }

    /// AP bank select.
    pub fn apbanksel(&self) -> (r: u32)
        ensures
            r == (self@ >> 4u32) & 0xfu32,
    {
        (self.0 >> 4) & 0xf
    }

    /// Sets the access port select (its low eight bits).
    pub fn set_apsel(&mut self, apsel: u32)
        ensures
            final(self)@ == with_field(old(self)@, apsel, 0xffu32, 24u32),
            (final(self)@ >> 24u32) & 0xffu32 == apsel & 0xffu32,
            final(self)@ & !(0xffu32 << 24u32) == old(self)@ & !(0xffu32 << 24u32),
    {
        proof {
            assert((0xffu32 << 24u32) >> 24u32 == 0xffu32) by (bit_vector);
            lemma_field_update(self@, apsel, 0xffu32, 24u32);
        }
        self.0 = (self.0 & !(0xffu32 << 24u32)) | ((apsel & 0xff) << 24u32);
    }

    /// Sets the DP bank select (the low four bits of `banksel`).
    pub fn set_dpbanksel(&mut self, banksel: u8)
        ensures
            final(self)@ == with_field(old(self)@, banksel as u32, 0xFu32, 0u32),
            final(self)@ & 0xFu32 == banksel as u32 & 0xFu32,
            final(self)@ & !0xFu32 == old(self)@ & !0xFu32,
    {
        let banksel = banksel as u32;
        proof {
            lemma_shift_zero(0xFu32);
            lemma_shift_zero(with_field(self@, banksel, 0xFu32, 0u32));
            lemma_field_update(self@, banksel, 0xFu32, 0u32);
        }
        self.0 = (self.0 & !(0xFu32 << 0u32)) | ((banksel & 0xF) << 0u32);
    }

    /// Sets the AP bank select (the low four bits of `banksel`).
    pub fn set_apbanksel(&mut self, banksel: u8)
        ensures
            final(self)@ == with_field(old(self)@, banksel as u32, 0xFu32, 4u32),
            (final(self)@ >> 4u32) & 0xFu32 == banksel as u32 & 0xFu32,
            final(self)@ & !(0xFu32 << 4u32) == old(self)@ & !(0xFu32 << 4u32),
    {
        let banksel = banksel as u32;
        proof {
            assert((0xFu32 << 4u32) >> 4u32 == 0xFu32) by (bit_vector);
            lemma_field_update(self@, banksel, 0xFu32, 4u32);
        }
        self.0 = (self.0 & !(0xFu32 << 4u32)) | ((banksel & 0xF) << 4u32);
    }

    /// Sets the DP bank select from a register address (its bits 7:4).
    pub fn set_dpbanksel_from_addr(&mut self, addr: u8)
        ensures
            final(self)@ == with_field(old(self)@, ((addr >> 4u8) & 0xF) as u32, 0xFu32, 0u32),
    {
        let banksel = (addr >> 4) & 0xF;
        self.set_dpbanksel(banksel);
    }

    /// Sets the AP bank select from a register address (its bits 7:4).
    pub fn set_apbanksel_from_addr(&mut self, addr: u8)
        ensures
            final(self)@ == with_field(old(self)@, ((addr >> 4u8) & 0xF) as u32, 0xFu32, 4u32),
    {
        let banksel = (addr >> 4) & 0xF;
        self.set_apbanksel(banksel);
    }

    /// Description of the selected AP and banks.
    pub fn selection_info(&self) -> (r: String)
        ensures
            r@ == selection_info_text(self@),
    {
        let mut s = String::new();
        push_str(&mut s, "AP: ");
        append_dec(&mut s, self.apsel() as u64);
        push_str(&mut s, ", DP Bank: ");
        append_dec(&mut s, self.dpbanksel() as u64);
        push_str(&mut s, ", AP Bank: ");
        append_dec(&mut s, self.apbanksel() as u64);
        s
    }
}

/// RDBUFF register descriptor (read-only).
pub struct RdBuffRegister;

impl RegisterDescriptor for RdBuffRegister {
    fn address() -> (r: u8)
        ensures
            r == 0x0c,
    {
        0x0c
    }
}

impl ReadableRegister for RdBuffRegister {
    type Value = RdBuff;

    fn from_raw(data: u32) -> (r: RdBuff)
        ensures
            r@ == data,
    {
        RdBuff(data)
    }
}

impl DpRegister for RdBuffRegister {}

/// ARM Debug Port RDBUFF register data.
#[derive(Debug, Clone, Copy, PartialEq, Eq, Default, Structural)]
pub struct RdBuff(u32);

impl View for RdBuff {
    type V = u32;

    closed spec fn view(&self) -> u32 {
        self.0
    }
}

impl From<RdBuff> for u32 {
    fn from(value: RdBuff) -> (r: u32)
        ensures
            r == value@,
    {
        value.0
    }
}

impl vstd::std_specs::convert::FromSpecImpl<RdBuff> for u32 {
    open spec fn obeys_from_spec() -> bool {
        true
    }

    closed spec fn from_spec(v: RdBuff) -> u32 {
        v.0
    }
}

impl From<u32> for RdBuff {
    fn from(value: u32) -> (r: RdBuff)
        ensures
            r@ == value,
    {
        RdBuff(value)
    }
}

impl vstd::std_specs::convert::FromSpecImpl<u32> for RdBuff {
    open spec fn obeys_from_spec() -> bool {
        true
    }

    closed spec fn from_spec(v: u32) -> RdBuff {
        RdBuff(v)
    }
}

impl RdBuff {
    /// The raw word as `0x` and eight upper-case hex digits.
    pub fn to_string(&self) -> (r: String)
        ensures
            r@ == hex_word(self@ as nat),
    {
        let mut s = String::new();
        append_hex_word(&mut s, self.0);
        s
    }
}

impl RdBuff {
    /// The buffered data.
    pub fn data(&self) -> (r: u32)
        ensures
            r == self@,
    {
        self.0
    }
}

/// TARGETSEL register descriptor (write-only, DPv2).
pub struct TargetSelRegister;

impl RegisterDescriptor for TargetSelRegister {
    fn address() -> (r: u8)
        ensures
            r == 0x0c,
    {
        0x0c
    }
}

impl WritableRegister for TargetSelRegister {
    type Value = TargetSel;

    fn to_raw(value: TargetSel) -> (r: u32)
        ensures
            r == value@,
    {
        value.0
    }
}

impl DpRegister for TargetSelRegister {}

/// ARM Debug Port TARGETSEL register data.
#[derive(Debug, Clone, Copy, PartialEq, Eq, Default, Structural)]
pub struct TargetSel(u32);

impl View for TargetSel {
    type V = u32;

    closed spec fn view(&self) -> u32 {
        self.0
    }
}

impl From<TargetSel> for u32 {
    fn from(value: TargetSel) -> (r: u32)
        ensures
            r == value@,
    {
        value.0
    }
}

impl vstd::std_specs::convert::FromSpecImpl<TargetSel> for u32 {
    open spec fn obeys_from_spec() -> bool {
        true
    }

    closed spec fn from_spec(v: TargetSel) -> u32 {
        v.0
    }
}

impl TargetSel {
    /// The raw word as `0x` and eight upper-case hex digits.
    pub fn to_string(&self) -> (r: String)
        ensures
            r@ == hex_word(self@ as nat),
    {
        let mut s = String::new();
        append_hex_word(&mut s, self.0);
        s
    }
}

impl TargetSel {
    pub fn new(value: u32) -> (r: Self)
        ensures
            r@ == value,
    {
        TargetSel(value)
    }

    /// The selected target ID.
    pub fn data(&self) -> (r: u32)
        ensures
            r == self@,
    {
        self.0
    }
}

impl From<IdCode> for TargetSel {
    fn from(id: IdCode) -> (r: TargetSel)
        ensures
            r@ == id@,
    {
        TargetSel(id.data())
    }
}

impl vstd::std_specs::convert::FromSpecImpl<IdCode> for TargetSel {
    open spec fn obeys_from_spec() -> bool {
        true
    }

    closed spec fn from_spec(v: IdCode) -> TargetSel {
        TargetSel(v.0)
    }
}

/// RP2040 multi-drop target base ID.
pub const TARGET_SEL_RP2040_BASE: u32 = 0x01002927;

/// TARGETSEL of RP2040 core 0.
pub fn target_sel_rp2040_core0() -> (r: TargetSel)
    ensures
        r@ == TARGET_SEL_RP2040_BASE,
{
    TargetSel(TARGET_SEL_RP2040_BASE)
}

/// TARGETSEL of RP2040 core 1.
pub fn target_sel_rp2040_core1() -> (r: TargetSel)
    ensures
        r@ == 0x11002927,
{
    assert(0x1u32 << 28u32 | 0x01002927u32 == 0x11002927u32) by (bit_vector);
    TargetSel(0x1u32 << 28u32 | TARGET_SEL_RP2040_BASE)
}

/// TARGETSEL of the RP2040 rescue DP.
pub fn target_sel_rp2040_rescue_dp() -> (r: TargetSel)
    ensures
        r@ == 0xF1002927,
{
    assert(0xFu32 << 28u32 | 0x01002927u32 == 0xF1002927u32) by (bit_vector);
    TargetSel(0xFu32 << 28u32 | TARGET_SEL_RP2040_BASE)
}

/// All RP2040 multi-drop targets.
pub fn target_sel_rp2040_all() -> (r: [TargetSel; 3])
    ensures
        r[0]@ == TARGET_SEL_RP2040_BASE,
        r[1]@ == 0x11002927,
        r[2]@ == 0xF1002927,
{
    [target_sel_rp2040_core0(), target_sel_rp2040_core1(), target_sel_rp2040_rescue_dp()]
}

} // verus!
