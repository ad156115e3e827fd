//! ARM Memory Access Port registers.

use crate::arm::bits::{lemma_field_update, lemma_flag_update, lemma_shift_zero, with_field, with_flag};
use crate::arm::dp::list_item;
use crate::arm::register::{ApRegister, ReadableRegister, RegisterDescriptor, WritableRegister};
use crate::fmt::{append_hex_lower, append_hex_word, hex_lower, hex_word, push_str};
use vstd::prelude::*;

verus! {

/// Control/Status Word register descriptor (read-write).
pub struct CswRegister;

impl RegisterDescriptor for CswRegister {
    fn address() -> (r: u8)
        ensures
            r == 0x00,
    {
        0x00
    }
}

impl ReadableRegister for CswRegister {
    type Value = Csw;

    fn from_raw(data: u32) -> (r: Csw)
        ensures
            r@ == data,
    {
        Csw(data)
    }
}

impl WritableRegister for CswRegister {
    type Value = Csw;

    fn to_raw(value: Csw) -> (r: u32)
        ensures
            r == value@,
    {
        value.0
    }
}

impl ApRegister for CswRegister {}

/// Control/Status Word register data.
#[derive(Debug, Clone, Copy, PartialEq, Eq, Structural)]
pub struct Csw(u32);

impl View for Csw {
    type V = u32;

    closed spec fn view(&self) -> u32 {
        self.0
    }
}

impl From<Csw> for u32 {
    fn from(value: Csw) -> (r: u32)
        ensures
            r == value@,
    {
        value.0
    }
}

impl vstd::std_specs::convert::FromSpecImpl<Csw> for u32 {
    open spec fn obeys_from_spec() -> bool {
        true
    }

    closed spec fn from_spec(v: Csw) -> u32 {
        v.0
    }
}

impl From<u32> for Csw {
    fn from(value: u32) -> (r: Csw)
        ensures
            r@ == value,
    {
        Csw(value)
    }
}

impl vstd::std_specs::convert::FromSpecImpl<u32> for Csw {
    open spec fn obeys_from_spec() -> bool {
        true
    }

    closed spec fn from_spec(v: u32) -> Csw {
        Csw(v)
    }
}

impl Csw {
    /// The raw word as `0x` and eight upper-case hex digits.
    pub fn to_string(&self) -> (r: String)
        ensures
            r@ == hex_word(self@ as nat),
    {
        let mut s = String::new();
        append_hex_word(&mut s, self.0);
        s
    }
}

/// The name of a CSW transfer size.
pub open spec fn size_name(size: u32) -> Seq<char> {
    if size == 0 {
        "8-bit"@
    } else if size == 1 {
        "16-bit"@
    } else if size == 2 {
        "32-bit"@
    } else if size == 3 {
        "64-bit"@
    } else if size == 4 {
        "128-bit"@
    } else if size == 5 {
        "256-bit"@
    } else {
        "Reserved"@
    }
}

/// The name of a CSW address increment mode.
pub open spec fn addrinc_name(addrinc: u32) -> Seq<char> {
    if addrinc == 0 {
        "Off"@
    } else if addrinc == 1 {
        "Single"@
    } else if addrinc == 2 {
        "Packed"@
    } else {
        "Reserved"@
    }
}

/// The description [`Csw::transfer_config`] gives.
pub open spec fn transfer_config_text(v: u32) -> Seq<char> {
    "Size: "@ + size_name(v & 0x7) + ", AddrInc: "@ + addrinc_name((v >> 4u32) & 0x3)
}

/// The status flags set in a CSW word, comma separated.
pub open spec fn csw_flag_list(v: u32) -> Seq<char> {
    list_item(
        list_item(
            list_item(
                list_item(list_item(Seq::empty(), v & 0x40 != 0, "DEVICE_EN"@), v & 0x80 != 0, "TR_IN_PROG"@),
                v & 0x8000 != 0,
                "MTE"@,
            ),
            v & 0x800000 != 0,
            "SPIDEN"@,
        ),
        v & 0x80000000 != 0,
        "DBG_SW_ENABLE"@,
    )
}

/// The description [`Csw::status_flags`] gives.
pub open spec fn status_flags_text(v: u32) -> Seq<char> {
    if csw_flag_list(v).len() == 0 {
        "No flags set"@
    } else {
        "Flags: "@ + csw_flag_list(v)
    }
}

/// `Y` or `N`.
pub open spec fn yes_no(b: bool) -> Seq<char> {
    if b {
        "Y"@
    } else {
        "N"@
    }
}

/// The description [`Csw::security_state`] gives.
pub open spec fn security_state_text(v: u32) -> Seq<char> {
    "PROT: 0x"@ + hex_lower(((v >> 24u32) & 0x7F) as nat, 2) + ", SPIDEN: "@ + yes_no(v & 0x800000
        != 0) + ", DBG_SW: "@ + yes_no(v & 0x80000000 != 0)
}

fn push_flag_item(s: &mut String, present: bool, name: &str)
    ensures
        final(s)@ == list_item(old(s)@, present, name@),
{
    if present {
        if !s.as_str().is_empty() {
            push_str(s, ", ");
        }
        push_str(s, name);
    }
}

impl Csw {
    // Size values
    pub const SIZE_8BIT: u32 = 0b000;

    pub const SIZE_16BIT: u32 = 0b001;

    pub const SIZE_32BIT: u32 = 0b010;

    pub const SIZE_64BIT: u32 = 0b011;

    pub const SIZE_128BIT: u32 = 0b100;

    pub const SIZE_256BIT: u32 = 0b101;

    // Address increment values
    pub const ADDRINC_OFF: u32 = 0b00;

    pub const ADDRINC_SINGLE: u32 = 0b01;

    pub const ADDRINC_PACKED: u32 = 0b10;

    // Prot values
    pub const PROT_MASTER_DEBUG: u32 = 0x20;

    pub const PROT_BIT_1: u32 = 0x2;

    /// Raw register value.
    pub fn value(&self) -> (r: u32)
        ensures
            r == self@,
    {
        self.0
    }

    /// Size field.
    pub fn size(&self) -> (r: u32)
        ensures
            r == self@ & 0x7u32,
    {
        self.0 & 0x7
    }

    /// Address increment field.
    pub fn addrinc(&self) -> (r: u32)
        ensures
            r == (self@ >> 4u32) & 0x3u32,
    {
        (self.0 >> 4) & 0x3
    }

    /// Device enable flag.
    pub fn device_en(&self) -> (r: bool)
        ensures
            r == (self@ & 0x40u32 != 0),
    {
        self.0 & 0x40 != 0
    }

    /// Transfer in progress flag.
    pub fn tr_in_prog(&self) -> (r: bool)
        ensures
            r == (self@ & 0x80u32 != 0),
    {
        self.0 & 0x80 != 0
    }

    /// Mode field.
    pub fn mode(&self) -> (r: u32)
        ensures
            r == (self@ >> 8u32) & 0xfu32,
    {
        (self.0 >> 8) & 0xf
    }

    /// Type field.
    pub fn type_bits(&self) -> (r: u32)
        ensures
            r == (self@ >> 12u32) & 0x7u32,
    {
        (self.0 >> 12) & 0x7
    }

    /// MTE flag.
    pub fn mte(&self) -> (r: bool)
        ensures
            r == (self@ & 0x8000u32 != 0),
    {
        self.0 & 0x8000 != 0
    }

    /// SPIDEN flag.
    pub fn spiden(&self) -> (r: bool)
        ensures
            r == (self@ & 0x800000u32 != 0),
    {
        self.0 & 0x800000 != 0
    }

    /// Protection field.
    pub fn prot(&self) -> (r: u32)
        ensures
            r == (self@ >> 24u32) & 0x7fu32,
    {
        (self.0 >> 24) & 0x7f
    }

    /// Debug software enable flag.
    pub fn dbg_sw_enable(&self) -> (r: bool)
        ensures
            r == (self@ & 0x80000000u32 != 0),
    {
        self.0 & 0x80000000 != 0
    }

    /// Sets the reserved high bit (bit 24).
    pub fn set_reserved_high(&mut self)
        ensures
            final(self)@ == old(self)@ | 0x1000000u32,
    {
        self.0 = self.0 | 0x1000000;
    }

    /// Sets the size field (its low three bits).
    pub fn set_size(&mut self, size: u32)
        ensures
            final(self)@ == with_field(old(self)@, size, 0x7u32, 0u32),
            (final(self)@ >> 0u32) & 0x7u32 == size & 0x7u32,
            final(self)@ & !(0x7u32 << 0u32) == old(self)@ & !(0x7u32 << 0u32),
    {
        proof {
            lemma_shift_zero(0x7u32);
            lemma_field_update(self@, size, 0x7u32, 0u32);
        }
        self.0 = (self.0 & !(0x7u32 << 0u32)) | ((size & 0x7) << 0u32);
    }

    /// Sets the address increment field (its low two bits).
    pub fn set_addrinc(&mut self, addrinc: u32)
        ensures
            final(self)@ == with_field(old(self)@, addrinc, 0x3u32, 4u32),
            (final(self)@ >> 4u32) & 0x3u32 == addrinc & 0x3u32,
            final(self)@ & !(0x3u32 << 4u32) == old(self)@ & !(0x3u32 << 4u32),
    {
        proof {
            assert((0x3u32 << 4u32) >> 4u32 == 0x3u32) by (bit_vector);
            lemma_field_update(self@, addrinc, 0x3u32, 4u32);
        }
        self.0 = (self.0 & !(0x3u32 << 4u32)) | ((addrinc & 0x3) << 4u32);
    }

    /// Sets or clears the device enable flag.
    pub fn set_device_en(&mut self, enable: bool)
        ensures
            final(self)@ == with_flag(old(self)@, 0x40u32, enable),
            (final(self)@ & 0x40u32 != 0) == enable,
            final(self)@ & !0x40u32 == old(self)@ & !0x40u32,
    {
        proof {
            lemma_flag_update(self@, 0x40u32, enable);
        }
        if enable {
            self.0 = self.0 | 0x40;
        } else {
            self.0 = self.0 & !0x40u32;
        }
    }

    /// Sets the mode field (its low four bits).
    pub fn set_mode(&mut self, mode: u32)
        ensures
            final(self)@ == with_field(old(self)@, mode, 0xfu32, 8u32),
            (final(self)@ >> 8u32) & 0xfu32 == mode & 0xfu32,
            final(self)@ & !(0xfu32 << 8u32) == old(self)@ & !(0xfu32 << 8u32),
    {
        proof {
            assert((0xfu32 << 8u32) >> 8u32 == 0xfu32) by (bit_vector);
            lemma_field_update(self@, mode, 0xfu32, 8u32);
        }
        self.0 = (self.0 & !(0xfu32 << 8u32)) | ((mode & 0xf) << 8u32);
    }

    /// Sets the type field (its low three bits).
    pub fn set_type(&mut self, type_bits: u32)
        ensures
            final(self)@ == with_field(old(self)@, type_bits, 0x7u32, 12u32),
            (final(self)@ >> 12u32) & 0x7u32 == type_bits & 0x7u32,
            final(self)@ & !(0x7u32 << 12u32) == old(self)@ & !(0x7u32 << 12u32),
    {
        proof {
            assert((0x7u32 << 12u32) >> 12u32 == 0x7u32) by (bit_vector);
            lemma_field_update(self@, type_bits, 0x7u32, 12u32);
        }
        self.0 = (self.0 & !(0x7u32 << 12u32)) | ((type_bits & 0x7) << 12u32);
    }

    /// Sets or clears the MTE flag.
    pub fn set_mte(&mut self, enable: bool)
        ensures
            final(self)@ == with_flag(old(self)@, 0x8000u32, enable),
            (final(self)@ & 0x8000u32 != 0) == enable,
            final(self)@ & !0x8000u32 == old(self)@ & !0x8000u32,
    {
        proof {
            lemma_flag_update(self@, 0x8000u32, enable);
        }
        if enable {
            self.0 = self.0 | 0x8000;
        } else {
            self.0 = self.0 & !0x8000u32;
        }
    }

    /// Sets or clears the SPIDEN flag.
    pub fn set_spiden(&mut self, enable: bool)
        ensures
            final(self)@ == with_flag(old(self)@, 0x800000u32, enable),
            (final(self)@ & 0x800000u32 != 0) == enable,
            final(self)@ & !0x800000u32 == old(self)@ & !0x800000u32,
    {
        proof {
            lemma_flag_update(self@, 0x800000u32, enable);
        }
        if enable {
            self.0 = self.0 | 0x800000;
        } else {
            self.0 = self.0 & !0x800000u32;
        }
    }

    /// Sets the protection field (its low seven bits).
    pub fn set_prot(&mut self, prot: u32)
        ensures
            final(self)@ == with_field(old(self)@, prot, 0x7fu32, 24u32),
            (final(self)@ >> 24u32) & 0x7fu32 == prot & 0x7fu32,
            final(self)@ & !(0x7fu32 << 24u32) == old(self)@ & !(0x7fu32 << 24u32),
    {
        proof {
            assert((0x7fu32 << 24u32) >> 24u32 == 0x7fu32) by (bit_vector);
            lemma_field_update(self@, prot, 0x7fu32, 24u32);
        }
        self.0 = (self.0 & !(0x7fu32 << 24u32)) | ((prot & 0x7f) << 24u32);
    }

    /// Sets or clears the debug software enable flag.
    pub fn set_dbg_sw_enable(&mut self, enable: bool)
        ensures
            final(self)@ == with_flag(old(self)@, 0x80000000u32, enable),
            (final(self)@ & 0x80000000u32 != 0) == enable,
            final(self)@ & !0x80000000u32 == old(self)@ & !0x80000000u32,
    {
        proof {
            lemma_flag_update(self@, 0x80000000u32, enable);
        }
        if enable {
            self.0 = self.0 | 0x80000000;
        } else {
            self.0 = self.0 & !0x80000000u32;
        }
    }

    /// Description of the transfer size and address increment.
    pub fn transfer_config(&self) -> (r: String)
        ensures
            r@ == transfer_config_text(self@),
    {
        let size = match self.size() {
            0 => "8-bit",
            1 => "16-bit",
            2 => "32-bit",
            3 => "64-bit",
            4 => "128-bit",
            5 => "256-bit",
            _ => "Reserved",
        };
        let addrinc = match self.addrinc() {
            0 => "Off",
            1 => "Single",
            2 => "Packed",
            _ => "Reserved",
        };
        let mut s = String::new();
        push_str(&mut s, "Size: ");
        push_str(&mut s, size);
        push_str(&mut s, ", AddrInc: ");
        push_str(&mut s, addrinc);
        s
    }

    /// Description of the status flags that are set.
    pub fn status_flags(&self) -> (r: String)
        ensures
            r@ == status_flags_text(self@),
    {
        let mut list = String::new();
        push_flag_item(&mut list, self.device_en(), "DEVICE_EN");
        push_flag_item(&mut list, self.tr_in_prog(), "TR_IN_PROG");
        push_flag_item(&mut list, self.mte(), "MTE");
        push_flag_item(&mut list, self.spiden(), "SPIDEN");
        push_flag_item(&mut list, self.dbg_sw_enable(), "DBG_SW_ENABLE");
        let mut s = String::new();
        if list.as_str().is_empty() {
            push_str(&mut s, "No flags set");
        } else {
            push_str(&mut s, "Flags: ");
            push_str(&mut s, list.as_str());
        }
        s
    }

    /// Description of the protection and security flags.
    pub fn security_state(&self) -> (r: String)
        ensures
            r@ == security_state_text(self@),
    {
        let mut s = String::new();
        push_str(&mut s, "PROT: 0x");
        append_hex_lower(&mut s, self.prot() as u64, 2);
        push_str(&mut s, ", SPIDEN: ");
        push_str(&mut s, if self.spiden() { "Y" } else { "N" });
        push_str(&mut s, ", DBG_SW: ");
        push_str(&mut s, if self.dbg_sw_enable() { "Y" } else { "N" });
        s
    }
}

impl Default for Csw {
    /// The CSW airfrog uses for memory access: reserved high bit, master
    /// debug protection, 32-bit transfers, no address increment, device
    /// enabled.
    fn default() -> (r: Self)
        ensures
            r@ == 0x22000042,
    {
        let mut csw = Csw(0);
        csw.set_reserved_high();
        assert(0x20u32 | 0x2u32 == 0x22u32) by (bit_vector);
        csw.set_prot(Self::PROT_MASTER_DEBUG | Self::PROT_BIT_1);
        csw.set_size(Self::SIZE_32BIT);
        csw.set_addrinc(Self::ADDRINC_OFF);
        csw.set_device_en(true);
        proof {
            let v0 = 0u32 | 0x1000000u32;
            let v1 = with_field(v0, 0x22u32, 0x7Fu32, 24u32);
            let v2 = with_field(v1, 2u32, 0x7u32, 0u32);
            let v3 = with_field(v2, 0u32, 0x3u32, 4u32);
            let v4 = with_flag(v3, 0x40u32, true);
            assert(v4 == 0x22000042u32) by (bit_vector)
                requires
                    v0 == 0u32 | 0x1000000u32,
                    v1 == (v0 & !(0x7Fu32 << 24u32)) | ((0x22u32 & 0x7Fu32) << 24u32),
                    v2 == (v1 & !(0x7u32 << 0u32)) | ((2u32 & 0x7u32) << 0u32),
                    v3 == (v2 & !(0x3u32 << 4u32)) | ((0u32 & 0x3u32) << 4u32),
                    v4 == v3 | 0x40u32,
            ;
        }
        csw
    }
}

/// Transfer Address Register descriptor (read-write).
pub struct TarRegister;

impl RegisterDescriptor for TarRegister {
    fn address() -> (r: u8)
        ensures
            r == 0x04,
    {
        0x04
    }
}

impl ReadableRegister for TarRegister {
    type Value = Tar;

    fn from_raw(data: u32) -> (r: Tar)
        ensures
            r@ == data,
    {
        Tar(data)
    }
}

impl WritableRegister for TarRegister {
    type Value = Tar;

    fn to_raw(value: Tar) -> (r: u32)
        ensures
            r == value@,
    {
        value.0
    }
}

impl ApRegister for TarRegister {}

/// Transfer Address Register data.
#[derive(Debug, Clone, Copy, PartialEq, Eq, Default, Structural)]
pub struct Tar(u32);

impl View for Tar {
    type V = u32;

    closed spec fn view(&self) -> u32 {
        self.0
    }
}

impl From<Tar> for u32 {
    fn from(value: Tar) -> (r: u32)
        ensures
            r == value@,
    {
        value.0
    }
}

impl vstd::std_specs::convert::FromSpecImpl<Tar> for u32 {
    open spec fn obeys_from_spec() -> bool {
        true
    }

    closed spec fn from_spec(v: Tar) -> u32 {
        v.0
    }
}

impl From<u32> for Tar {
    fn from(value: u32) -> (r: Tar)
        ensures
            r@ == value,
    {
        Tar(value)
    }
}

impl vstd::std_specs::convert::FromSpecImpl<u32> for Tar {
    open spec fn obeys_from_spec() -> bool {
        true
    }

    closed spec fn from_spec(v: u32) -> Tar {
        Tar(v)
    }
}

impl Tar {
    /// The raw word as `0x` and eight upper-case hex digits.
    pub fn to_string(&self) -> (r: String)
        ensures
            r@ == hex_word(self@ as nat),
    {
        let mut s = String::new();
        append_hex_word(&mut s, self.0);
        s
    }
}

impl Tar {
    /// Raw register value.
    pub fn value(&self) -> (r: u32)
        ensures
            r == self@,
    {
        self.0
    }

    /// The target address.
    pub fn target_address(&self) -> (r: u32)
        ensures
            r == self@,
    {
        self.0
    }

    /// Sets the target address.
    pub fn set_target_address(&mut self, address: u32)
        ensures
            final(self)@ == address,
    {
        self.0 = address;
    }
}

/// Data Read/Write Register descriptor (read-write).
pub struct DrwRegister;

impl RegisterDescriptor for DrwRegister {
    fn address() -> (r: u8)
        ensures
            r == 0x0c,
    {
        0x0c
    }
}

impl ReadableRegister for DrwRegister {
    type Value = Drw;

    fn from_raw(data: u32) -> (r: Drw)
        ensures
            r@ == data,
    {
        Drw(data)
    }
}

impl WritableRegister for DrwRegister {
    type Value = Drw;

    fn to_raw(value: Drw) -> (r: u32)
        ensures
            r == value@,
    {
        value.0
    }
}

impl ApRegister for DrwRegister {}

/// Data Read/Write Register data.
#[derive(Debug, Clone, Copy, PartialEq, Eq, Default, Structural)]
pub struct Drw(u32);

impl View for Drw {
    type V = u32;

    closed spec fn view(&self) -> u32 {
        self.0
    }
}

impl From<Drw> for u32 {
    fn from(value: Drw) -> (r: u32)
        ensures
            r == value@,
    {
        value.0
    }
}

impl vstd::std_specs::convert::FromSpecImpl<Drw> for u32 {
    open spec fn obeys_from_spec() -> bool {
        true
    }

    closed spec fn from_spec(v: Drw) -> u32 {
        v.0
    }
}

impl From<u32> for Drw {
    fn from(value: u32) -> (r: Drw)
        ensures
            r@ == value,
    {
        Drw(value)
    }
}

impl vstd::std_specs::convert::FromSpecImpl<u32> for Drw {
    open spec fn obeys_from_spec() -> bool {
        true
    }

    closed spec fn from_spec(v: u32) -> Drw {
        Drw(v)
    }
}

impl Drw {
    /// The raw word as `0x` and eight upper-case hex digits.
    pub fn to_string(&self) -> (r: String)
        ensures
            r@ == hex_word(self@ as nat),
    {
        let mut s = String::new();
        append_hex_word(&mut s, self.0);
        s
    }
}

impl Drw {
    /// Raw register value.
    pub fn value(&self) -> (r: u32)
        ensures
            r == self@,
    {
        self.0
    }

    /// The data value.
    pub fn data(&self) -> (r: u32)
        ensures
            r == self@,
    {
        self.0
    }

    /// Sets the data value.
    pub fn set_data(&mut self, data: u32)
        ensures
            final(self)@ == data,
    {
        self.0 = data;
    }
}

/// Banked Data Register 0 descriptor (read-write).
pub struct Bd0Register;

impl RegisterDescriptor for Bd0Register {
    fn address() -> (r: u8)
        ensures
            r == 0x10,
    {
        0x10
    }
}

impl ReadableRegister for Bd0Register {
    type Value = BankedData;

    fn from_raw(data: u32) -> (r: BankedData)
        ensures
            r@ == data,
    {
        BankedData(data)
    }
}

impl WritableRegister for Bd0Register {
    type Value = BankedData;

    fn to_raw(value: BankedData) -> (r: u32)
        ensures
            r == value@,
    {
        value.0
    }
}

impl ApRegister for Bd0Register {}

/// Banked Data Register 1 descriptor (read-write).
pub struct Bd1Register;

impl RegisterDescriptor for Bd1Register {
    fn address() -> (r: u8)
        ensures
            r == 0x14,
    {
        0x14
    }
}

impl ReadableRegister for Bd1Register {
    type Value = BankedData;

    fn from_raw(data: u32) -> (r: BankedData)
        ensures
            r@ == data,
    {
        BankedData(data)
    }
}

impl WritableRegister for Bd1Register {
    type Value = BankedData;

    fn to_raw(value: BankedData) -> (r: u32)
        ensures
            r == value@,
    {
        value.0
    }
}

impl ApRegister for Bd1Register {}

/// Banked Data Register 2 descriptor (read-write).
pub struct Bd2Register;

impl RegisterDescriptor for Bd2Register {
    fn address() -> (r: u8)
        ensures
            r == 0x18,
    {
        0x18
    }
}

impl ReadableRegister for Bd2Register {
    type Value = BankedData;

    fn from_raw(data: u32) -> (r: BankedData)
        ensures
            r@ == data,
    {
        BankedData(data)
    }
}

impl WritableRegister for Bd2Register {
    type Value = BankedData;

    fn to_raw(value: BankedData) -> (r: u32)
        ensures
            r == value@,
    {
        value.0
    }
}

impl ApRegister for Bd2Register {}

/// Banked Data Register 3 descriptor (read-write).
pub struct Bd3Register;

impl RegisterDescriptor for Bd3Register {
    fn address() -> (r: u8)
        ensures
            r == 0x1c,
    {
        0x1c
    }
}

impl ReadableRegister for Bd3Register {
    type Value = BankedData;

    fn from_raw(data: u32) -> (r: BankedData)
        ensures
            r@ == data,
    {
        BankedData(data)
    }
}

impl WritableRegister for Bd3Register {
    type Value = BankedData;

    fn to_raw(value: BankedData) -> (r: u32)
        ensures
            r == value@,
    {
        value.0
    }
}

impl ApRegister for Bd3Register {}

/// MEM-AP Banked Data register data, the value type of [`Bd0Register`],
/// [`Bd1Register`], [`Bd2Register`] and [`Bd3Register`].
#[derive(Debug, Clone, Copy, PartialEq, Eq, Default, Structural)]
pub struct BankedData(u32);

impl View for BankedData {
    type V = u32;

    closed spec fn view(&self) -> u32 {
        self.0
    }
}

impl From<BankedData> for u32 {
    fn from(value: BankedData) -> (r: u32)
        ensures
            r == value@,
    {
        value.0
    }
}

impl vstd::std_specs::convert::FromSpecImpl<BankedData> for u32 {
    open spec fn obeys_from_spec() -> bool {
        true
    }

    closed spec fn from_spec(v: BankedData) -> u32 {
        v.0
    }
}

impl From<u32> for BankedData {
    fn from(value: u32) -> (r: BankedData)
        ensures
            r@ == value,
    {
        BankedData(value)
    }
}

impl vstd::std_specs::convert::FromSpecImpl<u32> for BankedData {
    open spec fn obeys_from_spec() -> bool {
        true
    }

    closed spec fn from_spec(v: u32) -> BankedData {
        BankedData(v)
    }
}

impl BankedData {
    /// The raw word as `0x` and eight upper-case hex digits.
    pub fn to_string(&self) -> (r: String)
        ensures
            r@ == hex_word(self@ as nat),
    {
        let mut s = String::new();
        append_hex_word(&mut s, self.0);
        s
    }
}

impl BankedData {
    /// The data value.
    pub fn data(&self) -> (r: u32)
        ensures
            r == self@,
    {
        self.0
    }

    /// Sets the data value.
    pub fn set_data(&mut self, data: u32)
        ensures
            final(self)@ == data,
    {
        self.0 = data;
    }
}

} // verus!
