//! ARM generic Access Port registers.

use crate::arm::register::{ApRegister, ReadableRegister, RegisterDescriptor};
use crate::fmt::{append_hex, hex_upper, push_str};
use vstd::prelude::*;

verus! {

/// Access Port Identification Register descriptor.
pub struct IdrRegister;

impl RegisterDescriptor for IdrRegister {
    fn address() -> (r: u8)
        ensures r == 0xFC,
    {
        0xFC
    }
}

impl ReadableRegister for IdrRegister {
    type Value = Idr;

    fn from_raw(data: u32) -> (r: Idr)
        ensures r@ == data,
    {
        Idr(data)
    }
}

impl ApRegister for IdrRegister {}

/// Access Port Identification Register data.
#[derive(Debug, Clone, Copy, PartialEq, Eq, Default, Structural)]
pub struct Idr(u32);

impl View for Idr {
    type V = u32;

    closed spec fn view(&self) -> u32 {
        self.0
    }
}

impl From<u32> for Idr {
    fn from(value: u32) -> (r: Idr)
        ensures
            r@ == value,
    {
        Idr(value)
    }
}

impl vstd::std_specs::convert::FromSpecImpl<u32> for Idr {
    open spec fn obeys_from_spec() -> bool {
        true
    }

    closed spec fn from_spec(v: u32) -> Idr {
        Idr(v)
    }
}

impl From<Idr> for u32 {
    fn from(value: Idr) -> (r: u32)
        ensures
            r == value@,
    {
        value.0
    }
}

impl vstd::std_specs::convert::FromSpecImpl<Idr> for u32 {
    open spec fn obeys_from_spec() -> bool {
        true
    }

    closed spec fn from_spec(v: Idr) -> u32 {
        v.0
    }
}

/// Text describing the fields of an AP IDR value, as [`Idr::idr_info`]
/// renders it.
pub open spec fn idr_info_text(v: u32) -> Seq<char> {
    "Designer: 0x"@ + hex_upper(((v >> 17u32) & 0x7FF) as nat, 3) + ", Continuation: 0x"@
        + hex_upper(((v >> 24u32) & 0xF) as nat, 1) + " Identification: 0x"@ + hex_upper(
        ((v >> 17u32) & 0x7F) as nat,
        2,
    ) + " Class: 0x"@ + hex_upper(((v >> 13u32) & 0xF) as nat, 0) + ", Type: 0x"@ + hex_upper(
        (v & 0xF) as nat,
        0,
    ) + ", Variant: 0x"@ + hex_upper(((v >> 4u32) & 0xF) as nat, 0) + ", Rev: 0x"@ + hex_upper(
        ((v >> 28u32) & 0xF) as nat,
        0,
    )
}

impl Idr {
    /// No Access Port present.
    pub const CLASS_NONE: u32 = 0x0;

    /// Memory Access Port.
    pub const CLASS_MEM_AP: u32 = 0x8;

    pub const AP_TYPE_COM_AP: u32 = 0x0;

    pub const AP_TYPE_AMBA_AHB3: u32 = 0x1;

    pub const AP_TYPE_AMBA_APB2_3: u32 = 0x2;

    pub const AP_TYPE_AMBA_AXI3_4: u32 = 0x4;

    pub const AP_TYPE_AMBA_AHB5: u32 = 0x5;

    pub const AP_TYPE_AMBA_APB4_5: u32 = 0x6;

    pub const AP_TYPE_AMBA_AXI5: u32 = 0x7;

    pub const AP_TYPE_AMBA_AHB5_EN_HPROT: u32 = 0x8;

    /// Creates a new IDR from a raw value.
    pub fn new(value: u32) -> (r: Self)
        ensures
            r@ == value,
    {
        Self(value)
    }

    /// Revision field (bits 31:28).
    pub fn revision(&self) -> (r: u32)
        ensures
            r == (self@ >> 28u32) & 0xF,
    {
        (self.0 >> 28) & 0xF
    }

    /// Designer field (bits 27:17).
    pub fn designer(&self) -> (r: u32)
        ensures
            r == (self@ >> 17u32) & 0x7FF,
    {
        (self.0 >> 17) & 0x7FF
    }

    /// Continuation code (bits 27:24).
    pub fn continuation(&self) -> (r: u32)
        ensures
            r == (self@ >> 24u32) & 0xF,
    {
        (self.0 >> 24) & 0xF
    }

    /// Identification field (bits 23:17).
    pub fn identification(&self) -> (r: u32)
        ensures
            r == (self@ >> 17u32) & 0x7F,
    {
        (self.0 >> 17) & 0x7F
    }

    /// Class field (bits 16:13).
    pub fn class(&self) -> (r: u32)
        ensures
            r == (self@ >> 13u32) & 0xF,
    {
        (self.0 >> 13) & 0xF
    }

    /// Variant field (bits 7:4).
    pub fn variant(&self) -> (r: u32)
        ensures
            r == (self@ >> 4u32) & 0xF,
    {
        (self.0 >> 4) & 0xF
    }

    /// AP type field (bits 3:0).
    pub fn ap_type(&self) -> (r: u32)
        ensures
            r == self@ & 0xF,
    {
        self.0 & 0xF
    }

    /// Formatted description of every field.
    pub fn idr_info(&self) -> (r: String)
        ensures
            r@ == idr_info_text(self@),
    {
        let mut s = String::new();
        push_str(&mut s, "Designer: 0x");
        append_hex(&mut s, self.designer() as u64, 3);
        push_str(&mut s, ", Continuation: 0x");
        append_hex(&mut s, self.continuation() as u64, 1);
        push_str(&mut s, " Identification: 0x");
        append_hex(&mut s, self.identification() as u64, 2);
        push_str(&mut s, " Class: 0x");
        append_hex(&mut s, self.class() as u64, 0);
        push_str(&mut s, ", Type: 0x");
        append_hex(&mut s, self.ap_type() as u64, 0);
        push_str(&mut s, ", Variant: 0x");
        append_hex(&mut s, self.variant() as u64, 0);
        push_str(&mut s, ", Rev: 0x");
        append_hex(&mut s, self.revision() as u64, 0);
        s
    }
}

/// ARM Cortex-M0 AHB-AP IDR value.
pub const IDR_AHB_AP_CORTEX_M0_VALUE: u32 = 0x04770031;

/// ARM Cortex-M3 AHB-AP IDR value.
pub const IDR_AHB_AP_CORTEX_M3_VALUE: u32 = 0x24770011;

/// ARM Cortex-M4 AHB-AP IDR value.
pub const IDR_AHB_AP_CORTEX_M4_VALUE: u32 = 0x24770011;

/// ARM Cortex-M33 AHB-AP IDR value.
pub const IDR_AHB_AP_CORTEX_M33_VALUE: u32 = 0x24770011;

/// The AHB-AP IDR values of the Cortex-M cores airfrog knows.
pub fn idr_ahb_ap_known() -> (r: [Idr; 4])
    ensures
        r[0]@ == IDR_AHB_AP_CORTEX_M0_VALUE,
        r[1]@ == IDR_AHB_AP_CORTEX_M3_VALUE,
        r[2]@ == IDR_AHB_AP_CORTEX_M4_VALUE,
        r[3]@ == IDR_AHB_AP_CORTEX_M33_VALUE,
{
    [
        Idr::new(IDR_AHB_AP_CORTEX_M0_VALUE),
        Idr::new(IDR_AHB_AP_CORTEX_M3_VALUE),
        Idr::new(IDR_AHB_AP_CORTEX_M4_VALUE),
        Idr::new(IDR_AHB_AP_CORTEX_M33_VALUE),
    ]
}

} // verus!
