//! The target's microcontroller unit, as identified over SWD, and the
//! memory layout facts airfrog uses from it.

use crate::arm::ap::Idr;
use crate::arm::dp::IdCode;
use vstd::prelude::*;

verus! {

/// Maximum number of flash sectors for STM32 devices.
pub const MAX_SECTORS: u8 = 12;

/// What airfrog knows of an identified STM32 device.
#[derive(Debug, Clone, Copy, PartialEq, Eq)]
pub struct StmDetails {
    /// Base address of flash, where known.
    pub flash_base: Option<u32>,
    /// Base address of RAM, where known.
    pub ram_base: Option<u32>,
    /// Flash size in KB, as the device's flash size register reports it.
    pub flash_size_kb: Option<u16>,
    /// RAM size in KB of the device's line, where known.
    pub ram_size_kb: Option<u32>,
    /// Whether the device is an STM32F4.
    pub is_stm32f4: bool,
    /// Number of flash sectors (at most [`MAX_SECTORS`]).
    pub sector_count: u8,
    /// Size in bytes of each flash sector, in sector order.
    pub sector_size_bytes: [u32; 12],
    /// The AP IDR value expected on this device, where known.
    pub expected_idr: Option<Idr>,
}

/// What airfrog knows of an identified RP (Raspberry Pi) device.
#[derive(Debug, Clone, Copy, PartialEq, Eq)]
pub struct RpDetails {
    /// Base address of flash, where known.
    pub flash_base: Option<u32>,
    /// Base address of RAM, where known.
    pub ram_base: Option<u32>,
    /// RAM size in KB of the device's line, where known.
    pub ram_size_kb: Option<u32>,
    /// The AP IDR value expected on this device, where known.
    pub expected_idr: Option<Idr>,
}

/// Represents a target's microcontroller unit.
#[derive(Debug, Clone, Copy)]
pub enum Mcu {
    /// An STM32 MCU.
    Stm32(StmDetails),
    /// An RP (Raspberry Pi) MCU.
    Rp(RpDetails),
    /// An unknown MCU, identified by its IDCODE.
    Unknown(IdCode),
}

/// KB to bytes, as an `Option`.
pub open spec fn kb_to_bytes(kb: Option<u32>) -> Option<u32> {
    match kb {
        Some(k) => Some((k * 1024) as u32),
        None => None,
    }
}

/// The word offset from the start of flash at which sector `i` begins:
/// the words of the sectors before it.
pub open spec fn sector_offset(sizes: Seq<u32>, i: nat) -> nat
    decreases i,
{
    if i == 0 {
        0
    } else {
        sector_offset(sizes, (i - 1) as nat) + sizes[i - 1] as nat / 4
    }
}

/// The sectors among the first `n` that hold any word of `start..=end`
/// (word offsets from the start of flash), in increasing order.
pub open spec fn sectors_in_range(sizes: Seq<u32>, n: nat, start: nat, end: nat) -> Seq<u8>
    decreases n,
{
    if n == 0 {
        Seq::empty()
    } else {
        let prev = sectors_in_range(sizes, (n - 1) as nat, start, end);
        let lo = sector_offset(sizes, (n - 1) as nat);
        let hi = lo + sizes[n - 1] as nat / 4;
        if lo <= end && start < hi {
            prev.push((n - 1) as u8)
        } else {
            prev
        }
    }
}

/// The number of sectors a device's details describe, at most
/// [`MAX_SECTORS`].
pub open spec fn sector_total(d: StmDetails) -> nat {
    if d.sector_count < MAX_SECTORS {
        d.sector_count as nat
    } else {
        MAX_SECTORS as nat
    }
}

impl Mcu {
    /// The flash size in KB the MCU reports, where known.
    pub open spec fn spec_flash_size_kb(&self) -> Option<u32> {
        match self {
            Mcu::Stm32(d) => match d.flash_size_kb {
                Some(k) => Some(k as u32),
                None => None,
            },
            _ => None,
        }
    }

    /// The RAM size in KB of the MCU, where known.
    pub open spec fn spec_ram_size_kb(&self) -> Option<u32> {
        match self {
            Mcu::Stm32(d) => d.ram_size_kb,
            Mcu::Rp(d) => d.ram_size_kb,
            Mcu::Unknown(_) => None,
        }
    }

    /// The size in bytes of flash sector `sector`, where known.
    pub open spec fn spec_sector_size_bytes(&self, sector: u8) -> Option<u32> {
        match self {
            Mcu::Stm32(d) => if sector < d.sector_count && sector < MAX_SECTORS {
                Some(d.sector_size_bytes[sector as int])
            } else {
                None
            },
            _ => None,
        }
    }

    /// Returns the MCU's flash base address if available.
    pub fn flash_base(&self) -> (r: Option<u32>)
        ensures
            r == match self {
                Mcu::Stm32(d) => d.flash_base,
                Mcu::Rp(d) => d.flash_base,
                Mcu::Unknown(_) => None,
            },
    {
        match self {
            Mcu::Stm32(details) => details.flash_base,
            Mcu::Rp(details) => details.flash_base,
            Mcu::Unknown(_) => None,
        }
    }

    /// Returns the MCU's RAM base address if available.
    pub fn ram_base(&self) -> (r: Option<u32>)
        ensures
            r == match self {
                Mcu::Stm32(d) => d.ram_base,
                Mcu::Rp(d) => d.ram_base,
                Mcu::Unknown(_) => None,
            },
    {
        match self {
            Mcu::Stm32(details) => details.ram_base,
            Mcu::Rp(details) => details.ram_base,
            Mcu::Unknown(_) => None,
        }
    }

    /// Returns the MCU's flash size in bytes if available.
    pub fn flash_size_bytes(&self) -> (r: Option<u32>)
        ensures
            r == kb_to_bytes(self.spec_flash_size_kb()),
    {
        match self.flash_size_kb() {
            Some(size) => Some(size * 1024),
            None => None,
        }
    }

    /// Returns the MCU's flash size in KB if available.
    pub fn flash_size_kb(&self) -> (r: Option<u32>)
        ensures
            r == self.spec_flash_size_kb(),
            r matches Some(k) ==> k <= 0xFFFF,
    {
        match self {
            Mcu::Stm32(details) => match details.flash_size_kb {
                Some(size) => Some(size as u32),
                None => None,
            },
            Mcu::Rp(_) => None,
            Mcu::Unknown(_) => None,
        }
    }

    /// Returns the MCU's RAM size in bytes if available.
    pub fn ram_size_bytes(&self) -> (r: Option<u32>)
        requires
            self.spec_ram_size_kb() matches Some(k) ==> k * 1024 <= u32::MAX,
        ensures
            r == kb_to_bytes(self.spec_ram_size_kb()),
    {
        match self.ram_size_kb() {
            Some(size) => Some(size * 1024),
            None => None,
        }
    }

    /// Returns the MCU's RAM size in KB if available.
    pub fn ram_size_kb(&self) -> (r: Option<u32>)
        ensures
            r == self.spec_ram_size_kb(),
    {
        match self {
            Mcu::Stm32(details) => details.ram_size_kb,
            Mcu::Rp(details) => details.ram_size_kb,
            Mcu::Unknown(_) => None,
        }
    }

    /// Returns whether this is an STM32 MCU.
    pub fn is_stm32(&self) -> (r: bool)
        ensures
            r == (self is Stm32),
    {
        match self {
            Mcu::Stm32(_) => true,
            _ => false,
        }
    }

    /// Returns whether this is an STM32F4 MCU.
    pub fn is_stm32f4(&self) -> (r: bool)
        ensures
            r == (self matches Mcu::Stm32(d) && d.is_stm32f4),
    {
        match self {
            Mcu::Stm32(stm) => stm.is_stm32f4,
            Mcu::Rp(_) => false,
            Mcu::Unknown(_) => false,
        }
    }

    /// Returns whether this is an RP MCU.
    pub fn is_rp(&self) -> (r: bool)
        ensures
            r == (self is Rp),
    {
        match self {
            Mcu::Rp(_) => true,
            _ => false,
        }
    }

    /// Returns the size of the specified flash sector in bytes.
    pub fn get_sector_size_bytes(&self, sector: u8) -> (r: Option<u32>)
        ensures
            r == self.spec_sector_size_bytes(sector),
    {
        match self {
            Mcu::Stm32(details) => {
                if sector < details.sector_count && sector < MAX_SECTORS {
                    Some(details.sector_size_bytes[sector as usize])
                } else {
                    None
                }
            },
            Mcu::Rp(_) => None,
            Mcu::Unknown(_) => None,
        }
    }

    /// Returns the size of the specified flash sector in words.
    pub fn get_sector_size_words(&self, sector: u8) -> (r: Option<u32>)
        ensures
            r == match self.spec_sector_size_bytes(sector) {
                Some(b) => Some(b / 4),
                None => None,
            },
    {
        match self.get_sector_size_bytes(sector) {
            Some(size) => Some(size / 4),
            None => None,
        }
    }

    /// Returns the size of the specified flash sector in KB.
    pub fn get_sector_size_kb(&self, sector: u8) -> (r: Option<u32>)
        ensures
            r == match self.spec_sector_size_bytes(sector) {
                Some(b) => Some(b / 1024),
                None => None,
            },
    {
        match self.get_sector_size_bytes(sector) {
            Some(size) => Some(size / 1024),
            None => None,
        }
    }

    /// Lists the flash sectors that hold any word of `start..=end` (word
    /// offsets from the start of flash) at the front of `sectors`, in
    /// increasing order, and returns how many there are. `None`, with
    /// `sectors` untouched, where the MCU is not an STM32 (whose sectors are
    /// known), where `start` is after `end`, or where `end` lies beyond the
    /// last sector.
    pub fn get_sectors_from_word_range(&self, start: u32, end: u32, sectors: &mut [u8; 12]) -> (r:
        Option<usize>)
        ensures
            match self {
                Mcu::Stm32(d) => {
                    let sizes = d.sector_size_bytes@;
                    let n = sector_total(*d);
                    if start <= end && (end as nat) < sector_offset(sizes, n) {
                        let found = sectors_in_range(sizes, n, start as nat, end as nat);
                        &&& r == Some(found.len() as usize)
                        &&& final(sectors)@.subrange(0, found.len() as int) == found
                        &&& final(sectors)@.subrange(found.len() as int, 12) == old(
                            sectors,
                        )@.subrange(found.len() as int, 12)
                    } else {
                        r is None && final(sectors)@ == old(sectors)@
                    }
                },
                _ => r is None && final(sectors)@ == old(sectors)@,
            },
    {
        let d = match self {
            Mcu::Stm32(d) => d,
            _ => return None,
        };
        if start > end {
            return None;
        }
        let ghost sizes = d.sector_size_bytes@;
        let n: u8 = if d.sector_count < MAX_SECTORS {
            d.sector_count
        } else {
            MAX_SECTORS
        };
        let mut offset: u64 = 0;
        let mut found: usize = 0;
        let mut i: u8 = 0;
        let ghost original = sectors@;
        let mut list: [u8; 12] = *sectors;
        while i < n
            invariant
                n as nat == sector_total(*d),
                n <= 12,
                i <= n,
                sizes == d.sector_size_bytes@,
                offset as nat == sector_offset(sizes, i as nat),
                offset <= i as nat * 0x4000_0000,
                found as nat == sectors_in_range(sizes, i as nat, start as nat, end as nat).len(),
                found <= i,
                list@.len() == 12,
                original.len() == 12,
                list@.subrange(0, found as int) == sectors_in_range(
                    sizes,
                    i as nat,
                    start as nat,
                    end as nat,
                ),
                list@.subrange(found as int, 12) == original.subrange(found as int, 12),
            decreases n - i,
        {
            let words = (d.sector_size_bytes[i as usize] / 4) as u64;
            let hi = offset + words;
            let ghost prev = list@;
            if offset <= end as u64 && (start as u64) < hi {
                list[found] = i;
                assert(list@ =~= prev.update(found as int, i));
                assert(list@.subrange(0, found + 1) =~= prev.subrange(0, found as int).push(i));
                assert forall|k: int| found + 1 <= k < 12 implies list@[k] == original[k] by {
                    assert(prev.subrange(found as int, 12)[k - found] == original.subrange(
                        found as int,
                        12,
                    )[k - found]);
                }
                assert(list@.subrange(found + 1, 12) =~= original.subrange(found + 1, 12));
                found = found + 1;
            }
            offset = hi;
            i = i + 1;
        }
        if (end as u64) >= offset {
            return None;
        }
        *sectors = list;
        Some(found)
    }

    /// Returns the expected Access Port Identification Register value for
    /// this MCU.
    pub fn expected_idr(&self) -> (r: Option<Idr>)
        ensures
            r == match self {
                Mcu::Stm32(d) => d.expected_idr,
                Mcu::Rp(d) => d.expected_idr,
                Mcu::Unknown(_) => None,
            },
    {
        match self {
            Mcu::Stm32(details) => details.expected_idr,
            Mcu::Rp(details) => details.expected_idr,
            Mcu::Unknown(_) => None,
        }
    }
}

} // verus!
