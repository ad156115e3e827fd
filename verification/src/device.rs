//! Facts about the airfrog device itself, and how they are shown.

use crate::fmt::{append_hex, chars_of, hex_upper, push_char};
use vstd::prelude::*;

verus! {

/// Heap size given to the application, in bytes.
pub const HEAP_SIZE: usize = 131072;

/// What airfrog knows of its own hardware.
#[derive(Debug, Clone, PartialEq, Eq, Structural)]
pub struct Device {
    /// Flash size in bytes.
    flash_size: usize,
}

/// A MAC address as six colon-separated pairs of upper-case hex digits.
pub open spec fn mac_text(mac: [u8; 6]) -> Seq<char> {
    hex_upper(mac[0] as nat, 2) + ":"@ + hex_upper(mac[1] as nat, 2) + ":"@ + hex_upper(
        mac[2] as nat,
        2,
    ) + ":"@ + hex_upper(mac[3] as nat, 2) + ":"@ + hex_upper(mac[4] as nat, 2) + ":"@ + hex_upper(
        mac[5] as nat,
        2,
    )
}

/// A character in upper case, where it is an ASCII lower-case letter.
pub open spec fn ascii_upper(c: char) -> char {
    if 'a' <= c && c <= 'z' {
        ((c as u32) - 32) as char
    } else {
        c
    }
}

impl Device {
    /// A device whose flash size is not yet known (zero).
    pub fn new() -> (r: Self)
        ensures
            r.flash_size_spec() == 0,
    {
        Device { flash_size: 0 }
    }

    /// The flash size in bytes.
    pub closed spec fn flash_size_spec(&self) -> usize {
        self.flash_size
    }

    /// Records the flash size.
    pub fn set_flash_size(&mut self, flash_size: usize)
        ensures
            final(self).flash_size_spec() == flash_size,
    {
        self.flash_size = flash_size;
    }

    /// The flash size in bytes.
    pub fn flash_size_bytes(&self) -> (r: usize)
        ensures
            r == self.flash_size_spec(),
    {
        self.flash_size
    }

    /// The chip's name in upper case.
    pub fn chip(name: &str) -> (r: String)
        ensures
            r@ == name@.map_values(|c: char| ascii_upper(c)),
    {
        let cs = chars_of(name);
        let mut s = String::new();
        let mut i: usize = 0;
        while i < cs.len()
            invariant
                cs@ == name@,
                i <= cs@.len(),
                s@ == cs@.take(i as int).map_values(|c: char| ascii_upper(c)),
            decreases cs@.len() - i,
        {
            let c = cs[i];
            let u = if 'a' <= c && c <= 'z' {
                ((c as u8) - 32) as char
            } else {
                c
            };
            push_char(&mut s, u);
            assert(cs@.take(i + 1).map_values(|c: char| ascii_upper(c)) =~= cs@.take(i as int).map_values(
                |c: char| ascii_upper(c),
            ).push(ascii_upper(c)));
            i = i + 1;
        }
        assert(cs@.take(cs@.len() as int) =~= cs@);
        s
    }

    /// The MAC address as text (see [`mac_text`]).
    pub fn mac_address_str(mac: [u8; 6]) -> (r: String)
        ensures
            r@ == mac_text(mac),
    {
        let mut s = String::new();
        append_hex(&mut s, mac[0] as u64, 2);
        let mut i: usize = 1;
        while i < 6
            invariant
                1 <= i <= 6,
                s@ == mac_prefix(mac, i as nat),
            decreases 6 - i,
        {
            push_char(&mut s, ':');
            append_hex(&mut s, mac[i] as u64, 2);
            assert(s@ =~= mac_prefix(mac, i as nat) + ":"@ + hex_upper(mac[i as int] as nat, 2)) by {
                reveal_strlit(":");
            }
            i = i + 1;
        }
        proof {
            lemma_mac_prefix_full(mac);
        }
        s
    }

    /// Microseconds since boot, from the system timer's tick count and
    /// rate.
    pub fn uptime_us(ticks: u64, ticks_per_second: u64) -> (r: u64)
        requires
            ticks_per_second >= 1_000_000,
        ensures
            r == ticks / (ticks_per_second / 1_000_000),
    {
        ticks / (ticks_per_second / 1_000_000)
    }

    /// Whole seconds since boot.
    pub fn uptime_secs(uptime_us: u64) -> (r: u64)
        ensures
            r == uptime_us / 1_000_000,
    {
        uptime_us / 1_000_000
    }

    /// The heap size, in bytes.
    pub fn heap_size() -> (r: usize)
        ensures
            r == HEAP_SIZE,
    {
        HEAP_SIZE
    }
}

/// The first `n` bytes of a MAC address, colon separated.
pub open spec fn mac_prefix(mac: [u8; 6], n: nat) -> Seq<char>
    decreases n,
{
    if n <= 1 {
        hex_upper(mac[0] as nat, 2)
    } else {
        mac_prefix(mac, (n - 1) as nat) + ":"@ + hex_upper(mac[n - 1] as nat, 2)
    }
}

/// The whole MAC address is its six bytes, colon separated.
proof fn lemma_mac_prefix_full(mac: [u8; 6])
    ensures
        mac_prefix(mac, 6) == mac_text(mac),
{
    reveal_with_fuel(mac_prefix, 6);
}

} // verus!
