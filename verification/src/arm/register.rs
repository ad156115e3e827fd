//! Typed access to ARM debug registers: each register has a descriptor that
//! names its address, and a value type that wraps the raw 32-bit word.

use vstd::prelude::*;

verus! {

/// Base trait for all ARM debug register descriptors.
pub trait RegisterDescriptor {
    /// Address of the register within its port.
    fn address() -> u8;
}

/// Registers that can be read: the raw word read from the target becomes
/// the register's value type.
pub trait ReadableRegister: RegisterDescriptor {
    type Value;

    /// Converts raw 32-bit data to the register value.
    fn from_raw(data: u32) -> Self::Value;
}

/// Registers that can be written: the register value becomes the raw word
/// written to the target.
pub trait WritableRegister: RegisterDescriptor {
    type Value;

    /// Converts the register value to raw 32-bit data.
    fn to_raw(value: Self::Value) -> u32;
}

/// Debug Port registers (accessed via DP operations).
pub trait DpRegister: RegisterDescriptor {}

/// Access Port registers (accessed via AP operations).
pub trait ApRegister: RegisterDescriptor {}

} // verus!
