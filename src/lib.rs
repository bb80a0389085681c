use vstd::prelude::*;

pub mod codes;
pub mod enumeration;
pub mod packet;
pub mod scsi;
pub mod status;

verus! {

/// A standard firmware table, recognised by its signature.
pub trait Table {
    /// The number that the firmware standard assigns to the table.
    const SIGNATURE: u64;
}

} // verus!
