//! Handles for the two SCSI interfaces.
//!
//! The holder of an interface table issues each firmware call itself: it takes
//! the default output slot, lets the call write it, and passes the returned
//! status and the slot to the method named after the operation, which decides
//! what the caller gets. An output slot is handed out only on success.
use vstd::prelude::*;

use crate::codes::DeviceType;
use crate::status::{status_result, Error, Status};

verus! {

/// A device on a channel: the address of its target identifier, which the
/// firmware allocated, and its logical unit number.
#[derive(Clone, Copy, Debug, PartialEq, Eq, Structural)]
pub struct ScsiDeviceLocation {
    /// Address of the target identifier; zero for none.
    pub target: u64,
    /// Logical unit number.
    pub lun: u64,
}

impl Default for ScsiDeviceLocation {
    /// No target and unit zero: the slot that a location query writes.
    fn default() -> (r: ScsiDeviceLocation)
        ensures
            r.target == 0,
            r.lun == 0,
    {
        ScsiDeviceLocation { target: 0, lun: 0 }
    }
}

/// Access to one device: the interface table's data, read once.
#[derive(Clone, Copy, Debug, PartialEq, Eq, Structural)]
pub struct ScsiIo {
    io_align: u32,
}

impl ScsiIo {
    /// Identifier by which the firmware publishes this interface,
    /// 932f47e6-2362-4002-803e-3cd54b138f85.
    pub const GUID: u128 = 0x932f47e6_2362_4002_803e_3cd54b138f85;

    pub closed spec fn spec_io_align(self) -> u32 {
        self.io_align
    }

    /// A handle over a table whose alignment field holds `io_align`.
    pub fn new(io_align: u32) -> (r: ScsiIo)
        ensures
            r.spec_io_align() == io_align,
    {
        ScsiIo { io_align }
    }

    /// Device class: the slot the call wrote, on success.
    pub fn get_device_type(&self, status: Status, written: DeviceType) -> (r: Result<
        DeviceType,
        Error,
    >)
        ensures
            r == status_result(status, written),
    {
        status.to_result_with_val(written)
    }

    /// Location of the device: the slot the call wrote, on success; its target
    /// then belongs to the caller.
    pub fn get_device_location(&self, status: Status, written: ScsiDeviceLocation) -> (r: Result<
        ScsiDeviceLocation,
        Error,
    >)
        ensures
            r == status_result(status, written),
    {
        status.to_result_with_val(written)
    }

    /// Outcome of resetting the bus the device is attached to.
    pub fn reset_bus(&mut self, status: Status) -> (r: Result<(), Error>)
        ensures
            *final(self) == *old(self),
            r == status_result(status, ()),
    {
        status.to_result()
    }

    /// Outcome of resetting the device.
    pub fn reset_device(&mut self, status: Status) -> (r: Result<(), Error>)
        ensures
            *final(self) == *old(self),
            r == status_result(status, ()),
    {
        status.to_result()
    }

    /// Outcome of executing a request packet. The packet's buffers stay the
    /// caller's; on a short-buffer error its lengths hold what the channel can
    /// service.
    pub fn execute_scsi_command(&mut self, status: Status) -> (r: Result<(), Error>)
        ensures
            *final(self) == *old(self),
            r == status_result(status, ()),
    {
        status.to_result()
    }

    /// Alignment the device requires of data buffers; never fails.
    pub fn io_align(&self) -> (r: Result<u32, Error>)
        ensures
            r == Ok::<u32, Error>(self.spec_io_align()),
    {
        Ok(self.io_align)
    }
}

/// Configuration of an extended pass-through channel.
#[derive(Clone, Copy, Debug, PartialEq, Eq, Structural)]
pub struct ExtScsiPassThruMode {
    /// Target identifier of the host adapter.
    pub adapter_id: u32,
    /// Capability bits of the channel.
    pub attributes: u32,
    /// Alignment the channel requires of data buffers.
    pub io_align: u32,
}

impl Default for ExtScsiPassThruMode {
    fn default() -> (r: ExtScsiPassThruMode)
        ensures
            r.adapter_id == 0,
            r.attributes == 0,
            r.io_align == 0,
    {
        ExtScsiPassThruMode { adapter_id: 0, attributes: 0, io_align: 0 }
    }
}

/// Access to a channel with many devices: the interface table's data, read once.
#[derive(Clone, Copy, Debug, PartialEq, Eq, Structural)]
pub struct ExtScsiPassThru {
    mode: ExtScsiPassThruMode,
}

impl ExtScsiPassThru {
    /// Identifier by which the firmware publishes this interface,
    /// 143b7632-b81b-4cb7-abd3-b625a5b9bffe.
    pub const GUID: u128 = 0x143b7632_b81b_4cb7_abd3_b625a5b9bffe;

    pub closed spec fn spec_mode(self) -> ExtScsiPassThruMode {
        self.mode
    }

    /// A handle over a table whose mode field holds `mode`.
    pub fn new(mode: ExtScsiPassThruMode) -> (r: ExtScsiPassThru)
        ensures
            r.spec_mode() == mode,
    {
        ExtScsiPassThru { mode }
    }

    /// The channel's mode; never fails.
    pub fn mode(&self) -> (r: Result<ExtScsiPassThruMode, Error>)
        ensures
            r == Ok::<ExtScsiPassThruMode, Error>(self.spec_mode()),
    {
        Ok(self.mode)
    }

    /// Outcome of sending a request packet to one device of the channel.
    pub fn pass_thru(&mut self, status: Status) -> (r: Result<(), Error>)
        ensures
            *final(self) == *old(self),
            r == status_result(status, ()),
    {
        status.to_result()
    }

    /// Next device after the cursor handed to the call: the slot it wrote, on
    /// success; a not-found error once no device follows.
    pub fn get_next_target_lun(&mut self, status: Status, written: ScsiDeviceLocation) -> (r:
        Result<ScsiDeviceLocation, Error>)
        ensures
            *final(self) == *old(self),
            r == status_result(status, written),
    {
        status.to_result_with_val(written)
    }

    /// Address of the device path node the call built, on success; the node
    /// then belongs to the caller.
    pub fn build_device_path(&mut self, status: Status, written: u64) -> (r: Result<u64, Error>)
        ensures
            *final(self) == *old(self),
            r == status_result(status, written),
    {
        status.to_result_with_val(written)
    }

    /// Location that a device path node names: the slot the call wrote, on
    /// success. The node stays the caller's.
    pub fn get_target_lun(&mut self, status: Status, written: ScsiDeviceLocation) -> (r: Result<
        ScsiDeviceLocation,
        Error,
    >)
        ensures
            *final(self) == *old(self),
            r == status_result(status, written),
    {
        status.to_result_with_val(written)
    }

    /// Outcome of resetting every device of the channel.
    pub fn reset_channel(&mut self, status: Status) -> (r: Result<(), Error>)
        ensures
            *final(self) == *old(self),
            r == status_result(status, ()),
    {
        status.to_result()
    }

    /// Outcome of resetting one logical unit.
    pub fn reset_target_lun(&mut self, status: Status) -> (r: Result<(), Error>)
        ensures
            *final(self) == *old(self),
            r == status_result(status, ()),
    {
        status.to_result()
    }

    /// Next target after the cursor handed to the call: the slot it wrote, on
    /// success; a not-found error once no target follows.
    pub fn get_next_target(&mut self, status: Status, written: ScsiDeviceLocation) -> (r: Result<
        ScsiDeviceLocation,
        Error,
    >)
        ensures
            *final(self) == *old(self),
            r == status_result(status, written),
    {
        status.to_result_with_val(written)
    }
}

} // verus!
