use vstd::prelude::*;

verus! {

/// Direction of a data transfer.
#[derive(Clone, Copy, Debug, PartialEq, Eq, Structural)]
pub enum DataDirection {
    Read,
    Write,
    Bidirectional,
    /// A code outside the table, kept as it came.
    Reserved(u8),
}

/// Status of the host adapter after a request was executed.
#[derive(Clone, Copy, Debug, PartialEq, Eq, Structural)]
pub enum HostAdapterStatus {
    AdapterOk,
    TimeoutCommand,
    Timeout,
    MessageReject,
    BusReset,
    ParityError,
    RequestSenseFailed,
    SelectionTimeout,
    DataOverrunUnderrun,
    BusFree,
    PhaseError,
    Other,
    /// A code outside the table, kept as it came.
    Reserved(u8),
}

/// Status returned by the target device after a request was executed.
#[derive(Clone, Copy, Debug, PartialEq, Eq, Structural)]
pub enum TargetStatus {
    Good,
    CheckCondition,
    ConditionMet,
    Busy,
    Intermediate,
    IntermediateConditionMet,
    ReservationConflict,
    CommandTerminated,
    QueueFull,
    /// A code outside the table, kept as it came.
    Reserved(u8),
}

pub open spec fn data_direction_of(c: u8) -> DataDirection {
    match c {
        0 => DataDirection::Read,
        1 => DataDirection::Write,
        2 => DataDirection::Bidirectional,
        _ => DataDirection::Reserved(c),
    }
}

pub open spec fn host_adapter_status_of(c: u8) -> HostAdapterStatus {
    match c {
        0x00 => HostAdapterStatus::AdapterOk,
        0x09 => HostAdapterStatus::TimeoutCommand,
        0x0b => HostAdapterStatus::Timeout,
        0x0d => HostAdapterStatus::MessageReject,
        0x0e => HostAdapterStatus::BusReset,
        0x0f => HostAdapterStatus::ParityError,
        0x10 => HostAdapterStatus::RequestSenseFailed,
        0x11 => HostAdapterStatus::SelectionTimeout,
        0x12 => HostAdapterStatus::DataOverrunUnderrun,
        0x13 => HostAdapterStatus::BusFree,
        0x14 => HostAdapterStatus::PhaseError,
        0x7f => HostAdapterStatus::Other,
        _ => HostAdapterStatus::Reserved(c),
    }
}

pub open spec fn target_status_of(c: u8) -> TargetStatus {
    match c {
        0x00 => TargetStatus::Good,
        0x02 => TargetStatus::CheckCondition,
        0x04 => TargetStatus::ConditionMet,
        0x08 => TargetStatus::Busy,
        0x10 => TargetStatus::Intermediate,
        0x14 => TargetStatus::IntermediateConditionMet,
        0x18 => TargetStatus::ReservationConflict,
        0x22 => TargetStatus::CommandTerminated,
        0x28 => TargetStatus::QueueFull,
        _ => TargetStatus::Reserved(c),
    }
}

impl DataDirection {
    pub open spec fn spec_code(self) -> u8 {
        match self {
            DataDirection::Read => 0,
            DataDirection::Write => 1,
            DataDirection::Bidirectional => 2,
            DataDirection::Reserved(c) => c,
        }
    }

    /// Decodes a byte; a code outside the table becomes `Reserved` with that code.
    pub fn from_code(c: u8) -> (r: DataDirection)
        ensures
            r == data_direction_of(c),
    {
        match c {
            0 => DataDirection::Read,
            1 => DataDirection::Write,
            2 => DataDirection::Bidirectional,
            _ => DataDirection::Reserved(c),
        }
    }

    /// The byte this value is stored as.
    pub fn code(&self) -> (r: u8)
        ensures
            r == self.spec_code(),
    {
        match *self {
            DataDirection::Read => 0,
            DataDirection::Write => 1,
            DataDirection::Bidirectional => 2,
            DataDirection::Reserved(c) => c,
        }
    }

    /// Whether the value holds a code outside the table.
    pub fn is_reserved(&self) -> (r: bool)
        ensures
            r == (self is Reserved),
    {
        match *self {
            DataDirection::Reserved(_) => true,
            _ => false,
        }
    }
}

impl Default for DataDirection {
    fn default() -> (r: DataDirection)
        ensures
            r == DataDirection::Read,
    {
        DataDirection::Read
    }
}

impl HostAdapterStatus {
    pub open spec fn spec_code(self) -> u8 {
        match self {
            HostAdapterStatus::AdapterOk => 0x00,
            HostAdapterStatus::TimeoutCommand => 0x09,
            HostAdapterStatus::Timeout => 0x0b,
            HostAdapterStatus::MessageReject => 0x0d,
            HostAdapterStatus::BusReset => 0x0e,
            HostAdapterStatus::ParityError => 0x0f,
            HostAdapterStatus::RequestSenseFailed => 0x10,
            HostAdapterStatus::SelectionTimeout => 0x11,
            HostAdapterStatus::DataOverrunUnderrun => 0x12,
            HostAdapterStatus::BusFree => 0x13,
            HostAdapterStatus::PhaseError => 0x14,
            HostAdapterStatus::Other => 0x7f,
            HostAdapterStatus::Reserved(c) => c,
        }
    }

    /// Decodes a byte; a code outside the table becomes `Reserved` with that code.
    pub fn from_code(c: u8) -> (r: HostAdapterStatus)
        ensures
            r == host_adapter_status_of(c),
    {
        match c {
            0x00 => HostAdapterStatus::AdapterOk,
            0x09 => HostAdapterStatus::TimeoutCommand,
            0x0b => HostAdapterStatus::Timeout,
            0x0d => HostAdapterStatus::MessageReject,
            0x0e => HostAdapterStatus::BusReset,
            0x0f => HostAdapterStatus::ParityError,
            0x10 => HostAdapterStatus::RequestSenseFailed,
            0x11 => HostAdapterStatus::SelectionTimeout,
            0x12 => HostAdapterStatus::DataOverrunUnderrun,
            0x13 => HostAdapterStatus::BusFree,
            0x14 => HostAdapterStatus::PhaseError,
            0x7f => HostAdapterStatus::Other,
            _ => HostAdapterStatus::Reserved(c),
        }
    }

    /// The byte this value is stored as.
    pub fn code(&self) -> (r: u8)
        ensures
            r == self.spec_code(),
    {
        match *self {
            HostAdapterStatus::AdapterOk => 0x00,
            HostAdapterStatus::TimeoutCommand => 0x09,
            HostAdapterStatus::Timeout => 0x0b,
            HostAdapterStatus::MessageReject => 0x0d,
            HostAdapterStatus::BusReset => 0x0e,
            HostAdapterStatus::ParityError => 0x0f,
            HostAdapterStatus::RequestSenseFailed => 0x10,
            HostAdapterStatus::SelectionTimeout => 0x11,
            HostAdapterStatus::DataOverrunUnderrun => 0x12,
            HostAdapterStatus::BusFree => 0x13,
            HostAdapterStatus::PhaseError => 0x14,
            HostAdapterStatus::Other => 0x7f,
            HostAdapterStatus::Reserved(c) => c,
        }
    }

    /// Whether the value holds a code outside the table.
    pub fn is_reserved(&self) -> (r: bool)
        ensures
            r == (self is Reserved),
    {
        match *self {
            HostAdapterStatus::Reserved(_) => true,
            _ => false,
        }
    }
}

impl Default for HostAdapterStatus {
    fn default() -> (r: HostAdapterStatus)
        ensures
            r == HostAdapterStatus::AdapterOk,
    {
        HostAdapterStatus::AdapterOk
    }
}

impl TargetStatus {
    pub open spec fn spec_code(self) -> u8 {
        match self {
            TargetStatus::Good => 0x00,
            TargetStatus::CheckCondition => 0x02,
            TargetStatus::ConditionMet => 0x04,
            TargetStatus::Busy => 0x08,
            TargetStatus::Intermediate => 0x10,
            TargetStatus::IntermediateConditionMet => 0x14,
            TargetStatus::ReservationConflict => 0x18,
            TargetStatus::CommandTerminated => 0x22,
            TargetStatus::QueueFull => 0x28,
            TargetStatus::Reserved(c) => c,
        }
    }

    /// Decodes a byte; a code outside the table becomes `Reserved` with that code.
    pub fn from_code(c: u8) -> (r: TargetStatus)
        ensures
            r == target_status_of(c),
    {
        match c {
            0x00 => TargetStatus::Good,
            0x02 => TargetStatus::CheckCondition,
            0x04 => TargetStatus::ConditionMet,
            0x08 => TargetStatus::Busy,
            0x10 => TargetStatus::Intermediate,
            0x14 => TargetStatus::IntermediateConditionMet,
            0x18 => TargetStatus::ReservationConflict,
            0x22 => TargetStatus::CommandTerminated,
            0x28 => TargetStatus::QueueFull,
            _ => TargetStatus::Reserved(c),
        }
    }

    /// The byte this value is stored as.
    pub fn code(&self) -> (r: u8)
        ensures
            r == self.spec_code(),
    {
        match *self {
            TargetStatus::Good => 0x00,
            TargetStatus::CheckCondition => 0x02,
            TargetStatus::ConditionMet => 0x04,
            TargetStatus::Busy => 0x08,
            TargetStatus::Intermediate => 0x10,
            TargetStatus::IntermediateConditionMet => 0x14,
            TargetStatus::ReservationConflict => 0x18,
            TargetStatus::CommandTerminated => 0x22,
            TargetStatus::QueueFull => 0x28,
            TargetStatus::Reserved(c) => c,
        }
    }

    /// Whether the value holds a code outside the table.
    pub fn is_reserved(&self) -> (r: bool)
        ensures
            r == (self is Reserved),
    {
        match *self {
            TargetStatus::Reserved(_) => true,
            _ => false,
        }
    }
}

impl Default for TargetStatus {
    fn default() -> (r: TargetStatus)
        ensures
            r == TargetStatus::Good,
    {
        TargetStatus::Good
    }
}

/// Decoding any byte never fails and gives back that byte when stored again; a
/// byte outside a table decodes to `Reserved`, and a byte inside it never does,
/// so no unknown code is taken for a known one.
pub proof fn lemma_codes_round_trip(c: u8)
    ensures
        data_direction_of(c).spec_code() == c,
        host_adapter_status_of(c).spec_code() == c,
        target_status_of(c).spec_code() == c,
        (data_direction_of(c) is Reserved) == (c > 2),
        (host_adapter_status_of(c) is Reserved) == !(c == 0x00 || c == 0x09 || c == 0x0b
            || c == 0x0d || (0x0e <= c <= 0x14) || c == 0x7f),
        (target_status_of(c) is Reserved) == !(c == 0x00 || c == 0x02 || c == 0x04 || c
            == 0x08 || c == 0x10 || c == 0x14 || c == 0x18 || c == 0x22 || c == 0x28),
{
}

} // verus!

verus! {

/// Peripheral device class, as the SCSI primary commands define it.
#[derive(Clone, Copy, Debug, PartialEq, Eq, Structural)]
pub enum DeviceType {
    Disk,
    Tape,
    Printer,
    Processor,
    Worm,
    Cdrom,
    Scanner,
    Optical,
    MediumChanger,
    Communication,
    MfiA,
    MfiB,
    MfiRaid,
    MfiSes,
    MfiRbc,
    MfiOcrw,
    MfiBridge,
    MfiOsd,
    ReservedLow,
    ReservedHigh,
    Unknown,
    /// A code outside the table, kept as it came.
    Reserved(u8),
}

pub open spec fn device_type_of(c: u8) -> DeviceType {
    match c {
        0x00 => DeviceType::Disk,
        0x01 => DeviceType::Tape,
        0x02 => DeviceType::Printer,
        0x03 => DeviceType::Processor,
        0x04 => DeviceType::Worm,
        0x05 => DeviceType::Cdrom,
        0x06 => DeviceType::Scanner,
        0x07 => DeviceType::Optical,
        0x08 => DeviceType::MediumChanger,
        0x09 => DeviceType::Communication,
        0x0a => DeviceType::MfiA,
        0x0b => DeviceType::MfiB,
        0x0c => DeviceType::MfiRaid,
        0x0d => DeviceType::MfiSes,
        0x0e => DeviceType::MfiRbc,
        0x0f => DeviceType::MfiOcrw,
        0x10 => DeviceType::MfiBridge,
        0x11 => DeviceType::MfiOsd,
        0x12 => DeviceType::ReservedLow,
        0x1e => DeviceType::ReservedHigh,
        0x1f => DeviceType::Unknown,
        _ => DeviceType::Reserved(c),
    }
}

impl DeviceType {
    pub open spec fn spec_code(self) -> u8 {
        match self {
            DeviceType::Disk => 0x00,
            DeviceType::Tape => 0x01,
            DeviceType::Printer => 0x02,
            DeviceType::Processor => 0x03,
            DeviceType::Worm => 0x04,
            DeviceType::Cdrom => 0x05,
            DeviceType::Scanner => 0x06,
            DeviceType::Optical => 0x07,
            DeviceType::MediumChanger => 0x08,
            DeviceType::Communication => 0x09,
            DeviceType::MfiA => 0x0a,
            DeviceType::MfiB => 0x0b,
            DeviceType::MfiRaid => 0x0c,
            DeviceType::MfiSes => 0x0d,
            DeviceType::MfiRbc => 0x0e,
            DeviceType::MfiOcrw => 0x0f,
            DeviceType::MfiBridge => 0x10,
            DeviceType::MfiOsd => 0x11,
            DeviceType::ReservedLow => 0x12,
            DeviceType::ReservedHigh => 0x1e,
            DeviceType::Unknown => 0x1f,
            DeviceType::Reserved(c) => c,
        }
    }

    /// Decodes a byte; a code outside the table becomes `Reserved` with that code.
    pub fn from_code(c: u8) -> (r: DeviceType)
        ensures
            r == device_type_of(c),
    {
        match c {
            0x00 => DeviceType::Disk,
            0x01 => DeviceType::Tape,
            0x02 => DeviceType::Printer,
            0x03 => DeviceType::Processor,
            0x04 => DeviceType::Worm,
            0x05 => DeviceType::Cdrom,
            0x06 => DeviceType::Scanner,
            0x07 => DeviceType::Optical,
            0x08 => DeviceType::MediumChanger,
            0x09 => DeviceType::Communication,
            0x0a => DeviceType::MfiA,
            0x0b => DeviceType::MfiB,
            0x0c => DeviceType::MfiRaid,
            0x0d => DeviceType::MfiSes,
            0x0e => DeviceType::MfiRbc,
            0x0f => DeviceType::MfiOcrw,
            0x10 => DeviceType::MfiBridge,
            0x11 => DeviceType::MfiOsd,
            0x12 => DeviceType::ReservedLow,
            0x1e => DeviceType::ReservedHigh,
            0x1f => DeviceType::Unknown,
            _ => DeviceType::Reserved(c),
        }
    }

    /// The byte this value is stored as.
    pub fn code(&self) -> (r: u8)
        ensures
            r == self.spec_code(),
    {
        match *self {
            DeviceType::Disk => 0x00,
            DeviceType::Tape => 0x01,
            DeviceType::Printer => 0x02,
            DeviceType::Processor => 0x03,
            DeviceType::Worm => 0x04,
            DeviceType::Cdrom => 0x05,
            DeviceType::Scanner => 0x06,
            DeviceType::Optical => 0x07,
            DeviceType::MediumChanger => 0x08,
            DeviceType::Communication => 0x09,
            DeviceType::MfiA => 0x0a,
            DeviceType::MfiB => 0x0b,
            DeviceType::MfiRaid => 0x0c,
            DeviceType::MfiSes => 0x0d,
            DeviceType::MfiRbc => 0x0e,
            DeviceType::MfiOcrw => 0x0f,
            DeviceType::MfiBridge => 0x10,
            DeviceType::MfiOsd => 0x11,
            DeviceType::ReservedLow => 0x12,
            DeviceType::ReservedHigh => 0x1e,
            DeviceType::Unknown => 0x1f,
            DeviceType::Reserved(c) => c,
        }
    }

    /// Whether the value holds a code outside the table.
    pub fn is_reserved(&self) -> (r: bool)
        ensures
            r == (self is Reserved),
    {
        match *self {
            DeviceType::Reserved(_) => true,
            _ => false,
        }
    }
}

impl Default for DeviceType {
    fn default() -> (r: DeviceType)
        ensures
            r == DeviceType::Disk,
    {
        DeviceType::Disk
    }
}

/// A device class code decodes without failing, is stored again as the same
/// byte, and decodes to `Reserved` exactly when it is outside the table.
pub proof fn lemma_device_type_round_trip(c: u8)
    ensures
        device_type_of(c).spec_code() == c,
        (device_type_of(c) is Reserved) == !(c <= 0x12 || c == 0x1e || c == 0x1f),
{
}

} // verus!
