use uefi_scsi::enumeration::DeviceEnumeration;
use uefi_scsi::codes::{DataDirection, DeviceType, HostAdapterStatus, TargetStatus};
use uefi_scsi::packet::{
    ScsiIoScsiRequestPacket, CDB_LENGTH_OFFSET, DATA_DIRECTION_OFFSET, HOST_ADAPTER_STATUS_OFFSET,
    IN_TRANSFER_LENGTH_OFFSET, PACKET_SIZE, SENSE_DATA_LENGTH_OFFSET, TARGET_STATUS_OFFSET,
};
use uefi_scsi::scsi::{ExtScsiPassThru, ExtScsiPassThruMode, ScsiDeviceLocation, ScsiIo};
use uefi_scsi::status::{Error, Status, BAD_BUFFER_SIZE, ERROR_BIT, NOT_FOUND, SUCCESS};

fn sample_packet() -> ScsiIoScsiRequestPacket {
    ScsiIoScsiRequestPacket {
        timeout: 0x0102_0304_0506_0708,
        in_data_buffer: 0x1111_2222_3333_4444,
        out_data_buffer: 0,
        sense_data: 0xAABB_CCDD_EEFF_0011,
        cdb: 0x0000_0000_DEAD_BEEF,
        in_transfer_length: 0x0000_0200,
        out_transfer_length: 0x0A0B_0C0D,
        cdb_length: 10,
        data_direction: DataDirection::Read,
        host_adapter_status: HostAdapterStatus::BusReset,
        target_status: TargetStatus::CheckCondition,
        sense_data_length: 18,
    }
}

#[test]
fn unknown_codes_decode_to_reserved() {
    assert_eq!(DataDirection::from_code(3), DataDirection::Reserved(3));
    assert_eq!(DataDirection::from_code(3).code(), 3);
    assert_eq!(HostAdapterStatus::from_code(0x01), HostAdapterStatus::Reserved(0x01));
    assert_eq!(HostAdapterStatus::from_code(0xff).code(), 0xff);
    assert_eq!(TargetStatus::from_code(0x03), TargetStatus::Reserved(0x03));
    assert_eq!(DeviceType::from_code(0x15), DeviceType::Reserved(0x15));
    assert!(DeviceType::from_code(0x20).is_reserved());
    assert!(!DeviceType::from_code(0x1f).is_reserved());
}

#[test]
fn every_code_round_trips() {
    for c in 0..=255u8 {
        assert_eq!(DataDirection::from_code(c).code(), c);
        assert_eq!(HostAdapterStatus::from_code(c).code(), c);
        assert_eq!(TargetStatus::from_code(c).code(), c);
        assert_eq!(DeviceType::from_code(c).code(), c);
    }
}

#[test]
fn known_codes_decode_to_their_names() {
    assert_eq!(DataDirection::from_code(2), DataDirection::Bidirectional);
    assert_eq!(HostAdapterStatus::from_code(0x7f), HostAdapterStatus::Other);
    assert_eq!(HostAdapterStatus::from_code(0x12), HostAdapterStatus::DataOverrunUnderrun);
    assert_eq!(TargetStatus::from_code(0x28), TargetStatus::QueueFull);
    assert_eq!(DeviceType::from_code(0x05), DeviceType::Cdrom);
    assert_eq!(DeviceType::from_code(0x12), DeviceType::ReservedLow);
    assert_eq!(DeviceType::from_code(0x1e), DeviceType::ReservedHigh);
    assert_eq!(DeviceType::from_code(0x1f), DeviceType::Unknown);
}

#[test]
fn defaults_are_zero_codes() {
    assert_eq!(DataDirection::default().code(), 0);
    assert_eq!(HostAdapterStatus::default(), HostAdapterStatus::AdapterOk);
    assert_eq!(TargetStatus::default(), TargetStatus::Good);
    assert_eq!(DeviceType::default(), DeviceType::Disk);
    let loc = ScsiDeviceLocation::default();
    assert_eq!(loc.target, 0);
    assert_eq!(loc.lun, 0);
}

#[test]
fn status_classes() {
    assert!(Status(SUCCESS).is_success());
    assert!(Status(1).is_warning());
    assert!(!Status(1).is_error());
    assert!(Status(ERROR_BIT | 1).is_error());
    assert!(!Status(NOT_FOUND).is_warning());
}

#[test]
fn success_hands_out_written_slot() {
    let io = ScsiIo::new(4);
    assert_eq!(io.get_device_type(Status(SUCCESS), DeviceType::Tape), Ok(DeviceType::Tape));
    let loc = ScsiDeviceLocation { target: 0x1000, lun: 3 };
    assert_eq!(io.get_device_location(Status(SUCCESS), loc), Ok(loc));
}

#[test]
fn failure_hides_written_slot() {
    let io = ScsiIo::new(4);
    let err = io.get_device_type(Status(ERROR_BIT | 7), DeviceType::Tape).unwrap_err();
    assert_eq!(err.status(), Status(ERROR_BIT | 7));
    let loc = ScsiDeviceLocation { target: 0x1000, lun: 3 };
    let warned = io.get_device_location(Status(2), loc);
    assert_eq!(warned, Err(Error { status: Status(2) }));
}

#[test]
fn repeated_queries_agree() {
    let io = ScsiIo::new(512);
    assert_eq!(io.io_align(), Ok(512));
    assert_eq!(io.io_align(), io.io_align());
    let mode = ExtScsiPassThruMode { adapter_id: 7, attributes: 3, io_align: 16 };
    let channel = ExtScsiPassThru::new(mode);
    assert_eq!(channel.mode(), Ok(mode));
    assert_eq!(channel.mode(), channel.mode());
    let loc = ScsiDeviceLocation { target: 0x2000, lun: 1 };
    assert_eq!(
        io.get_device_location(Status(SUCCESS), loc),
        io.get_device_location(Status(SUCCESS), loc)
    );
}

#[test]
fn short_buffer_is_reported() {
    let mut io = ScsiIo::new(1);
    let mut packet = sample_packet();
    // the firmware cannot service 512 bytes and writes back what it can
    packet.in_transfer_length = 256;
    let err = io.execute_scsi_command(Status(BAD_BUFFER_SIZE)).unwrap_err();
    assert!(err.is_short_buffer());
    assert!(!err.is_exhausted());
    let bytes = packet.to_bytes();
    assert_eq!(&bytes[IN_TRANSFER_LENGTH_OFFSET..IN_TRANSFER_LENGTH_OFFSET + 4], &[0, 1, 0, 0]);
    let mut channel = ExtScsiPassThru::new(ExtScsiPassThruMode::default());
    assert!(channel.pass_thru(Status(BAD_BUFFER_SIZE)).unwrap_err().is_short_buffer());
}

#[test]
fn resets_report_their_status() {
    let mut io = ScsiIo::new(1);
    assert_eq!(io.reset_bus(Status(SUCCESS)), Ok(()));
    assert!(io.reset_device(Status(ERROR_BIT | 6)).is_err());
    let mut channel = ExtScsiPassThru::new(ExtScsiPassThruMode::default());
    assert_eq!(channel.reset_channel(Status(SUCCESS)), Ok(()));
    assert_eq!(channel.reset_channel(Status(SUCCESS)), Ok(()));
    assert!(channel.reset_target_lun(Status(ERROR_BIT | 3)).is_err());
}

#[test]
fn enumeration_ends_with_not_found() {
    let mut channel = ExtScsiPassThru::new(ExtScsiPassThruMode::default());
    let first = ScsiDeviceLocation { target: 0x3000, lun: 0 };
    assert_eq!(channel.get_next_target(Status(SUCCESS), first), Ok(first));
    let end = channel.get_next_target_lun(Status(NOT_FOUND), first).unwrap_err();
    assert!(end.is_exhausted());
    assert!(!end.is_short_buffer());
}

#[test]
fn device_paths_map_both_ways() {
    let mut channel = ExtScsiPassThru::new(ExtScsiPassThruMode::default());
    assert_eq!(channel.build_device_path(Status(SUCCESS), 0x4000), Ok(0x4000));
    assert!(channel.build_device_path(Status(NOT_FOUND), 0x4000).is_err());
    let loc = ScsiDeviceLocation { target: 0x5000, lun: 2 };
    assert_eq!(channel.get_target_lun(Status(SUCCESS), loc), Ok(loc));
    assert!(channel.get_target_lun(Status(ERROR_BIT | 2), loc).is_err());
}

#[test]
fn packet_fields_stand_at_their_offsets() {
    let bytes = sample_packet().to_bytes();
    assert_eq!(bytes.len(), PACKET_SIZE);
    assert_eq!(&bytes[0..8], &[8, 7, 6, 5, 4, 3, 2, 1]);
    assert_eq!(&bytes[8..16], &[0x44, 0x44, 0x33, 0x33, 0x22, 0x22, 0x11, 0x11]);
    assert_eq!(&bytes[16..24], &[0; 8]);
    assert_eq!(&bytes[24..32], &[0x11, 0x00, 0xFF, 0xEE, 0xDD, 0xCC, 0xBB, 0xAA]);
    assert_eq!(&bytes[32..40], &[0xEF, 0xBE, 0xAD, 0xDE, 0, 0, 0, 0]);
    assert_eq!(&bytes[40..44], &[0x00, 0x02, 0x00, 0x00]);
    assert_eq!(&bytes[44..48], &[0x0D, 0x0C, 0x0B, 0x0A]);
    assert_eq!(bytes[CDB_LENGTH_OFFSET], 10);
    assert_eq!(bytes[DATA_DIRECTION_OFFSET], 0);
    assert_eq!(bytes[HOST_ADAPTER_STATUS_OFFSET], 0x0e);
    assert_eq!(bytes[TARGET_STATUS_OFFSET], 0x02);
    assert_eq!(bytes[SENSE_DATA_LENGTH_OFFSET], 18);
    assert_eq!(&bytes[53..56], &[0, 0, 0]);
}

#[test]
fn interface_identifiers() {
    assert_eq!(ScsiIo::GUID, 0x932f47e6_2362_4002_803e_3cd54b138f85);
    assert_eq!(ExtScsiPassThru::GUID, 0x143b7632_b81b_4cb7_abd3_b625a5b9bffe);
}

#[test]
fn walk_finds_each_device_then_ends_once() {
    let devices = [
        ScsiDeviceLocation { target: 0x100, lun: 0 },
        ScsiDeviceLocation { target: 0x100, lun: 1 },
        ScsiDeviceLocation { target: 0x200, lun: 0 },
    ];
    let mut walk = DeviceEnumeration::start();
    assert_eq!(walk.cursor, None);
    let mut found = Vec::new();
    let mut calls = 0;
    loop {
        // a channel whose devices do not change answers from its fixed list
        let next = match walk.cursor {
            None => Some(devices[0]),
            Some(c) => devices.iter().position(|d| *d == c).and_then(|k| devices.get(k + 1).copied()),
        };
        calls += 1;
        let r = match next {
            Some(d) => walk.advance(Status(SUCCESS), d),
            None => walk.advance(Status(NOT_FOUND), ScsiDeviceLocation::default()),
        };
        match r.unwrap() {
            Some(d) => found.push(d),
            None => break,
        }
    }
    assert_eq!(found, devices.to_vec());
    assert_eq!(calls, devices.len() + 1);
    assert!(walk.exhausted);
    let last = ScsiDeviceLocation { target: 0x900, lun: 9 };
    assert_eq!(walk.advance(Status(SUCCESS), last), Ok(None));
    assert_eq!(walk.cursor, Some(devices[2]));
}

#[test]
fn walk_keeps_place_on_error() {
    let mut walk = DeviceEnumeration::start();
    let d = ScsiDeviceLocation { target: 0x100, lun: 4 };
    assert_eq!(walk.advance(Status(SUCCESS), d), Ok(Some(d)));
    let err = walk.advance(Status(ERROR_BIT | 7), ScsiDeviceLocation::default()).unwrap_err();
    assert_eq!(err.status(), Status(ERROR_BIT | 7));
    assert_eq!(walk.cursor, Some(d));
    assert!(!walk.exhausted);
}

#[test]
fn walk_of_empty_channel_ends_at_once() {
    let mut walk = DeviceEnumeration::start();
    assert_eq!(walk.advance(Status(NOT_FOUND), ScsiDeviceLocation::default()), Ok(None));
    assert!(walk.exhausted);
    assert_eq!(walk.cursor, None);
}
