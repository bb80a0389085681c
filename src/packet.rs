use vstd::prelude::*;

use crate::codes::{DataDirection, HostAdapterStatus, TargetStatus};

verus! {

/// Byte offset of each field of a request packet, as the firmware lays it out on
/// a 64-bit machine (pointers take eight bytes).
pub const TIMEOUT_OFFSET: usize = 0;
pub const IN_DATA_BUFFER_OFFSET: usize = 8;
pub const OUT_DATA_BUFFER_OFFSET: usize = 16;
pub const SENSE_DATA_OFFSET: usize = 24;
pub const CDB_OFFSET: usize = 32;
pub const IN_TRANSFER_LENGTH_OFFSET: usize = 40;
pub const OUT_TRANSFER_LENGTH_OFFSET: usize = 44;
pub const CDB_LENGTH_OFFSET: usize = 48;
pub const DATA_DIRECTION_OFFSET: usize = 49;
pub const HOST_ADAPTER_STATUS_OFFSET: usize = 50;
pub const TARGET_STATUS_OFFSET: usize = 51;
pub const SENSE_DATA_LENGTH_OFFSET: usize = 52;
/// Size of the packet: the last field is followed by three bytes of padding that
/// round it up to the eight-byte alignment of its first field.
pub const PACKET_SIZE: usize = 56;

/// One command for a device: timeout, buffers (by address) with their lengths,
/// direction, and the statuses that the firmware fills in.
///
/// Buffers are owned by the caller for the duration of the call; the firmware
/// reads and writes only within the stated lengths, and on a length it cannot
/// service writes back the length it can.
#[derive(Clone, Copy, Debug, PartialEq, Eq, Structural)]
pub struct ScsiIoScsiRequestPacket {
    /// In units of 100 ns; zero waits without limit.
    pub timeout: u64,
    /// Address of the buffer that a read fills; zero for writes.
    pub in_data_buffer: u64,
    /// Address of the buffer that a write sends; zero for reads.
    pub out_data_buffer: u64,
    /// Address of the buffer for sense data.
    pub sense_data: u64,
    /// Address of the command data block.
    pub cdb: u64,
    /// On input the size of the in buffer; on output the bytes transferred.
    pub in_transfer_length: u32,
    /// On input the size of the out buffer; on output the bytes transferred.
    pub out_transfer_length: u32,
    pub cdb_length: u8,
    pub data_direction: DataDirection,
    pub host_adapter_status: HostAdapterStatus,
    pub target_status: TargetStatus,
    /// On input the size of the sense buffer; on output the bytes written to it.
    pub sense_data_length: u8,
}

/// The packet of the extended pass-through channel has the same fields and layout.
pub type ExtScsiIoScsiRequestPacket = ScsiIoScsiRequestPacket;

/// The `n` lowest bytes of `v`, least significant first.
pub open spec fn le_bytes(v: nat, n: nat) -> Seq<u8>
    decreases n,
{
    if n == 0 {
        seq![]
    } else {
        seq![(v % 256) as u8] + le_bytes(v / 256, (n - 1) as nat)
    }
}

pub proof fn lemma_le_bytes_len(v: nat, n: nat)
    ensures
        le_bytes(v, n).len() == n,
    decreases n,
{
    if n > 0 {
        lemma_le_bytes_len(v / 256, (n - 1) as nat);
    }
}

/// The bytes of a packet as the firmware reads them.
pub open spec fn packet_layout(p: ScsiIoScsiRequestPacket) -> Seq<u8> {
    le_bytes(p.timeout as nat, 8) + le_bytes(p.in_data_buffer as nat, 8) + le_bytes(
        p.out_data_buffer as nat,
        8,
    ) + le_bytes(p.sense_data as nat, 8) + le_bytes(p.cdb as nat, 8) + le_bytes(
        p.in_transfer_length as nat,
        4,
    ) + le_bytes(p.out_transfer_length as nat, 4) + seq![
        p.cdb_length,
        p.data_direction.spec_code(),
        p.host_adapter_status.spec_code(),
        p.target_status.spec_code(),
        p.sense_data_length,
        0u8,
        0u8,
        0u8,
    ]
}

/// Appends the `n` lowest bytes of `v`, least significant first.
fn push_le(out: &mut Vec<u8>, v: u64, n: usize)
    ensures
        final(out)@ == old(out)@ + le_bytes(v as nat, n as nat),
{
    let mut x: u64 = v;
    let mut i: usize = 0;
    while i < n
        invariant
            i <= n,
            old(out)@ + le_bytes(v as nat, n as nat) == out@ + le_bytes(x as nat, (n - i) as nat),
        decreases n - i,
    {
        let ghost prev = out@;
        let ghost rest = le_bytes((x / 256) as nat, (n - i - 1) as nat);
        let b: u8 = (x % 256) as u8;
        out.push(b);
        x = x / 256;
        i = i + 1;
        proof {
            assert(prev + (seq![b] + rest) =~= prev.push(b) + rest);
        }
    }
    assert(out@ + le_bytes(x as nat, 0) =~= out@);
}

impl ScsiIoScsiRequestPacket {
    /// The packet's bytes, each field at its offset, padding zeroed.
    pub fn to_bytes(&self) -> (r: Vec<u8>)
        ensures
            r@ == packet_layout(*self),
    {
        let mut out: Vec<u8> = Vec::new();
        push_le(&mut out, self.timeout, 8);
        push_le(&mut out, self.in_data_buffer, 8);
        push_le(&mut out, self.out_data_buffer, 8);
        push_le(&mut out, self.sense_data, 8);
        push_le(&mut out, self.cdb, 8);
        push_le(&mut out, self.in_transfer_length as u64, 4);
        push_le(&mut out, self.out_transfer_length as u64, 4);
        out.push(self.cdb_length);
        out.push(self.data_direction.code());
        out.push(self.host_adapter_status.code());
        out.push(self.target_status.code());
        out.push(self.sense_data_length);
        out.push(0);
        out.push(0);
        out.push(0);
        proof {
            let p = *self;
            let tail = seq![
                p.cdb_length,
                p.data_direction.spec_code(),
                p.host_adapter_status.spec_code(),
                p.target_status.spec_code(),
                p.sense_data_length,
                0u8,
                0u8,
                0u8,
            ];
            let head = le_bytes(p.timeout as nat, 8) + le_bytes(p.in_data_buffer as nat, 8)
                + le_bytes(p.out_data_buffer as nat, 8) + le_bytes(p.sense_data as nat, 8)
                + le_bytes(p.cdb as nat, 8) + le_bytes(p.in_transfer_length as nat, 4) + le_bytes(
                p.out_transfer_length as nat,
                4,
            );
            assert(out@ =~= head + tail);
        }
        out
    }
}

/// Every field of a serialized packet stands at its documented offset, with its
/// documented width, and the three padding bytes after the last field are zero.
pub proof fn lemma_packet_layout(p: ScsiIoScsiRequestPacket)
    ensures
        packet_layout(p).len() == PACKET_SIZE,
        packet_layout(p).subrange(TIMEOUT_OFFSET as int, 8) == le_bytes(p.timeout as nat, 8),
        packet_layout(p).subrange(IN_DATA_BUFFER_OFFSET as int, 16) == le_bytes(
            p.in_data_buffer as nat,
            8,
        ),
        packet_layout(p).subrange(OUT_DATA_BUFFER_OFFSET as int, 24) == le_bytes(
            p.out_data_buffer as nat,
            8,
        ),
        packet_layout(p).subrange(SENSE_DATA_OFFSET as int, 32) == le_bytes(p.sense_data as nat, 8),
        packet_layout(p).subrange(CDB_OFFSET as int, 40) == le_bytes(p.cdb as nat, 8),
        packet_layout(p).subrange(IN_TRANSFER_LENGTH_OFFSET as int, 44) == le_bytes(
            p.in_transfer_length as nat,
            4,
        ),
        packet_layout(p).subrange(OUT_TRANSFER_LENGTH_OFFSET as int, 48) == le_bytes(
            p.out_transfer_length as nat,
            4,
        ),
        packet_layout(p)[CDB_LENGTH_OFFSET as int] == p.cdb_length,
        packet_layout(p)[DATA_DIRECTION_OFFSET as int] == p.data_direction.spec_code(),
        packet_layout(p)[HOST_ADAPTER_STATUS_OFFSET as int] == p.host_adapter_status.spec_code(),
        packet_layout(p)[TARGET_STATUS_OFFSET as int] == p.target_status.spec_code(),
        packet_layout(p)[SENSE_DATA_LENGTH_OFFSET as int] == p.sense_data_length,
        packet_layout(p)[53] == 0,
        packet_layout(p)[54] == 0,
        packet_layout(p)[55] == 0,
{
    let a = le_bytes(p.timeout as nat, 8);
    let b = le_bytes(p.in_data_buffer as nat, 8);
    let c = le_bytes(p.out_data_buffer as nat, 8);
    let d = le_bytes(p.sense_data as nat, 8);
    let e = le_bytes(p.cdb as nat, 8);
    let f = le_bytes(p.in_transfer_length as nat, 4);
    let g = le_bytes(p.out_transfer_length as nat, 4);
    lemma_le_bytes_len(p.timeout as nat, 8);
    lemma_le_bytes_len(p.in_data_buffer as nat, 8);
    lemma_le_bytes_len(p.out_data_buffer as nat, 8);
    lemma_le_bytes_len(p.sense_data as nat, 8);
    lemma_le_bytes_len(p.cdb as nat, 8);
    lemma_le_bytes_len(p.in_transfer_length as nat, 4);
    lemma_le_bytes_len(p.out_transfer_length as nat, 4);
    let l = packet_layout(p);
    assert(l.subrange(0, 8) =~= a);
    assert(l.subrange(8, 16) =~= b);
    assert(l.subrange(16, 24) =~= c);
    assert(l.subrange(24, 32) =~= d);
    assert(l.subrange(32, 40) =~= e);
    assert(l.subrange(40, 44) =~= f);
    assert(l.subrange(44, 48) =~= g);
}

} // verus!
