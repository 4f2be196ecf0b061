//! Counter records: the periodic interface and Ethernet counter snapshot
//! family, dispatched by the same header scheme as flow records.

use vstd::prelude::*;

use crate::error::Error;
use crate::types::ByteCursor;
use crate::types::ReadSeeker;
use crate::utils::Decodeable;
use crate::utils::ReadBytesLocal;
use crate::wire::be_u32;
use crate::wire::be_u64;
use crate::wire::step_bind;
use crate::wire::step_map;
use crate::wire::Step;

verus! {

/// One counter record, tagged by the format code of its header.
#[derive(Debug, Clone, Copy, PartialEq, Eq, Structural)]
pub enum CounterRecord {
    InterfaceCounters(InterfaceCounters),  // Format 1
    EthernetCounters(EthernetCounters),  // Format 2
    Tokenringcounters,
    VGCounters,
    VLANCounters,
}

impl DeepView for CounterRecord {
    type V = CounterRecord;

    open spec fn deep_view(&self) -> CounterRecord {
        *self
    }
}

/// A generic interface counter snapshot.
#[derive(Debug, Clone, Copy, PartialEq, Eq, Structural, Default)]
pub struct InterfaceCounters {
    pub if_index: u32,
    pub if_type: u32,
    pub if_speed: u64,
    /// Derived from the MAU MIB (RFC 2668):
    /// 0 = unknown, 1 = full-duplex, 2 = half-duplex, 3 = in, 4 = out.
    pub if_direction: u32,
    /// Bit field with the following bits assigned:
    /// bit 0 = ifAdminStatus (0 = down, 1 = up),
    /// bit 1 = ifOperStatus (0 = down, 1 = up).
    pub if_status: u32,
    pub if_in_octets: u64,
    pub if_in_ucast_pkts: u32,
    pub if_in_multicast_pkts: u32,
    pub if_in_broadcast_pkts: u32,
    pub if_in_discards: u32,
    pub if_in_errors: u32,
    pub if_in_unknown_protos: u32,
    pub if_out_octets: u64,
    pub if_out_ucast_pkts: u32,
    pub if_out_multicast_pkts: u32,
    pub if_out_broadcast_pkts: u32,
    pub if_out_discards: u32,
    pub if_out_errors: u32,
    pub if_promiscuous_mode: u32,
}

impl DeepView for InterfaceCounters {
    type V = InterfaceCounters;

    open spec fn deep_view(&self) -> InterfaceCounters {
        *self
    }
}

impl Decodeable for InterfaceCounters {
    open spec fn sdecode(b: Seq<u8>, p: int) -> Step<InterfaceCounters> {
        if p + 88 <= b.len() {
            Step::Done {
                v: InterfaceCounters {
                    if_index: be_u32(b, p),
                    if_type: be_u32(b, p + 4),
                    if_speed: be_u64(b, p + 8),
                    if_direction: be_u32(b, p + 16),
                    if_status: be_u32(b, p + 20),
                    if_in_octets: be_u64(b, p + 24),
                    if_in_ucast_pkts: be_u32(b, p + 32),
                    if_in_multicast_pkts: be_u32(b, p + 36),
                    if_in_broadcast_pkts: be_u32(b, p + 40),
                    if_in_discards: be_u32(b, p + 44),
                    if_in_errors: be_u32(b, p + 48),
                    if_in_unknown_protos: be_u32(b, p + 52),
                    if_out_octets: be_u64(b, p + 56),
                    if_out_ucast_pkts: be_u32(b, p + 64),
                    if_out_multicast_pkts: be_u32(b, p + 68),
                    if_out_broadcast_pkts: be_u32(b, p + 72),
                    if_out_discards: be_u32(b, p + 76),
                    if_out_errors: be_u32(b, p + 80),
                    if_promiscuous_mode: be_u32(b, p + 84),
                },
                next: p + 88,
            }
        } else {
            Step::Fail { err: Error::Truncated }
        }
    }

    open spec fn spec_wire_unit() -> int {
        4
    }

    fn wire_unit() -> (u: usize) {
        4
    }

    fn read_and_decode(stream: &mut ByteCursor) -> (r: Result<InterfaceCounters, Error>) {
        let if_index = match stream.be_read_u32() {
            Ok(v) => v,
            Err(e) => return Err(e),
        };
        let if_type = match stream.be_read_u32() {
            Ok(v) => v,
            Err(e) => return Err(e),
        };
        let if_speed = match stream.be_read_u64() {
            Ok(v) => v,
            Err(e) => return Err(e),
        };
        let if_direction = match stream.be_read_u32() {
            Ok(v) => v,
            Err(e) => return Err(e),
        };
        let if_status = match stream.be_read_u32() {
            Ok(v) => v,
            Err(e) => return Err(e),
        };
        let if_in_octets = match stream.be_read_u64() {
            Ok(v) => v,
            Err(e) => return Err(e),
        };
        let if_in_ucast_pkts = match stream.be_read_u32() {
            Ok(v) => v,
            Err(e) => return Err(e),
        };
        let if_in_multicast_pkts = match stream.be_read_u32() {
            Ok(v) => v,
            Err(e) => return Err(e),
        };
        let if_in_broadcast_pkts = match stream.be_read_u32() {
            Ok(v) => v,
            Err(e) => return Err(e),
        };
        let if_in_discards = match stream.be_read_u32() {
            Ok(v) => v,
            Err(e) => return Err(e),
        };
        let if_in_errors = match stream.be_read_u32() {
            Ok(v) => v,
            Err(e) => return Err(e),
        };
        let if_in_unknown_protos = match stream.be_read_u32() {
            Ok(v) => v,
            Err(e) => return Err(e),
        };
        let if_out_octets = match stream.be_read_u64() {
            Ok(v) => v,
            Err(e) => return Err(e),
        };
        let if_out_ucast_pkts = match stream.be_read_u32() {
            Ok(v) => v,
            Err(e) => return Err(e),
        };
        let if_out_multicast_pkts = match stream.be_read_u32() {
            Ok(v) => v,
            Err(e) => return Err(e),
        };
        let if_out_broadcast_pkts = match stream.be_read_u32() {
            Ok(v) => v,
            Err(e) => return Err(e),
        };
        let if_out_discards = match stream.be_read_u32() {
            Ok(v) => v,
            Err(e) => return Err(e),
        };
        let if_out_errors = match stream.be_read_u32() {
            Ok(v) => v,
            Err(e) => return Err(e),
        };
        let if_promiscuous_mode = match stream.be_read_u32() {
            Ok(v) => v,
            Err(e) => return Err(e),
        };
        Ok(
            InterfaceCounters {
                if_index,
                if_type,
                if_speed,
                if_direction,
                if_status,
                if_in_octets,
                if_in_ucast_pkts,
                if_in_multicast_pkts,
                if_in_broadcast_pkts,
                if_in_discards,
                if_in_errors,
                if_in_unknown_protos,
                if_out_octets,
                if_out_ucast_pkts,
                if_out_multicast_pkts,
                if_out_broadcast_pkts,
                if_out_discards,
                if_out_errors,
                if_promiscuous_mode,
            },
        )
    }
}

/// An Ethernet counter snapshot (the dot3Stats group).
#[derive(Debug, Clone, Copy, PartialEq, Eq, Structural, Default)]
pub struct EthernetCounters {
    pub dot3_stats_alignment_errors: u32,
    pub dot3_stats_fcs_errors: u32,
    pub dot3_stats_single_collision_frames: u32,
    pub dot3_stats_multiple_collision_frames: u32,
    pub dot3_stats_sqe_test_errors: u32,
    pub dot3_stats_deferred_transmissions: u32,
    pub dot3_stats_late_collisions: u32,
    pub dot3_stats_excessive_collisions: u32,
    pub dot3_stats_internal_mac_transmit_errors: u32,
    pub dot3_stats_carrier_sense_errors: u32,
    pub dot3_stats_frame_too_longs: u32,
    pub dot3_stats_internal_mac_receive_errors: u32,
    pub dot3_stats_symbol_errors: u32,
}

impl DeepView for EthernetCounters {
    type V = EthernetCounters;

    open spec fn deep_view(&self) -> EthernetCounters {
        *self
    }
}

impl Decodeable for EthernetCounters {
    open spec fn sdecode(b: Seq<u8>, p: int) -> Step<EthernetCounters> {
        if p + 52 <= b.len() {
            Step::Done {
                v: EthernetCounters {
                    dot3_stats_alignment_errors: be_u32(b, p),
                    dot3_stats_fcs_errors: be_u32(b, p + 4),
                    dot3_stats_single_collision_frames: be_u32(b, p + 8),
                    dot3_stats_multiple_collision_frames: be_u32(b, p + 12),
                    dot3_stats_sqe_test_errors: be_u32(b, p + 16),
                    dot3_stats_deferred_transmissions: be_u32(b, p + 20),
                    dot3_stats_late_collisions: be_u32(b, p + 24),
                    dot3_stats_excessive_collisions: be_u32(b, p + 28),
                    dot3_stats_internal_mac_transmit_errors: be_u32(b, p + 32),
                    dot3_stats_carrier_sense_errors: be_u32(b, p + 36),
                    dot3_stats_frame_too_longs: be_u32(b, p + 40),
                    dot3_stats_internal_mac_receive_errors: be_u32(b, p + 44),
                    dot3_stats_symbol_errors: be_u32(b, p + 48),
                },
                next: p + 52,
            }
        } else {
            Step::Fail { err: Error::Truncated }
        }
    }

    open spec fn spec_wire_unit() -> int {
        4
    }

    fn wire_unit() -> (u: usize) {
        4
    }

    fn read_and_decode(stream: &mut ByteCursor) -> (r: Result<EthernetCounters, Error>) {
        let dot3_stats_alignment_errors = match stream.be_read_u32() {
            Ok(v) => v,
            Err(e) => return Err(e),
        };
        let dot3_stats_fcs_errors = match stream.be_read_u32() {
            Ok(v) => v,
            Err(e) => return Err(e),
        };
        let dot3_stats_single_collision_frames = match stream.be_read_u32() {
            Ok(v) => v,
            Err(e) => return Err(e),
        };
        let dot3_stats_multiple_collision_frames = match stream.be_read_u32() {
            Ok(v) => v,
            Err(e) => return Err(e),
        };
        let dot3_stats_sqe_test_errors = match stream.be_read_u32() {
            Ok(v) => v,
            Err(e) => return Err(e),
        };
        let dot3_stats_deferred_transmissions = match stream.be_read_u32() {
            Ok(v) => v,
            Err(e) => return Err(e),
        };
        let dot3_stats_late_collisions = match stream.be_read_u32() {
            Ok(v) => v,
            Err(e) => return Err(e),
        };
        let dot3_stats_excessive_collisions = match stream.be_read_u32() {
            Ok(v) => v,
            Err(e) => return Err(e),
        };
        let dot3_stats_internal_mac_transmit_errors = match stream.be_read_u32() {
            Ok(v) => v,
            Err(e) => return Err(e),
        };
        let dot3_stats_carrier_sense_errors = match stream.be_read_u32() {
            Ok(v) => v,
            Err(e) => return Err(e),
        };
        let dot3_stats_frame_too_longs = match stream.be_read_u32() {
            Ok(v) => v,
            Err(e) => return Err(e),
        };
        let dot3_stats_internal_mac_receive_errors = match stream.be_read_u32() {
            Ok(v) => v,
            Err(e) => return Err(e),
        };
        let dot3_stats_symbol_errors = match stream.be_read_u32() {
            Ok(v) => v,
            Err(e) => return Err(e),
        };
        Ok(
            EthernetCounters {
                dot3_stats_alignment_errors,
                dot3_stats_fcs_errors,
                dot3_stats_single_collision_frames,
                dot3_stats_multiple_collision_frames,
                dot3_stats_sqe_test_errors,
                dot3_stats_deferred_transmissions,
                dot3_stats_late_collisions,
                dot3_stats_excessive_collisions,
                dot3_stats_internal_mac_transmit_errors,
                dot3_stats_carrier_sense_errors,
                dot3_stats_frame_too_longs,
                dot3_stats_internal_mac_receive_errors,
                dot3_stats_symbol_errors,
            },
        )
    }
}

/// Route a counter record payload by the format code of its header. A code
/// outside the table skips the declared `length` bytes and reports the
/// record as unrecognized. A known code's payload decoder is relied on
/// to consume exactly the declared length; no boundary check is
/// enforced after it.
pub open spec fn sdecode_counter_payload(b: Seq<u8>, p: int, format: u32, length: u32) -> Step<
    CounterRecord,
> {
    if format == 1 {
        step_map(
            InterfaceCounters::sdecode(b, p),
            |v: InterfaceCounters| CounterRecord::InterfaceCounters(v),
        )
    } else if format == 2 {
        step_map(
            EthernetCounters::sdecode(b, p),
            |v: EthernetCounters| CounterRecord::EthernetCounters(v),
        )
    } else {
        if p + length > usize::MAX as int {
            Step::Fail { err: Error::Truncated }
        } else {
            Step::Skip { format, length, next: p + length }
        }
    }
}

impl Decodeable for CounterRecord {
    open spec fn sdecode(b: Seq<u8>, p: int) -> Step<CounterRecord> {
        step_bind(
            u32::sdecode(b, p),
            |format: u32, p1: int|
                step_bind(
                    u32::sdecode(b, p1),
                    |length: u32, p2: int| sdecode_counter_payload(b, p2, format, length),
                ),
        )
    }

    open spec fn spec_wire_unit() -> int {
        4
    }

    fn wire_unit() -> (u: usize) {
        4
    }

    fn read_and_decode(stream: &mut ByteCursor) -> (r: Result<CounterRecord, Error>) {
        let format = match stream.be_read_u32() {
            Ok(v) => v,
            Err(e) => return Err(e),
        };
        let length = match stream.be_read_u32() {
            Ok(v) => v,
            Err(e) => return Err(e),
        };
        match format {
            1 => match InterfaceCounters::read_and_decode(stream) {
                Ok(e) => Ok(CounterRecord::InterfaceCounters(e)),
                Err(e) => Err(e),
            },
            2 => match EthernetCounters::read_and_decode(stream) {
                Ok(e) => Ok(CounterRecord::EthernetCounters(e)),
                Err(e) => Err(e),
            },
            _ => match stream.skip(length as usize) {
                Ok(_) => Err(Error::UnknownType { format, length }),
                Err(e) => Err(e),
            },
        }
    }
}

} // verus!
