//! Decoder for sFlow version 5 telemetry datagrams: binary, big-endian,
//! XDR-aligned packets that routers and switches emit to report sampled
//! traffic flows and interface counters.
//!
//! The heart of the crate is the [`Decodeable`] capability: one polymorphic
//! "decode a value of this type from a byte cursor" contract, implemented
//! for the primitive widths, for strings, for count-prefixed sequences and
//! for every composite record type. Record families (flow records, counter
//! records, sample records) are decoded through a format-code dispatcher
//! that routes known codes to a payload decoder and skips unknown payloads
//! without desynchronizing the stream.
//!
//! Every decoder is verified against a specification-level decode function
//! over the byte sequence, so the decoded value, the error returned, and
//! the cursor position after the call are all pinned down for every input.

mod community;
mod counter_records;
mod datagram;
mod dst_as_path;
mod error;
mod flow_records;
mod ipaddress;
mod laws;
mod sample;
mod types;
mod utils;
mod wire;

pub use community::{community_text, dec_digits, Community};
pub use counter_records::{
    sdecode_counter_payload, CounterRecord, EthernetCounters, InterfaceCounters,
};
pub use datagram::{Datagram, DatagramView};
pub use dst_as_path::{DstASPath, DstASPathView};
pub use error::Error;
pub use flow_records::{
    ExtendedGateway, ExtendedGatewayView, ExtendedMpls, ExtendedMplsTunnel,
    ExtendedMplsTunnelView, ExtendedMplsView, ExtendedRouter, ExtendedSwitch, ExtendedUrl,
    ExtendedUrlView, FlowRecord, FlowRecordView, SampledHeader, SampledHeaderView, SampledIpv4,
};
pub use flow_records::sdecode_flow_payload;
pub use ipaddress::{sdecode_ipv4, sdecode_ipv6, IPAddress};
pub use laws::{
    lemma_decode_deterministic, lemma_empty_sequence, lemma_known_flow_record_sampled_ipv4,
    lemma_unknown_counter_record, lemma_unknown_flow_record, lemma_unknown_sample_record,
};
pub use sample::{
    sdecode_sample_payload, CounterSample, CounterSampleView, FlowSample, FlowSampleView,
    SampleRecord, SampleRecordView,
};
pub use types::{ByteCursor, Interface, ReadSeeker, SourceID};
pub use utils::{
    ascii_chars, lemma_ascii_decode, sdecode_elems, step_prepend, Decodeable, ReadBytesLocal,
};
pub use wire::{
    be_i16, be_i32, be_u16, be_u32, be_u64, decode_post, pad4, skip_step, step_bind, step_map,
    Step,
};
