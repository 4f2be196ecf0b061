//! Sample records: the family that a datagram carries directly. A flow
//! sample holds the flow records of one sampled packet; a counter sample
//! holds one batch of counter records.

use vstd::prelude::*;

use crate::counter_records::CounterRecord;
use crate::error::Error;
use crate::flow_records::FlowRecord;
use crate::flow_records::FlowRecordView;
use crate::types::ByteCursor;
use crate::types::Interface;
use crate::types::ReadSeeker;
use crate::types::SourceID;
use crate::utils::Decodeable;
use crate::utils::ReadBytesLocal;
use crate::wire::be_u32;
use crate::wire::step_bind;
use crate::wire::step_map;
use crate::wire::Step;

verus! {

/// One sample record, tagged by the format code of its header.
#[derive(Debug, Clone, PartialEq, Eq)]
pub enum SampleRecord {
    FlowSample(FlowSample),  // Format 1
    CounterSample(CounterSample),  // Format 2
}

/// The model of a [`SampleRecord`].
pub enum SampleRecordView {
    FlowSample(FlowSampleView),
    CounterSample(CounterSampleView),
}

impl DeepView for SampleRecord {
    type V = SampleRecordView;

    open spec fn deep_view(&self) -> SampleRecordView {
        match self {
            SampleRecord::FlowSample(x) => SampleRecordView::FlowSample(x.deep_view()),
            SampleRecord::CounterSample(x) => SampleRecordView::CounterSample(x.deep_view()),
        }
    }
}

/// One sampled packet: where it was sampled, at which rate, and the flow
/// records that describe it.
#[derive(Debug, Clone, PartialEq, Eq)]
pub struct FlowSample {
    /// Incremented with each flow sample generated by this source.
    pub sequence_number: u32,
    /// The data source of this sample.
    pub source_id: SourceID,
    /// One out of this many packets was sampled.
    pub sampling_rate: u32,
    /// Total number of packets that could have been sampled.
    pub sample_pool: u32,
    /// Packets dropped because of a lack of resources.
    pub drops: u32,
    /// Interface the packet was received on.
    pub input: Interface,
    /// Interface the packet was sent on.
    pub output: Interface,
    /// The records describing the sampled packet.
    pub flow_records: Vec<FlowRecord>,
}

/// The model of a [`FlowSample`].
pub struct FlowSampleView {
    pub sequence_number: u32,
    pub source_id: SourceID,
    pub sampling_rate: u32,
    pub sample_pool: u32,
    pub drops: u32,
    pub input: Interface,
    pub output: Interface,
    pub flow_records: Seq<FlowRecordView>,
}

impl DeepView for FlowSample {
    type V = FlowSampleView;

    open spec fn deep_view(&self) -> FlowSampleView {
        FlowSampleView {
            sequence_number: self.sequence_number,
            source_id: self.source_id,
            sampling_rate: self.sampling_rate,
            sample_pool: self.sample_pool,
            drops: self.drops,
            input: self.input,
            output: self.output,
            flow_records: self.flow_records.deep_view(),
        }
    }
}

impl Decodeable for FlowSample {
    open spec fn sdecode(b: Seq<u8>, p: int) -> Step<FlowSampleView> {
        if p + 28 <= b.len() {
            step_bind(
                <Vec<FlowRecord> as Decodeable>::sdecode(b, p + 28),
                |flow_records: Seq<FlowRecordView>, p1: int|
                    (Step::Done {
                        v: FlowSampleView {
                            sequence_number: be_u32(b, p),
                            source_id: be_u32(b, p + 4),
                            sampling_rate: be_u32(b, p + 8),
                            sample_pool: be_u32(b, p + 12),
                            drops: be_u32(b, p + 16),
                            input: be_u32(b, p + 20),
                            output: be_u32(b, p + 24),
                            flow_records,
                        },
                        next: p1,
                    }),
            )
        } else {
            Step::Fail { err: Error::Truncated }
        }
    }

    open spec fn spec_wire_unit() -> int {
        4
    }

    fn wire_unit() -> (u: usize) {
        4
    }

    fn read_and_decode(stream: &mut ByteCursor) -> (r: Result<FlowSample, Error>) {
        let sequence_number = match stream.be_read_u32() {
            Ok(v) => v,
            Err(e) => return Err(e),
        };
        let source_id = match stream.be_read_u32() {
            Ok(v) => v,
            Err(e) => return Err(e),
        };
        let sampling_rate = match stream.be_read_u32() {
            Ok(v) => v,
            Err(e) => return Err(e),
        };
        let sample_pool = match stream.be_read_u32() {
            Ok(v) => v,
            Err(e) => return Err(e),
        };
        let drops = match stream.be_read_u32() {
            Ok(v) => v,
            Err(e) => return Err(e),
        };
        let input = match stream.be_read_u32() {
            Ok(v) => v,
            Err(e) => return Err(e),
        };
        let output = match stream.be_read_u32() {
            Ok(v) => v,
            Err(e) => return Err(e),
        };
        let flow_records = match <Vec<FlowRecord> as Decodeable>::read_and_decode(stream) {
            Ok(v) => v,
            Err(e) => return Err(e),
        };
        Ok(
            FlowSample {
                sequence_number,
                source_id,
                sampling_rate,
                sample_pool,
                drops,
                input,
                output,
                flow_records,
            },
        )
    }
}

/// One batch of counter records from a single data source.
#[derive(Debug, Clone, PartialEq, Eq)]
pub struct CounterSample {
    /// Incremented with each counter sample generated by this source.
    pub sequence_number: u32,
    /// The data source of this sample.
    pub source_id: SourceID,
    /// The counter records of this batch.
    pub counters: Vec<CounterRecord>,
}

/// The model of a [`CounterSample`].
pub struct CounterSampleView {
    pub sequence_number: u32,
    pub source_id: SourceID,
    pub counters: Seq<CounterRecord>,
}

impl DeepView for CounterSample {
    type V = CounterSampleView;

    open spec fn deep_view(&self) -> CounterSampleView {
        CounterSampleView {
            sequence_number: self.sequence_number,
            source_id: self.source_id,
            counters: self.counters.deep_view(),
        }
    }
}

impl Decodeable for CounterSample {
    open spec fn sdecode(b: Seq<u8>, p: int) -> Step<CounterSampleView> {
        if p + 8 <= b.len() {
            step_bind(
                <Vec<CounterRecord> as Decodeable>::sdecode(b, p + 8),
                |counters: Seq<CounterRecord>, p1: int|
                    (Step::Done {
                        v: CounterSampleView {
                            sequence_number: be_u32(b, p),
                            source_id: be_u32(b, p + 4),
                            counters,
                        },
                        next: p1,
                    }),
            )
        } else {
            Step::Fail { err: Error::Truncated }
        }
    }

    open spec fn spec_wire_unit() -> int {
        4
    }

    fn wire_unit() -> (u: usize) {
        4
    }

    fn read_and_decode(stream: &mut ByteCursor) -> (r: Result<CounterSample, Error>) {
        let sequence_number = match stream.be_read_u32() {
            Ok(v) => v,
            Err(e) => return Err(e),
        };
        let source_id = match stream.be_read_u32() {
            Ok(v) => v,
            Err(e) => return Err(e),
        };
        let counters = match <Vec<CounterRecord> as Decodeable>::read_and_decode(stream) {
            Ok(v) => v,
            Err(e) => return Err(e),
        };
        Ok(CounterSample { sequence_number, source_id, counters })
    }
}

/// Route a sample record payload by the format code of its header. A code
/// outside the table skips the declared `length` bytes and reports the
/// record as unrecognized. A known code's payload decoder is relied on
/// to consume exactly the declared length; no boundary check is
/// enforced after it.
pub open spec fn sdecode_sample_payload(b: Seq<u8>, p: int, format: u32, length: u32) -> Step<
    SampleRecordView,
> {
    if format == 1 {
        step_map(FlowSample::sdecode(b, p), |v: FlowSampleView| SampleRecordView::FlowSample(v))
    } else if format == 2 {
        step_map(
            CounterSample::sdecode(b, p),
            |v: CounterSampleView| SampleRecordView::CounterSample(v),
        )
    } else {
        if p + length > usize::MAX as int {
            Step::Fail { err: Error::Truncated }
        } else {
            Step::Skip { format, length, next: p + length }
        }
    }
}

impl Decodeable for SampleRecord {
    open spec fn sdecode(b: Seq<u8>, p: int) -> Step<SampleRecordView> {
        step_bind(
            u32::sdecode(b, p),
            |format: u32, p1: int|
                step_bind(
                    u32::sdecode(b, p1),
                    |length: u32, p2: int| sdecode_sample_payload(b, p2, format, length),
                ),
        )
    }

    open spec fn spec_wire_unit() -> int {
        4
    }

    fn wire_unit() -> (u: usize) {
        4
    }

    fn read_and_decode(stream: &mut ByteCursor) -> (r: Result<SampleRecord, Error>) {
        let format = match stream.be_read_u32() {
            Ok(v) => v,
            Err(e) => return Err(e),
        };
        let length = match stream.be_read_u32() {
            Ok(v) => v,
            Err(e) => return Err(e),
        };
        match format {
            1 => match FlowSample::read_and_decode(stream) {
                Ok(e) => Ok(SampleRecord::FlowSample(e)),
                Err(e) => Err(e),
            },
            2 => match CounterSample::read_and_decode(stream) {
                Ok(e) => Ok(SampleRecord::CounterSample(e)),
                Err(e) => Err(e),
            },
            _ => match stream.skip(length as usize) {
                Ok(_) => Err(Error::UnknownType { format, length }),
                Err(e) => Err(e),
            },
        }
    }
}

} // verus!
