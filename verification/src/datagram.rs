//! The top-level sFlow version 5 datagram: the header fields that identify
//! the reporting agent, followed by the sample records.

use vstd::prelude::*;

use crate::error::Error;
use crate::ipaddress::IPAddress;
use crate::sample::SampleRecord;
use crate::sample::SampleRecordView;
use crate::types::ByteCursor;
use crate::utils::Decodeable;
use crate::utils::ReadBytesLocal;
use crate::wire::be_u32;
use crate::wire::step_bind;
use crate::wire::Step;

verus! {

/// One complete sFlow version 5 datagram.
#[derive(Debug, Clone, PartialEq, Eq)]
pub struct Datagram {
    /// The sFlow version of the datagram.
    pub sflow_version: u32,
    /// Address of the agent that emitted the datagram.
    pub agent_address: IPAddress,
    /// Distinguishes the agent's sub-entities.
    pub sub_agent_id: u32,
    /// Incremented with each datagram the sub-agent sends.
    pub sequence_number: u32,
    /// Milliseconds since the agent last booted.
    pub uptime: u32,
    /// The sample records the datagram carries.
    pub sample_record: Vec<SampleRecord>,
}

/// The model of a [`Datagram`].
pub struct DatagramView {
    pub sflow_version: u32,
    pub agent_address: IPAddress,
    pub sub_agent_id: u32,
    pub sequence_number: u32,
    pub uptime: u32,
    pub sample_record: Seq<SampleRecordView>,
}

impl DeepView for Datagram {
    type V = DatagramView;

    open spec fn deep_view(&self) -> DatagramView {
        DatagramView {
            sflow_version: self.sflow_version,
            agent_address: self.agent_address,
            sub_agent_id: self.sub_agent_id,
            sequence_number: self.sequence_number,
            uptime: self.uptime,
            sample_record: self.sample_record.deep_view(),
        }
    }
}

impl Decodeable for Datagram {
    open spec fn sdecode(b: Seq<u8>, p: int) -> Step<DatagramView> {
        if p + 4 <= b.len() {
            step_bind(
                IPAddress::sdecode(b, p + 4),
                |agent_address: IPAddress, p1: int|
                    {
                        if p1 + 12 <= b.len() {
                            step_bind(
                                <Vec<SampleRecord> as Decodeable>::sdecode(b, p1 + 12),
                                |sample_record: Seq<SampleRecordView>, p2: int|
                                    (Step::Done {
                                        v: DatagramView {
                                            sflow_version: be_u32(b, p),
                                            agent_address,
                                            sub_agent_id: be_u32(b, p1),
                                            sequence_number: be_u32(b, p1 + 4),
                                            uptime: be_u32(b, p1 + 8),
                                            sample_record,
                                        },
                                        next: p2,
                                    }),
                            )
                        } else {
                            Step::Fail { err: Error::Truncated }
                        }
                    },
            )
        } else {
            Step::Fail { err: Error::Truncated }
        }
    }

    open spec fn spec_wire_unit() -> int {
        4
    }

    fn wire_unit() -> (u: usize) {
        4
    }

    fn read_and_decode(stream: &mut ByteCursor) -> (r: Result<Datagram, Error>) {
        let sflow_version = match stream.be_read_u32() {
            Ok(v) => v,
            Err(e) => return Err(e),
        };
        let agent_address = match IPAddress::read_and_decode(stream) {
            Ok(v) => v,
            Err(e) => return Err(e),
        };
        let sub_agent_id = match stream.be_read_u32() {
            Ok(v) => v,
            Err(e) => return Err(e),
        };
        let sequence_number = match stream.be_read_u32() {
            Ok(v) => v,
            Err(e) => return Err(e),
        };
        let uptime = match stream.be_read_u32() {
            Ok(v) => v,
            Err(e) => return Err(e),
        };
        let sample_record = match <Vec<SampleRecord> as Decodeable>::read_and_decode(stream) {
            Ok(v) => v,
            Err(e) => return Err(e),
        };
        Ok(
            Datagram {
                sflow_version,
                agent_address,
                sub_agent_id,
                sequence_number,
                uptime,
                sample_record,
            },
        )
    }
}

} // verus!
