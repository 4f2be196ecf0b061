//! One segment of the BGP AS path toward a destination, as carried in
//! extended gateway records.

use vstd::prelude::*;

use crate::error::Error;
use crate::types::ByteCursor;
use crate::utils::Decodeable;
use crate::utils::ReadBytesLocal;
use crate::wire::step_bind;
use crate::wire::Step;

verus! {

/// One AS-path segment: its segment type (set or sequence) followed by a
/// count-prefixed list of AS numbers in wire order.
#[derive(Debug, Clone, PartialEq, Eq)]
pub struct DstASPath {
    pub path_segment_type: u32,
    pub path: Vec<u32>,
}

/// The model of a [`DstASPath`]: the same fields over a sequence.
pub struct DstASPathView {
    pub path_segment_type: u32,
    pub path: Seq<u32>,
}

impl DeepView for DstASPath {
    type V = DstASPathView;

    open spec fn deep_view(&self) -> DstASPathView {
        DstASPathView { path_segment_type: self.path_segment_type, path: self.path.deep_view() }
    }
}

impl Decodeable for DstASPath {
    open spec fn sdecode(b: Seq<u8>, p: int) -> Step<DstASPathView> {
        step_bind(
            u32::sdecode(b, p),
            |segment_type: u32, p1: int|
                step_bind(
                    <Vec<u32> as Decodeable>::sdecode(b, p1),
                    |path: Seq<u32>, p2: int|
                        (Step::Done {
                            v: DstASPathView { path_segment_type: segment_type, path },
                            next: p2,
                        }),
                ),
        )
    }

    open spec fn spec_wire_unit() -> int {
        4
    }

    fn wire_unit() -> (u: usize) {
        4
    }

    fn read_and_decode(stream: &mut ByteCursor) -> (r: Result<DstASPath, Error>) {
        let path_segment_type = match stream.be_read_u32() {
            Ok(v) => v,
            Err(e) => return Err(e),
        };
        let path = match <Vec<u32> as Decodeable>::read_and_decode(stream) {
            Ok(v) => v,
            Err(e) => return Err(e),
        };
        Ok(DstASPath { path_segment_type, path })
    }
}

} // verus!
