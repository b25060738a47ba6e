//! The Result Extractor: turns the engine's internal symbol records into
//! owned, engine-independent scan results.
//!
//! A record arrives as plain values already read out of the engine's result
//! list: the numeric symbology and orientation codes, the quality score, the
//! copied location points, and the payload bytes whose ownership has been
//! transferred to the caller. Materializing a record maps the numeric codes
//! back into their closed sets and moves (never copies or shares) the payload
//! into the result, so the result stays valid and unchanged however the
//! originating buffer is torn down afterwards.

use vstd::prelude::*;

use crate::codes::ZBarOrientation;
use crate::codes::ZBarSymbolType;
use crate::codes::orientation_from_ordinal;
use crate::codes::symbol_type_from_ordinal;

verus! {

/// One symbol record as read out of the engine's result list, as plain values.
#[derive(Debug)]
pub struct SymbolRecord {
    /// The numeric symbology code the engine reported.
    pub type_code: isize,
    /// The engine's quality score for this symbol.
    pub quality: i32,
    /// The numeric orientation code the engine reported.
    pub orientation: isize,
    /// The symbol's location polygon, copied point by point.
    pub points: Vec<(i32, i32)>,
    /// The decoded payload; ownership already transferred to this record.
    pub data: Vec<u8>,
}

/// A record is well formed when its numeric codes lie in the engine ABI's
/// closed sets; the engine guarantees this of every record it emits.
pub open spec fn record_wf(s: SymbolRecord) -> bool {
    &&& symbol_type_from_ordinal(s.type_code as int) is Some
    &&& orientation_from_ordinal(s.orientation as int) is Some
}

/// One decoded symbol, owned independently of the engine: its symbology, its
/// payload bytes, and its geometry.
#[derive(Debug)]
pub struct ZBarImageScanResult {
    /// The recognized symbology, or a none/partial sentinel.
    pub symbol_type: ZBarSymbolType,
    /// The decoded payload; barcode payloads need not be valid text.
    pub data: Vec<u8>,
    /// The engine's quality score.
    pub quality: i32,
    /// The symbol's orientation in the source image.
    pub orientation: ZBarOrientation,
    /// Integer boundary points of the symbol's location polygon.
    pub points: Vec<(i32, i32)>,
}

/// What materializing one record means: the codes map into their closed sets
/// and payload, quality and points carry over exactly.
pub open spec fn materialized(s: SymbolRecord, r: ZBarImageScanResult) -> bool {
    &&& symbol_type_from_ordinal(s.type_code as int) == Some(r.symbol_type)
    &&& orientation_from_ordinal(s.orientation as int) == Some(r.orientation)
    &&& r.quality == s.quality
    &&& r.points@ == s.points@
    &&& r.data@ == s.data@
}

/// Materializes one record into an owned scan result, moving the payload.
pub fn materialize(record: SymbolRecord) -> (r: ZBarImageScanResult)
    requires
        record_wf(record),
    ensures
        materialized(record, r),
{
    let symbol_type = ZBarSymbolType::from_ordinal(record.type_code).unwrap();
    let orientation = ZBarOrientation::from_ordinal(record.orientation).unwrap();
    ZBarImageScanResult {
        symbol_type,
        data: record.data,
        quality: record.quality,
        orientation,
        points: record.points,
    }
}

/// Materializes a whole result list, in the engine's traversal order: the
/// i-th result comes from the i-th record, first found first returned.
pub fn extract(records: Vec<SymbolRecord>) -> (r: Vec<ZBarImageScanResult>)
    requires
        forall|i: int| 0 <= i < records@.len() ==> record_wf(#[trigger] records@[i]),
    ensures
        r@.len() == records@.len(),
        forall|i: int| 0 <= i < records@.len() ==> materialized(records@[i], #[trigger] r@[i]),
{
    let ghost all = records@;
    let mut remaining = records;
    let mut results: Vec<ZBarImageScanResult> = Vec::new();
    while remaining.len() > 0
        invariant
            results@.len() + remaining@.len() == all.len(),
            remaining@ == all.subrange(results@.len() as int, all.len() as int),
            forall|i: int| 0 <= i < all.len() ==> record_wf(#[trigger] all[i]),
            forall|i: int| 0 <= i < results@.len() ==> materialized(all[i], #[trigger] results@[i]),
        decreases remaining@.len(),
    {
        let record = remaining.remove(0);
        assert(record == all[results@.len() as int]);
        let result = materialize(record);
        results.push(result);
        assert(remaining@ == all.subrange(results@.len() as int, all.len() as int));
    }
    results
}

} // verus!
