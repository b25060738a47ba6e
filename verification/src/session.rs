//! The per-decode session: one transient pixel buffer driven through the
//! fixed phase order `Idle -> BufferAttached -> Decoded -> Extracted ->
//! BufferReleased`.
//!
//! No phase may be skipped, and the buffer is released on the success and the
//! failure path alike; a decode failure surfaces only after the transient
//! buffer (and with it the attached pixel bytes) has been freed. Results
//! extracted along the way are owned values: releasing the buffer leaves them
//! untouched.

use vstd::prelude::*;

use crate::error::ScanError;
use crate::format::geometry_matches;
use crate::image::ZBarImage;
use crate::symbol::SymbolRecord;
use crate::symbol::ZBarImageScanResult;
use crate::symbol::materialized;
use crate::symbol::record_wf;

verus! {

/// Where one decode session stands.
#[derive(Debug, Copy, Clone, Eq, PartialEq, Structural)]
pub enum ScanPhase {
    /// The transient buffer exists but owns no pixel bytes yet.
    Idle,
    /// Pixel bytes have been handed over to the buffer.
    BufferAttached,
    /// The decode pass has run and its status is recorded.
    Decoded,
    /// The engine's result records have been materialized.
    Extracted,
    /// The transient buffer and its bytes are freed; only results remain.
    BufferReleased,
}

/// One decode call's worth of state: the phase, the transient buffer, the
/// results materialized so far, and whether the decode pass failed.
pub struct ScanSession {
    phase: ScanPhase,
    image: ZBarImage,
    results: Vec<ZBarImageScanResult>,
    failed: bool,
}

impl ScanSession {
    /// The session's current phase.
    pub closed spec fn phase(self) -> ScanPhase {
        self.phase
    }

    /// The transient pixel buffer the session owns.
    pub closed spec fn buffer(self) -> ZBarImage {
        self.image
    }

    /// The results materialized so far.
    pub closed spec fn results_seq(self) -> Seq<ZBarImageScanResult> {
        self.results@
    }

    /// Whether the decode pass reported a failure.
    pub closed spec fn failed(self) -> bool {
        self.failed
    }

    /// The session's internal invariant: the buffer lives exactly until the
    /// release phase.
    pub closed spec fn well_formed(self) -> bool {
        self.phase == ScanPhase::BufferReleased <==> !self.image.alive()
    }

    /// Opens a session around a fresh transient buffer with the given
    /// geometry and format tag.
    pub fn new(width: u32, height: u32, format: u32) -> (r: ScanSession)
        ensures
            r.well_formed(),
            r.phase() == ScanPhase::Idle,
            r.buffer().alive(),
            r.buffer().width() == width,
            r.buffer().height() == height,
            r.buffer().format() == format,
            r.buffer().data() is None,
            r.results_seq() == Seq::<ZBarImageScanResult>::empty(),
            !r.failed(),
    {
        let mut image = ZBarImage::new();
        image.set_size(width, height);
        image.set_format(format);
        ScanSession { phase: ScanPhase::Idle, image, results: Vec::new(), failed: false }
    }

    /// Transfers ownership of the pixel bytes into the transient buffer. The
    /// byte count must match the geometry the format tag implies; that match
    /// is the caller's documented responsibility.
    pub fn attach_data(&mut self, bytes: Vec<u8>)
        requires
            old(self).well_formed(),
            old(self).phase() == ScanPhase::Idle,
            geometry_matches(
                old(self).buffer().format(),
                old(self).buffer().width(),
                old(self).buffer().height(),
                bytes@.len(),
            ),
        ensures
            final(self).well_formed(),
            final(self).phase() == ScanPhase::BufferAttached,
            final(self).buffer().alive(),
            final(self).buffer().data() == Some(bytes@),
            final(self).buffer().width() == old(self).buffer().width(),
            final(self).buffer().height() == old(self).buffer().height(),
            final(self).buffer().format() == old(self).buffer().format(),
            final(self).results_seq() == old(self).results_seq(),
            final(self).failed() == old(self).failed(),
    {
        self.image.attach_data(bytes);
        self.phase = ScanPhase::BufferAttached;
    }

    /// Records what the decode pass returned: a negative status is a failure,
    /// zero or more is success.
    pub fn record_decode(&mut self, status: i32)
        requires
            old(self).well_formed(),
            old(self).phase() == ScanPhase::BufferAttached,
        ensures
            final(self).well_formed(),
            final(self).phase() == ScanPhase::Decoded,
            final(self).failed() == (status < 0),
            final(self).buffer() == old(self).buffer(),
            final(self).results_seq() == old(self).results_seq(),
    {
        self.failed = status < 0;
        self.phase = ScanPhase::Decoded;
    }

    /// Materializes the engine's result records, in traversal order. Only a
    /// successful decode has records to extract.
    pub fn extract(&mut self, records: Vec<SymbolRecord>)
        requires
            old(self).well_formed(),
            old(self).phase() == ScanPhase::Decoded,
            !old(self).failed(),
            forall|i: int| 0 <= i < records@.len() ==> record_wf(#[trigger] records@[i]),
        ensures
            final(self).well_formed(),
            final(self).phase() == ScanPhase::Extracted,
            final(self).results_seq().len() == records@.len(),
            forall|i: int|
                0 <= i < records@.len() ==> materialized(
                    records@[i],
                    #[trigger] final(self).results_seq()[i],
                ),
            final(self).buffer() == old(self).buffer(),
            !final(self).failed(),
    {
        self.results = crate::symbol::extract(records);
        self.phase = ScanPhase::Extracted;
    }

    /// Releases the transient buffer, freeing the attached pixel bytes. This
    /// step is unconditional: it follows a decode on the success and the
    /// failure path alike, and it leaves every already-extracted result
    /// untouched — the results own their payloads and share nothing with the
    /// buffer.
    pub fn release(&mut self)
        requires
            old(self).well_formed(),
            old(self).phase() == ScanPhase::Decoded || old(self).phase() == ScanPhase::Extracted,
        ensures
            final(self).well_formed(),
            final(self).phase() == ScanPhase::BufferReleased,
            !final(self).buffer().alive(),
            final(self).buffer().data() is None,
            final(self).results_seq() == old(self).results_seq(),
            final(self).failed() == old(self).failed(),
    {
        self.image.destroy();
        self.phase = ScanPhase::BufferReleased;
    }

    /// Closes the session: a failed decode surfaces as `DecodeFailed` with no
    /// partial results, a successful one hands the extracted results over.
    pub fn finish(self) -> (r: Result<Vec<ZBarImageScanResult>, ScanError>)
        requires
            self.well_formed(),
            self.phase() == ScanPhase::BufferReleased,
        ensures
            self.failed() ==> r == Result::<Vec<ZBarImageScanResult>, ScanError>::Err(
                ScanError::DecodeFailed,
            ),
            !self.failed() ==> (r matches Ok(v) && v@ == self.results_seq()),
    {
        if self.failed {
            Err(ScanError::DecodeFailed)
        } else {
            Ok(self.results)
        }
    }

    /// The current phase, for a caller driving the machine step by step.
    pub fn current_phase(&self) -> (r: ScanPhase)
        ensures
            r == self.phase(),
    {
        self.phase
    }
}

} // verus!
