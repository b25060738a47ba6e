//! The Scanner Handle: one engine instance that owns configuration state and
//! drives decode passes.
//!
//! Configuration is a journal of accepted `(symbology, option, value)`
//! triples; the effective value of an option for a symbology is the last
//! accepted entry that applies to it, where the `ZBarNone` symbology is the
//! wildcard that applies to every symbology. A rejected triple changes
//! nothing. The handle is destroyed exactly once and is inert afterwards:
//! later calls fail explicitly without reaching the engine.

use vstd::prelude::*;

use crate::codes::ZBarConfig;
use crate::codes::ZBarSymbolType;
use crate::error::ScanError;
use crate::format::FORMAT_GRAY;
use crate::format::FORMAT_Y800;
use crate::format::geometry_matches;
use crate::session::ScanSession;
use crate::symbol::SymbolRecord;
use crate::symbol::ZBarImageScanResult;
use crate::symbol::materialized;
use crate::symbol::record_wf;

verus! {

/// One accepted configuration triple.
#[derive(Debug, Copy, Clone, Eq, PartialEq, Structural)]
pub struct ConfigEntry {
    /// The symbology the entry tunes; `ZBarNone` tunes all of them.
    pub symbology: ZBarSymbolType,
    /// The option being set.
    pub config: ZBarConfig,
    /// The value it was set to.
    pub value: isize,
}

/// Whether an entry applies to a symbology/option pair: the option matches
/// and the entry names that symbology or the wildcard.
pub open spec fn entry_applies(e: ConfigEntry, symbology: ZBarSymbolType, config: ZBarConfig) -> bool {
    e.config == config && (e.symbology == symbology || e.symbology == ZBarSymbolType::ZBarNone)
}

/// The effective value of an option for a symbology under a journal of
/// accepted entries: the last entry that applies, if any.
pub open spec fn config_lookup(
    entries: Seq<ConfigEntry>,
    symbology: ZBarSymbolType,
    config: ZBarConfig,
) -> Option<isize>
    decreases entries.len(),
{
    if entries.len() == 0 {
        None
    } else if entry_applies(entries.last(), symbology, config) {
        Some(entries.last().value)
    } else {
        config_lookup(entries.drop_last(), symbology, config)
    }
}

/// Which values an option accepts: the enable, check-digit, ASCII and
/// position options are switches taking 0 or 1; the length and density
/// options take any value the engine's 32-bit option word can hold; the
/// option-count sentinel is not settable at all.
pub open spec fn config_value_ok(config: ZBarConfig, value: isize) -> bool {
    match config {
        ZBarConfig::ZBarCfgEnable => value == 0 || value == 1,
        ZBarConfig::ZBarCfgAddCheck => value == 0 || value == 1,
        ZBarConfig::ZBarCfgEmitCheck => value == 0 || value == 1,
        ZBarConfig::ZBarCfgASCII => value == 0 || value == 1,
        ZBarConfig::ZBarCfgPosition => value == 0 || value == 1,
        ZBarConfig::ZBarCfgNum => false,
        ZBarConfig::ZBarCfgMinLen => 0 <= value && value <= 0x7fff_ffff,
        ZBarConfig::ZBarCfgMaxLen => 0 <= value && value <= 0x7fff_ffff,
        ZBarConfig::ZBarCfgXDensity => 0 <= value && value <= 0x7fff_ffff,
        ZBarConfig::ZBarCfgYDensity => 0 <= value && value <= 0x7fff_ffff,
    }
}

/// Law: appending an entry that does not apply to a symbology/option pair
/// leaves that pair's effective value exactly as it was — one symbology's
/// tuning never disturbs another's.
pub proof fn lemma_config_other_preserved(
    entries: Seq<ConfigEntry>,
    e: ConfigEntry,
    symbology: ZBarSymbolType,
    config: ZBarConfig,
)
    requires
        !entry_applies(e, symbology, config),
    ensures
        config_lookup(entries.push(e), symbology, config) == config_lookup(
            entries,
            symbology,
            config,
        ),
{
    assert(entries.push(e).last() == e);
    assert(entries.push(e).drop_last() =~= entries);
}

/// Decides whether an option accepts a value, exactly as `config_value_ok`
/// states it.
pub fn config_value_accepted(config: ZBarConfig, value: isize) -> (r: bool)
    ensures
        r == config_value_ok(config, value),
{
    match config {
        ZBarConfig::ZBarCfgEnable => value == 0 || value == 1,
        ZBarConfig::ZBarCfgAddCheck => value == 0 || value == 1,
        ZBarConfig::ZBarCfgEmitCheck => value == 0 || value == 1,
        ZBarConfig::ZBarCfgASCII => value == 0 || value == 1,
        ZBarConfig::ZBarCfgPosition => value == 0 || value == 1,
        ZBarConfig::ZBarCfgNum => false,
        ZBarConfig::ZBarCfgMinLen => 0 <= value && value <= 0x7fff_ffff,
        ZBarConfig::ZBarCfgMaxLen => 0 <= value && value <= 0x7fff_ffff,
        ZBarConfig::ZBarCfgXDensity => 0 <= value && value <= 0x7fff_ffff,
        ZBarConfig::ZBarCfgYDensity => 0 <= value && value <= 0x7fff_ffff,
    }
}

/// Law: appending an entry that does apply to a symbology/option pair makes
/// it the pair's effective value — the journal's last applicable entry wins.
pub proof fn lemma_config_applied(
    entries: Seq<ConfigEntry>,
    e: ConfigEntry,
    symbology: ZBarSymbolType,
    config: ZBarConfig,
)
    requires
        entry_applies(e, symbology, config),
    ensures
        config_lookup(entries.push(e), symbology, config) == Some(e.value),
{
    assert(entries.push(e).last() == e);
}

/// One engine scanner instance with its configuration journal.
pub struct ZBarImageScanner {
    live: bool,
    config: Vec<ConfigEntry>,
}

impl ZBarImageScanner {
    /// Whether the underlying engine instance has not been released yet.
    pub closed spec fn alive(self) -> bool {
        self.live
    }

    /// The journal of accepted configuration entries, oldest first.
    pub closed spec fn config_seq(self) -> Seq<ConfigEntry> {
        self.config@
    }

    /// Allocates a fresh scanner: alive, with no configuration applied yet.
    pub fn new() -> (r: ZBarImageScanner)
        ensures
            r.alive(),
            r.config_seq() == Seq::<ConfigEntry>::empty(),
    {
        ZBarImageScanner { live: true, config: Vec::new() }
    }

    /// Applies one tuning triple to the scanner's persistent state. A value
    /// outside the option's range is rejected as `UnsupportedConfig` and
    /// changes nothing; a call on a destroyed handle fails explicitly without
    /// reaching the engine. An accepted triple is appended to the journal and
    /// affects all later decode passes.
    pub fn set_config(
        &mut self,
        symbology: ZBarSymbolType,
        config: ZBarConfig,
        value: isize,
    ) -> (r: Result<(), ScanError>)
        ensures
            final(self).alive() == old(self).alive(),
            !old(self).alive() ==> r == Result::<(), ScanError>::Err(ScanError::HandleDestroyed)
                && final(self).config_seq() == old(self).config_seq(),
            old(self).alive() && !config_value_ok(config, value) ==> r == Result::<
                (),
                ScanError,
            >::Err(ScanError::UnsupportedConfig) && final(self).config_seq() == old(
                self,
            ).config_seq(),
            old(self).alive() && config_value_ok(config, value) ==> r == Result::<
                (),
                ScanError,
            >::Ok(()) && final(self).config_seq() == old(self).config_seq().push(
                ConfigEntry { symbology, config, value },
            ),
    {
        if !self.live {
            return Err(ScanError::HandleDestroyed);
        }
        if !config_value_accepted(config, value) {
            return Err(ScanError::UnsupportedConfig);
        }
        self.config.push(ConfigEntry { symbology, config, value });
        Ok(())
    }

    /// The effective value of an option for a symbology, read back from the
    /// journal: the last accepted entry that applies, wildcard included.
    pub fn get_config(&self, symbology: ZBarSymbolType, config: ZBarConfig) -> (r: Option<isize>)
        ensures
            r == config_lookup(self.config_seq(), symbology, config),
    {
        let mut i: usize = self.config.len();
        proof {
            assert(self.config@.take(i as int) =~= self.config@);
        }
        while i > 0
            invariant
                i <= self.config@.len(),
                config_lookup(self.config@, symbology, config) == config_lookup(
                    self.config@.take(i as int),
                    symbology,
                    config,
                ),
            decreases i,
        {
            i = i - 1;
            let e = self.config[i];
            proof {
                assert(self.config@.take(i as int + 1).last() == self.config@[i as int]);
                assert(self.config@.take(i as int + 1).drop_last() =~= self.config@.take(i as int));
            }
            if e.config == config && (e.symbology == symbology || e.symbology
                == ZBarSymbolType::ZBarNone) {
                return Some(e.value);
            }
        }
        None
    }

    /// Releases the engine instance exactly once; a second call is a no-op,
    /// never a double free. The destroyed handle keeps its journal for
    /// inspection but accepts no further engine work.
    pub fn destroy(&mut self)
        ensures
            !final(self).alive(),
            final(self).config_seq() == old(self).config_seq(),
            !old(self).alive() ==> *final(self) == *old(self),
    {
        if self.live {
            self.live = false;
        }
    }

    /// Whether the handle is still alive.
    pub fn is_alive(&self) -> (r: bool)
        ensures
            r == self.alive(),
    {
        self.live
    }

    /// One decode pass over single-channel 8-bit luma pixels: `scan` with the
    /// "Y800" format tag; there is no algorithmic difference, only the tag.
    pub fn scan_y800(
        &mut self,
        data: Vec<u8>,
        width: u32,
        height: u32,
        status: i32,
        records: Vec<SymbolRecord>,
    ) -> (r: Result<Vec<ZBarImageScanResult>, ScanError>)
        requires
            data@.len() == width * height,
            forall|i: int| 0 <= i < records@.len() ==> record_wf(#[trigger] records@[i]),
        ensures
            final(self).alive() == old(self).alive(),
            final(self).config_seq() == old(self).config_seq(),
            !old(self).alive() ==> r == Result::<Vec<ZBarImageScanResult>, ScanError>::Err(
                ScanError::HandleDestroyed,
            ),
            old(self).alive() && status < 0 ==> r == Result::<
                Vec<ZBarImageScanResult>,
                ScanError,
            >::Err(ScanError::DecodeFailed),
            old(self).alive() && status >= 0 ==> (r matches Ok(v) && v@.len() == records@.len()
                && forall|i: int|
                0 <= i < records@.len() ==> materialized(records@[i], #[trigger] v@[i])),
    {
        self.scan(data, width, height, FORMAT_Y800, status, records)
    }

    /// One decode pass over raw 8-bit grayscale pixels: `scan` with the
    /// "GRAY" format tag.
    pub fn scan_gray(
        &mut self,
        data: Vec<u8>,
        width: u32,
        height: u32,
        status: i32,
        records: Vec<SymbolRecord>,
    ) -> (r: Result<Vec<ZBarImageScanResult>, ScanError>)
        requires
            data@.len() == width * height,
            forall|i: int| 0 <= i < records@.len() ==> record_wf(#[trigger] records@[i]),
        ensures
            final(self).alive() == old(self).alive(),
            final(self).config_seq() == old(self).config_seq(),
            !old(self).alive() ==> r == Result::<Vec<ZBarImageScanResult>, ScanError>::Err(
                ScanError::HandleDestroyed,
            ),
            old(self).alive() && status < 0 ==> r == Result::<
                Vec<ZBarImageScanResult>,
                ScanError,
            >::Err(ScanError::DecodeFailed),
            old(self).alive() && status >= 0 ==> (r matches Ok(v) && v@.len() == records@.len()
                && forall|i: int|
                0 <= i < records@.len() ==> materialized(records@[i], #[trigger] v@[i])),
    {
        self.scan(data, width, height, FORMAT_GRAY, status, records)
    }

    /// The primary operation: one decode pass. A transient pixel buffer takes
    /// ownership of `data` under the given geometry and format tag, the
    /// decode outcome the engine reported — its `status` and the `records`
    /// walked out of its result list — is folded into caller-owned results,
    /// and the transient buffer is released on the success and the failure
    /// path alike. A negative status is `DecodeFailed` with no partial
    /// results; finding no symbols is success with an empty result list.
    pub fn scan(
        &mut self,
        data: Vec<u8>,
        width: u32,
        height: u32,
        format: u32,
        status: i32,
        records: Vec<SymbolRecord>,
    ) -> (r: Result<Vec<ZBarImageScanResult>, ScanError>)
        requires
            geometry_matches(format, width, height, data@.len()),
            forall|i: int| 0 <= i < records@.len() ==> record_wf(#[trigger] records@[i]),
        ensures
            final(self).alive() == old(self).alive(),
            final(self).config_seq() == old(self).config_seq(),
            !old(self).alive() ==> r == Result::<Vec<ZBarImageScanResult>, ScanError>::Err(
                ScanError::HandleDestroyed,
            ),
            old(self).alive() && status < 0 ==> r == Result::<
                Vec<ZBarImageScanResult>,
                ScanError,
            >::Err(ScanError::DecodeFailed),
            old(self).alive() && status >= 0 ==> (r matches Ok(v) && v@.len() == records@.len()
                && forall|i: int|
                0 <= i < records@.len() ==> materialized(records@[i], #[trigger] v@[i])),
    {
        if !self.live {
            return Err(ScanError::HandleDestroyed);
        }
        let mut session = ScanSession::new(width, height, format);
        session.attach_data(data);
        session.record_decode(status);
        if status >= 0 {
            session.extract(records);
        }
        session.release();
        session.finish()
    }
}

impl Default for ZBarImageScanner {
    /// The default scanner is a fresh one, exactly as `new` makes it.
    fn default() -> (r: Self)
        ensures
            r.alive(),
            r.config_seq() == Seq::<ConfigEntry>::empty(),
    {
        ZBarImageScanner::new()
    }
}

} // verus!
