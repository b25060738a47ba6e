//! The closed constant sets fixed by the external engine's ABI: symbologies,
//! colors, orientations, engine error codes, configuration options, modifiers
//! and video-control kinds.
//!
//! Each set is an enum whose numeric identity lives in an `ordinal` function;
//! the values must stay numerically identical to the engine's ABI, so they are
//! stated once as specification functions and the executable conversions are
//! proved against them.

use vstd::prelude::*;

verus! {

/// The engine ABI line these constant tables are written against.
pub const ABI_MAJOR: u32 = 0;

/// The minor number of the targeted ABI line.
pub const ABI_MINOR: u32 = 10;

/// The patch number of the targeted ABI line.
pub const ABI_PATCH: u32 = 0;

/// Reports the engine ABI version this binding layer targets, in the C call
/// shape (out-parameters and a zero status). The constant sets below must
/// stay numerically identical to that ABI line.
pub fn zbar_version(major: &mut u32, minor: &mut u32, patch: &mut u32) -> (r: i32)
    ensures
        r == 0,
        *final(major) == ABI_MAJOR,
        *final(minor) == ABI_MINOR,
        *final(patch) == ABI_PATCH,
{
    *major = ABI_MAJOR;
    *minor = ABI_MINOR;
    *patch = ABI_PATCH;
    0
}

/// Pixel color classes the engine distinguishes while scanning.
#[derive(Debug, Copy, Clone, Eq, PartialEq, Structural)]
pub enum ZBarColor {
    ZBarSpace,
    ZBarBar,
}

/// The ABI value of a color class.
pub open spec fn color_ordinal(c: ZBarColor) -> int {
    match c {
        ZBarColor::ZBarSpace => 0,
        ZBarColor::ZBarBar => 1,
    }
}

impl ZBarColor {
    /// The numeric value the engine's ABI assigns to this color class.
    pub fn ordinal(&self) -> (r: isize)
        ensures
            r as int == color_ordinal(*self),
    {
        match self {
            ZBarColor::ZBarSpace => 0,
            ZBarColor::ZBarBar => 1,
        }
    }
}

/// The symbologies the engine can report, plus its sentinel and mask values.
#[derive(Debug, Copy, Clone, Eq, PartialEq, Structural)]
pub enum ZBarSymbolType {
    ZBarNone,
    ZBarPartial,
    ZBarEAN2,
    ZBarEAN5,
    ZBarEAN8,
    ZBarUPCE,
    ZBarISBN10,
    ZBarUPCA,
    ZBarEAN13,
    ZBarISBN13,
    ZBarComposite,
    ZBarI25,
    ZBarDataBar,
    ZBarDataBarExp,
    ZBarCodeBar,
    ZBarCode39,
    ZBarPDF417,
    ZBarQRCode,
    ZBarCode93,
    ZBarCode128,
    ZBarSymbol,
    ZBarAddOn2,
    ZBarAddOn5,
    ZBarAddOn,
}

/// The ABI value of a symbology.
pub open spec fn symbol_type_ordinal(t: ZBarSymbolType) -> int {
    match t {
        ZBarSymbolType::ZBarNone => 0,
        ZBarSymbolType::ZBarPartial => 1,
        ZBarSymbolType::ZBarEAN2 => 2,
        ZBarSymbolType::ZBarEAN5 => 5,
        ZBarSymbolType::ZBarEAN8 => 8,
        ZBarSymbolType::ZBarUPCE => 9,
        ZBarSymbolType::ZBarISBN10 => 10,
        ZBarSymbolType::ZBarUPCA => 12,
        ZBarSymbolType::ZBarEAN13 => 13,
        ZBarSymbolType::ZBarISBN13 => 14,
        ZBarSymbolType::ZBarComposite => 15,
        ZBarSymbolType::ZBarI25 => 25,
        ZBarSymbolType::ZBarDataBar => 34,
        ZBarSymbolType::ZBarDataBarExp => 35,
        ZBarSymbolType::ZBarCodeBar => 38,
        ZBarSymbolType::ZBarCode39 => 39,
        ZBarSymbolType::ZBarPDF417 => 57,
        ZBarSymbolType::ZBarQRCode => 64,
        ZBarSymbolType::ZBarCode93 => 93,
        ZBarSymbolType::ZBarCode128 => 128,
        ZBarSymbolType::ZBarSymbol => 0xff,
        ZBarSymbolType::ZBarAddOn2 => 0x200,
        ZBarSymbolType::ZBarAddOn5 => 0x500,
        ZBarSymbolType::ZBarAddOn => 0x700,
    }
}

/// The symbology a given ABI value stands for, if any.
pub open spec fn symbol_type_from_ordinal(n: int) -> Option<ZBarSymbolType> {
    if n == 0 {
        Some(ZBarSymbolType::ZBarNone)
    } else if n == 1 {
        Some(ZBarSymbolType::ZBarPartial)
    } else if n == 2 {
        Some(ZBarSymbolType::ZBarEAN2)
    } else if n == 5 {
        Some(ZBarSymbolType::ZBarEAN5)
    } else if n == 8 {
        Some(ZBarSymbolType::ZBarEAN8)
    } else if n == 9 {
        Some(ZBarSymbolType::ZBarUPCE)
    } else if n == 10 {
        Some(ZBarSymbolType::ZBarISBN10)
    } else if n == 12 {
        Some(ZBarSymbolType::ZBarUPCA)
    } else if n == 13 {
        Some(ZBarSymbolType::ZBarEAN13)
    } else if n == 14 {
        Some(ZBarSymbolType::ZBarISBN13)
    } else if n == 15 {
        Some(ZBarSymbolType::ZBarComposite)
    } else if n == 25 {
        Some(ZBarSymbolType::ZBarI25)
    } else if n == 34 {
        Some(ZBarSymbolType::ZBarDataBar)
    } else if n == 35 {
        Some(ZBarSymbolType::ZBarDataBarExp)
    } else if n == 38 {
        Some(ZBarSymbolType::ZBarCodeBar)
    } else if n == 39 {
        Some(ZBarSymbolType::ZBarCode39)
    } else if n == 57 {
        Some(ZBarSymbolType::ZBarPDF417)
    } else if n == 64 {
        Some(ZBarSymbolType::ZBarQRCode)
    } else if n == 93 {
        Some(ZBarSymbolType::ZBarCode93)
    } else if n == 128 {
        Some(ZBarSymbolType::ZBarCode128)
    } else if n == 0xff {
        Some(ZBarSymbolType::ZBarSymbol)
    } else if n == 0x200 {
        Some(ZBarSymbolType::ZBarAddOn2)
    } else if n == 0x500 {
        Some(ZBarSymbolType::ZBarAddOn5)
    } else if n == 0x700 {
        Some(ZBarSymbolType::ZBarAddOn)
    } else {
        None
    }
}

impl ZBarSymbolType {
    /// The numeric value the engine's ABI assigns to this symbology.
    pub fn ordinal(&self) -> (r: isize)
        ensures
            r as int == symbol_type_ordinal(*self),
    {
        match self {
            ZBarSymbolType::ZBarNone => 0,
            ZBarSymbolType::ZBarPartial => 1,
            ZBarSymbolType::ZBarEAN2 => 2,
            ZBarSymbolType::ZBarEAN5 => 5,
            ZBarSymbolType::ZBarEAN8 => 8,
            ZBarSymbolType::ZBarUPCE => 9,
            ZBarSymbolType::ZBarISBN10 => 10,
            ZBarSymbolType::ZBarUPCA => 12,
            ZBarSymbolType::ZBarEAN13 => 13,
            ZBarSymbolType::ZBarISBN13 => 14,
            ZBarSymbolType::ZBarComposite => 15,
            ZBarSymbolType::ZBarI25 => 25,
            ZBarSymbolType::ZBarDataBar => 34,
            ZBarSymbolType::ZBarDataBarExp => 35,
            ZBarSymbolType::ZBarCodeBar => 38,
            ZBarSymbolType::ZBarCode39 => 39,
            ZBarSymbolType::ZBarPDF417 => 57,
            ZBarSymbolType::ZBarQRCode => 64,
            ZBarSymbolType::ZBarCode93 => 93,
            ZBarSymbolType::ZBarCode128 => 128,
            ZBarSymbolType::ZBarSymbol => 0xff,
            ZBarSymbolType::ZBarAddOn2 => 0x200,
            ZBarSymbolType::ZBarAddOn5 => 0x500,
            ZBarSymbolType::ZBarAddOn => 0x700,
        }
    }

    /// The symbology a numeric ABI value stands for; `None` when the value is
    /// outside the closed set.
    pub fn from_ordinal(n: isize) -> (r: Option<ZBarSymbolType>)
        ensures
            r == symbol_type_from_ordinal(n as int),
    {
        if n == 0 {
            Some(ZBarSymbolType::ZBarNone)
        } else if n == 1 {
            Some(ZBarSymbolType::ZBarPartial)
        } else if n == 2 {
            Some(ZBarSymbolType::ZBarEAN2)
        } else if n == 5 {
            Some(ZBarSymbolType::ZBarEAN5)
        } else if n == 8 {
            Some(ZBarSymbolType::ZBarEAN8)
        } else if n == 9 {
            Some(ZBarSymbolType::ZBarUPCE)
        } else if n == 10 {
            Some(ZBarSymbolType::ZBarISBN10)
        } else if n == 12 {
            Some(ZBarSymbolType::ZBarUPCA)
        } else if n == 13 {
            Some(ZBarSymbolType::ZBarEAN13)
        } else if n == 14 {
            Some(ZBarSymbolType::ZBarISBN13)
        } else if n == 15 {
            Some(ZBarSymbolType::ZBarComposite)
        } else if n == 25 {
            Some(ZBarSymbolType::ZBarI25)
        } else if n == 34 {
            Some(ZBarSymbolType::ZBarDataBar)
        } else if n == 35 {
            Some(ZBarSymbolType::ZBarDataBarExp)
        } else if n == 38 {
            Some(ZBarSymbolType::ZBarCodeBar)
        } else if n == 39 {
            Some(ZBarSymbolType::ZBarCode39)
        } else if n == 57 {
            Some(ZBarSymbolType::ZBarPDF417)
        } else if n == 64 {
            Some(ZBarSymbolType::ZBarQRCode)
        } else if n == 93 {
            Some(ZBarSymbolType::ZBarCode93)
        } else if n == 128 {
            Some(ZBarSymbolType::ZBarCode128)
        } else if n == 0xff {
            Some(ZBarSymbolType::ZBarSymbol)
        } else if n == 0x200 {
            Some(ZBarSymbolType::ZBarAddOn2)
        } else if n == 0x500 {
            Some(ZBarSymbolType::ZBarAddOn5)
        } else if n == 0x700 {
            Some(ZBarSymbolType::ZBarAddOn)
        } else {
            None
        }
    }
}

/// Law: every symbology is recovered exactly from its own ABI value, so the
/// numeric encoding is lossless over the closed set.
pub proof fn lemma_symbol_type_ordinal_roundtrip(t: ZBarSymbolType)
    ensures
        symbol_type_from_ordinal(symbol_type_ordinal(t)) == Some(t),
{
}

/// Orientations the engine reports for a recognized symbol.
#[derive(Debug, Copy, Clone, Eq, PartialEq, Structural)]
pub enum ZBarOrientation {
    ZBarOrientUnknown,
    ZBarOrientUp,
    ZBarOrientRight,
    ZBarOrientDown,
    ZBarOrientLeft,
}

/// The ABI value of an orientation.
pub open spec fn orientation_ordinal(o: ZBarOrientation) -> int {
    match o {
        ZBarOrientation::ZBarOrientUnknown => -1,
        ZBarOrientation::ZBarOrientUp => 0,
        ZBarOrientation::ZBarOrientRight => 1,
        ZBarOrientation::ZBarOrientDown => 2,
        ZBarOrientation::ZBarOrientLeft => 3,
    }
}

/// The orientation a given ABI value stands for, if any.
pub open spec fn orientation_from_ordinal(n: int) -> Option<ZBarOrientation> {
    if n == -1 {
        Some(ZBarOrientation::ZBarOrientUnknown)
    } else if n == 0 {
        Some(ZBarOrientation::ZBarOrientUp)
    } else if n == 1 {
        Some(ZBarOrientation::ZBarOrientRight)
    } else if n == 2 {
        Some(ZBarOrientation::ZBarOrientDown)
    } else if n == 3 {
        Some(ZBarOrientation::ZBarOrientLeft)
    } else {
        None
    }
}

impl ZBarOrientation {
    /// The numeric value the engine's ABI assigns to this orientation.
    pub fn ordinal(&self) -> (r: isize)
        ensures
            r as int == orientation_ordinal(*self),
    {
        match self {
            ZBarOrientation::ZBarOrientUnknown => -1,
            ZBarOrientation::ZBarOrientUp => 0,
            ZBarOrientation::ZBarOrientRight => 1,
            ZBarOrientation::ZBarOrientDown => 2,
            ZBarOrientation::ZBarOrientLeft => 3,
        }
    }

    /// The orientation a numeric ABI value stands for; `None` when the value
    /// is outside the closed set.
    pub fn from_ordinal(n: isize) -> (r: Option<ZBarOrientation>)
        ensures
            r == orientation_from_ordinal(n as int),
    {
        if n == -1 {
            Some(ZBarOrientation::ZBarOrientUnknown)
        } else if n == 0 {
            Some(ZBarOrientation::ZBarOrientUp)
        } else if n == 1 {
            Some(ZBarOrientation::ZBarOrientRight)
        } else if n == 2 {
            Some(ZBarOrientation::ZBarOrientDown)
        } else if n == 3 {
            Some(ZBarOrientation::ZBarOrientLeft)
        } else {
            None
        }
    }
}

/// Law: every orientation is recovered exactly from its own ABI value.
pub proof fn lemma_orientation_ordinal_roundtrip(o: ZBarOrientation)
    ensures
        orientation_from_ordinal(orientation_ordinal(o)) == Some(o),
{
}

/// The engine's own error codes.
#[derive(Debug, Copy, Clone, Eq, PartialEq, Structural)]
pub enum ZBarError {
    ZBarOK,
    ZBarErrNoMem,
    ZBarErrInternal,
    ZBarErrUnsupported,
    ZBarErrInvalid,
    ZBarErrSystem,
    ZBarErrLocking,
    ZBarErrBudy,
    ZBarErrXDisplay,
    ZBarErrXProto,
    ZBarErrClosed,
    ZBarErrWinAPI,
    ZBarErrNum,
}

/// The ABI value of an engine error code.
pub open spec fn error_ordinal(e: ZBarError) -> int {
    match e {
        ZBarError::ZBarOK => 0,
        ZBarError::ZBarErrNoMem => 1,
        ZBarError::ZBarErrInternal => 2,
        ZBarError::ZBarErrUnsupported => 3,
        ZBarError::ZBarErrInvalid => 4,
        ZBarError::ZBarErrSystem => 5,
        ZBarError::ZBarErrLocking => 6,
        ZBarError::ZBarErrBudy => 7,
        ZBarError::ZBarErrXDisplay => 8,
        ZBarError::ZBarErrXProto => 9,
        ZBarError::ZBarErrClosed => 10,
        ZBarError::ZBarErrWinAPI => 11,
        ZBarError::ZBarErrNum => 12,
    }
}

impl ZBarError {
    /// The numeric value the engine's ABI assigns to this error code.
    pub fn ordinal(&self) -> (r: isize)
        ensures
            r as int == error_ordinal(*self),
    {
        match self {
            ZBarError::ZBarOK => 0,
            ZBarError::ZBarErrNoMem => 1,
            ZBarError::ZBarErrInternal => 2,
            ZBarError::ZBarErrUnsupported => 3,
            ZBarError::ZBarErrInvalid => 4,
            ZBarError::ZBarErrSystem => 5,
            ZBarError::ZBarErrLocking => 6,
            ZBarError::ZBarErrBudy => 7,
            ZBarError::ZBarErrXDisplay => 8,
            ZBarError::ZBarErrXProto => 9,
            ZBarError::ZBarErrClosed => 10,
            ZBarError::ZBarErrWinAPI => 11,
            ZBarError::ZBarErrNum => 12,
        }
    }
}

/// Configuration options a scanner accepts for a symbology.
#[derive(Debug, Copy, Clone, Eq, PartialEq, Structural)]
pub enum ZBarConfig {
    ZBarCfgEnable,
    ZBarCfgAddCheck,
    ZBarCfgEmitCheck,
    ZBarCfgASCII,
    ZBarCfgNum,
    ZBarCfgMinLen,
    ZBarCfgMaxLen,
    ZBarCfgPosition,
    ZBarCfgXDensity,
    ZBarCfgYDensity,
}

/// The ABI value of a configuration option.
pub open spec fn config_ordinal(c: ZBarConfig) -> int {
    match c {
        ZBarConfig::ZBarCfgEnable => 0,
        ZBarConfig::ZBarCfgAddCheck => 1,
        ZBarConfig::ZBarCfgEmitCheck => 2,
        ZBarConfig::ZBarCfgASCII => 3,
        ZBarConfig::ZBarCfgNum => 4,
        ZBarConfig::ZBarCfgMinLen => 0x20,
        ZBarConfig::ZBarCfgMaxLen => 0x21,
        ZBarConfig::ZBarCfgPosition => 0x80,
        ZBarConfig::ZBarCfgXDensity => 0x100,
        ZBarConfig::ZBarCfgYDensity => 0x101,
    }
}

impl ZBarConfig {
    /// The numeric value the engine's ABI assigns to this option.
    pub fn ordinal(&self) -> (r: isize)
        ensures
            r as int == config_ordinal(*self),
    {
        match self {
            ZBarConfig::ZBarCfgEnable => 0,
            ZBarConfig::ZBarCfgAddCheck => 1,
            ZBarConfig::ZBarCfgEmitCheck => 2,
            ZBarConfig::ZBarCfgASCII => 3,
            ZBarConfig::ZBarCfgNum => 4,
            ZBarConfig::ZBarCfgMinLen => 0x20,
            ZBarConfig::ZBarCfgMaxLen => 0x21,
            ZBarConfig::ZBarCfgPosition => 0x80,
            ZBarConfig::ZBarCfgXDensity => 0x100,
            ZBarConfig::ZBarCfgYDensity => 0x101,
        }
    }
}

/// Symbol modifier flags the engine reports.
#[derive(Debug, Copy, Clone, Eq, PartialEq, Structural)]
pub enum ZBarModifier {
    ZBarModGS1,
    ZBarModAIM,
    ZBarModNum,
}

/// The ABI value of a modifier flag.
pub open spec fn modifier_ordinal(m: ZBarModifier) -> int {
    match m {
        ZBarModifier::ZBarModGS1 => 0,
        ZBarModifier::ZBarModAIM => 1,
        ZBarModifier::ZBarModNum => 2,
    }
}

impl ZBarModifier {
    /// The numeric value the engine's ABI assigns to this modifier.
    pub fn ordinal(&self) -> (r: isize)
        ensures
            r as int == modifier_ordinal(*self),
    {
        match self {
            ZBarModifier::ZBarModGS1 => 0,
            ZBarModifier::ZBarModAIM => 1,
            ZBarModifier::ZBarModNum => 2,
        }
    }
}

/// Kinds of video device controls the engine's video layer exposes.
#[derive(Debug, Copy, Clone, Eq, PartialEq, Structural)]
pub enum VideoControlType {
    VideoCntlInteger,
    VideoCntlMenu,
    VideoCntlButton,
    VideoCntlInteger64,
    VideoCntlString,
    VideoCntlBoolean,
}

/// The ABI value of a video control kind.
pub open spec fn video_control_ordinal(v: VideoControlType) -> int {
    match v {
        VideoControlType::VideoCntlInteger => 1,
        VideoControlType::VideoCntlMenu => 2,
        VideoControlType::VideoCntlButton => 3,
        VideoControlType::VideoCntlInteger64 => 4,
        VideoControlType::VideoCntlString => 5,
        VideoControlType::VideoCntlBoolean => 6,
    }
}

impl VideoControlType {
    /// The numeric value the engine's ABI assigns to this control kind.
    pub fn ordinal(&self) -> (r: isize)
        ensures
            r as int == video_control_ordinal(*self),
    {
        match self {
            VideoControlType::VideoCntlInteger => 1,
            VideoControlType::VideoCntlMenu => 2,
            VideoControlType::VideoCntlButton => 3,
            VideoControlType::VideoCntlInteger64 => 4,
            VideoControlType::VideoCntlString => 5,
            VideoControlType::VideoCntlBoolean => 6,
        }
    }
}

} // verus!
