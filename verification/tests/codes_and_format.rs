use zbar_rust::FORMAT_GRAY;
use zbar_rust::FORMAT_Y800;
use zbar_rust::VideoControlType;
use zbar_rust::ZBarColor;
use zbar_rust::ZBarConfig;
use zbar_rust::ZBarError;
use zbar_rust::ZBarModifier;
use zbar_rust::ZBarOrientation;
use zbar_rust::ZBarSymbolType;
use zbar_rust::format::pack_format;

#[test]
fn symbol_type_ordinals_match_abi() {
    assert_eq!(0, ZBarSymbolType::ZBarNone.ordinal());
    assert_eq!(1, ZBarSymbolType::ZBarPartial.ordinal());
    assert_eq!(5, ZBarSymbolType::ZBarEAN5.ordinal());
    assert_eq!(10, ZBarSymbolType::ZBarISBN10.ordinal());
    assert_eq!(13, ZBarSymbolType::ZBarEAN13.ordinal());
    assert_eq!(39, ZBarSymbolType::ZBarCode39.ordinal());
    assert_eq!(57, ZBarSymbolType::ZBarPDF417.ordinal());
    assert_eq!(64, ZBarSymbolType::ZBarQRCode.ordinal());
    assert_eq!(128, ZBarSymbolType::ZBarCode128.ordinal());
    assert_eq!(255, ZBarSymbolType::ZBarSymbol.ordinal());
    assert_eq!(512, ZBarSymbolType::ZBarAddOn2.ordinal());
    assert_eq!(1280, ZBarSymbolType::ZBarAddOn5.ordinal());
    assert_eq!(1792, ZBarSymbolType::ZBarAddOn.ordinal());
}

#[test]
fn symbol_type_from_ordinal_round_trips() {
    let all = [
        ZBarSymbolType::ZBarNone,
        ZBarSymbolType::ZBarPartial,
        ZBarSymbolType::ZBarEAN2,
        ZBarSymbolType::ZBarEAN5,
        ZBarSymbolType::ZBarEAN8,
        ZBarSymbolType::ZBarUPCE,
        ZBarSymbolType::ZBarISBN10,
        ZBarSymbolType::ZBarUPCA,
        ZBarSymbolType::ZBarEAN13,
        ZBarSymbolType::ZBarISBN13,
        ZBarSymbolType::ZBarComposite,
        ZBarSymbolType::ZBarI25,
        ZBarSymbolType::ZBarDataBar,
        ZBarSymbolType::ZBarDataBarExp,
        ZBarSymbolType::ZBarCodeBar,
        ZBarSymbolType::ZBarCode39,
        ZBarSymbolType::ZBarPDF417,
        ZBarSymbolType::ZBarQRCode,
        ZBarSymbolType::ZBarCode93,
        ZBarSymbolType::ZBarCode128,
        ZBarSymbolType::ZBarSymbol,
        ZBarSymbolType::ZBarAddOn2,
        ZBarSymbolType::ZBarAddOn5,
        ZBarSymbolType::ZBarAddOn,
    ];
    for t in all {
        assert_eq!(Some(t), ZBarSymbolType::from_ordinal(t.ordinal()));
    }
    // Gaps in the numbering and out-of-set values map to nothing.
    assert_eq!(None, ZBarSymbolType::from_ordinal(3));
    assert_eq!(None, ZBarSymbolType::from_ordinal(11));
    assert_eq!(None, ZBarSymbolType::from_ordinal(-1));
    assert_eq!(None, ZBarSymbolType::from_ordinal(100000));
}

#[test]
fn orientation_ordinals_match_abi() {
    assert_eq!(-1, ZBarOrientation::ZBarOrientUnknown.ordinal());
    assert_eq!(0, ZBarOrientation::ZBarOrientUp.ordinal());
    assert_eq!(1, ZBarOrientation::ZBarOrientRight.ordinal());
    assert_eq!(2, ZBarOrientation::ZBarOrientDown.ordinal());
    assert_eq!(3, ZBarOrientation::ZBarOrientLeft.ordinal());
    assert_eq!(
        Some(ZBarOrientation::ZBarOrientUnknown),
        ZBarOrientation::from_ordinal(-1)
    );
    assert_eq!(Some(ZBarOrientation::ZBarOrientLeft), ZBarOrientation::from_ordinal(3));
    assert_eq!(None, ZBarOrientation::from_ordinal(4));
}

#[test]
fn other_ordinals_match_abi() {
    assert_eq!(0, ZBarColor::ZBarSpace.ordinal());
    assert_eq!(1, ZBarColor::ZBarBar.ordinal());
    assert_eq!(0, ZBarError::ZBarOK.ordinal());
    assert_eq!(7, ZBarError::ZBarErrBudy.ordinal());
    assert_eq!(12, ZBarError::ZBarErrNum.ordinal());
    assert_eq!(0, ZBarConfig::ZBarCfgEnable.ordinal());
    assert_eq!(3, ZBarConfig::ZBarCfgASCII.ordinal());
    assert_eq!(32, ZBarConfig::ZBarCfgMinLen.ordinal());
    assert_eq!(33, ZBarConfig::ZBarCfgMaxLen.ordinal());
    assert_eq!(128, ZBarConfig::ZBarCfgPosition.ordinal());
    assert_eq!(256, ZBarConfig::ZBarCfgXDensity.ordinal());
    assert_eq!(257, ZBarConfig::ZBarCfgYDensity.ordinal());
    assert_eq!(0, ZBarModifier::ZBarModGS1.ordinal());
    assert_eq!(2, ZBarModifier::ZBarModNum.ordinal());
    assert_eq!(1, VideoControlType::VideoCntlInteger.ordinal());
    assert_eq!(6, VideoControlType::VideoCntlBoolean.ordinal());
}

#[test]
fn format_tags_pack_little_endian() {
    assert_eq!(808466521, FORMAT_Y800);
    assert_eq!(1497453127, FORMAT_GRAY);
    assert_eq!(FORMAT_Y800, pack_format(b'Y', b'8', b'0', b'0'));
    assert_eq!(FORMAT_GRAY, pack_format(b'G', b'R', b'A', b'Y'));
    assert_eq!(u32::from_le_bytes(*b"Y800"), pack_format(b'Y', b'8', b'0', b'0'));
}
