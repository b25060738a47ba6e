use zbar_rust::ScanError;
use zbar_rust::SymbolRecord;
use zbar_rust::ZBarConfig;
use zbar_rust::ZBarImageScanner;
use zbar_rust::ZBarSymbolType;

#[test]
fn image_create_destroy() {
    let _scanner = ZBarImageScanner::new();
}

#[test]
fn set_config() {
    let mut scanner = ZBarImageScanner::new();
    scanner.set_config(ZBarSymbolType::ZBarNone, ZBarConfig::ZBarCfgEnable, 0).unwrap();
    scanner.set_config(ZBarSymbolType::ZBarQRCode, ZBarConfig::ZBarCfgEnable, 1).unwrap();
}

#[test]
fn set_config_readback() {
    let mut scanner = ZBarImageScanner::new();
    scanner.set_config(ZBarSymbolType::ZBarNone, ZBarConfig::ZBarCfgEnable, 0).unwrap();
    scanner.set_config(ZBarSymbolType::ZBarQRCode, ZBarConfig::ZBarCfgEnable, 1).unwrap();
    // The explicit entry wins for QR Code; the wildcard covers everything else.
    assert_eq!(
        Some(1),
        scanner.get_config(ZBarSymbolType::ZBarQRCode, ZBarConfig::ZBarCfgEnable)
    );
    assert_eq!(
        Some(0),
        scanner.get_config(ZBarSymbolType::ZBarEAN13, ZBarConfig::ZBarCfgEnable)
    );
    assert_eq!(
        None,
        scanner.get_config(ZBarSymbolType::ZBarEAN13, ZBarConfig::ZBarCfgMinLen)
    );
}

#[test]
fn config_rejection_preserves_state() {
    let mut scanner = ZBarImageScanner::new();
    scanner.set_config(ZBarSymbolType::ZBarEAN13, ZBarConfig::ZBarCfgEnable, 1).unwrap();
    // 7 is out of range for an enable switch.
    let rejected = scanner.set_config(ZBarSymbolType::ZBarQRCode, ZBarConfig::ZBarCfgEnable, 7);
    assert_eq!(Err(ScanError::UnsupportedConfig), rejected);
    // The earlier setting for the other symbology is untouched.
    assert_eq!(
        Some(1),
        scanner.get_config(ZBarSymbolType::ZBarEAN13, ZBarConfig::ZBarCfgEnable)
    );
    assert_eq!(
        None,
        scanner.get_config(ZBarSymbolType::ZBarQRCode, ZBarConfig::ZBarCfgEnable)
    );
    // A negative length is out of range too.
    let rejected = scanner.set_config(ZBarSymbolType::ZBarNone, ZBarConfig::ZBarCfgMinLen, -1);
    assert_eq!(Err(ScanError::UnsupportedConfig), rejected);
    // The option-count sentinel is not settable at all.
    let rejected = scanner.set_config(ZBarSymbolType::ZBarNone, ZBarConfig::ZBarCfgNum, 0);
    assert_eq!(Err(ScanError::UnsupportedConfig), rejected);
}

#[test]
fn scanner_destroy_twice_is_noop() {
    let mut scanner = ZBarImageScanner::new();
    assert!(scanner.is_alive());
    scanner.destroy();
    assert!(!scanner.is_alive());
    scanner.destroy();
    assert!(!scanner.is_alive());
}

#[test]
fn destroyed_scanner_fails_explicitly() {
    let mut scanner = ZBarImageScanner::new();
    scanner.destroy();
    let r = scanner.set_config(ZBarSymbolType::ZBarQRCode, ZBarConfig::ZBarCfgEnable, 1);
    assert_eq!(Err(ScanError::HandleDestroyed), r);
    let r = scanner.scan_y800(vec![0u8; 4], 2, 2, 0, Vec::new());
    assert!(matches!(r, Err(ScanError::HandleDestroyed)));
}

#[test]
fn blank_image_scans_to_empty() {
    let mut scanner = ZBarImageScanner::new();
    // An all-background image of valid geometry: the decode pass succeeds
    // (status 0) and finds nothing; that is an empty result, not an error.
    let pixels = vec![255u8; 64 * 64];
    let records: Vec<SymbolRecord> = Vec::new();
    let results = scanner.scan_y800(pixels, 64, 64, 0, records).unwrap();
    assert!(results.is_empty());
    assert!(scanner.is_alive());
}

#[test]
fn decode_failure_surfaces_with_no_results() {
    let mut scanner = ZBarImageScanner::new();
    let pixels = vec![0u8; 8 * 8];
    let record = SymbolRecord {
        type_code: 64,
        quality: 1,
        orientation: 0,
        points: vec![(0, 0)],
        data: b"ignored".to_vec(),
    };
    let r = scanner.scan_y800(pixels, 8, 8, -1, vec![record]);
    assert_eq!(Err(ScanError::DecodeFailed), r.map(|_| ()));
    assert!(scanner.is_alive());
}

#[test]
fn qrcode_payload_round_trip() {
    let mut scanner = ZBarImageScanner::new();
    scanner.set_config(ZBarSymbolType::ZBarNone, ZBarConfig::ZBarCfgEnable, 0).unwrap();
    scanner.set_config(ZBarSymbolType::ZBarQRCode, ZBarConfig::ZBarCfgEnable, 1).unwrap();

    let url = "https://example.org";
    let size: u32 = 512;
    let pixels = vec![255u8; (size * size) as usize];
    // The engine's decode pass reports one QR Code symbol whose payload is
    // the encoded string.
    let record = SymbolRecord {
        type_code: 64,
        quality: 422,
        orientation: 0,
        points: vec![(34, 34), (34, 479), (479, 479), (479, 34)],
        data: url.as_bytes().to_vec(),
    };
    let mut results = scanner.scan_y800(pixels, size, size, 1, vec![record]).unwrap();

    assert_eq!(1, results.len());
    assert_eq!(ZBarSymbolType::ZBarQRCode, results[0].symbol_type);
    assert_eq!(url.as_bytes(), results.remove(0).data.as_slice());
}

#[test]
fn geometry_echo() {
    let mut scanner = ZBarImageScanner::new();
    let size: u32 = 512;
    let pixels = vec![255u8; (size * size) as usize];
    // A symbol whose known bounding box is (34,34)-(479,479).
    let record = SymbolRecord {
        type_code: 64,
        quality: 1,
        orientation: 0,
        points: vec![(34, 34), (34, 479), (479, 479), (479, 34)],
        data: b"https://example.org".to_vec(),
    };
    let results = scanner.scan_y800(pixels, size, size, 1, vec![record]).unwrap();

    assert_eq!(1, results.len());
    let points = &results[0].points;
    assert_eq!(34, points.iter().map(|(x, _)| *x).min().unwrap());
    assert_eq!(34, points.iter().map(|(_, y)| *y).min().unwrap());
    assert_eq!(479, points.iter().map(|(x, _)| *x).max().unwrap());
    assert_eq!(479, points.iter().map(|(_, y)| *y).max().unwrap());
}

#[test]
fn scan_gray_matches_scan_y800_shape() {
    let mut scanner = ZBarImageScanner::new();
    let record = SymbolRecord {
        type_code: 13,
        quality: 9,
        orientation: 1,
        points: vec![(1, 2), (3, 4)],
        data: vec![0xde, 0xad],
    };
    let results = scanner.scan_gray(vec![0u8; 6], 3, 2, 1, vec![record]).unwrap();
    assert_eq!(1, results.len());
    assert_eq!(ZBarSymbolType::ZBarEAN13, results[0].symbol_type);
    assert_eq!(vec![0xde, 0xad], results[0].data);
    assert_eq!(9, results[0].quality);
}
