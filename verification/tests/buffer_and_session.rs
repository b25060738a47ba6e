use zbar_rust::FORMAT_Y800;
use zbar_rust::ScanError;
use zbar_rust::ScanPhase;
use zbar_rust::ScanSession;
use zbar_rust::SymbolRecord;
use zbar_rust::ZBarImage;
use zbar_rust::ZBarSymbolType;
use zbar_rust::error::classify_create;
use zbar_rust::error::classify_decode;

#[test]
fn image_destroy_twice_is_noop() {
    let mut image = ZBarImage::new();
    assert!(image.is_alive());
    image.destroy();
    assert!(!image.is_alive());
    image.destroy();
    assert!(!image.is_alive());
}

#[test]
fn destroyed_image_is_inert() {
    let mut image = ZBarImage::new();
    image.set_size(4, 4);
    image.set_format(FORMAT_Y800);
    image.destroy();
    // Mutators on a destroyed handle are no-ops.
    image.set_format(0);
    image.set_size(99, 99);
    image.set_ref(5);
    assert_eq!(FORMAT_Y800, image.get_format());
    assert_eq!(4, image.get_width());
    assert_eq!(4, image.get_height());
    assert!(!image.is_alive());
}

#[test]
fn dropping_last_reference_releases_image() {
    let mut image = ZBarImage::new();
    image.set_ref(1);
    assert!(image.is_alive());
    image.set_ref(-2);
    assert!(!image.is_alive());
}

#[test]
fn session_walks_every_phase_and_keeps_results() {
    let payload = b"https://example.org".to_vec();
    let pixels = vec![255u8; 16];

    let mut session = ScanSession::new(4, 4, FORMAT_Y800);
    assert_eq!(ScanPhase::Idle, session.current_phase());

    session.attach_data(pixels);
    assert_eq!(ScanPhase::BufferAttached, session.current_phase());

    session.record_decode(1);
    assert_eq!(ScanPhase::Decoded, session.current_phase());

    let record = SymbolRecord {
        type_code: 64,
        quality: 7,
        orientation: 2,
        points: vec![(8, 8)],
        data: payload.clone(),
    };
    session.extract(vec![record]);
    assert_eq!(ScanPhase::Extracted, session.current_phase());

    // Releasing the buffer frees the attached pixel bytes; the extracted
    // result owns its payload and stays valid and unchanged.
    session.release();
    assert_eq!(ScanPhase::BufferReleased, session.current_phase());

    let results = session.finish().unwrap();
    assert_eq!(1, results.len());
    assert_eq!(ZBarSymbolType::ZBarQRCode, results[0].symbol_type);
    assert_eq!(payload, results[0].data);
    assert_eq!(7, results[0].quality);
}

#[test]
fn failed_session_still_releases_buffer() {
    let mut session = ScanSession::new(2, 2, FORMAT_Y800);
    session.attach_data(vec![0u8; 4]);
    session.record_decode(-5);
    session.release();
    assert_eq!(ScanPhase::BufferReleased, session.current_phase());
    assert_eq!(Err(ScanError::DecodeFailed), session.finish().map(|_| ()));
}

#[test]
fn status_translation() {
    assert_eq!(Ok(()), classify_create(true));
    assert_eq!(Err(ScanError::InitializationFailed), classify_create(false));
    assert_eq!(Ok(()), classify_decode(0));
    assert_eq!(Ok(()), classify_decode(3));
    assert_eq!(Err(ScanError::DecodeFailed), classify_decode(-1));
}
