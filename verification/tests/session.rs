use rav1e_js::ConfigError;
use rav1e_js::Dimensions;
use rav1e_js::EncoderSession;
use rav1e_js::FlowStatus;
use rav1e_js::PixelData;
use rav1e_js::SessionError;

fn gray(dim: Dimensions) -> PixelData {
    let pixels = (dim.width as usize) * (dim.height as usize);
    let mut data = Vec::with_capacity(pixels * 4);
    for _ in 0..pixels {
        data.extend_from_slice(&[128, 128, 128, 255]);
    }
    PixelData::new(data, dim).unwrap()
}

#[test]
fn construction_rejects_out_of_range_dimensions() {
    for (w, h) in [(0u32, 64u32), (64, 0), (8, 64), (64, 8), (70000, 64)] {
        let r = EncoderSession::new(Dimensions::new(w, h), 10);
        assert!(matches!(r.err(), Some(ConfigError::Invalid)), "{}x{} must be rejected", w, h);
    }
}

#[test]
fn construction_accepts_boundary_dimensions() {
    assert!(EncoderSession::new(Dimensions::new(16, 16), 10).is_ok());
    assert!(EncoderSession::new(Dimensions::new(64, 64), 10).is_ok());
}

#[test]
fn fresh_session_accepts_a_frame() {
    let dim = Dimensions::new(64, 64);
    let mut session = EncoderSession::new(dim, 10).unwrap();
    let frame = gray(dim).create_frame(&session);
    assert_eq!(session.submit(frame), Ok(FlowStatus::Accepted));
    assert!(!session.is_flushed());
}

#[test]
fn post_flush_submissions_are_rejected_while_packets_stay_drainable() {
    let dim = Dimensions::new(64, 64);
    let mut session = EncoderSession::new(dim, 10).unwrap();
    let frame = gray(dim).create_frame(&session);
    assert_eq!(session.submit(frame), Ok(FlowStatus::Accepted));
    session.flush();
    assert!(session.is_flushed());

    // any further submission must fail
    let late = session.new_frame();
    assert_eq!(session.submit(late), Err(SessionError::AfterFlush));

    // draining must still be possible until no packets remain
    let mut packets = 0;
    for _ in 0..100 {
        match session.drain_packet().expect("draining stays available after flush") {
            Some(_) => packets += 1,
            None => break,
        }
    }
    assert!(packets >= 1, "the buffered frame must still come out");

    // and submission stays rejected afterwards
    let later = session.new_frame();
    assert_eq!(session.submit(later), Err(SessionError::AfterFlush));
}

#[test]
fn new_frame_submits_cleanly() {
    let dim = Dimensions::new(32, 32);
    let mut session = EncoderSession::new(dim, 10).unwrap();
    let blank = session.new_frame();
    assert_eq!(session.submit(blank), Ok(FlowStatus::Accepted));
}
