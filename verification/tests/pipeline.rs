use rav1e_js::CaptureScheduler;
use rav1e_js::Dimensions;
use rav1e_js::EncoderSession;
use rav1e_js::FrameKind;
use rav1e_js::PixelData;
use rav1e_js::SourceStatus;
use rav1e_js::TickAction;

fn gray(dim: Dimensions) -> PixelData {
    let pixels = (dim.width as usize) * (dim.height as usize);
    let mut data = Vec::with_capacity(pixels * 4);
    for _ in 0..pixels {
        data.extend_from_slice(&[128, 128, 128, 255]);
    }
    PixelData::new(data, dim).unwrap()
}

#[test]
fn end_to_end_gray_frame_yields_one_shown_packet() {
    let dim = Dimensions::new(64, 64);

    // capture one solid mid-gray snapshot per tick
    let mut sched = CaptureScheduler::new(dim);
    sched.on_play();
    let live = SourceStatus { paused: false, ended: false, ready: true };
    assert_eq!(sched.tick(live), TickAction::Capture);
    sched.capture(gray(dim));

    // the snapshot converts to uniform luma and neutral chroma
    let frame = gray(dim).to_i444();
    let y0 = frame.y[0];
    assert!(frame.y.iter().all(|&y| y == y0));
    assert!(frame.u.iter().all(|&u| u == 128));
    assert!(frame.v.iter().all(|&v| v == 128));

    // feed the queue to the encoder and flush
    let mut session = EncoderSession::new(dim, 10).unwrap();
    let outcome = rav1e_js::pipeline::finish_and_encode(&mut sched, &mut session);
    assert_eq!(outcome.accepted, 1);
    assert_eq!(outcome.saturated, 0);
    session.flush();

    // exactly one packet comes out, holding the one shown key frame
    let mut packets = Vec::new();
    for _ in 0..100 {
        match session.drain_packet().expect("no fatal encoder status") {
            Some(p) => packets.push(p),
            None => break,
        }
    }
    assert_eq!(packets.len(), 1);
    assert_eq!(packets[0].kind, FrameKind::Key);
    assert_eq!(packets[0].input_frameno, 0);
    assert!(!packets[0].data.is_empty());
}

fn solid(dim: Dimensions, rgba: [u8; 4]) -> PixelData {
    let pixels = (dim.width as usize) * (dim.height as usize);
    let mut data = Vec::with_capacity(pixels * 4);
    for _ in 0..pixels {
        data.extend_from_slice(&rgba);
    }
    PixelData::new(data, dim).unwrap()
}

fn encode_one(buf: PixelData, dim: Dimensions) -> Vec<u8> {
    let mut session = EncoderSession::new(dim, 10).unwrap();
    let frame = buf.create_frame(&session);
    session.submit(frame).unwrap();
    session.flush();
    for _ in 0..100 {
        match session.drain_packet().unwrap() {
            Some(p) => return p.data,
            None => continue,
        }
    }
    panic!("the encoder produced no packet");
}

#[test]
fn different_pixels_encode_to_different_packets() {
    // If building the frame dropped the converted planes, both snapshots
    // would encode the same blank frame and the payloads would coincide.
    let dim = Dimensions::new(64, 64);
    let gray_packet = encode_one(solid(dim, [128, 128, 128, 255]), dim);
    let black_packet = encode_one(solid(dim, [0, 0, 0, 255]), dim);
    assert_ne!(gray_packet, black_packet);
}

#[test]
fn batch_outcome_accounts_for_every_buffer() {
    let dim = Dimensions::new(32, 32);
    let mut sched = CaptureScheduler::new(dim);
    sched.on_play();
    let live = SourceStatus { paused: false, ended: false, ready: true };
    for _ in 0..3 {
        assert_eq!(sched.tick(live), TickAction::Capture);
        sched.capture(gray(dim));
    }
    let mut session = EncoderSession::new(dim, 10).unwrap();
    let outcome = rav1e_js::pipeline::finish_and_encode(&mut sched, &mut session);
    assert_eq!(outcome.accepted + outcome.saturated, 3);
    assert_eq!(outcome.accepted, 3, "an unflushed encoder takes the whole batch");
    // the scheduler is terminal and empty afterwards
    assert!(sched.finish().is_empty());
}
