use rav1e_js::Dimensions;
use rav1e_js::PixelData;

fn solid(dim: Dimensions, rgba: [u8; 4]) -> PixelData {
    let pixels = (dim.width as usize) * (dim.height as usize);
    let mut data = Vec::with_capacity(pixels * 4);
    for _ in 0..pixels {
        data.extend_from_slice(&rgba);
    }
    PixelData::new(data, dim).unwrap()
}

#[test]
fn conversion_is_deterministic() {
    let dim = Dimensions::new(32, 24);
    let pixels = (dim.width as usize) * (dim.height as usize);
    let mut data = Vec::with_capacity(pixels * 4);
    for i in 0..pixels {
        data.extend_from_slice(&[(i % 251) as u8, (i % 83) as u8, (i % 17) as u8, 255]);
    }
    let a = PixelData::new(data.clone(), dim).unwrap().to_i444();
    let b = PixelData::new(data, dim).unwrap().to_i444();
    assert_eq!(a.y, b.y);
    assert_eq!(a.u, b.u);
    assert_eq!(a.v, b.v);
    assert_eq!(a.dim, b.dim);
}

#[test]
fn planes_have_equal_pixel_count() {
    for (w, h) in [(1u32, 1u32), (7, 13), (64, 48)] {
        let dim = Dimensions::new(w, h);
        let frame = solid(dim, [10, 20, 30, 255]).to_i444();
        let pixels = (w as usize) * (h as usize);
        assert_eq!(frame.y.len(), pixels);
        assert_eq!(frame.u.len(), pixels);
        assert_eq!(frame.v.len(), pixels);
    }
}

#[test]
fn mid_gray_converts_to_uniform_luma_and_neutral_chroma() {
    let dim = Dimensions::new(64, 64);
    let frame = solid(dim, [128, 128, 128, 255]).to_i444();
    let y0 = frame.y[0];
    assert!(frame.y.iter().all(|&y| y == y0), "luma plane must be uniform");
    assert!(frame.u.iter().all(|&u| u == 128), "first chroma plane must be neutral");
    assert!(frame.v.iter().all(|&v| v == 128), "second chroma plane must be neutral");
    // The BT.709 matrix maps mid-gray linear light away from the input
    // value: the conversion really ran.
    assert_ne!(y0, 128);
}

#[test]
fn black_and_white_luma_are_ordered() {
    let dim = Dimensions::new(16, 16);
    let black = solid(dim, [0, 0, 0, 255]).to_i444();
    let white = solid(dim, [255, 255, 255, 255]).to_i444();
    assert!(black.y[0] < white.y[0]);
    assert!(black.u.iter().all(|&u| u == 128));
    assert!(white.u.iter().all(|&u| u == 128));
}
