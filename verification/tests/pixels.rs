use rav1e_js::Dimensions;
use rav1e_js::PixelData;
use rav1e_js::PixelDataError;

fn solid(dim: Dimensions, rgba: [u8; 4]) -> Vec<u8> {
    let pixels = (dim.width as usize) * (dim.height as usize);
    let mut data = Vec::with_capacity(pixels * 4);
    for _ in 0..pixels {
        data.extend_from_slice(&rgba);
    }
    data
}

#[test]
fn round_trip_geometry_accepts_exact_length() {
    for (w, h) in [(1u32, 1u32), (3, 5), (64, 64), (640, 480)] {
        let dim = Dimensions::new(w, h);
        let data = vec![0u8; (w as usize) * (h as usize) * 4];
        let buf = PixelData::new(data, dim).expect("exact length must construct");
        assert_eq!(buf.dim().width, w);
        assert_eq!(buf.dim().height, h);
    }
}

#[test]
fn round_trip_geometry_rejects_other_lengths() {
    let dim = Dimensions::new(4, 4);
    for len in [0usize, 1, 63, 65, 128] {
        let r = PixelData::new(vec![0u8; len], dim);
        assert_eq!(r.err(), Some(PixelDataError::LengthMismatch));
    }
}

#[test]
fn round_trip_geometry_rejects_degenerate_dimensions() {
    let r = PixelData::new(Vec::new(), Dimensions::new(0, 4));
    assert_eq!(r.err(), Some(PixelDataError::DegenerateDimensions));
    let r = PixelData::new(Vec::new(), Dimensions::new(4, 0));
    assert_eq!(r.err(), Some(PixelDataError::DegenerateDimensions));
}

#[test]
fn rgba_returns_the_bytes_unchanged() {
    let dim = Dimensions::new(2, 1);
    let data = vec![1u8, 2, 3, 4, 5, 6, 7, 8];
    let buf = PixelData::new(data.clone(), dim).unwrap();
    assert_eq!(buf.rgba(), data);
}

#[test]
fn to_argb_rotates_each_pixel_group_right_by_one() {
    let dim = Dimensions::new(2, 1);
    let buf = PixelData::new(vec![1u8, 2, 3, 4, 10, 20, 30, 40], dim).unwrap();
    assert_eq!(buf.to_argb(), vec![4u8, 1, 2, 3, 40, 10, 20, 30]);
}

#[test]
fn to_argb_on_solid_color() {
    let dim = Dimensions::new(4, 4);
    let buf = PixelData::new(solid(dim, [9, 8, 7, 255]), dim).unwrap();
    let argb = buf.to_argb();
    assert_eq!(argb.len(), 64);
    for group in argb.chunks(4) {
        assert_eq!(group, &[255, 9, 8, 7]);
    }
}
