use iview_exif::viewer::{create_3d_identity_data, BackgroundStyle, Rotate};

#[test]
fn background_cycles_through_all_styles() {
    let mut s = BackgroundStyle::Black;
    for i in 0..7 {
        assert_eq!(s.to(), i);
        assert_eq!(BackgroundStyle::from(i), s);
        s = s.inc();
    }
    assert_eq!(s, BackgroundStyle::Black);
    assert_eq!(BackgroundStyle::from(9), BackgroundStyle::Black);
    assert_eq!(BackgroundStyle::from(-1), BackgroundStyle::Black);
}

#[test]
fn rotations_add_modulo_a_full_turn() {
    assert_eq!(Rotate::Rotate270.add(Rotate::Rotate180), Rotate::Rotate90);
    assert_eq!(Rotate::from_u8(7), Rotate::Rotate270);
    assert_eq!(Rotate::Rotate180.to_u8(), 2);
}

#[test]
fn identity_lut_corners() {
    let d = create_3d_identity_data();
    assert_eq!(d.len(), 33 * 33 * 33 * 4);
    assert_eq!(&d[0..4], &[0, 0, 0, 255]);
    assert_eq!(&d[4..8], &[7, 0, 0, 255]);
    let last = d.len() - 4;
    assert_eq!(&d[last..], &[255, 255, 255, 255]);
    let p = (2 * 33 + 16) * 33 + 1;
    assert_eq!(&d[4 * p..4 * p + 4], &[7, 127, 15, 255]);
}
