use kime::Bgra;

#[test]
fn channel_views() {
    let p = Bgra::from_channels(1, 2, 3, 4);
    assert_eq!(p.channels(), &[1, 2, 3, 4]);
    assert_eq!(p.channels4(), (1, 2, 3, 4));
    assert_eq!(p.to_rgb(), [3, 2, 1]);
    assert_eq!(p.to_rgba(), [3, 2, 1, 4]);
    assert_eq!(Bgra::from_rgba(p.to_rgba()), p);
    assert_eq!(Bgra::from_slice(&[9, 8, 7, 6, 5]), Bgra([9, 8, 7, 6]));
    assert_eq!(Bgra::color_model(), "BGRA");
    assert_eq!(Bgra::CHANNEL_COUNT, 4);
}

#[test]
fn maps() {
    let p = Bgra([10, 20, 30, 40]);
    assert_eq!(p.map(|c| c / 10), Bgra([1, 2, 3, 4]));
    assert_eq!(p.map_with_alpha(|c| c + 1, |a| a * 2), Bgra([11, 21, 31, 80]));
    let q = Bgra([1, 1, 1, 1]);
    assert_eq!(p.map2(&q, |a, b| a - b), Bgra([9, 19, 29, 39]));
    let mut r = p;
    r.apply(|c| c / 2);
    assert_eq!(r, Bgra([5, 10, 15, 20]));
    let mut r = p;
    r.apply_with_alpha(|c| c, |_| 255);
    assert_eq!(r, Bgra([10, 20, 30, 255]));
    let mut r = p;
    r.apply2(&q, |a, b| a + b);
    assert_eq!(r, Bgra([11, 21, 31, 41]));
}

#[test]
fn invert_keeps_alpha() {
    let mut p = Bgra([0, 100, 255, 7]);
    p.invert();
    assert_eq!(p, Bgra([255, 155, 0, 7]));
    p.invert();
    assert_eq!(p, Bgra([0, 100, 255, 7]));
}

#[test]
fn luma() {
    // White, black and pure green.
    assert_eq!(Bgra([255, 255, 255, 255]).to_luma(), 255);
    assert_eq!(Bgra([0, 0, 0, 255]).to_luma(), 0);
    assert_eq!(Bgra([0, 255, 0, 9]).to_luma(), 182);
    assert_eq!(Bgra([0, 255, 0, 9]).to_luma_alpha(), [182, 9]);
}

#[test]
fn blend_extremes() {
    let mut bg = Bgra([1, 2, 3, 255]);
    bg.blend(&Bgra([9, 9, 9, 0]));
    assert_eq!(bg, Bgra([1, 2, 3, 255]));
    bg.blend(&Bgra([9, 8, 7, 255]));
    assert_eq!(bg, Bgra([9, 8, 7, 255]));
    let mut bg = Bgra([0, 0, 0, 255]);
    bg.blend(&Bgra([255, 255, 255, 128]));
    // In between, image composites in single precision.
    assert!(bg.0[0] > 100 && bg.0[0] < 160);
    assert!(bg.0[3] >= 254);
}
