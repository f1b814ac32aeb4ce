use kinestra::Size;
use kinestra::error::Error;

#[test]
fn dimensions_reject_invalid_h264_sizes() {
    for (w, h) in [(0, 180), (320, 0), (319, 180), (320, 179)] {
        assert!(Size::new(w, h).is_err());
    }
    assert_eq!(Size::new(320, 180).unwrap().to_string(), "320x180");
}

#[test]
fn size_keeps_its_dimensions() {
    let s = Size::new(960, 540).unwrap();
    assert_eq!(s.width(), 960);
    assert_eq!(s.height(), 540);
    assert_eq!(s.to_string(), "960x540");
    assert_eq!(Size::new(2, 4294967294).unwrap().to_string(), "2x4294967294");
}

#[test]
fn size_refusal_names_the_rule() {
    match Size::new(321, 180) {
        Err(Error::Invalid(m)) => assert_eq!(m, "display dimensions must be positive and even"),
        other => panic!("unexpected {:?}", other),
    }
}

#[test]
fn every_size_is_positive_and_even() {
    let s = Size::new(320, 180).unwrap();
    assert_eq!(s.dimensions(), (320, 180));
    let t = s;
    assert_eq!((t.width() % 2, t.height() % 2), (0, 0));
}
