use pco::{Binary32, Binary64, FloatLike, Latent};

fn ordered32(x: f32) -> u32 {
    Binary32::from_bits(x.to_bits()).to_latent_ordered()
}

fn ordered64(x: f64) -> u64 {
    Binary64::from_bits(x.to_bits()).to_latent_ordered()
}

#[test]
fn small_integers_become_latents_unchanged() {
    assert_eq!(<u16 as Latent>::from_u64(7), 7);
    assert_eq!(<u32 as Latent>::from_u64(7), 7);
    assert_eq!(<u64 as Latent>::from_u64(7), 7);
    assert_eq!(<u16 as Latent>::from_u64(u16::MAX as u64), u16::MAX);
    assert_eq!(<u32 as Latent>::from_u64(u32::MAX as u64), u32::MAX);
    assert_eq!(<u64 as Latent>::from_u64(u64::MAX), u64::MAX);
}

#[test]
fn wide_integers_keep_their_low_bits() {
    assert_eq!(<u16 as Latent>::from_u64(65536 + 3), 3);
    assert_eq!(<u32 as Latent>::from_u64((1 << 32) + 9), 9);
    assert_eq!(<u32 as Latent>::from_u64(u64::MAX), u32::MAX);
}

#[test]
fn ordered_images_of_single_floats() {
    assert_eq!(ordered32(0.0), 0x8000_0000);
    assert_eq!(ordered32(-0.0), 0x7fff_ffff);
    assert_eq!(ordered32(1.0), 0xbf80_0000);
    assert_eq!(ordered32(-1.0), 0x407f_ffff);
    assert_eq!(ordered32(f32::INFINITY), 0xff80_0000);
    assert_eq!(ordered32(f32::NEG_INFINITY), 0x007f_ffff);
}

#[test]
fn ordered_images_of_double_floats() {
    assert_eq!(ordered64(0.0), 0x8000_0000_0000_0000);
    assert_eq!(ordered64(-0.0), 0x7fff_ffff_ffff_ffff);
    assert_eq!(ordered64(1.0), 0xbff0_0000_0000_0000);
    assert_eq!(ordered64(-1.0), 0x400f_ffff_ffff_ffff);
}

#[test]
fn ordered_images_grow_with_single_floats() {
    let ascending = [
        f32::NEG_INFINITY,
        f32::MIN,
        -1.0e10,
        -1.5,
        -1.0,
        -f32::MIN_POSITIVE,
        -1.0e-40,
        -0.0,
        0.0,
        1.0e-45,
        1.0e-40,
        f32::MIN_POSITIVE,
        0.5,
        1.0,
        1.0000001,
        3.0e10,
        f32::MAX,
        f32::INFINITY,
    ];
    for pair in ascending.windows(2) {
        assert!(ordered32(pair[0]) < ordered32(pair[1]), "{} {}", pair[0], pair[1]);
    }
}

#[test]
fn ordered_images_grow_with_double_floats() {
    let ascending = [
        f64::NEG_INFINITY,
        f64::MIN,
        -2.5,
        -f64::MIN_POSITIVE,
        -5.0e-324,
        -0.0,
        0.0,
        5.0e-324,
        f64::MIN_POSITIVE,
        1.0,
        1.0000000000000002,
        f64::MAX,
        f64::INFINITY,
    ];
    for pair in ascending.windows(2) {
        assert!(ordered64(pair[0]) < ordered64(pair[1]), "{} {}", pair[0], pair[1]);
    }
}

#[test]
fn single_floats_come_back_from_their_images() {
    for x in [0.0f32, -0.0, 1.0, -1.0, 1.0e-40, -3.25e20, f32::MAX, f32::MIN, f32::MIN_POSITIVE] {
        let back = Binary32::from_latent_bits(ordered32(x));
        assert_eq!(back.to_bits(), x.to_bits());
        assert_eq!(f32::from_bits(back.to_bits()), x);
    }
}

#[test]
fn double_floats_come_back_from_their_images() {
    for x in [0.0f64, -0.0, 1.0, -1.0, 5.0e-324, -3.25e200, f64::MAX, f64::MIN] {
        let back = Binary64::from_latent_bits(ordered64(x));
        assert_eq!(back.to_bits(), x.to_bits());
        assert_eq!(f64::from_bits(back.to_bits()), x);
    }
}

#[test]
fn every_latent_is_an_image() {
    for l in [0u32, 1, 0x7fff_ffff, 0x8000_0000, 0xdead_beef, u32::MAX] {
        assert_eq!(Binary32::from_latent_bits(l).to_latent_ordered(), l);
    }
    for l in [0u64, 1, 0x7fff_ffff_ffff_ffff, 0x8000_0000_0000_0000, u64::MAX] {
        assert_eq!(Binary64::from_latent_bits(l).to_latent_ordered(), l);
    }
}

#[test]
fn bit_patterns_are_kept() {
    assert_eq!(Binary32::from_bits(0x1234_5678).to_bits(), 0x1234_5678);
    assert_eq!(Binary64::from_bits(0x1234_5678_9abc_def0).to_bits(), 0x1234_5678_9abc_def0);
    assert_eq!(Binary32::from_bits(5), Binary32 { bits: 5 });
}
