use art_slideshow::darken::{darken, darken_channel};
use art_slideshow::raster::Raster;

#[test]
fn darken_channel_matches_truncated_float_product() {
    for value in 0u16..=255 {
        let value = value as u8;
        let expected = (value as f32 * 0.6) as u8;
        assert_eq!(darken_channel(value, 60), expected);
    }
}

#[test]
fn darken_channel_exact_values() {
    assert_eq!(darken_channel(0, 60), 0);
    assert_eq!(darken_channel(1, 60), 0);
    assert_eq!(darken_channel(2, 60), 1);
    assert_eq!(darken_channel(5, 60), 3);
    assert_eq!(darken_channel(100, 60), 60);
    assert_eq!(darken_channel(254, 60), 152);
    assert_eq!(darken_channel(255, 60), 153);
}

#[test]
fn darken_channel_other_percentages() {
    assert_eq!(darken_channel(200, 0), 0);
    assert_eq!(darken_channel(200, 50), 100);
    assert_eq!(darken_channel(201, 50), 100);
    assert_eq!(darken_channel(200, 100), 200);
    assert_eq!(darken_channel(255, 100), 255);
}

#[test]
fn darken_channel_saturates_above_one_hundred_percent() {
    assert_eq!(darken_channel(100, 200), 200);
    assert_eq!(darken_channel(200, 200), 255);
    assert_eq!(darken_channel(255, 255), 255);
    assert_eq!(darken_channel(1, 255), 2);
}

#[test]
fn darken_keeps_alpha_and_scales_colour() {
    let image = Raster::new(2, 1, vec![255, 100, 7, 200, 0, 1, 2, 3]).unwrap();
    let out = darken(image, 60);
    assert_eq!(out.width(), 2);
    assert_eq!(out.height(), 1);
    assert_eq!(out.pixels(), &vec![153, 60, 4, 200, 0, 0, 1, 3]);
}

#[test]
fn darken_never_brightens_and_stays_within_one_step() {
    let mut samples = Vec::new();
    for i in 0u32..256 {
        samples.push(i as u8);
        samples.push((255 - i) as u8);
        samples.push(((i * 7) % 256) as u8);
        samples.push(((i * 13) % 256) as u8);
    }
    let before = samples.clone();
    let out = darken(Raster::new(16, 16, samples).unwrap(), 60);
    let after = out.pixels();
    for i in 0..before.len() {
        if i % 4 == 3 {
            assert_eq!(after[i], before[i]);
        } else {
            let pre = before[i] as u32;
            let post = after[i] as u32;
            assert!(5 * post <= 3 * pre);
            assert!(3 * pre < 5 * post + 5);
            assert!(after[i] as f32 <= 0.6 * before[i] as f32 + 0.001);
        }
    }
}

#[test]
fn darken_of_empty_image_is_empty() {
    let out = darken(Raster::new(0, 0, Vec::new()).unwrap(), 60);
    assert_eq!(out.width(), 0);
    assert_eq!(out.height(), 0);
    assert!(out.pixels().is_empty());
}
