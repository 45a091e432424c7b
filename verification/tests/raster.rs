use art_slideshow::raster::Raster;

#[test]
fn raster_new_accepts_exact_length() {
    let image = Raster::new(3, 2, vec![0; 24]).unwrap();
    assert_eq!(image.width(), 3);
    assert_eq!(image.height(), 2);
    assert_eq!(image.pixels().len(), 24);
}

#[test]
fn raster_new_rejects_short_buffer() {
    assert!(Raster::new(3, 2, vec![0; 23]).is_none());
}

#[test]
fn raster_new_rejects_long_buffer() {
    assert!(Raster::new(3, 2, vec![0; 25]).is_none());
}

#[test]
fn raster_new_accepts_empty_grid() {
    assert!(Raster::new(0, 0, Vec::new()).is_some());
    assert!(Raster::new(0, 7, Vec::new()).is_some());
    assert!(Raster::new(7, 0, Vec::new()).is_some());
    assert!(Raster::new(0, 0, vec![1]).is_none());
}

#[test]
fn raster_new_rejects_dimensions_beyond_any_buffer() {
    assert!(Raster::new(u32::MAX, u32::MAX, vec![0; 4]).is_none());
}

#[test]
fn raster_sample_reads_row_major_rgba() {
    let samples: Vec<u8> = (0u8..24).collect();
    let image = Raster::new(3, 2, samples).unwrap();
    assert_eq!(image.sample(0, 0, 0), Some(0));
    assert_eq!(image.sample(0, 0, 3), Some(3));
    assert_eq!(image.sample(1, 0, 0), Some(4));
    assert_eq!(image.sample(2, 0, 2), Some(10));
    assert_eq!(image.sample(0, 1, 0), Some(12));
    assert_eq!(image.sample(2, 1, 3), Some(23));
}

#[test]
fn raster_sample_outside_is_none() {
    let image = Raster::new(3, 2, vec![9; 24]).unwrap();
    assert_eq!(image.sample(3, 0, 0), None);
    assert_eq!(image.sample(0, 2, 0), None);
    assert_eq!(image.sample(0, 0, 4), None);
}

#[test]
fn raster_sample_in_a_large_grid() {
    let mut samples = vec![0u8; 4 * 640 * 360];
    samples[4 * (20 * 640 + 10) + 1] = 99;
    let image = Raster::new(640, 360, samples).unwrap();
    assert_eq!(image.sample(10, 20, 1), Some(99));
    assert_eq!(image.sample(10, 20, 0), Some(0));
    assert_eq!(image.sample(20, 10, 1), Some(0));
}

#[test]
fn raster_duplicate_is_independent_copy() {
    let image = Raster::new(1, 2, vec![1, 2, 3, 4, 5, 6, 7, 8]).unwrap();
    let copy = image.duplicate();
    assert_eq!(copy.width(), 1);
    assert_eq!(copy.height(), 2);
    assert_eq!(copy.pixels(), image.pixels());
    let taken = image.into_pixels();
    assert_eq!(taken, vec![1, 2, 3, 4, 5, 6, 7, 8]);
    assert_eq!(copy.pixels(), &vec![1, 2, 3, 4, 5, 6, 7, 8]);
}
