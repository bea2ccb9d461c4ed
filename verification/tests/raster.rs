use image_normalizer::codec::{encode, Codec};
use image_normalizer::normalizer::{render, NormalizerConfig};
use image_normalizer::raster::Raster;

#[test]
fn buffer_with_matching_samples_is_accepted() {
    let rgba = Raster::from_samples(3, 2, 4, vec![7u8; 24]).unwrap();
    assert_eq!((rgba.width, rgba.height, rgba.channels), (3, 2, 4));
    assert_eq!(rgba.samples, vec![7u8; 24]);
    let rgb = Raster::from_samples(3, 2, 3, vec![7u8; 18]).unwrap();
    assert_eq!(rgb.samples.len(), 18);
    assert!(Raster::from_samples(0, 5, 4, Vec::new()).is_some());
}

#[test]
fn buffer_with_wrong_length_is_refused() {
    assert!(Raster::from_samples(3, 2, 4, vec![7u8; 23]).is_none());
    assert!(Raster::from_samples(3, 2, 4, vec![7u8; 25]).is_none());
    assert!(Raster::from_samples(3, 2, 3, vec![7u8; 24]).is_none());
    assert!(Raster::from_samples(u32::MAX, u32::MAX, 4, vec![7u8; 4]).is_none());
}

#[test]
fn buffer_with_other_channel_counts_is_refused() {
    assert!(Raster::from_samples(3, 2, 1, vec![7u8; 6]).is_none());
    assert!(Raster::from_samples(3, 2, 2, vec![7u8; 12]).is_none());
    assert!(Raster::from_samples(3, 2, 0, Vec::new()).is_none());
    assert!(Raster::from_samples(3, 2, 5, vec![7u8; 30]).is_none());
}

#[test]
fn checked_buffer_goes_through_the_pipeline() {
    let rgba = Raster::from_samples(10, 6, 4, vec![128u8; 240]).unwrap();
    let (width, height, bytes) = render(rgba, &NormalizerConfig::new(String::new())).unwrap();
    assert_eq!((width, height), (10, 6));
    assert_eq!(&bytes[..2], &[0xff, 0xd8]);
    let rgb = Raster::from_samples(10, 6, 3, vec![128u8; 180]).unwrap();
    assert_eq!(encode(&rgb, Codec::Jpeg, 75).unwrap(), bytes);
}
