//! The sequencer against a scripted photo source: ordering, random start,
//! injected shuffling, and the missing-photo self-heal.

use ftp_photo_frame::cli::{Order, Rotation, SourceSize};
use ftp_photo_frame::frame::produce_next_frame;
use ftp_photo_frame::geometry::Dimensions;
use ftp_photo_frame::slideshow::{FetchError, PhotoSource, Slideshow, SlideshowError};
use image::{DynamicImage, GenericImageView, Rgba};

/// A photo source whose count is fixed and where chosen indices are
/// missing; it logs every fetch.
struct ScriptedSource {
    count: u32,
    missing: Vec<u32>,
    fetched: Vec<u32>,
}

impl ScriptedSource {
    fn with_count(count: u32) -> ScriptedSource {
        ScriptedSource { count, missing: Vec::new(), fetched: Vec::new() }
    }
}

impl PhotoSource for ScriptedSource {
    fn item_count(&mut self) -> Result<u32, String> {
        Ok(self.count)
    }

    fn fetch(&mut self, photo_index: u32) -> Result<Vec<u8>, FetchError> {
        self.fetched.push(photo_index);
        if self.missing.contains(&photo_index) {
            Err(FetchError::NotFound)
        } else {
            Ok(vec![photo_index as u8, 42])
        }
    }
}

/// A source whose every fetch fails with a non-missing error.
struct BrokenSource;

impl PhotoSource for BrokenSource {
    fn item_count(&mut self) -> Result<u32, String> {
        Ok(1)
    }

    fn fetch(&mut self, _photo_index: u32) -> Result<Vec<u8>, FetchError> {
        Err(FetchError::Other("connection reset".to_string()))
    }
}

fn no_random(_upper: u32) -> u32 {
    0
}

fn identity_shuffle(v: Vec<u32>) -> Vec<u32> {
    v
}

fn new_slideshow() -> Slideshow {
    Slideshow::build("10.0.0.1".to_string(), "/photos".to_string(), Some("frame".to_string()))
        .unwrap()
}

#[test]
fn builders_set_configuration() {
    let slideshow = new_slideshow()
        .with_password(Some("secret".to_string()))
        .with_ordering(Order::ByName)
        .with_random_start(true)
        .with_source_size(SourceSize::M);
    assert_eq!(slideshow.server, "10.0.0.1");
    assert_eq!(slideshow.folder, "/photos");
    assert_eq!(slideshow.user, Some("frame".to_string()));
    assert_eq!(slideshow.password, Some("secret".to_string()));
    assert_eq!(slideshow.order, Order::ByName);
    assert!(slideshow.random_start);
    assert_eq!(slideshow.source_size, SourceSize::M);
    assert!(slideshow.photo_display_sequence.is_empty());
    assert!(slideshow.slideshow_ended());
}

#[test]
fn by_date_initialization_yields_descending_indices() {
    let mut slideshow = new_slideshow();
    slideshow.initialize(3, &no_random, &identity_shuffle).unwrap();
    assert_eq!(slideshow.photo_display_sequence, vec![2, 1, 0]);
}

#[test]
fn when_default_order_then_get_next_photo_fetches_first_photo() {
    let mut slideshow = new_slideshow();
    let mut source = ScriptedSource::with_count(3);

    let result = slideshow.get_next_photo(&mut source, &no_random, &identity_shuffle);

    assert_eq!(result.unwrap(), vec![0, 42]);
    assert_eq!(slideshow.photo_display_sequence, vec![2, 1]);
    assert_eq!(source.fetched, vec![0]);
}

fn random_offset_of_two(upper: u32) -> u32 {
    assert_eq!(upper, 5);
    2
}

#[test]
fn when_random_start_then_first_pass_skips_a_prefix_and_flag_is_consumed() {
    let mut slideshow = new_slideshow().with_random_start(true);
    slideshow.initialize(5, &random_offset_of_two, &identity_shuffle).unwrap();
    assert_eq!(slideshow.photo_display_sequence, vec![4, 3, 2]);
    assert!(!slideshow.random_start);

    /* The next pass starts at index zero again. */
    slideshow.photo_display_sequence.clear();
    slideshow.initialize(5, &no_random, &identity_shuffle).unwrap();
    assert_eq!(slideshow.photo_display_sequence, vec![4, 3, 2, 1, 0]);
}

fn scripted_shuffle(v: Vec<u32>) -> Vec<u32> {
    assert_eq!(v, vec![0, 1, 2, 3, 4]);
    vec![5, 2, 4, 1, 3]
}

#[test]
fn when_random_order_then_photo_display_sequence_is_shuffled() {
    let mut slideshow = new_slideshow().with_ordering(Order::Random);
    let mut source = ScriptedSource::with_count(5);

    let result = slideshow.get_next_photo(&mut source, &no_random, &scripted_shuffle);

    assert!(result.is_ok());
    assert_eq!(source.fetched, vec![3]);
    assert_eq!(slideshow.photo_display_sequence, vec![5, 2, 4, 1]);
}

#[test]
fn get_next_photo_advances_to_next_photo() {
    let mut slideshow = new_slideshow();
    slideshow.photo_display_sequence = vec![3, 2];
    let mut source = ScriptedSource::with_count(6);

    let result = slideshow.get_next_photo(&mut source, &no_random, &identity_shuffle);

    assert_eq!(result.unwrap(), vec![2, 42]);
    assert_eq!(slideshow.photo_display_sequence, vec![3]);
}

#[test]
fn missing_photo_clears_sequence_and_reinitializes_without_an_error() {
    let mut slideshow = new_slideshow();
    slideshow.photo_display_sequence = vec![3, 2, 1];
    let mut source = ScriptedSource::with_count(3);
    source.missing.push(1);

    let result = slideshow.get_next_photo(&mut source, &no_random, &identity_shuffle);

    /* index 1 was gone: the pass restarts from a fresh count and index 0
    is served without surfacing an error */
    assert_eq!(result.unwrap(), vec![0, 42]);
    assert_eq!(source.fetched, vec![1, 0]);
    assert_eq!(slideshow.photo_display_sequence, vec![2, 1]);
}

#[test]
fn empty_album_is_an_error() {
    let mut slideshow = new_slideshow();
    let mut source = ScriptedSource::with_count(0);

    let result = slideshow.get_next_photo(&mut source, &no_random, &identity_shuffle);

    match result {
        Err(error) => assert_eq!(error.message(), "Album is empty"),
        _ => panic!("an empty album must be reported"),
    }
}

#[test]
fn fetch_errors_other_than_missing_are_not_retried() {
    let mut slideshow = new_slideshow();
    let mut source = BrokenSource;

    let result = slideshow.get_next_photo(&mut source, &no_random, &identity_shuffle);

    match result {
        Err(SlideshowError::Other(message)) => assert_eq!(message, "connection reset"),
        _ => panic!("a broken source must surface its error"),
    }
}

#[test]
fn an_album_that_keeps_vanishing_is_eventually_reported() {
    let mut slideshow = new_slideshow();
    let mut source = ScriptedSource::with_count(1);
    source.missing.push(0);

    let result = slideshow.get_next_photo(&mut source, &no_random, &identity_shuffle);

    match result {
        Err(SlideshowError::Other(message)) => {
            assert_eq!(message, "The album keeps changing while photos are fetched");
        },
        _ => panic!("perpetually missing photos must eventually be reported"),
    }
}

fn identity_treatment(img: DynamicImage) -> DynamicImage {
    img
}

#[test]
fn a_photo_that_does_not_decode_becomes_an_error_screen_and_the_show_goes_on() {
    let mut slideshow = new_slideshow();
    /* the source serves bytes that are no image */
    let mut source = ScriptedSource::with_count(2);

    let result = produce_next_frame(
        &mut slideshow,
        &mut source,
        Dimensions::new(8, 4),
        Rotation::D0,
        &no_random,
        &identity_shuffle,
        identity_treatment,
    );

    let frame = result.expect("a decode failure must not end the slideshow");
    assert_eq!(frame.dimensions(), (8, 4));
    assert_eq!(frame.get_pixel(0, 0), Rgba([0, 0, 0, 255]));
    /* the sequencer advanced past the bad photo */
    assert_eq!(slideshow.photo_display_sequence, vec![1]);
}

#[test]
fn a_decodable_photo_is_composited_to_the_screen_size() {
    let mut photo = DynamicImage::new_rgb8(4, 2);
    for y in 0..2 {
        for x in 0..4 {
            image::GenericImage::put_pixel(&mut photo, x, y, Rgba([10, 20, 30, 255]));
        }
    }
    let mut buffer = std::io::Cursor::new(Vec::new());
    photo.write_to(&mut buffer, image::ImageFormat::Png).unwrap();

    struct OnePhotoSource {
        bytes: Vec<u8>,
    }

    impl PhotoSource for OnePhotoSource {
        fn item_count(&mut self) -> Result<u32, String> {
            Ok(1)
        }

        fn fetch(&mut self, _photo_index: u32) -> Result<Vec<u8>, FetchError> {
            Ok(self.bytes.clone())
        }
    }

    let mut slideshow = new_slideshow();
    let mut source = OnePhotoSource { bytes: buffer.into_inner() };

    let result = produce_next_frame(
        &mut slideshow,
        &mut source,
        Dimensions::new(8, 4),
        Rotation::D0,
        &no_random,
        &identity_shuffle,
        identity_treatment,
    );

    let frame = result.expect("a decodable photo must be composited");
    /* a 4x2 photo scales 2x to exactly fill the 8x4 screen */
    assert_eq!(frame.dimensions(), (8, 4));
    assert_eq!(frame.get_pixel(4, 2), Rgba([10, 20, 30, 255]));
}

#[test]
fn exhausted_pass_reinitializes_from_the_live_count() {
    let mut slideshow = new_slideshow();
    let mut source = ScriptedSource::with_count(2);

    let first = slideshow.get_next_photo(&mut source, &no_random, &identity_shuffle);
    let second = slideshow.get_next_photo(&mut source, &no_random, &identity_shuffle);
    /* the pass [1, 0] is exhausted; a new one is built */
    let third = slideshow.get_next_photo(&mut source, &no_random, &identity_shuffle);

    assert_eq!(first.unwrap(), vec![0, 42]);
    assert_eq!(second.unwrap(), vec![1, 42]);
    assert_eq!(third.unwrap(), vec![0, 42]);
    assert_eq!(source.fetched, vec![0, 1, 0]);
}
