//! Configuration parsing, geometry on concrete values, the display-loop
//! state machine, and the frame-level photo handling.

use ftp_photo_frame::cli::{rotation_from_label, try_parse_duration, Order, Rotation};
use ftp_photo_frame::display::{
    display_step, swapped_texture_slot, texture_slot, DisplayMode, TextureIndex, TickAction,
    TickInput,
};
use ftp_photo_frame::frame::{
    handle_next_photo_result, load_photo_or_error_screen, new_slideshow, FrameError, QuitEvent,
};
use ftp_photo_frame::geometry::Dimensions;
use ftp_photo_frame::img;
use ftp_photo_frame::slideshow::{SlideshowError, SortBy};
use ftp_photo_frame::cli::Cli;
use image::{DynamicImage, GenericImage, GenericImageView, Rgba};

#[test]
fn intervals_parse_as_seconds_with_a_floor_of_five() {
    assert_eq!(try_parse_duration("30"), Ok(30));
    assert_eq!(try_parse_duration("5"), Ok(5));
    assert!(try_parse_duration("4").is_err());
    assert!(try_parse_duration("").is_err());
    assert!(try_parse_duration("1x").is_err());
    assert!(try_parse_duration("-7").is_err());
    assert_eq!(try_parse_duration("18446744073709551615"), Ok(u64::MAX));
    assert!(try_parse_duration("18446744073709551616").is_err());
}

#[test]
fn rotations_parse_from_their_labels() {
    assert_eq!(rotation_from_label("0"), Some(Rotation::D0));
    assert_eq!(rotation_from_label("90"), Some(Rotation::D90));
    assert_eq!(rotation_from_label("180"), Some(Rotation::D180));
    assert_eq!(rotation_from_label("270"), Some(Rotation::D270));
    assert_eq!(rotation_from_label("45"), None);
    assert_eq!(rotation_from_label(""), None);
}

#[test]
fn sort_key_follows_the_ordering() {
    assert_eq!(SortBy::from(Order::ByDate), SortBy::TakenTime);
    assert_eq!(SortBy::from(Order::Random), SortBy::TakenTime);
    assert_eq!(SortBy::from(Order::ByName), SortBy::FileName);
}

#[test]
fn resize_preserves_aspect_ratio_and_fits() {
    let d = Dimensions::new(60, 40).resize(Dimensions::new(120, 80));
    assert_eq!((d.w, d.h), (120, 80));
    let d = Dimensions::new(759, 426).resize(Dimensions::new(640, 360));
    assert_eq!((d.w, d.h), (640, 359));
    let d = Dimensions::new(100, 80).resize(Dimensions::new(60, 40));
    assert_eq!((d.w, d.h), (50, 40));
    /* extreme ratios are floored at one pixel */
    let d = Dimensions::new(10_000, 1).resize(Dimensions::new(10, 10));
    assert_eq!((d.w, d.h), (10, 1));
}

#[test]
fn sub_pixel_leftover_counts_as_filling_the_screen() {
    assert!(Dimensions::new(759, 426).fits_screen_within_pixel(Dimensions::new(640, 360)));
    assert!(Dimensions::new(60, 40).fits_screen_within_pixel(Dimensions::new(120, 80)));
    assert!(!Dimensions::new(50, 40).fits_screen_within_pixel(Dimensions::new(120, 80)));
    assert!(!Dimensions::new(60, 30).fits_screen_within_pixel(Dimensions::new(120, 80)));
}

#[test]
fn background_crops_take_opposite_slivers_of_the_image() {
    /* narrower than the screen: left and right slivers */
    let (c1, c2) = Dimensions::new(50, 40).background_crops(Dimensions::new(120, 80));
    assert_eq!((c1.x, c1.y, c1.w, c1.h), (0, 3, 5, 34));
    assert_eq!((c2.x, c2.y, c2.w, c2.h), (45, 3, 5, 34));

    /* wider than the screen: top and bottom slivers */
    let (c1, c2) = Dimensions::new(60, 30).background_crops(Dimensions::new(120, 80));
    assert_eq!((c1.x, c1.y, c1.w, c1.h), (7, 0, 45, 4));
    assert_eq!((c2.x, c2.y, c2.w, c2.h), (7, 26, 45, 4));

    /* the slivers always mirror each other */
    let (c1, c2) = Dimensions::new(100, 80).background_crops(Dimensions::new(60, 40));
    assert_eq!((c1.w, c1.h), (c2.w, c2.h));
    assert_eq!(c1.x, 0);
    assert_eq!(c2.x + c2.w, 100);
}

#[test]
fn diff_is_the_absolute_difference_per_axis() {
    assert_eq!(Dimensions::new(120, 30).diff(Dimensions::new(100, 80)), (20, 50));
    assert_eq!(Dimensions::new(5, 5).diff(Dimensions::new(5, 5)), (0, 0));
}

#[test]
fn show_mode_enters_standby_after_sustained_stillness() {
    let tick = TickInput {
        motionsensor_enabled: true,
        motion: false,
        millis_since_activation: 10_001,
        millis_since_change: 0,
        next_image_ready: true,
        photo_change_interval_millis: 30_000,
    };
    assert_eq!(
        display_step(DisplayMode::Show, tick),
        (DisplayMode::Standby, TickAction::EnterStandby)
    );
}

#[test]
fn show_mode_waits_out_the_change_interval() {
    let tick = TickInput {
        motionsensor_enabled: true,
        motion: true,
        millis_since_activation: 0,
        millis_since_change: 29_999,
        next_image_ready: true,
        photo_change_interval_millis: 30_000,
    };
    assert_eq!(display_step(DisplayMode::Show, tick), (DisplayMode::Show, TickAction::IdleShow));
}

#[test]
fn show_mode_displays_a_ready_photo_when_due() {
    let tick = TickInput {
        motionsensor_enabled: false,
        motion: true,
        millis_since_activation: 99_999,
        millis_since_change: 30_000,
        next_image_ready: true,
        photo_change_interval_millis: 30_000,
    };
    assert_eq!(
        display_step(DisplayMode::Show, tick),
        (DisplayMode::Show, TickAction::ShowNextPhoto)
    );
}

#[test]
fn show_mode_waits_for_the_fetch_thread() {
    let tick = TickInput {
        motionsensor_enabled: false,
        motion: true,
        millis_since_activation: 0,
        millis_since_change: 60_000,
        next_image_ready: false,
        photo_change_interval_millis: 30_000,
    };
    assert_eq!(display_step(DisplayMode::Show, tick), (DisplayMode::Show, TickAction::IdleShow));
}

#[test]
fn standby_wakes_on_motion_and_otherwise_sleeps() {
    let mut tick = TickInput {
        motionsensor_enabled: true,
        motion: true,
        millis_since_activation: 0,
        millis_since_change: 0,
        next_image_ready: false,
        photo_change_interval_millis: 30_000,
    };
    assert_eq!(display_step(DisplayMode::Standby, tick), (DisplayMode::Show, TickAction::WakeUp));
    tick.motion = false;
    assert_eq!(
        display_step(DisplayMode::Standby, tick),
        (DisplayMode::Standby, TickAction::IdleStandby)
    );
}

#[test]
fn texture_slots_alternate() {
    assert_eq!(texture_slot(0, TextureIndex::Current), 0);
    assert_eq!(texture_slot(0, TextureIndex::Next), 1);
    assert_eq!(texture_slot(1, TextureIndex::Current), 1);
    assert_eq!(texture_slot(1, TextureIndex::Next), 0);
    assert_eq!(swapped_texture_slot(0), 1);
    assert_eq!(swapped_texture_slot(1), 0);
}

#[test]
fn quit_event_message_reads_quit() {
    assert_eq!(QuitEvent.message(), "Quit");
}

fn test_cli() -> Cli {
    Cli {
        server: "10.0.0.1".to_string(),
        folder: "/photos".to_string(),
        user: Some("frame".to_string()),
        password: None,
        photo_change_interval: 30,
        order: Order::Random,
        random_start: true,
        transition: ftp_photo_frame::cli::Transition::Crossfade,
        rotation: Rotation::D0,
        motionsensor: false,
        splash: None,
    }
}

#[test]
fn new_slideshow_carries_the_configuration_over() {
    let slideshow = new_slideshow(&test_cli()).unwrap();
    assert_eq!(slideshow.server, "10.0.0.1");
    assert_eq!(slideshow.folder, "/photos");
    assert_eq!(slideshow.user, Some("frame".to_string()));
    assert_eq!(slideshow.password, None);
    assert_eq!(slideshow.order, Order::Random);
    assert!(slideshow.random_start);
    assert!(slideshow.photo_display_sequence.is_empty());
}

#[test]
fn a_fetched_photo_passes_through_unchanged() {
    let photo = DynamicImage::new_rgb8(4, 4);
    let result = handle_next_photo_result(Ok(photo.clone()), Dimensions::new(8, 8), Rotation::D0);
    assert_eq!(result.unwrap().as_bytes(), photo.as_bytes());
}

#[test]
fn a_sequencer_error_terminates_the_loop() {
    let result = handle_next_photo_result(
        Err(SlideshowError::Other("login failed".to_string())),
        Dimensions::new(8, 8),
        Rotation::D0,
    );
    match result {
        Err(FrameError::Other(message)) => assert_eq!(message, "login failed"),
        _ => panic!("a sequencer error must end the loop"),
    }
}

#[test]
fn a_failed_photo_becomes_a_black_error_screen() {
    let result = load_photo_or_error_screen(
        Err(SlideshowError::Other("corrupt".to_string())),
        Dimensions::new(6, 3),
        Rotation::D90,
    )
    .unwrap();
    assert_eq!(result.dimensions(), (6, 3));
    assert_eq!(result.get_pixel(0, 0), Rgba([0, 0, 0, 255]));
}

#[test]
fn photos_decode_from_their_raw_bytes() {
    let mut photo = DynamicImage::new_rgb8(3, 2);
    photo.put_pixel(1, 0, Rgba([9, 8, 7, 255]));
    let mut buffer = std::io::Cursor::new(Vec::new());
    photo.write_to(&mut buffer, image::ImageFormat::Png).unwrap();

    let decoded = img::load_from_memory(buffer.get_ref().as_slice()).unwrap();
    assert_eq!(decoded.dimensions(), (3, 2));
    assert_eq!(decoded.get_pixel(1, 0), Rgba([9, 8, 7, 255]));

    assert!(img::load_from_memory(&[0, 1, 2, 3]).is_err());
}

#[test]
fn rotate_turns_the_image_by_quarter_turns() {
    let mut photo = DynamicImage::new_rgb8(2, 1);
    let a = Rgba([10, 0, 0, 255]);
    let b = Rgba([0, 10, 0, 255]);
    photo.put_pixel(0, 0, a);
    photo.put_pixel(1, 0, b);

    let r0 = img::rotate(&photo, Rotation::D0);
    assert_eq!(r0.dimensions(), (2, 1));
    assert_eq!(r0.get_pixel(0, 0), a);

    let r90 = img::rotate(&photo, Rotation::D90);
    assert_eq!(r90.dimensions(), (1, 2));
    assert_eq!(r90.get_pixel(0, 0), a);
    assert_eq!(r90.get_pixel(0, 1), b);

    let r180 = img::rotate(&photo, Rotation::D180);
    assert_eq!(r180.dimensions(), (2, 1));
    assert_eq!(r180.get_pixel(0, 0), b);

    let r270 = img::rotate(&photo, Rotation::D270);
    assert_eq!(r270.dimensions(), (1, 2));
    assert_eq!(r270.get_pixel(0, 0), b);
    assert_eq!(r270.get_pixel(0, 1), a);
}

#[test]
fn opposite_rotations_cancel_out() {
    let mut photo = DynamicImage::new_rgb8(3, 2);
    photo.put_pixel(0, 0, Rgba([1, 2, 3, 255]));
    photo.put_pixel(2, 1, Rgba([4, 5, 6, 255]));

    let there_and_back = img::rotate(&img::rotate(&photo, Rotation::D90), Rotation::D270);
    assert_eq!(there_and_back.as_bytes(), photo.as_bytes());

    let twice_half = img::rotate(&img::rotate(&photo, Rotation::D180), Rotation::D180);
    assert_eq!(twice_half.as_bytes(), photo.as_bytes());
}

#[test]
fn fit_to_screen_centers_with_black_bars() {
    let photo = {
        let mut p = DynamicImage::new_rgb8(50, 40);
        for y in 0..40 {
            for x in 0..50 {
                p.put_pixel(x, y, Rgba([200, 0, 0, 255]));
            }
        }
        p
    };
    let result = img::fit_to_screen(&photo, Dimensions::new(120, 80), Rotation::D0);
    assert_eq!(result.dimensions(), (120, 80));
    /* the fitted photo spans x 10..110: bars at the sides are black */
    assert_eq!(result.get_pixel(0, 40), Rgba([0, 0, 0, 255]));
    assert_eq!(result.get_pixel(119, 40), Rgba([0, 0, 0, 255]));
    assert_eq!(result.get_pixel(60, 40), Rgba([200, 0, 0, 255]));
}

#[test]
fn resize_scales_to_the_exact_size() {
    let photo = DynamicImage::new_rgb8(10, 10);
    let result = img::resize(&photo, 25, 5);
    assert_eq!(result.dimensions(), (25, 5));
}

#[test]
fn the_update_icon_lands_in_the_rotated_corner() {
    let mut photo = DynamicImage::new_rgb8(4, 4);
    let mut icon = DynamicImage::new_rgb8(2, 2);
    let mark = Rgba([250, 250, 250, 255]);
    for y in 0..2 {
        for x in 0..2 {
            icon.put_pixel(x, y, mark);
        }
    }
    img::overlay_update_icon(&mut photo, &icon, Rotation::D0);
    assert_eq!(photo.get_pixel(0, 0), mark);
    assert_eq!(photo.get_pixel(3, 3), Rgba([0, 0, 0, 255]));

    let mut photo = DynamicImage::new_rgb8(4, 4);
    img::overlay_update_icon(&mut photo, &icon, Rotation::D180);
    assert_eq!(photo.get_pixel(3, 3), mark);
    assert_eq!(photo.get_pixel(0, 0), Rgba([0, 0, 0, 255]));
}
