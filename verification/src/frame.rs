//! Orchestration of the slideshow: turning fetch results into images for
//! the renderer, building the slideshow from the configuration, and the
//! fetch pipeline's computing core.

use vstd::prelude::*;

use image::DynamicImage;

use crate::cli::{Cli, Rotation};
use crate::geometry::Dimensions;
use crate::img;
use crate::img::{img_data, img_h, img_w};
use crate::slideshow::{popped_fresh_pass, PhotoSource, Slideshow, SlideshowError};

verus! {

/// The user asked to quit.
#[derive(Clone, Debug)]
pub struct QuitEvent;

impl QuitEvent {
    /// The event's description, in place of a `Display` rendering.
    pub fn message(&self) -> (r: String)
        ensures
            r@ == "Quit"@,
    {
        "Quit".to_owned()
    }
}

/// An error that interrupts or ends the slideshow loop.
#[derive(Clone, Debug)]
pub enum FrameError {
    /// The user asked to quit.
    Quit(QuitEvent),
    /// Anything else, carrying its message.
    Other(String),
}

pub type FrameResult<T> = Result<T, FrameError>;

/// Substitutes a black error screen for a failed photo, so that one bad
/// photo does not end the slideshow. The screen rotation plays no part in
/// the plain error screen.
pub fn load_photo_or_error_screen(
    next_photo_result: Result<DynamicImage, SlideshowError>,
    screen_size: Dimensions,
    _rotation: Rotation,
) -> (r: FrameResult<DynamicImage>)
    requires
        screen_size.wf(),
        screen_size.w as int * screen_size.h as int * 3 <= usize::MAX as int,
    ensures
        r is Ok,
        match next_photo_result {
            Ok(photo) => r->Ok_0 == photo,
            Err(_) => img_w(r->Ok_0) == screen_size.w && img_h(r->Ok_0) == screen_size.h
                && img_data(r->Ok_0) == img::zero_bytes(
                3 * screen_size.w as int * screen_size.h as int,
            ),
        },
{
    match next_photo_result {
        Ok(photo) => Ok(photo),
        Err(SlideshowError::Other(_)) => {
            /* Any non-login error leads to an error screen instead of a
            crash. */
            Ok(img::error_screen(screen_size))
        },
    }
}

/// Decides the fate of a fetched photo on the display side. An error
/// reaching this point is login/connectivity-class — the fetch pipeline
/// has already replaced decode failures with an error screen — and ends
/// the loop; anything else is displayed, falling back to an error screen.
pub fn handle_next_photo_result(
    next_photo_result: Result<DynamicImage, SlideshowError>,
    screen_size: Dimensions,
    rotation: Rotation,
) -> (r: FrameResult<DynamicImage>)
    requires
        screen_size.wf(),
        screen_size.w as int * screen_size.h as int * 3 <= usize::MAX as int,
    ensures
        match next_photo_result {
            Ok(photo) => r is Ok && r->Ok_0 == photo,
            Err(SlideshowError::Other(e)) => r matches Err(FrameError::Other(msg)) && msg == e,
        },
{
    match next_photo_result {
        Err(SlideshowError::Other(error)) => {
            /* A login-class error terminates the main loop. */
            Err(FrameError::Other(error))
        },
        ok => load_photo_or_error_screen(ok, screen_size, rotation),
    }
}

/// Builds the slideshow from the configuration: server, folder, user and
/// password carried over, ordered and random-started as configured.
pub fn new_slideshow(cli: &Cli) -> (r: Result<Slideshow, String>)
    ensures
        r is Ok,
        ({
            let s = r->Ok_0;
            &&& s.server == cli.server
            &&& s.folder == cli.folder
            &&& s.user == cli.user
            &&& s.password == cli.password
            &&& s.order == cli.order
            &&& s.random_start == cli.random_start
            &&& s.photo_display_sequence@.len() == 0
        }),
{
    let built = match Slideshow::build(
        cli.server.clone(),
        cli.folder.clone(),
        clone_opt_string(&cli.user),
    ) {
        Ok(s) => s,
        Err(e) => {
            return Err(e);
        },
    };
    Ok(
        built.with_password(clone_opt_string(&cli.password)).with_ordering(
            cli.order,
        ).with_random_start(cli.random_start),
    )
}

/// A clone that keeps the value.
fn clone_opt_string(s: &Option<String>) -> (r: Option<String>)
    ensures
        r == s,
{
    match s {
        Some(v) => Some(v.clone()),
        None => None,
    }
}

/// The fetch pipeline's computing core, run off the display thread: asks
/// the sequencer for the next photo's bytes, decodes them, and composites
/// the result to exactly the screen size. Only sequencer errors — the
/// login/connectivity class that must end the slideshow — surface as
/// `Err`; a photo whose bytes do not decode is a generic failure, replaced
/// by a black error screen so the slideshow goes on.
pub fn produce_next_frame<
    P: PhotoSource,
    R: Fn(u32) -> u32,
    S: Fn(Vec<u32>) -> Vec<u32>,
    F: Fn(DynamicImage) -> DynamicImage,
>(
    slideshow: &mut Slideshow,
    source: &mut P,
    screen: Dimensions,
    rotation: Rotation,
    rand_gen_range: &R,
    rand_shuffle: &S,
    treatment: F,
) -> (r: Result<DynamicImage, SlideshowError>)
    requires
        screen.wf(),
        screen.w as int * screen.h as int * 16 <= usize::MAX as int,
        forall|c: u32| call_requires(*rand_gen_range, (c,)),
        forall|v: Vec<u32>| call_requires(*rand_shuffle, (v,)),
        forall|c: u32, k: u32| 1 <= c && call_ensures(*rand_gen_range, (c,), k) ==> k < c,
        forall|v: Vec<u32>, out: Vec<u32>|
            call_ensures(*rand_shuffle, (v,), out) ==> out@.len() == v@.len(),
        forall|i: DynamicImage| call_requires(treatment, (i,)),
    ensures
        final(slideshow).same_config(*old(slideshow)),
        final(slideshow).random_start ==> old(slideshow).random_start,
        r matches Ok(image) ==> img_w(image) == screen.w && img_h(image) == screen.h,
        r is Ok ==> ({
            ||| old(slideshow).photo_display_sequence@.len() >= 1
                && final(slideshow).photo_display_sequence@
                == old(slideshow).photo_display_sequence@.drop_last()
            ||| popped_fresh_pass(*rand_gen_range, *rand_shuffle, *old(slideshow), *final(slideshow))
        }),
{
    let photo_bytes = match slideshow.get_next_photo(source, rand_gen_range, rand_shuffle) {
        Ok(bytes) => bytes,
        Err(e) => {
            return Err(e);
        },
    };
    let photo = match img::load_from_memory(photo_bytes.as_slice()) {
        Ok(photo) => photo,
        Err(_decode_error) => {
            /* A decode failure is a generic error, not a login-class one:
            the slideshow continues, showing an error screen instead. */
            return Ok(img::error_screen(screen));
        },
    };
    let d = img::dimensions_of(&photo);
    if d.w < 1 || d.h < 1 {
        return Ok(img::error_screen(screen));
    }
    Ok(img::fit_to_screen_and_add_background(&photo, screen, rotation, treatment))
}

} // verus!
