//! Screenshot-based visual regression checks: a captured frame is compared
//! byte for byte against a reference image, and on any difference the actual
//! frame, the expected frame and a pixel diff are produced as artifacts.
//!
//! A [`Frame`] is a plain pixel grid: width, height and tightly packed RGBA
//! bytes. The comparison and the diff are fully verified over frames; the
//! `image` crate is reached only through the two trusted accessors that read
//! a decoded image's dimensions and RGBA bytes.

use vstd::prelude::*;

verus! {

/// A pixel grid: `width * height` pixels of four RGBA bytes each, row by
/// row.
#[derive(Debug)]
pub struct Frame {
    pub width: u32,
    pub height: u32,
    pub pixels: Vec<u8>,
}

impl Frame {
    /// The byte buffer holds exactly four bytes per pixel.
    pub open spec fn spec_wf(self) -> bool {
        self.pixels@.len() == 4 * (self.width as nat) * (self.height as nat)
    }

    /// An identical frame: same dimensions, same bytes.
    pub fn duplicate(&self) -> (f: Frame)
        ensures
            f.width == self.width,
            f.height == self.height,
            f.pixels@ == self.pixels@,
    {
        Frame { width: self.width, height: self.height, pixels: clone_bytes(&self.pixels) }
    }
}

/// A byte-for-byte copy of a buffer.
fn clone_bytes(v: &Vec<u8>) -> (r: Vec<u8>)
    ensures
        r@ == v@,
{
    let mut r: Vec<u8> = Vec::new();
    let mut i: usize = 0;
    while i < v.len()
        invariant
            i <= v@.len(),
            r@.len() == i,
            forall|j: int| 0 <= j < i ==> r@[j] == v@[j],
        decreases v@.len() - i,
    {
        r.push(v[i]);
        i = i + 1;
    }
    proof {
        assert(r@ =~= v@);
    }
    r
}

/// Two frames agree: same dimensions and the same bytes.
pub open spec fn spec_frames_match(reference: Frame, actual: Frame) -> bool {
    reference.width == actual.width && reference.height == actual.height && reference.pixels@
        == actual.pixels@
}

/// Everything that can go wrong in a screenshot check. The two interesting
/// outcomes carry their evidence: a missing reference carries the capture
/// that found no baseline, and a mismatch carries the actual and the
/// expected frame.
#[derive(Debug)]
pub enum ScreenshotError {
    LoadIoError,
    SaveIoError,
    EncodingError,
    DecodingError,
    CaptureError,
    NoReferenceScreenshot(Frame),
    ScreenshotMismatch(Frame, Frame),
}

/// A named artifact written out when a check fails.
#[derive(Clone, Copy, PartialEq, Eq, Structural, Debug)]
pub enum ArtifactKind {
    Expected,
    Actual,
    Diff,
}

/// Whether the two byte buffers are equal.
fn bytes_equal(a: &Vec<u8>, b: &Vec<u8>) -> (r: bool)
    ensures
        r == (a@ == b@),
{
    if a.len() != b.len() {
        return false;
    }
    let mut i: usize = 0;
    while i < a.len()
        invariant
            a@.len() == b@.len(),
            i <= a@.len(),
            forall|j: int| 0 <= j < i ==> a@[j] == b@[j],
        decreases a@.len() - i,
    {
        if a[i] != b[i] {
            return false;
        }
        i = i + 1;
    }
    proof {
        assert(a@ =~= b@);
    }
    true
}

/// Compare a reference frame against an actual frame: success exactly when
/// the dimensions and every pixel byte agree, and otherwise a mismatch
/// carrying the actual and the expected frame.
pub fn compare_screenshot_frames(reference: Frame, actual: Frame) -> (r: Result<
    (),
    ScreenshotError,
>)
    ensures
        r == (if spec_frames_match(reference, actual) {
            Ok::<(), ScreenshotError>(())
        } else {
            Err::<(), ScreenshotError>(ScreenshotError::ScreenshotMismatch(actual, reference))
        }),
{
    let dims_equal: bool = reference.width == actual.width && reference.height == actual.height;
    if dims_equal && bytes_equal(&reference.pixels, &actual.pixels) {
        Ok(())
    } else {
        Err(ScreenshotError::ScreenshotMismatch(actual, reference))
    }
}

/// The screenshot check on plain values: no reference means the distinct
/// no-reference failure carrying the capture, and with a reference the
/// capture must agree with it byte for byte.
pub fn screenshot_check(reference: Option<Frame>, captured: Frame) -> (r: Result<
    (),
    ScreenshotError,
>)
    ensures
        r == (match reference {
            Option::None => Err::<(), ScreenshotError>(
                ScreenshotError::NoReferenceScreenshot(captured),
            ),
            Option::Some(f) => if spec_frames_match(f, captured) {
                Ok::<(), ScreenshotError>(())
            } else {
                Err::<(), ScreenshotError>(ScreenshotError::ScreenshotMismatch(captured, f))
            },
        }),
{
    match reference {
        Option::None => Err(ScreenshotError::NoReferenceScreenshot(captured)),
        Option::Some(f) => compare_screenshot_frames(f, captured),
    }
}

/// The byte at index `i` of the diff of `a` against `e`: zero when the
/// four-byte pixel group around `i` exists in both buffers and agrees, and
/// the byte of `a` otherwise.
pub open spec fn spec_diff_byte(a: Seq<u8>, e: Seq<u8>, i: int) -> u8 {
    if spec_pixel_eq(a, e, i / 4) {
        0
    } else {
        a[i]
    }
}

/// Pixel group `p` (bytes `4p` to `4p + 3`) exists in both buffers and
/// agrees byte for byte.
pub open spec fn spec_pixel_eq(a: Seq<u8>, e: Seq<u8>, p: int) -> bool {
    0 <= p && 4 * p + 3 < a.len() && 4 * p + 3 < e.len() && a[4 * p] == e[4 * p] && a[4 * p + 1]
        == e[4 * p + 1] && a[4 * p + 2] == e[4 * p + 2] && a[4 * p + 3] == e[4 * p + 3]
}

/// The pixel diff of an actual frame against an expected frame: the actual
/// frame's dimensions, with every pixel that agrees with the expected frame
/// blanked to transparent zero and every differing pixel kept from the
/// actual frame.
pub fn diff_images(actual: &Frame, expected: &Frame) -> (d: Frame)
    requires
        actual.spec_wf(),
    ensures
        d.width == actual.width,
        d.height == actual.height,
        d.spec_wf(),
        d.pixels@.len() == actual.pixels@.len(),
        forall|i: int|
            0 <= i < d.pixels@.len() ==> d.pixels@[i] == spec_diff_byte(
                actual.pixels@,
                expected.pixels@,
                i,
            ),
{
    let n: usize = actual.pixels.len();
    proof {
        assert(4 * (actual.width as int) * (actual.height as int) == 4 * ((actual.width as int)
            * (actual.height as int))) by (nonlinear_arith);
        vstd::arithmetic::div_mod::lemma_mod_multiples_vanish(
            (actual.width as int) * (actual.height as int),
            0,
            4,
        );
        vstd::arithmetic::div_mod::lemma_fundamental_div_mod(n as int, 4);
    }
    let np: usize = n / 4;
    let mut out: Vec<u8> = Vec::new();
    let mut p: usize = 0;
    while p < np
        invariant
            actual.spec_wf(),
            n == actual.pixels@.len(),
            4 * np == n,
            p <= np,
            out@.len() == 4 * p,
            forall|i: int|
                0 <= i < 4 * p ==> out@[i] == spec_diff_byte(actual.pixels@, expected.pixels@, i),
        decreases np - p,
    {
        let base: usize = 4 * p;
        let group_equal: bool = base + 3 < expected.pixels.len() && actual.pixels[base]
            == expected.pixels[base] && actual.pixels[base + 1] == expected.pixels[base + 1]
            && actual.pixels[base + 2] == expected.pixels[base + 2] && actual.pixels[base + 3]
            == expected.pixels[base + 3];
        proof {
            assert(group_equal == spec_pixel_eq(actual.pixels@, expected.pixels@, p as int));
        }
        if group_equal {
            out.push(0);
            out.push(0);
            out.push(0);
            out.push(0);
        } else {
            out.push(actual.pixels[base]);
            out.push(actual.pixels[base + 1]);
            out.push(actual.pixels[base + 2]);
            out.push(actual.pixels[base + 3]);
        }
        proof {
            vstd::arithmetic::div_mod::lemma_div_multiples_vanish_fancy(p as int, 0, 4);
            vstd::arithmetic::div_mod::lemma_div_multiples_vanish_fancy(p as int, 1, 4);
            vstd::arithmetic::div_mod::lemma_div_multiples_vanish_fancy(p as int, 2, 4);
            vstd::arithmetic::div_mod::lemma_div_multiples_vanish_fancy(p as int, 3, 4);
        }
        p = p + 1;
    }
    Frame { width: actual.width, height: actual.height, pixels: out }
}

/// A decoded image of the `image` crate, declared so that it can cross the
/// library's signatures. Its pixels are reached only through
/// [`image_dims`] and [`image_rgba`].
#[verifier::external_type_specification]
#[verifier::external_body]
pub struct ExDynamicImage(image::DynamicImage);

/// The width and height of a decoded image.
pub uninterp spec fn image_dims(img: image::DynamicImage) -> (nat, nat);

/// The raw byte buffer of a decoded image's RGBA conversion. Its leading
/// four bytes per pixel are the pixels row by row; a buffer handed to the
/// `image` crate at construction may carry spare bytes beyond them.
pub uninterp spec fn image_rgba(img: image::DynamicImage) -> Seq<u8>;

/// The RGBA pixels of a decoded image, exactly four bytes per pixel, row by
/// row: the raw conversion buffer cut to four bytes per pixel.
pub open spec fn image_rgba_sized(img: image::DynamicImage) -> Seq<u8> {
    image_rgba(img).take(4 * (image_dims(img).0 as int) * (image_dims(img).1 as int))
}

/// Relies on `image::GenericImageView::dimensions` for `DynamicImage`: the
/// image's width and height.
#[verifier::external_body]
fn image_dimensions(img: &image::DynamicImage) -> (d: (u32, u32))
    ensures
        d.0 as nat == image_dims(*img).0,
        d.1 as nat == image_dims(*img).1,
{
    image::GenericImageView::dimensions(img)
}

/// Relies on `image::DynamicImage::to_rgba8` and
/// `image::ImageBuffer::into_raw`: the raw buffer of the RGBA conversion.
/// Every constructor of the crate's image buffers checks that the container
/// holds at least four bytes per pixel, but an already-RGBA image keeps its
/// own container, which may be longer; so only the lower length bound is
/// relied on.
#[verifier::external_body]
fn image_rgba_bytes(img: &image::DynamicImage) -> (v: Vec<u8>)
    ensures
        v@ == image_rgba(*img),
        v@.len() >= 4 * image_dims(*img).0 * image_dims(*img).1,
{
    img.to_rgba8().into_raw()
}

/// The plain pixel grid of a decoded image: the RGBA conversion buffer cut
/// to exactly four bytes per pixel.
pub fn frame_of_image(img: &image::DynamicImage) -> (f: Frame)
    ensures
        f.width as nat == image_dims(*img).0,
        f.height as nat == image_dims(*img).1,
        f.pixels@ == image_rgba_sized(*img),
        f.spec_wf(),
{
    let d: (u32, u32) = image_dimensions(img);
    let mut px: Vec<u8> = image_rgba_bytes(img);
    let available: usize = px.len();
    proof {
        assert(available == px@.len());
        assert(4 * (d.0 as nat) * (d.1 as nat) == 4 * ((d.0 as nat) * (d.1 as nat)))
            by (nonlinear_arith);
    }
    let pixel_count: usize = (d.0 as usize) * (d.1 as usize);
    let byte_count: usize = 4 * pixel_count;
    px.truncate(byte_count);
    Frame { width: d.0, height: d.1, pixels: px }
}

/// Compare a reference image against an actual image: success exactly when
/// their dimensions and RGBA bytes agree, and otherwise a mismatch carrying
/// the actual and the expected frame.
pub fn compare_screenshot_images(reference: image::DynamicImage, actual: image::DynamicImage) -> (r:
    Result<(), ScreenshotError>)
    ensures
        (image_dims(reference) == image_dims(actual) && image_rgba_sized(reference)
            == image_rgba_sized(actual)) <==> r is Ok,
        r matches Err(e) ==> e matches ScreenshotError::ScreenshotMismatch(a, x) && a.width as nat
            == image_dims(actual).0 && a.height as nat == image_dims(actual).1 && a.pixels@
            == image_rgba_sized(actual) && x.width as nat == image_dims(reference).0 && x.height
            as nat == image_dims(reference).1 && x.pixels@ == image_rgba_sized(reference),
{
    let reference_frame: Frame = frame_of_image(&reference);
    let actual_frame: Frame = frame_of_image(&actual);
    compare_screenshot_frames(reference_frame, actual_frame)
}

/// The artifacts a failed check leaves behind: a missing reference writes
/// the capture as the new expected baseline; a mismatch writes the actual
/// frame, the expected frame, and their pixel diff; any other failure leaves
/// nothing.
pub fn handle_screenshot_error(screenshot_error: &ScreenshotError) -> (artifacts: Vec<
    (ArtifactKind, Frame),
>)
    requires
        (*screenshot_error matches ScreenshotError::ScreenshotMismatch(a, e) ==> a.spec_wf()),
    ensures
        match *screenshot_error {
            ScreenshotError::NoReferenceScreenshot(img) => artifacts@.len() == 1
                && artifacts@[0].0 == ArtifactKind::Expected && artifacts@[0].1.width == img.width
                && artifacts@[0].1.height == img.height && artifacts@[0].1.pixels@ == img.pixels@,
            ScreenshotError::ScreenshotMismatch(a, e) => artifacts@.len() == 3 && artifacts@[0].0
                == ArtifactKind::Actual && artifacts@[0].1.width == a.width
                && artifacts@[0].1.height == a.height && artifacts@[0].1.pixels@ == a.pixels@
                && artifacts@[1].0 == ArtifactKind::Expected && artifacts@[1].1.width == e.width
                && artifacts@[1].1.height == e.height && artifacts@[1].1.pixels@ == e.pixels@
                && artifacts@[2].0 == ArtifactKind::Diff && artifacts@[2].1.width == a.width
                && artifacts@[2].1.height == a.height && artifacts@[2].1.pixels@.len()
                == a.pixels@.len() && forall|i: int|
                0 <= i < a.pixels@.len() ==> artifacts@[2].1.pixels@[i] == spec_diff_byte(
                    a.pixels@,
                    e.pixels@,
                    i,
                ),
            _ => artifacts@.len() == 0,
        },
{
    let mut artifacts: Vec<(ArtifactKind, Frame)> = Vec::new();
    match screenshot_error {
        ScreenshotError::NoReferenceScreenshot(img) => {
            artifacts.push((ArtifactKind::Expected, img.duplicate()));
        },
        ScreenshotError::ScreenshotMismatch(a, e) => {
            let diff_image: Frame = diff_images(a, e);
            artifacts.push((ArtifactKind::Actual, a.duplicate()));
            artifacts.push((ArtifactKind::Expected, e.duplicate()));
            artifacts.push((ArtifactKind::Diff, diff_image));
        },
        _ => {},
    }
    artifacts
}

/// What the host loop must do for the current test frame.
#[derive(Clone, Copy, PartialEq, Eq, Structural, Debug)]
pub enum TestAction {
    EnterFullscreen,
    Wait,
    CaptureAndQuit,
}

/// Drives a screenshot test over a few frames: the first frame enters
/// fullscreen, the next two let the scene settle, and from the fourth on
/// the frame is captured, checked and the loop quits.
#[derive(Debug)]
pub struct TestState {
    pub frame_count: usize,
    pub test_name: String,
}

/// The next test-harness state and the action owed for this frame.
pub open spec fn spec_test_tick(s: TestState) -> (TestState, TestAction) {
    if s.frame_count == 0 {
        (TestState { frame_count: 1, ..s }, TestAction::EnterFullscreen)
    } else if s.frame_count > 2 {
        (s, TestAction::CaptureAndQuit)
    } else {
        (TestState { frame_count: (s.frame_count + 1) as usize, ..s }, TestAction::Wait)
    }
}

impl TestState {
    /// The frame counter never runs past the capture frame.
    pub open spec fn spec_wf(self) -> bool {
        self.frame_count <= 3
    }

    /// A fresh harness for a named test.
    pub fn new(test_name: String) -> (s: TestState)
        ensures
            s.frame_count == 0,
            s.test_name@ == test_name@,
            s.spec_wf(),
    {
        TestState { frame_count: 0, test_name }
    }

    /// One frame of the harness, exactly [`spec_test_tick`].
    pub fn update(&mut self) -> (action: TestAction)
        requires
            old(self).spec_wf(),
        ensures
            (*final(self), action) == spec_test_tick(*old(self)),
            final(self).spec_wf(),
            final(self).test_name@ == old(self).test_name@,
    {
        if self.frame_count == 0 {
            self.frame_count = 1;
            TestAction::EnterFullscreen
        } else if self.frame_count > 2 {
            TestAction::CaptureAndQuit
        } else {
            self.frame_count = self.frame_count + 1;
            TestAction::Wait
        }
    }
}

} // verus!
