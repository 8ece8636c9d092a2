use tank_battle::screenshot::{
    compare_screenshot_frames, compare_screenshot_images, diff_images, frame_of_image,
    handle_screenshot_error, screenshot_check, ArtifactKind, Frame, ScreenshotError, TestAction,
    TestState,
};

fn frame(width: u32, height: u32, pixels: Vec<u8>) -> Frame {
    Frame { width, height, pixels }
}

#[test]
fn identical_frames_compare_equal() {
    let reference = frame(2, 1, vec![1, 2, 3, 4, 5, 6, 7, 8]);
    let actual = frame(2, 1, vec![1, 2, 3, 4, 5, 6, 7, 8]);
    assert!(compare_screenshot_frames(reference, actual).is_ok());
}

#[test]
fn single_byte_difference_is_a_mismatch() {
    let reference = frame(2, 1, vec![1, 2, 3, 4, 5, 6, 7, 8]);
    let actual = frame(2, 1, vec![1, 2, 3, 4, 5, 6, 7, 9]);
    match compare_screenshot_frames(reference, actual) {
        Err(ScreenshotError::ScreenshotMismatch(a, e)) => {
            assert_eq!(a.pixels, vec![1, 2, 3, 4, 5, 6, 7, 9]);
            assert_eq!(e.pixels, vec![1, 2, 3, 4, 5, 6, 7, 8]);
        }
        _ => panic!("expected a mismatch"),
    }
}

#[test]
fn dimension_difference_is_a_mismatch() {
    let reference = frame(2, 1, vec![1, 2, 3, 4, 5, 6, 7, 8]);
    let actual = frame(1, 2, vec![1, 2, 3, 4, 5, 6, 7, 8]);
    assert!(compare_screenshot_frames(reference, actual).is_err());
}

#[test]
fn missing_reference_is_a_distinct_error() {
    let captured = frame(1, 1, vec![9, 9, 9, 255]);
    match screenshot_check(None, captured) {
        Err(ScreenshotError::NoReferenceScreenshot(img)) => {
            assert_eq!(img.pixels, vec![9, 9, 9, 255]);
        }
        _ => panic!("expected the no-reference error"),
    }
}

#[test]
fn present_reference_is_compared() {
    let reference = frame(1, 1, vec![9, 9, 9, 255]);
    let captured = frame(1, 1, vec![9, 9, 9, 255]);
    assert!(screenshot_check(Some(reference), captured).is_ok());
}

#[test]
fn diff_blanks_equal_pixels_and_keeps_differing_ones() {
    let actual = frame(2, 1, vec![1, 2, 3, 4, 50, 60, 70, 80]);
    let expected = frame(2, 1, vec![1, 2, 3, 4, 5, 6, 7, 8]);
    let d = diff_images(&actual, &expected);
    assert_eq!(d.width, 2);
    assert_eq!(d.height, 1);
    assert_eq!(d.pixels, vec![0, 0, 0, 0, 50, 60, 70, 80]);
}

#[test]
fn mismatch_produces_three_artifacts() {
    let actual = frame(1, 1, vec![1, 2, 3, 4]);
    let expected = frame(1, 1, vec![1, 2, 3, 5]);
    let err = ScreenshotError::ScreenshotMismatch(actual, expected);
    let artifacts = handle_screenshot_error(&err);
    assert_eq!(artifacts.len(), 3);
    assert_eq!(artifacts[0].0, ArtifactKind::Actual);
    assert_eq!(artifacts[0].1.pixels, vec![1, 2, 3, 4]);
    assert_eq!(artifacts[1].0, ArtifactKind::Expected);
    assert_eq!(artifacts[1].1.pixels, vec![1, 2, 3, 5]);
    assert_eq!(artifacts[2].0, ArtifactKind::Diff);
    assert_eq!(artifacts[2].1.pixels, vec![1, 2, 3, 4]);
}

#[test]
fn missing_reference_produces_one_artifact() {
    let captured = frame(1, 1, vec![7, 7, 7, 255]);
    let err = ScreenshotError::NoReferenceScreenshot(captured);
    let artifacts = handle_screenshot_error(&err);
    assert_eq!(artifacts.len(), 1);
    assert_eq!(artifacts[0].0, ArtifactKind::Expected);
    assert_eq!(artifacts[0].1.pixels, vec![7, 7, 7, 255]);
}

#[test]
fn io_errors_produce_no_artifacts() {
    assert_eq!(handle_screenshot_error(&ScreenshotError::LoadIoError).len(), 0);
    assert_eq!(handle_screenshot_error(&ScreenshotError::SaveIoError).len(), 0);
}

#[test]
fn frame_of_image_reads_dimensions_and_bytes() {
    let buf = image::RgbaImage::from_raw(2, 1, vec![1, 2, 3, 4, 5, 6, 7, 8]).unwrap();
    let img = image::DynamicImage::ImageRgba8(buf);
    let f = frame_of_image(&img);
    assert_eq!(f.width, 2);
    assert_eq!(f.height, 1);
    assert_eq!(f.pixels, vec![1, 2, 3, 4, 5, 6, 7, 8]);
}

#[test]
fn frame_of_image_cuts_an_oversized_buffer() {
    // the image crate accepts a 1x1 RGBA buffer with spare bytes at the end
    let buf = image::RgbaImage::from_raw(1, 1, vec![1, 2, 3, 4, 5, 6, 7, 8]).unwrap();
    let img = image::DynamicImage::ImageRgba8(buf);
    let f = frame_of_image(&img);
    assert_eq!(f.width, 1);
    assert_eq!(f.height, 1);
    assert_eq!(f.pixels, vec![1, 2, 3, 4]);
}

#[test]
fn images_with_spare_buffer_bytes_compare_by_pixels() {
    let a = image::DynamicImage::ImageRgba8(
        image::RgbaImage::from_raw(1, 1, vec![1, 2, 3, 4, 9, 9]).unwrap(),
    );
    let b = image::DynamicImage::ImageRgba8(
        image::RgbaImage::from_raw(1, 1, vec![1, 2, 3, 4]).unwrap(),
    );
    assert!(compare_screenshot_images(a, b).is_ok());
}

#[test]
fn frame_of_gray_image_expands_to_rgba() {
    let buf = image::GrayImage::from_raw(2, 1, vec![10, 200]).unwrap();
    let img = image::DynamicImage::ImageLuma8(buf);
    let f = frame_of_image(&img);
    assert_eq!(f.width, 2);
    assert_eq!(f.height, 1);
    assert_eq!(f.pixels, vec![10, 10, 10, 255, 200, 200, 200, 255]);
}

#[test]
fn equal_images_compare_equal() {
    let a = image::DynamicImage::ImageRgba8(
        image::RgbaImage::from_raw(1, 2, vec![1, 2, 3, 4, 5, 6, 7, 8]).unwrap(),
    );
    let b = image::DynamicImage::ImageRgba8(
        image::RgbaImage::from_raw(1, 2, vec![1, 2, 3, 4, 5, 6, 7, 8]).unwrap(),
    );
    assert!(compare_screenshot_images(a, b).is_ok());
}

#[test]
fn differing_images_mismatch_with_both_frames() {
    let a = image::DynamicImage::ImageRgba8(
        image::RgbaImage::from_raw(1, 1, vec![1, 2, 3, 4]).unwrap(),
    );
    let b = image::DynamicImage::ImageRgba8(
        image::RgbaImage::from_raw(1, 1, vec![1, 2, 3, 5]).unwrap(),
    );
    match compare_screenshot_images(a, b) {
        Err(ScreenshotError::ScreenshotMismatch(actual, expected)) => {
            assert_eq!(actual.pixels, vec![1, 2, 3, 5]);
            assert_eq!(expected.pixels, vec![1, 2, 3, 4]);
        }
        _ => panic!("expected a mismatch"),
    }
}

#[test]
fn test_state_runs_fullscreen_wait_wait_capture() {
    let mut s = TestState::new("demo".to_string());
    assert_eq!(s.update(), TestAction::EnterFullscreen);
    assert_eq!(s.update(), TestAction::Wait);
    assert_eq!(s.update(), TestAction::Wait);
    assert_eq!(s.update(), TestAction::CaptureAndQuit);
    assert_eq!(s.update(), TestAction::CaptureAndQuit);
    assert_eq!(s.test_name, "demo");
}
