use image_processor::editor::ImageProcessor;
use image_processor::errors::{LoadError, SaveError, TransformError};
use image_processor::image_data::Image;
use image_processor::ops::Operation;

/// An asymmetric, colourful test pattern, so that every transform visibly
/// changes it.
fn sample_image(width: u32, height: u32) -> Image {
    let mut pixels: Vec<u8> = Vec::new();
    for y in 0..height {
        for x in 0..width {
            for c in 0..4u32 {
                if c == 3 {
                    pixels.push(255);
                } else {
                    pixels.push(((x * 7 + y * 13 + c * 29) % 251) as u8);
                }
            }
        }
    }
    Image::try_new(width, height, pixels).unwrap()
}

fn load_editor(img: &Image) -> ImageProcessor {
    let mut ed = ImageProcessor::default();
    let bytes = img.to_png_bytes().unwrap();
    ed.load(&bytes, String::from("sample.png")).unwrap();
    ed
}

fn current(ed: &ImageProcessor) -> Image {
    ed.current_image().unwrap().clone()
}

fn apply(ed: &mut ImageProcessor, op: Operation) -> Result<(), TransformError> {
    ed.submit(op);
    ed.tick()
}

#[test]
fn try_new_checks_buffer_length() {
    assert!(Image::try_new(2, 2, vec![0; 16]).is_some());
    assert!(Image::try_new(2, 2, vec![0; 15]).is_none());
    assert!(Image::try_new(2, 2, vec![0; 17]).is_none());
    let img = Image::try_new(3, 5, vec![7; 60]).unwrap();
    assert_eq!(img.width(), 3);
    assert_eq!(img.height(), 5);
}

#[test]
fn png_round_trip_preserves_pixels() {
    let img = sample_image(9, 7);
    let ed = load_editor(&img);
    assert_eq!(current(&ed), img);
    assert_eq!(ed.image_path().unwrap().as_str(), "sample.png");
}

#[test]
fn export_matches_current_image() {
    let img = sample_image(6, 4);
    let ed = load_editor(&img);
    assert_eq!(ed.export_png().unwrap(), img.to_png_bytes().unwrap());
}

#[test]
fn export_without_document_fails() {
    let ed = ImageProcessor::default();
    assert_eq!(ed.export_png(), Err(SaveError::Unencodable));
}

#[test]
fn encode_empty_image_fails() {
    let empty = Image::try_new(0, 0, vec![]).unwrap();
    assert_eq!(empty.to_png_bytes(), Err(SaveError::Unencodable));
}

#[test]
fn load_garbage_fails_and_changes_nothing() {
    let img = sample_image(8, 8);
    let mut ed = load_editor(&img);
    apply(&mut ed, Operation::FlipHorizontal).unwrap();
    let before = current(&ed);
    let r = ed.load(&[1, 2, 3, 4], String::from("junk.bin"));
    assert_eq!(r, Err(LoadError::Undecodable));
    assert_eq!(current(&ed), before);
    assert_eq!(ed.history().len(), 1);
    assert_eq!(ed.image_path().unwrap().as_str(), "sample.png");
}

#[test]
fn load_resets_history() {
    let img = sample_image(10, 10);
    let mut ed = load_editor(&img);
    apply(&mut ed, Operation::FlipHorizontal).unwrap();
    apply(&mut ed, Operation::FlipVertical).unwrap();
    apply(&mut ed, Operation::Undo).unwrap();
    assert!(ed.history().len() > 0);
    assert!(ed.redo().len() > 0);
    let other = sample_image(4, 6);
    ed.load(&other.to_png_bytes().unwrap(), String::from("other.png")).unwrap();
    assert_eq!(ed.history().len(), 0);
    assert_eq!(ed.redo().len(), 0);
    assert_eq!(current(&ed), other);
    assert_eq!(ed.image_path().unwrap().as_str(), "other.png");
}

#[test]
fn tick_without_pending_is_noop() {
    let img = sample_image(5, 5);
    let mut ed = load_editor(&img);
    assert_eq!(ed.tick(), Ok(()));
    assert_eq!(current(&ed), img);
    assert_eq!(ed.history().len(), 0);
}

#[test]
fn tick_without_document_drains_slot() {
    let mut ed = ImageProcessor::default();
    ed.submit(Operation::Grayscale);
    assert_eq!(ed.tick(), Ok(()));
    assert_eq!(ed.pending(), None);
    assert!(ed.current_image().is_none());
}

#[test]
fn pending_slot_overwrites() {
    let img = sample_image(100, 100);
    let mut ed = load_editor(&img);
    ed.submit(Operation::Resize { width: 50, height: 50 });
    ed.submit(Operation::Blur { sigma_bits: 1.0f32.to_bits() });
    assert_eq!(ed.pending(), Some(Operation::Blur { sigma_bits: 1.0f32.to_bits() }));
    ed.tick().unwrap();
    // Only the blur was applied: the dimensions are untouched and exactly
    // one snapshot was recorded.
    let cur = current(&ed);
    assert_eq!(cur.width(), 100);
    assert_eq!(cur.height(), 100);
    assert_ne!(cur, img);
    assert_eq!(ed.history().len(), 1);
    assert_eq!(ed.pending(), None);
}

#[test]
fn undo_restores_pre_edit_image() {
    let img = sample_image(16, 12);
    let mut ed = load_editor(&img);
    apply(&mut ed, Operation::FlipHorizontal).unwrap();
    assert_ne!(current(&ed), img);
    apply(&mut ed, Operation::Undo).unwrap();
    assert_eq!(current(&ed), img);
}

#[test]
fn redo_restores_post_edit_image() {
    let img = sample_image(16, 12);
    let mut ed = load_editor(&img);
    apply(&mut ed, Operation::FlipHorizontal).unwrap();
    let flipped = current(&ed);
    apply(&mut ed, Operation::Undo).unwrap();
    apply(&mut ed, Operation::Redo).unwrap();
    assert_eq!(current(&ed), flipped);
}

#[test]
fn undo_on_empty_stack_is_noop() {
    let img = sample_image(7, 9);
    let mut ed = load_editor(&img);
    assert_eq!(apply(&mut ed, Operation::Undo), Ok(()));
    assert_eq!(current(&ed), img);
    assert_eq!(ed.history().len(), 0);
    assert_eq!(ed.redo().len(), 0);
}

#[test]
fn redo_on_empty_stack_is_noop() {
    let img = sample_image(7, 9);
    let mut ed = load_editor(&img);
    assert_eq!(apply(&mut ed, Operation::Redo), Ok(()));
    assert_eq!(current(&ed), img);
    assert_eq!(ed.history().len(), 0);
    assert_eq!(ed.redo().len(), 0);
}

#[test]
fn capacity_is_never_exceeded() {
    let img = sample_image(12, 12);
    let mut ed = load_editor(&img);
    for i in 0..25 {
        let op = if i % 2 == 0 {
            Operation::FlipHorizontal
        } else {
            Operation::FlipVertical
        };
        apply(&mut ed, op).unwrap();
        assert!(ed.history().len() <= 10);
        assert!(ed.redo().len() <= 10);
    }
    for _ in 0..15 {
        apply(&mut ed, Operation::Undo).unwrap();
        assert!(ed.history().len() <= 10);
        assert!(ed.redo().len() <= 10);
    }
}

#[test]
fn eviction_is_oldest_first() {
    let img = sample_image(12, 12);
    let mut ed = load_editor(&img);
    let mut snapshots: Vec<Image> = Vec::new();
    for i in 0..11u32 {
        snapshots.push(current(&ed));
        apply(&mut ed, Operation::Resize { width: 13 + i, height: 12 }).unwrap();
    }
    // Eleven distinct pre-edit snapshots were pushed; the oldest one was
    // evicted and the remaining ten kept their relative order.
    assert_eq!(ed.history().len(), 10);
    for i in 0..10usize {
        assert_eq!(*ed.history().get(i), snapshots[i + 1]);
    }
}

#[test]
fn scenario_resize_blur_grayscale_undo_undo() {
    let img = sample_image(100, 100);
    let mut ed = load_editor(&img);
    apply(&mut ed, Operation::Resize { width: 50, height: 50 }).unwrap();
    let resized = current(&ed);
    assert_eq!(resized.width(), 50);
    assert_eq!(resized.height(), 50);
    apply(&mut ed, Operation::Blur { sigma_bits: 2.0f32.to_bits() }).unwrap();
    let blurred = current(&ed);
    apply(&mut ed, Operation::Grayscale).unwrap();
    let grayed = current(&ed);
    apply(&mut ed, Operation::Undo).unwrap();
    apply(&mut ed, Operation::Undo).unwrap();
    assert_eq!(current(&ed), resized);
    assert_eq!(ed.history().len(), 1);
    assert_eq!(*ed.history().get(0), img);
    assert_eq!(ed.redo().len(), 2);
    assert_eq!(*ed.redo().get(0), grayed);
    assert_eq!(*ed.redo().get(1), blurred);
}

#[test]
fn every_edit_changes_the_sample() {
    let img = sample_image(20, 14);
    let ops = [
        Operation::HueRotate { degrees: 90 },
        Operation::Blur { sigma_bits: 1.5f32.to_bits() },
        Operation::FlipHorizontal,
        Operation::FlipVertical,
        Operation::Grayscale,
        Operation::Brightness { delta: 40 },
        Operation::Contrast { factor_bits: 50.0f32.to_bits() },
    ];
    for op in ops {
        let mut ed = load_editor(&img);
        apply(&mut ed, op).unwrap();
        let cur = current(&ed);
        assert_eq!(cur.width(), 20);
        assert_eq!(cur.height(), 14);
        assert_ne!(cur, img);
        assert_eq!(ed.history().len(), 1);
        assert_eq!(*ed.history().get(0), img);
    }
}

#[test]
fn double_flip_is_identity() {
    let img = sample_image(11, 8);
    let mut ed = load_editor(&img);
    apply(&mut ed, Operation::FlipHorizontal).unwrap();
    apply(&mut ed, Operation::FlipHorizontal).unwrap();
    assert_eq!(current(&ed), img);
    apply(&mut ed, Operation::FlipVertical).unwrap();
    apply(&mut ed, Operation::FlipVertical).unwrap();
    assert_eq!(current(&ed), img);
}

#[test]
fn blur_accepts_zero_sigma() {
    let img = sample_image(10, 10);
    let mut ed = load_editor(&img);
    assert_eq!(apply(&mut ed, Operation::Blur { sigma_bits: 0.0f32.to_bits() }), Ok(()));
    assert_ne!(current(&ed), img);
}

#[test]
fn blur_rejects_bad_sigmas() {
    let img = sample_image(10, 10);
    let mut ed = load_editor(&img);
    for bad in [f32::NAN, f32::INFINITY, -1.0f32, f32::MIN_POSITIVE / 2.0] {
        let r = apply(&mut ed, Operation::Blur { sigma_bits: bad.to_bits() });
        assert_eq!(r, Err(TransformError::InvalidParameter));
        assert_eq!(current(&ed), img);
        assert_eq!(ed.history().len(), 0);
        assert_eq!(ed.pending(), None);
    }
}

#[test]
fn contrast_rejects_nan() {
    let img = sample_image(10, 10);
    let mut ed = load_editor(&img);
    let r = apply(&mut ed, Operation::Contrast { factor_bits: f32::NAN.to_bits() });
    assert_eq!(r, Err(TransformError::InvalidParameter));
    assert_eq!(current(&ed), img);
    assert_eq!(ed.history().len(), 0);
}

#[test]
fn resize_rejects_zero_dimensions() {
    let img = sample_image(10, 10);
    let mut ed = load_editor(&img);
    for (w, h) in [(0u32, 5u32), (5, 0), (0, 0)] {
        let r = apply(&mut ed, Operation::Resize { width: w, height: h });
        assert_eq!(r, Err(TransformError::InvalidDimensions));
        assert_eq!(current(&ed), img);
        assert_eq!(ed.history().len(), 0);
    }
}

#[test]
fn resize_rejects_overflowing_target() {
    let img = sample_image(10, 10);
    let mut ed = load_editor(&img);
    let r = apply(&mut ed, Operation::Resize { width: u32::MAX, height: u32::MAX });
    assert_eq!(r, Err(TransformError::InvalidDimensions));
    assert_eq!(current(&ed), img);
}

#[test]
fn editing_after_undo_keeps_stale_redo_branch() {
    // The reference behaviour: a fresh edit after an Undo records its own
    // snapshot but does not invalidate the redo stack.
    let img = sample_image(9, 9);
    let mut ed = load_editor(&img);
    apply(&mut ed, Operation::FlipHorizontal).unwrap();
    apply(&mut ed, Operation::Undo).unwrap();
    assert_eq!(ed.redo().len(), 1);
    apply(&mut ed, Operation::Grayscale).unwrap();
    assert_eq!(ed.redo().len(), 1);
    assert_eq!(ed.history().len(), 1);
}

#[test]
fn brightness_rejects_overflowing_delta() {
    let img = sample_image(10, 10);
    let mut ed = load_editor(&img);
    let r = apply(&mut ed, Operation::Brightness { delta: i32::MAX });
    assert_eq!(r, Err(TransformError::InvalidParameter));
    assert_eq!(current(&ed), img);
    assert_eq!(ed.history().len(), 0);
    assert_eq!(ed.pending(), None);
    // The largest accepted delta saturates every colour channel instead.
    assert_eq!(apply(&mut ed, Operation::Brightness { delta: i32::MAX - 255 }), Ok(()));
    assert_ne!(current(&ed), img);
}

#[test]
fn brightness_shifts_and_clamps_channels() {
    let img = Image::try_new(1, 1, vec![10, 250, 128, 77]).unwrap();
    let mut ed = load_editor(&img);
    apply(&mut ed, Operation::Brightness { delta: 40 }).unwrap();
    assert_eq!(current(&ed).pixels().as_slice(), &[50, 255, 168, 77]);
    apply(&mut ed, Operation::Undo).unwrap();
    apply(&mut ed, Operation::Brightness { delta: -40 }).unwrap();
    assert_eq!(current(&ed).pixels().as_slice(), &[0, 210, 88, 77]);
}

#[test]
fn flips_mirror_pixels() {
    let img = Image::try_new(2, 1, vec![1, 2, 3, 4, 5, 6, 7, 8]).unwrap();
    let mut ed = load_editor(&img);
    apply(&mut ed, Operation::FlipHorizontal).unwrap();
    assert_eq!(current(&ed).pixels().as_slice(), &[5, 6, 7, 8, 1, 2, 3, 4]);
    let tall = Image::try_new(1, 2, vec![1, 2, 3, 4, 5, 6, 7, 8]).unwrap();
    let mut ed = load_editor(&tall);
    apply(&mut ed, Operation::FlipVertical).unwrap();
    assert_eq!(current(&ed).pixels().as_slice(), &[5, 6, 7, 8, 1, 2, 3, 4]);
}
