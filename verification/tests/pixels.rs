use waifu2x::errors::Waifu2xError;
use waifu2x::pipeline::finish_upscale;
use waifu2x::pipeline::prepare_upscale;
use waifu2x::pixels::Image;
use waifu2x::pixels::TypedImage;
use waifu2x::pixels::convert_image;
use waifu2x::pixels::promote;

#[test]
fn gray_is_promoted_to_rgb() {
    let img = Image { w: 2, h: 1, c: 1, data: vec![10, 200] };
    let out = promote(img);
    assert_eq!((out.w, out.h, out.c), (2, 1, 3));
    assert_eq!(out.data, vec![10, 10, 10, 200, 200, 200]);
}

#[test]
fn gray_alpha_is_promoted_to_rgba() {
    let img = Image { w: 1, h: 2, c: 2, data: vec![10, 20, 30, 40] };
    let out = promote(img);
    assert_eq!((out.w, out.h, out.c), (1, 2, 4));
    assert_eq!(out.data, vec![10, 10, 10, 20, 30, 30, 30, 40]);
}

#[test]
fn rgb_and_rgba_pass_through_unchanged() {
    let rgb = Image { w: 1, h: 1, c: 3, data: vec![1, 2, 3] };
    let out = promote(rgb);
    assert_eq!((out.w, out.h, out.c), (1, 1, 3));
    assert_eq!(out.data, vec![1, 2, 3]);

    let rgba = Image { w: 1, h: 1, c: 4, data: vec![1, 2, 3, 4] };
    let out = promote(rgba);
    assert_eq!(out.c, 4);
    assert_eq!(out.data, vec![1, 2, 3, 4]);
}

#[test]
fn reconstruction_follows_channel_count() {
    let gray = convert_image(2, 1, 1, vec![5, 6]).unwrap();
    assert!(matches!(gray, TypedImage::Gray8(_)));
    assert_eq!(gray.channels(), 1);

    let gray_alpha = convert_image(1, 1, 2, vec![5, 6]).unwrap();
    assert!(matches!(gray_alpha, TypedImage::GrayAlpha8(_)));
    assert_eq!(gray_alpha.channels(), 2);

    let rgb = convert_image(1, 1, 3, vec![5, 6, 7]).unwrap();
    assert!(matches!(rgb, TypedImage::Rgb8(_)));
    assert_eq!(rgb.channels(), 3);

    let rgba = convert_image(1, 1, 4, vec![5, 6, 7, 8]).unwrap();
    assert!(matches!(rgba, TypedImage::Rgba8(_)));
    assert_eq!(rgba.channels(), 4);
    assert_eq!(rgba.buffer().data, vec![5, 6, 7, 8]);
}

#[test]
fn reconstruction_rejects_unsupported_channel_counts() {
    let five = convert_image(1, 1, 5, vec![0, 0, 0, 0, 0]);
    assert!(matches!(five, Err(Waifu2xError::UnsupportedChannelCount)));
    let zero = convert_image(3, 3, 0, vec![]);
    assert!(matches!(zero, Err(Waifu2xError::UnsupportedChannelCount)));
}

#[test]
fn grayscale_denoise_pipeline_yields_rgb() {
    // A 50x50 grayscale input at scale 1: the adapter promotes it to RGB,
    // a single identity-shaped pass runs, and the reconstruction follows
    // the promoted channel count, so the result is RGB, not grayscale.
    let img = Image { w: 50, h: 50, c: 1, data: vec![128; 50 * 50] };
    let (normalized, mut session) = prepare_upscale(img, 1);
    assert_eq!(normalized.c, 3);
    assert_eq!(session.channels, 3);

    let only = session.next_pass().unwrap();
    assert_eq!((only.in_w, only.in_h), (50, 50));
    assert_eq!((only.out_w, only.out_h), (50, 50));
    assert!(!session.record_pass());
    assert!(session.next_pass().is_none());

    let engine_bytes = vec![7u8; 50 * 50 * 3];
    let result = finish_upscale(&mut session, engine_bytes).unwrap();
    assert!(matches!(result, TypedImage::Rgb8(_)));
    assert_eq!(result.channels(), 3);
    assert_eq!((result.buffer().w, result.buffer().h), (50, 50));
    assert_eq!(session.live_buffers, 0);
    assert_eq!(session.releases, 1);
}

#[test]
fn upscale_pipeline_keeps_promoted_channel_count() {
    // A 100x100 RGB input at net scale 4: two doubling passes, the final
    // buffer is 400x400, and the reconstructed image is RGB again.
    let img = Image { w: 100, h: 100, c: 3, data: vec![9; 100 * 100 * 3] };
    let (normalized, mut session) = prepare_upscale(img, 4);
    assert_eq!(normalized.c, 3);

    let mut process_calls = 0;
    while let Some(_) = session.next_pass() {
        session.record_pass();
        process_calls += 1;
    }
    assert_eq!(process_calls, 2);

    let engine_bytes = vec![1u8; 400 * 400 * 3];
    let result = finish_upscale(&mut session, engine_bytes).unwrap();
    assert_eq!(result.channels(), 3);
    assert_eq!((result.buffer().w, result.buffer().h), (400, 400));
}
