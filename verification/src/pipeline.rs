//! The pre- and post-steps of one upscale call, tied to the pass state
//! machine: normalize the input's channel layout, then reconstruct the
//! typed result from the final pass's bytes while closing the session.

use vstd::prelude::*;

use crate::errors::Waifu2xError;
use crate::pixels::Image;
use crate::pixels::TypedImage;
use crate::pixels::convert_image;
use crate::pixels::promote;
use crate::pixels::spec_gray_alpha_to_rgba;
use crate::pixels::spec_gray_to_rgb;
use crate::pixels::spec_promoted_channels;
use crate::scaler::Phase;
use crate::scaler::ScaleSession;
use crate::scaler::spec_pass_count;
use crate::scaler::valid_scale;

verus! {

/// Normalizes the input image's channel layout and opens the pass state
/// machine for it: the session's channel count is the promoted one, which
/// is the count used for every inference pass and for the final
/// reconstruction.
pub fn prepare_upscale(img: Image, scale: u32) -> (r: (Image, ScaleSession))
    requires
        img.wf(),
        valid_scale(scale as int),
        1 <= img.w,
        1 <= img.h,
        img.w * scale <= 0x7fffffff,
        img.h * scale <= 0x7fffffff,
        img.w * img.h * 4 <= usize::MAX,
    ensures
        r.0.wf(),
        r.0.w == img.w,
        r.0.h == img.h,
        r.0.c == spec_promoted_channels(img.c as int),
        img.c == 1 ==> r.0.data@ == spec_gray_to_rgb(img.data@),
        img.c == 2 ==> r.0.data@ == spec_gray_alpha_to_rgba(img.data@),
        img.c >= 3 ==> r.0.data@ == img.data@,
        r.1.wf(),
        r.1.scale == scale,
        r.1.in_w == img.w,
        r.1.in_h == img.h,
        r.1.channels == spec_promoted_channels(img.c as int),
        r.1.passes_done == 0,
        r.1.cur_w == img.w,
        r.1.cur_h == img.h,
        r.1.live_buffers == 0,
        r.1.releases == 0,
        r.1.phase == Phase::Running,
{
    let normalized = promote(img);
    let session = ScaleSession::new(scale, normalized.w, normalized.h, normalized.c);
    (normalized, session)
}

/// Closes a session whose passes have all run: the final engine buffer's
/// bytes, already copied out by the caller, are reconstructed into the
/// typed image for the channel count used through the pipeline, and the
/// session records the final buffer's release. Reconstruction always
/// succeeds here — the session never carries an unsupported channel
/// count.
pub fn finish_upscale(session: &mut ScaleSession, bytes: Vec<u8>) -> (r: Result<
    TypedImage,
    Waifu2xError,
>)
    requires
        old(session).wf(),
        old(session).phase == Phase::Running,
        old(session).passes_done == spec_pass_count(old(session).scale as int),
        bytes@.len() == old(session).cur_w * old(session).cur_h * old(session).channels,
    ensures
        final(session).wf(),
        final(session).phase == Phase::Finished,
        final(session).live_buffers == 0,
        final(session).releases == final(session).passes_done,
        r is Ok,
        ({
            let img = r.unwrap();
            &&& img.wf()
            &&& img.spec_channels() == old(session).channels
            &&& img.spec_buffer().w == old(session).in_w * old(session).scale
            &&& img.spec_buffer().h == old(session).in_h * old(session).scale
            &&& img.spec_buffer().data@ == bytes@
        }),
{
    let out_w = session.cur_w;
    let out_h = session.cur_h;
    let channels = session.channels;
    session.finish();
    convert_image(out_w, out_h, channels, bytes)
}

} // verus!
