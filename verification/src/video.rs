//! Turning the camera's H.264 stream into RGB frames.
//!
//! The camera sends length-prefixed NAL units; they are rewritten with start
//! codes, split into units, and fed to a decoder one by one. The last frame
//! that the decoder completes is the result.
use vstd::prelude::*;
use crate::flir_analysis::RgbImage;
use openh264::decoder::Decoder;

verus! {

/// The H.264 decoder of `openh264`.
#[verifier::external_type_specification]
#[verifier::external_body]
pub struct ExDecoder(openh264::decoder::Decoder);

/// The big-endian 32-bit number in the first four bytes of `s`.
pub open spec fn be_u32(s: Seq<u8>) -> int {
    s[0] as int * 16777216 + s[1] as int * 65536 + s[2] as int * 256 + s[3] as int
}

/// A stream of NAL units, each prefixed by its length as a big-endian
/// 32-bit number, rewritten with the start code `0 0 1` in front of each
/// unit instead. Rewriting stops at the first unit whose length does not
/// fit in what is left.
pub open spec fn annex_b(s: Seq<u8>) -> Seq<u8>
    decreases s.len(),
{
    if s.len() >= 4 && 4 + be_u32(s) <= s.len() {
        seq![0u8, 0u8, 1u8] + s.subrange(4, 4 + be_u32(s)) + annex_b(
            s.subrange(4 + be_u32(s), s.len() as int),
        )
    } else {
        seq![]
    }
}

/// Whether every length that the rewriting reads, with the four bytes of
/// its prefix added, fits in a `usize`. Always so on 64-bit targets.
pub open spec fn prefixes_fit(s: Seq<u8>) -> bool
    decreases s.len(),
{
    if s.len() >= 4 {
        if be_u32(s) + 4 > usize::MAX {
            false
        } else if 4 + be_u32(s) <= s.len() {
            prefixes_fit(s.subrange(4 + be_u32(s), s.len() as int))
        } else {
            true
        }
    } else {
        true
    }
}

/// Whether the length prefixes of a packet fit, as `prefixes_fit` states.
pub fn length_prefixes_fit(nal: &Vec<u8>) -> (r: bool)
    ensures
        r == prefixes_fit(nal@),
{
    let n = nal.len();
    let mut pos: usize = 0;
    assert(nal@.subrange(0, n as int) =~= nal@);
    while pos < n
        invariant
            pos <= n,
            n == nal@.len(),
            prefixes_fit(nal@) == prefixes_fit(nal@.subrange(pos as int, n as int)),
        decreases n - pos,
    {
        let ghost rest = nal@.subrange(pos as int, n as int);
        if n - pos < 4 {
            return true;
        }
        let l: u64 = (nal[pos] as u64) * 16777216 + (nal[pos + 1] as u64) * 65536 + (nal[pos
            + 2] as u64) * 256 + (nal[pos + 3] as u64);
        assert(l == be_u32(rest));
        if l > (usize::MAX as u64) - 4 {
            return false;
        }
        if l + 4 > (n - pos) as u64 {
            return true;
        }
        let next = pos + 4 + l as usize;
        assert(rest.subrange(4 + be_u32(rest), rest.len() as int) =~= nal@.subrange(
            next as int,
            n as int,
        ));
        pos = next;
    }
    assert(nal@.subrange(pos as int, n as int).len() == 0);
    true
}

/// Calls `openh264::to_bitstream_with_001_be::<u32>`, whose source clears
/// its output and then, while the rest of the input starts with a
/// big-endian 32-bit length that fits, writes `0 0 1` and that many bytes
/// and moves past them: the result is `annex_b` of the input. Reading a
/// length adds four to it in a `usize`, which could overflow on a 32-bit
/// target; `prefixes_fit` leaves such inputs out.
#[verifier::external_body]
fn to_annex_b(nal: &Vec<u8>) -> (r: Vec<u8>)
    requires
        prefixes_fit(nal@),
    ensures
        r@ == annex_b(nal@),
{
    let mut out: Vec<u8> = Vec::new();
    openh264::to_bitstream_with_001_be::<u32>(nal, &mut out);
    out
}

/// Whether a NAL unit's start code ends at position `i` of `s`: a one
/// right after two zeros.
pub open spec fn is_nal_start(s: Seq<u8>, i: int) -> bool {
    2 <= i < s.len() && s[i] == 1 && s[i - 1] == 0 && s[i - 2] == 0
}

/// The first position at or after `k` where a start code ends.
pub open spec fn next_nal_start(s: Seq<u8>, k: int) -> Option<int>
    decreases s.len() - k,
{
    if k < 0 || k >= s.len() {
        None
    } else if is_nal_start(s, k) {
        Some(k)
    } else {
        next_nal_start(s, k + 1)
    }
}

/// A start position found at or after `k` is one, and lies in the stream.
pub proof fn lemma_next_nal_start(s: Seq<u8>, k: int)
    ensures
        next_nal_start(s, k) matches Some(n) ==> k <= n < s.len() && is_nal_start(s, n),
    decreases s.len() - k,
{
    if 0 <= k < s.len() && !is_nal_start(s, k) {
        lemma_next_nal_start(s, k + 1);
    }
}

/// The units from the start code that ends at `f` on: each runs from its
/// two zeros up to the two zeros of the next start code, the last to the
/// end of the stream.
pub open spec fn nal_units_from(s: Seq<u8>, f: int) -> Seq<Seq<u8>>
    decreases s.len() - f,
{
    match next_nal_start(s, f + 1) {
        Some(n) => {
            proof {
                lemma_next_nal_start(s, f + 1);
            }
            seq![s.subrange(f - 2, n - 2)] + nal_units_from(s, n)
        },
        None => seq![s.subrange(f - 2, s.len() as int)],
    }
}

/// The NAL units of a stream with start codes, as `openh264::nal_units`
/// yields them: bytes before the first start code are skipped, and the
/// stream is split right before each start code's two zeros.
pub open spec fn nal_units_of(stream: Seq<u8>) -> Seq<Seq<u8>> {
    match next_nal_start(stream, 2) {
        Some(f) => nal_units_from(stream, f),
        None => seq![],
    }
}

/// Calls `openh264::nal_units` and copies out each unit it yields. Its
/// source finds the first two start codes (a one after at least two zeros),
/// yields the bytes from two before the first to two before the second and
/// goes on from there; the last unit runs to the end of the stream. That is
/// `nal_units_of`.
#[verifier::external_body]
fn split_nal_units(stream: &Vec<u8>) -> (r: Vec<Vec<u8>>)
    ensures
        r.deep_view() == nal_units_of(stream@),
{
    openh264::nal_units(stream).map(|u| u.to_vec()).collect()
}

/// Calls `openh264::decoder::Decoder::new`; `None` when the decoder could
/// not be set up. Nothing is stated of the decoder.
#[verifier::external_body]
fn new_decoder() -> (r: Option<Decoder>) {
    Decoder::new().ok()
}

/// Calls `Decoder::decode` on one unit and, when a frame is complete,
/// writes it out with `DecodedYUV::write_rgb8` into a buffer of the size
/// that function requires: width times height times three. `write_rgb8`
/// panics on a frame that is not in I420 format; openh264's decoder only
/// ever puts out I420 frames. The decoder's record of what it was fed gains
/// this unit, exactly as handed to `Decoder::decode`, with the answer
/// returned. Which frame comes out depends on what the decoder was fed
/// before, so beyond the size of the buffer the answer is not stated.
#[verifier::external_body]
fn decode_rgb(d: &mut H264Decoder, unit: &Vec<u8>) -> (r: Option<DecodedFrame>)
    ensures
        final(d).fed() == old(d).fed().push((unit@, frame_view(r))),
        r matches Some(f) ==> f.2@.len() == f.0 * f.1 * 3,
{
    match d.decoder.decode(unit) {
        Ok(Some(yuv)) => {
            let (w, h) = yuv.dimension_rgb();
            let mut rgb = vec![0u8; w * h * 3];
            yuv.write_rgb8(&mut rgb);
            Some((w, h, rgb))
        },
        _ => None,
    }
}

/// An RGB frame of the given size from its pixel bytes, if the sizes fit in
/// 32 bits and the bytes are exactly three per pixel.
pub fn rgb_frame(width: usize, height: usize, data: Vec<u8>) -> (r: Option<RgbImage>)
    ensures
        r is Some <==> (width <= u32::MAX && height <= u32::MAX && data@.len() == width * height
            * 3),
        r matches Some(img) ==> img.wf() && img.width == width && img.height == height
            && img.data@ == data@,
{
    if width > u32::MAX as usize || height > u32::MAX as usize {
        return None;
    }
    let len = data.len();
    if width == 0 || height == 0 {
        assert(width * height * 3 == 0) by (nonlinear_arith)
            requires
                width == 0 || height == 0,
        ;
        if len == 0 {
            return Some(RgbImage { width: width as u32, height: height as u32, data });
        }
        return None;
    }
    if len % 3 != 0 {
        return None;
    }
    let pixels = len / 3;
    if pixels % width != 0 {
        proof {
            lemma_not_product(pixels as int, width as int, height as int);
        }
        return None;
    }
    if pixels / width != height {
        proof {
            lemma_quotient(pixels as int, width as int, height as int);
        }
        return None;
    }
    proof {
        assert(pixels as int == width as int * height as int) by (nonlinear_arith)
            requires
                pixels % width == 0,
                pixels / width == height,
                width > 0,
        ;
    }
    Some(RgbImage { width: width as u32, height: height as u32, data })
}

proof fn lemma_not_product(p: int, w: int, h: int)
    requires
        w > 0,
        h >= 0,
        p % w != 0,
    ensures
        p != w * h,
{
    if p == w * h {
        assert((w * h) % w == 0) by (nonlinear_arith)
            requires
                w > 0,
                h >= 0,
        ;
    }
}

proof fn lemma_quotient(p: int, w: int, h: int)
    requires
        w > 0,
        h >= 0,
        p / w != h,
    ensures
        p != w * h,
{
    if p == w * h {
        assert((w * h) / w == h) by (nonlinear_arith)
            requires
                w > 0,
                h >= 0,
        ;
    }
}

/// The NAL units in one packet of the camera stream, which arrives as
/// length-prefixed units: the packet is rewritten with start codes and
/// split at them.
pub fn nal_packets(nal_data: &Vec<u8>) -> (r: Vec<Vec<u8>>)
    requires
        prefixes_fit(nal_data@),
    ensures
        r.deep_view() == nal_units_of(annex_b(nal_data@)),
{
    let bitstream = to_annex_b(nal_data);
    split_nal_units(&bitstream)
}

/// A frame as the decoder hands it out: width, height and RGB bytes.
pub type DecodedFrame = (usize, usize, Vec<u8>);

/// A decoded frame as a value: width, height and RGB bytes.
pub type FrameView = (usize, usize, Seq<u8>);

/// One unit fed to a decoder, with the decoder's answer.
pub type FeedEntry = (Seq<u8>, Option<FrameView>);

/// A decoder's answer as a value.
pub open spec fn frame_view(o: Option<DecodedFrame>) -> Option<FrameView> {
    match o {
        Some(f) => Some((f.0, f.1, f.2@)),
        None => None,
    }
}

/// The answers among a list of decoder answers, as values.
pub open spec fn frame_views(frames: Seq<Option<DecodedFrame>>) -> Seq<Option<FrameView>> {
    frames.map_values(|o: Option<DecodedFrame>| frame_view(o))
}

/// Whether a decoded frame makes an image: its sizes fit in 32 bits and it
/// holds three bytes per pixel.
pub open spec fn frame_fits(f: FrameView) -> bool {
    f.0 <= u32::MAX && f.1 <= u32::MAX && f.2.len() == f.0 * f.1 * 3
}

/// The position of the last decoded frame that makes an image, or -1 when
/// there is none.
pub open spec fn latest_fitting(frames: Seq<Option<FrameView>>) -> int
    decreases frames.len(),
{
    if frames.len() == 0 {
        -1
    } else if (frames.last() matches Some(f) && frame_fits(f)) {
        frames.len() - 1
    } else {
        latest_fitting(frames.drop_last())
    }
}

/// `r` is the image of the last answer among `answers` that makes one, and
/// `None` when none does.
pub open spec fn is_latest_image(answers: Seq<Option<FrameView>>, r: Option<RgbImage>) -> bool {
    &&& r is None <==> latest_fitting(answers) < 0
    &&& r matches Some(img) ==> img.wf() && (answers[latest_fitting(answers)] matches Some(f)
        && img.width == f.0 && img.height == f.1 && img.data@ == f.2)
}

/// The decoder's answers in a stretch of its log.
pub open spec fn answers_of(log: Seq<FeedEntry>) -> Seq<Option<FrameView>> {
    log.map_values(|e: FeedEntry| e.1)
}

/// Whether the log `after` is the log `before` followed by one entry for
/// each of `units`, in order.
pub open spec fn feeds(before: Seq<FeedEntry>, after: Seq<FeedEntry>, units: Seq<Seq<u8>>) -> bool {
    &&& after.len() == before.len() + units.len()
    &&& after.subrange(0, before.len() as int) == before
    &&& forall|i: int| 0 <= i < units.len() ==> #[trigger] after[before.len() + i].0 == units[i]
}

/// The image of the last frame, among the decoder's answers for a packet's
/// units in order, that makes an image; `None` when none does.
pub fn latest_frame(frames: Vec<Option<DecodedFrame>>) -> (r: Option<RgbImage>)
    ensures
        is_latest_image(frame_views(frames@), r),
{
    let ghost all = frame_views(frames@);
    let mut rest = frames;
    while rest.len() > 0
        invariant
            all == frame_views(frames@),
            latest_fitting(frame_views(rest@)) == latest_fitting(all),
            frame_views(rest@).len() <= all.len(),
            frame_views(rest@) == all.take(rest@.len() as int),
        decreases rest.len(),
    {
        let ghost before = rest@;
        let f = rest.pop().unwrap();
        assert(frame_views(rest@) =~= frame_views(before).drop_last());
        assert(frame_views(rest@) =~= all.take(rest@.len() as int));
        assert(frame_view(f) == frame_views(before).last());
        assert(frame_views(before).last() == all[before.len() - 1]);
        if let Some((w, h, data)) = f {
            let ghost fv = (w, h, data@);
            if let Some(img) = rgb_frame(w, h, data) {
                assert(frame_fits(fv));
                assert(latest_fitting(frame_views(before)) == before.len() - 1);
                return Some(img);
            }
        }
        assert(latest_fitting(frame_views(before)) == latest_fitting(frame_views(rest@)));
    }
    None
}

/// An H.264 decoder, with a record of what it was fed: each unit, and the
/// frame that the decoder answered it with.
pub struct H264Decoder {
    decoder: Decoder,
    log: Ghost<Seq<FeedEntry>>,
}

impl H264Decoder {
    /// Every unit fed so far, with the decoder's answer, in order.
    pub closed spec fn fed(&self) -> Seq<FeedEntry> {
        self.log@
    }

    /// A new decoder that has been fed nothing; `None` when openh264 could
    /// not set one up.
    pub fn new() -> (r: Option<H264Decoder>)
        ensures
            r matches Some(d) ==> d.fed() == Seq::<FeedEntry>::empty(),
    {
        match new_decoder() {
            Some(decoder) => Some(H264Decoder { decoder, log: Ghost(Seq::empty()) }),
            None => None,
        }
    }

    /// Feeds one unit to the decoder; returns the frame it completes, if
    /// any. Such a frame holds three bytes per pixel.
    pub fn decode(&mut self, unit: &Vec<u8>) -> (r: Option<DecodedFrame>)
        ensures
            final(self).fed() == old(self).fed().push((unit@, frame_view(r))),
            r matches Some(f) ==> f.2@.len() == f.0 * f.1 * 3,
    {
        decode_rgb(self, unit)
    }
}

/// Feeds the units to the decoder, each once, in order, and returns the
/// image of the last frame completed that makes one, as `latest_frame`
/// picks it; no units give no frame.
pub fn decode_units(units: &Vec<Vec<u8>>, decoder: &mut H264Decoder) -> (r: Option<RgbImage>)
    ensures
        feeds(old(decoder).fed(), final(decoder).fed(), units.deep_view()),
        is_latest_image(
            answers_of(
                final(decoder).fed().subrange(
                    old(decoder).fed().len() as int,
                    final(decoder).fed().len() as int,
                ),
            ),
            r,
        ),
{
    let ghost start = decoder.fed();
    let mut frames: Vec<Option<DecodedFrame>> = Vec::new();
    let mut i: usize = 0;
    assert(start.subrange(0, start.len() as int) =~= start);
    assert(frame_views(frames@) =~= answers_of(
        decoder.fed().subrange(start.len() as int, decoder.fed().len() as int),
    ));
    while i < units.len()
        invariant
            i <= units.len(),
            frames@.len() == i,
            feeds(start, decoder.fed(), units.deep_view().take(i as int)),
            frame_views(frames@) == answers_of(
                decoder.fed().subrange(start.len() as int, decoder.fed().len() as int),
            ),
        decreases units.len() - i,
    {
        let ghost prev = decoder.fed();
        let ghost prev_frames = frames@;
        let a = decoder.decode(&units[i]);
        frames.push(a);
        proof {
            let now = decoder.fed();
            let u = units.deep_view();
            assert(u[i as int] == units@[i as int]@);
            assert(now.subrange(0, start.len() as int) =~= prev.subrange(0, start.len() as int));
            assert forall|j: int| 0 <= j < i + 1 implies #[trigger] now[start.len() + j].0
                == u.take(i + 1)[j] by {
                if j < i {
                    assert(now[start.len() + j] == prev[start.len() + j]);
                    assert(prev[start.len() + j].0 == u.take(i as int)[j]);
                }
            }
            assert(answers_of(now.subrange(start.len() as int, now.len() as int)) =~= answers_of(
                prev.subrange(start.len() as int, prev.len() as int),
            ).push(frame_view(a)));
            assert(frame_views(frames@) =~= frame_views(prev_frames).push(frame_view(a)));
        }
        i += 1;
    }
    assert(units.deep_view().take(i as int) =~= units.deep_view());
    latest_frame(frames)
}

/// Decodes one packet of the camera stream: its NAL units, as
/// `nal_packets` finds them, are fed to the decoder in order, and the image
/// of the last frame completed that makes one, if any, is returned.
pub fn process_nal_data(nal_data: Vec<u8>, decoder: &mut H264Decoder) -> (r: Option<RgbImage>)
    requires
        prefixes_fit(nal_data@),
    ensures
        feeds(old(decoder).fed(), final(decoder).fed(), nal_units_of(annex_b(nal_data@))),
        is_latest_image(
            answers_of(
                final(decoder).fed().subrange(
                    old(decoder).fed().len() as int,
                    final(decoder).fed().len() as int,
                ),
            ),
            r,
        ),
{
    let units = nal_packets(&nal_data);
    decode_units(&units, decoder)
}

} // verus!
