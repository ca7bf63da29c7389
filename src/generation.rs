//! What the generation endpoints share: the tuning enums and their wire
//! names, text prompts, generated images, and the multipart/form-data
//! encoder.
use crate::error::{builder_error_text, Error, ImageBuilderError};
use crate::text::{
    decimal, decimal_string, lemma_encode_utf8_concat, thousandths_string, thousandths_text,
};
use vstd::prelude::*;
use vstd::slice::slice_subrange;
use vstd::string::*;
use vstd::utf8::encode_utf8;

verus! {

/// The route under the API version that all generation endpoints share.
pub const GENERATION_PATH: &'static str = "/generation";

/// The `Content-Type` of a multipart body, up to its boundary.
pub const MULTIPART_FORM_DATA_BOUNDARY: &'static str = "multipart/form-data; boundary=";

/// A real number held in thousandths: `Thousandths(1500)` is 1.5.
#[derive(Debug, Clone, Copy, PartialEq, Eq, Structural)]
pub struct Thousandths(pub i32);

/// One prompt of a generation request, with its weight.
#[derive(Debug)]
pub struct TextPrompt {
    pub text: String,
    pub weight: Thousandths,
}

/// One generated image: its base64 payload, finish reason and seed.
#[derive(Debug)]
pub struct Image {
    pub base64: String,
    pub finish_reason: String,
    pub seed: u32,
}

/// The artifacts that a generation endpoint returns.
#[derive(Debug)]
pub struct ImageResponse {
    pub artifacts: Vec<Image>,
}

/// What base64 decoding with the standard alphabet and padding makes of a
/// text: the bytes, or nothing where the text is not valid base64.
pub uninterp spec fn base64_decoded(s: Seq<char>) -> Option<Seq<u8>>;

/// base64's decoding error, carried as an opaque value.
#[verifier::external_type_specification]
#[verifier::external_body]
pub struct ExDecodeError(base64::DecodeError);

/// Relies on base64's `STANDARD.decode`: the decoded bytes, or an error where
/// the text is not valid base64; the result depends on the text alone.
#[verifier::external_body]
fn decode_base64(s: &str) -> (r: Result<Vec<u8>, base64::DecodeError>)
    ensures
        r is Ok <==> base64_decoded(s@) is Some,
        r matches Ok(v) ==> base64_decoded(s@) == Some(v@),
{
    base64::Engine::decode(&base64::engine::general_purpose::STANDARD, s)
}

impl Image {
    /// The image's bytes, decoded from its base64 payload.
    pub fn decoded(&self) -> (r: Result<Vec<u8>, Error>)
        ensures
            match base64_decoded(self.base64@) {
                Some(bytes) => r matches Ok(v) && v@ == bytes,
                None => r == Err::<Vec<u8>, Error>(Error::Base64Decode),
            },
    {
        match decode_base64(self.base64.as_str()) {
            Ok(v) => Ok(v),
            Err(_) => Err(Error::Base64Decode),
        }
    }
}

/// The lower-case form of a text, as std's `str::to_lowercase` gives it.
pub uninterp spec fn lower_of(s: Seq<char>) -> Seq<char>;

/// Relies on `str::to_lowercase`: the result depends on the text alone.
#[verifier::external_body]
fn lowercase(s: &str) -> (r: String)
    ensures
        r@ == lower_of(s@),
{
    s.to_lowercase()
}

/// The path of a generation endpoint: the engine's name, lower-cased,
/// between the generation route and the endpoint's own route.
pub open spec fn engine_route(engine: Seq<char>, route: Seq<char>) -> Seq<char> {
    "/generation/"@ + lower_of(engine) + route
}

/// Builds `engine_route(engine, route)`.
pub fn engine_path(engine: &str, route: &str) -> (r: String)
    ensures
        r@ == engine_route(engine@, route@),
{
    let mut s = String::from_str("/generation/");
    let lower = lowercase(engine);
    s.append(lower.as_str());
    s.append(route);
    assert(s@ =~= engine_route(engine@, route@));
    s
}

/// How strictly CLIP guides the diffusion. A request without one leaves
/// the choice to the API.
#[derive(Debug, Clone, Copy, PartialEq, Eq, Structural)]
pub enum ClipGuidancePreset {
    FastBlue,
    FastGreen,
    Simple,
    Slow,
    Slower,
    Slowest,
}

impl ClipGuidancePreset {
    /// The name that the API knows the preset by.
    pub open spec fn spec_wire_name(self) -> Seq<char> {
        match self {
            ClipGuidancePreset::FastBlue => "FAST_BLUE"@,
            ClipGuidancePreset::FastGreen => "FAST_GREEN"@,
            ClipGuidancePreset::Simple => "SIMPLE"@,
            ClipGuidancePreset::Slow => "SLOW"@,
            ClipGuidancePreset::Slower => "SLOWER"@,
            ClipGuidancePreset::Slowest => "SLOWEST"@,
        }
    }

    pub fn wire_name(&self) -> (r: &'static str)
        ensures
            r@ == self.spec_wire_name(),
    {
        match self {
            ClipGuidancePreset::FastBlue => "FAST_BLUE",
            ClipGuidancePreset::FastGreen => "FAST_GREEN",
            ClipGuidancePreset::Simple => "SIMPLE",
            ClipGuidancePreset::Slow => "SLOW",
            ClipGuidancePreset::Slower => "SLOWER",
            ClipGuidancePreset::Slowest => "SLOWEST",
        }
    }
}

/// The style that guides the image model towards a look.
#[derive(Debug, Clone, Copy, PartialEq, Eq, Structural)]
pub enum StylePreset {
    ThreeDModel,
    Anime,
    AnalogFilm,
    Cinematic,
    ComicBook,
    DigitalArt,
    Enhance,
    FantasyArt,
    Isometric,
    LineArt,
    LowPoly,
    ModelingCompound,
    NeonPunk,
    Origami,
    Photographic,
    PixelArt,
    TileTexture,
}

impl StylePreset {
    /// The name that the API knows the style by.
    pub open spec fn spec_wire_name(self) -> Seq<char> {
        match self {
            StylePreset::ThreeDModel => "3d-model"@,
            StylePreset::Anime => "anime"@,
            StylePreset::AnalogFilm => "analog-film"@,
            StylePreset::Cinematic => "cinematic"@,
            StylePreset::ComicBook => "comic-book"@,
            StylePreset::DigitalArt => "digital-art"@,
            StylePreset::Enhance => "enhance"@,
            StylePreset::FantasyArt => "fantasy-art"@,
            StylePreset::Isometric => "isometric"@,
            StylePreset::LineArt => "line-art"@,
            StylePreset::LowPoly => "low-poly"@,
            StylePreset::ModelingCompound => "modeling-compound"@,
            StylePreset::NeonPunk => "neon-punk"@,
            StylePreset::Origami => "origami"@,
            StylePreset::Photographic => "photographic"@,
            StylePreset::PixelArt => "pixel-art"@,
            StylePreset::TileTexture => "tile-texture"@,
        }
    }

    pub fn wire_name(&self) -> (r: &'static str)
        ensures
            r@ == self.spec_wire_name(),
    {
        match self {
            StylePreset::ThreeDModel => "3d-model",
            StylePreset::Anime => "anime",
            StylePreset::AnalogFilm => "analog-film",
            StylePreset::Cinematic => "cinematic",
            StylePreset::ComicBook => "comic-book",
            StylePreset::DigitalArt => "digital-art",
            StylePreset::Enhance => "enhance",
            StylePreset::FantasyArt => "fantasy-art",
            StylePreset::Isometric => "isometric",
            StylePreset::LineArt => "line-art",
            StylePreset::LowPoly => "low-poly",
            StylePreset::ModelingCompound => "modeling-compound",
            StylePreset::NeonPunk => "neon-punk",
            StylePreset::Origami => "origami",
            StylePreset::Photographic => "photographic",
            StylePreset::PixelArt => "pixel-art",
            StylePreset::TileTexture => "tile-texture",
        }
    }
}

/// The diffusion sampler. A request without one leaves the choice to the
/// API.
#[derive(Debug, Clone, Copy, PartialEq, Eq, Structural)]
pub enum Sampler {
    Ddim,
    Ddpm,
    KDpmpp2m,
    KDpmpp2sAncestral,
    KDpm2,
    KDpm2Ancestral,
    KEuler,
    KEAncestral,
    KHeun,
    KLms,
}

impl Sampler {
    /// The name that the API knows the sampler by.
    pub open spec fn spec_wire_name(self) -> Seq<char> {
        match self {
            Sampler::Ddim => "DDIM"@,
            Sampler::Ddpm => "DDPM"@,
            Sampler::KDpmpp2m => "K_DPMPP_2M"@,
            Sampler::KDpmpp2sAncestral => "K_DPMPP_2S_ANCESTRAL"@,
            Sampler::KDpm2 => "K_DPM_2"@,
            Sampler::KDpm2Ancestral => "K_DPM_2_ANCESTRAL"@,
            Sampler::KEuler => "K_EULER"@,
            Sampler::KEAncestral => "K_EULER_ANCESTRAL"@,
            Sampler::KHeun => "K_HEUN"@,
            Sampler::KLms => "K_LMS"@,
        }
    }

    pub fn wire_name(&self) -> (r: &'static str)
        ensures
            r@ == self.spec_wire_name(),
    {
        match self {
            Sampler::Ddim => "DDIM",
            Sampler::Ddpm => "DDPM",
            Sampler::KDpmpp2m => "K_DPMPP_2M",
            Sampler::KDpmpp2sAncestral => "K_DPMPP_2S_ANCESTRAL",
            Sampler::KDpm2 => "K_DPM_2",
            Sampler::KDpm2Ancestral => "K_DPM_2_ANCESTRAL",
            Sampler::KEuler => "K_EULER",
            Sampler::KEAncestral => "K_EULER_ANCESTRAL",
            Sampler::KHeun => "K_HEUN",
            Sampler::KLms => "K_LMS",
        }
    }
}

/// The value of an optional setting, or its default.
pub open spec fn or_default(o: Option<u32>, d: u32) -> u32 {
    match o {
        Some(v) => v,
        None => d,
    }
}

/// The value of an optional setting, or `d` where it is unset.
pub fn unwrap_or_u32(o: Option<u32>, d: u32) -> (r: u32)
    ensures
        r == or_default(o, d),
{
    match o {
        Some(v) => v,
        None => d,
    }
}

/// Why a height is rejected: it must be a multiple of 64, and not less than 128.
pub open spec fn height_error(v: u32) -> Option<ImageBuilderError> {
    if v % 64 != 0 {
        Some(ImageBuilderError::HeightNotMultipleOf64(v))
    } else if v < 128 {
        Some(ImageBuilderError::HeightLessThan128(v))
    } else {
        None
    }
}

/// Why a width is rejected: it must be a multiple of 64, and not less than 128.
pub open spec fn width_error(v: u32) -> Option<ImageBuilderError> {
    if v % 64 != 0 {
        Some(ImageBuilderError::WidthNotMultipleOf64(v))
    } else if v < 128 {
        Some(ImageBuilderError::WidthLessThan128(v))
    } else {
        None
    }
}

/// Why a `cfg_scale` is rejected: it must not exceed 35.
pub open spec fn cfg_scale_error(v: u32) -> Option<ImageBuilderError> {
    if v > 35 {
        Some(ImageBuilderError::CfgScaleGreaterThan35(v))
    } else {
        None
    }
}

/// Why a number of samples is rejected: it must not exceed 10.
pub open spec fn samples_error(v: u32) -> Option<ImageBuilderError> {
    if v > 10 {
        Some(ImageBuilderError::SamplesGreaterThan10(v))
    } else {
        None
    }
}

/// Why a number of steps is rejected: it must lie within 10 to 150.
pub open spec fn steps_error(v: u32) -> Option<ImageBuilderError> {
    if v > 150 {
        Some(ImageBuilderError::StepsGreaterThan150(v))
    } else if v < 10 {
        Some(ImageBuilderError::StepsLessThan10(v))
    } else {
        None
    }
}

/// Whether the first of the prompts is there and not empty.
pub open spec fn first_prompt_ok(ps: Seq<TextPrompt>) -> bool {
    ps.len() > 0 && ps[0].text@.len() > 0
}

/// The error of an optional setting: `e` where it is set, none where not.
pub open spec fn error_if_set(o: Option<u32>, e: Option<ImageBuilderError>) -> Option<
    ImageBuilderError,
> {
    if o is Some {
        e
    } else {
        None
    }
}

/// The first of two possible errors.
pub open spec fn first_error(a: Option<ImageBuilderError>, b: Option<ImageBuilderError>) -> Option<
    ImageBuilderError,
> {
    if a is Some {
        a
    } else {
        b
    }
}

/// Checks a height as `height_error` says.
pub fn check_height(v: u32) -> (r: Option<ImageBuilderError>)
    ensures
        r == height_error(v),
{
    if v % 64 != 0 {
        Some(ImageBuilderError::HeightNotMultipleOf64(v))
    } else if v < 128 {
        Some(ImageBuilderError::HeightLessThan128(v))
    } else {
        None
    }
}

/// Checks a width as `width_error` says.
pub fn check_width(v: u32) -> (r: Option<ImageBuilderError>)
    ensures
        r == width_error(v),
{
    if v % 64 != 0 {
        Some(ImageBuilderError::WidthNotMultipleOf64(v))
    } else if v < 128 {
        Some(ImageBuilderError::WidthLessThan128(v))
    } else {
        None
    }
}

/// Checks a `cfg_scale` as `cfg_scale_error` says.
pub fn check_cfg_scale(v: u32) -> (r: Option<ImageBuilderError>)
    ensures
        r == cfg_scale_error(v),
{
    if v > 35 {
        Some(ImageBuilderError::CfgScaleGreaterThan35(v))
    } else {
        None
    }
}

/// Checks a number of samples as `samples_error` says.
pub fn check_samples(v: u32) -> (r: Option<ImageBuilderError>)
    ensures
        r == samples_error(v),
{
    if v > 10 {
        Some(ImageBuilderError::SamplesGreaterThan10(v))
    } else {
        None
    }
}

/// Checks a number of steps as `steps_error` says.
pub fn check_steps(v: u32) -> (r: Option<ImageBuilderError>)
    ensures
        r == steps_error(v),
{
    if v > 150 {
        Some(ImageBuilderError::StepsGreaterThan150(v))
    } else if v < 10 {
        Some(ImageBuilderError::StepsLessThan10(v))
    } else {
        None
    }
}

/// Whether the first of the prompts is there and not empty.
pub fn check_first_prompt(ps: &Vec<TextPrompt>) -> (r: bool)
    ensures
        r == first_prompt_ok(ps@),
{
    ps.len() > 0 && !ps[0].text.as_str().is_empty()
}

/// A height or width that is not a multiple of 64 is rejected with an error
/// that names it; one that is a multiple of 64 but less than 128 (0 or 64)
/// is rejected as too small.
pub proof fn lemma_dimension_rejections(v: u32)
    ensures
        v % 64 != 0 ==> height_error(v) == Some(ImageBuilderError::HeightNotMultipleOf64(v))
            && width_error(v) == Some(ImageBuilderError::WidthNotMultipleOf64(v)),
        v % 64 == 0 && v < 128 ==> height_error(v) == Some(ImageBuilderError::HeightLessThan128(v))
            && width_error(v) == Some(ImageBuilderError::WidthLessThan128(v)),
        v % 64 == 0 && v >= 128 ==> height_error(v) is None && width_error(v) is None,
        builder_error_text(ImageBuilderError::HeightNotMultipleOf64(v))
            == "height must be a multiple of 64, but was "@ + decimal(v as nat),
        builder_error_text(ImageBuilderError::WidthNotMultipleOf64(v))
            == "width must be a multiple of 64, but was "@ + decimal(v as nat),
        builder_error_text(ImageBuilderError::HeightLessThan128(v))
            == "height must not be less than 128, but was "@ + decimal(v as nat),
        builder_error_text(ImageBuilderError::WidthLessThan128(v))
            == "width must not be less than 128, but was "@ + decimal(v as nat),
{
}

/// A `cfg_scale` above 35, a number of samples above 10 and a number of
/// steps above 150 or below 10 are always rejected, each with the error that
/// names it; any other value is accepted.
pub proof fn lemma_range_rejections(v: u32)
    ensures
        v > 35 <==> cfg_scale_error(v) == Some(ImageBuilderError::CfgScaleGreaterThan35(v)),
        v <= 35 <==> cfg_scale_error(v) is None,
        v > 10 <==> samples_error(v) == Some(ImageBuilderError::SamplesGreaterThan10(v)),
        v <= 10 <==> samples_error(v) is None,
        v > 150 <==> steps_error(v) == Some(ImageBuilderError::StepsGreaterThan150(v)),
        v < 10 <==> steps_error(v) == Some(ImageBuilderError::StepsLessThan10(v)),
        10 <= v <= 150 <==> steps_error(v) is None,
{
}

/// One part of a multipart body, as the encoder is asked to write it.
pub enum FormPart {
    Text { name: Seq<char>, value: Seq<char> },
    File { name: Seq<char>, path: Seq<char>, content: Seq<u8> },
}

/// The byte of `.`.
pub open spec fn dot() -> u8 {
    46u8
}

/// Whether `i` is the position of the first `.` in `s`.
pub open spec fn is_first_dot(s: Seq<u8>, i: int) -> bool {
    &&& 0 <= i < s.len()
    &&& s[i] == dot()
    &&& forall|j: int| 0 <= j < i ==> s[j] != dot()
}

/// Whether `s` holds a `.`.
pub open spec fn has_dot(s: Seq<u8>) -> bool {
    exists|i: int| 0 <= i < s.len() && s[i] == dot()
}

/// What follows the first `.` of `s`: a file path's extension.
pub open spec fn extension(s: Seq<u8>) -> Seq<u8> {
    let i = choose|i: int| is_first_dot(s, i);
    s.subrange(i + 1, s.len() as int)
}

/// The delimiter that opens each part: two dashes and the boundary.
pub open spec fn delimiter(b: Seq<char>) -> Seq<char> {
    "--"@ + b
}

/// The framing and headers of a text part, with its value.
pub open spec fn text_part(b: Seq<char>, name: Seq<char>, value: Seq<char>) -> Seq<char> {
    delimiter(b) + "\r\n"@ + "Content-Disposition: form-data; name=\""@ + name + "\"\r\n\r\n"@
        + value + "\r\n"@
}

/// The framing and headers of a file part, up to its extension.
pub open spec fn file_head(b: Seq<char>, name: Seq<char>, path: Seq<char>) -> Seq<char> {
    delimiter(b) + "\r\n"@ + "Content-Disposition: form-data; name=\""@ + name
        + "\"; filename=\""@ + path + "\"\r\n"@ + "Content-Type: image/"@
}

/// The bytes of one part under boundary `b`. A file part names the
/// content type `image/<extension>` and carries the file's bytes.
pub open spec fn encode_part(b: Seq<char>, p: FormPart) -> Seq<u8> {
    match p {
        FormPart::Text { name, value } => encode_utf8(text_part(b, name, value)),
        FormPart::File { name, path, content } => encode_utf8(file_head(b, name, path)) + extension(
            encode_utf8(path),
        ) + encode_utf8("\r\n\r\n"@) + content + encode_utf8("\r\n"@),
    }
}

/// The bytes of a sequence of parts under boundary `b`, in their order.
#[verifier::opaque]
pub open spec fn encode_parts(b: Seq<char>, ps: Seq<FormPart>) -> Seq<u8>
    decreases ps.len(),
{
    if ps.len() == 0 {
        seq![]
    } else {
        encode_parts(b, ps.drop_last()) + encode_part(b, ps.last())
    }
}

/// The marker that closes a body.
pub open spec fn closing_marker(b: Seq<char>) -> Seq<char> {
    delimiter(b) + "--\r\n"@
}

/// The boundary's fixed prefix.
pub open spec fn boundary_prefix() -> Seq<char> {
    "-----------------------------"@
}

/// The boundary made from the number `n`.
pub open spec fn boundary_text(n: nat) -> Seq<char> {
    boundary_prefix() + decimal(n)
}

pub proof fn lemma_encode_parts_push(b: Seq<char>, ps: Seq<FormPart>, p: FormPart)
    ensures
        encode_parts(b, ps.push(p)) == encode_parts(b, ps) + encode_part(b, p),
{
    reveal(encode_parts);
    assert(ps.push(p).drop_last() =~= ps);
}

/// The segments of a body of parts `ps` that is then closed: the bytes of
/// each part in order, and last the closing marker.
pub open spec fn body_segments(b: Seq<char>, ps: Seq<FormPart>) -> Seq<Seq<u8>> {
    Seq::new(ps.len(), |i: int| encode_part(b, ps[i])).push(encode_utf8(closing_marker(b)))
}

proof fn lemma_opens_with_delimiter(b: Seq<char>, rest: Seq<char>)
    ensures
        encode_utf8(delimiter(b)).is_prefix_of(encode_utf8(delimiter(b) + rest)),
{
    lemma_encode_utf8_concat(delimiter(b), rest);
}

proof fn lemma_part_opens_with_delimiter(b: Seq<char>, p: FormPart)
    ensures
        encode_utf8(delimiter(b)).is_prefix_of(encode_part(b, p)),
{
    let d = encode_utf8(delimiter(b));
    match p {
        FormPart::Text { name, value } => {
            let rest = "\r\n"@ + "Content-Disposition: form-data; name=\""@ + name + "\"\r\n\r\n"@
                + value + "\r\n"@;
            assert(text_part(b, name, value) =~= delimiter(b) + rest);
            lemma_opens_with_delimiter(b, rest);
        },
        FormPart::File { name, path, content } => {
            let rest = "\r\n"@ + "Content-Disposition: form-data; name=\""@ + name
                + "\"; filename=\""@ + path + "\"\r\n"@ + "Content-Type: image/"@;
            assert(file_head(b, name, path) =~= delimiter(b) + rest);
            lemma_opens_with_delimiter(b, rest);
            let head = encode_utf8(file_head(b, name, path));
            let tail = extension(encode_utf8(path)) + encode_utf8("\r\n\r\n"@) + content + encode_utf8(
                "\r\n"@,
            );
            assert(encode_part(b, p) =~= head + tail);
            assert(d.is_prefix_of(head));
            assert(d =~= (head + tail).subrange(0, d.len() as int));
        },
    }
}

proof fn lemma_encode_parts_flatten(b: Seq<char>, ps: Seq<FormPart>)
    ensures
        encode_parts(b, ps) == Seq::new(ps.len(), |i: int| encode_part(b, ps[i])).flatten_alt(),
    decreases ps.len(),
{
    reveal(encode_parts);
    let segs = Seq::new(ps.len(), |i: int| encode_part(b, ps[i]));
    if ps.len() > 0 {
        lemma_encode_parts_flatten(b, ps.drop_last());
        assert(segs.drop_last() =~= Seq::new(
            ps.drop_last().len(),
            |i: int| encode_part(b, ps.drop_last()[i]),
        ));
    }
}

/// A body of N parts that `end_body` then closes is N + 1 segments laid end
/// to end: the parts in their order and last the closing marker. Every
/// segment opens with the delimiter of the one boundary, so the body begins
/// with that delimiter and ends with the closing marker.
pub proof fn lemma_body_framing(b: Seq<char>, ps: Seq<FormPart>)
    ensures
        body_segments(b, ps).len() == ps.len() + 1,
        encode_parts(b, ps) + encode_utf8(closing_marker(b)) == body_segments(b, ps).flatten(),
        forall|i: int|
            0 <= i < ps.len() + 1 ==> encode_utf8(delimiter(b)).is_prefix_of(
                #[trigger] body_segments(b, ps)[i],
            ),
        body_segments(b, ps).last() == encode_utf8(closing_marker(b)),
        encode_utf8(delimiter(b)).is_prefix_of(
            encode_parts(b, ps) + encode_utf8(closing_marker(b)),
        ),
        encode_utf8(closing_marker(b)).is_suffix_of(
            encode_parts(b, ps) + encode_utf8(closing_marker(b)),
        ),
{
    let segs = body_segments(b, ps);
    let parts = Seq::new(ps.len(), |i: int| encode_part(b, ps[i]));
    let close = encode_utf8(closing_marker(b));
    let d = encode_utf8(delimiter(b));
    let body = encode_parts(b, ps) + close;
    lemma_encode_parts_flatten(b, ps);
    assert(segs.drop_last() =~= parts);
    segs.lemma_flatten_and_flatten_alt_are_equivalent();
    assert(body == segs.flatten());
    assert forall|i: int| 0 <= i < ps.len() + 1 implies d.is_prefix_of(#[trigger] segs[i]) by {
        if i < ps.len() {
            lemma_part_opens_with_delimiter(b, ps[i]);
        } else {
            lemma_opens_with_delimiter(b, "--\r\n"@);
        }
    }
    assert(d.is_prefix_of(segs[0]));
    assert(segs.flatten() == segs[0] + segs.drop_first().flatten());
    assert(d =~= body.subrange(0, d.len() as int));
    assert(close =~= body.subrange(body.len() - close.len(), body.len() as int));
}

/// The name of a field of the prompt at `i`: `text_prompts[i]` and then
/// `suffix`.
pub open spec fn prompt_field(i: nat, suffix: Seq<char>) -> Seq<char> {
    "text_prompts["@ + decimal(i) + suffix
}

/// The text parts of the prompts: for each, its text and then its weight.
pub open spec fn prompt_parts(ps: Seq<TextPrompt>) -> Seq<FormPart>
    decreases ps.len(),
{
    if ps.len() == 0 {
        seq![]
    } else {
        let i = (ps.len() - 1) as nat;
        prompt_parts(ps.drop_last()) + seq![
            FormPart::Text { name: prompt_field(i, "][text]"@), value: ps.last().text@ },
            FormPart::Text {
                name: prompt_field(i, "][weight]"@),
                value: thousandths_text(ps.last().weight.0 as int),
            },
        ]
    }
}

/// The text parts of the extra pairs, one for each pair in order.
pub open spec fn extras_parts(es: Option<Vec<(String, String)>>) -> Seq<FormPart> {
    match es {
        Some(es) => Seq::new(
            es@.len(),
            |i: int| FormPart::Text { name: es@[i].0@, value: es@[i].1@ },
        ),
        None => seq![],
    }
}

/// Adds a text part to a body that holds `parts`; what it holds after is
/// returned.
pub(crate) fn add_text_part(
    form: &mut MultipartFormData,
    name: &str,
    value: &str,
    parts: Ghost<Seq<FormPart>>,
) -> (r: Ghost<Seq<FormPart>>)
    requires
        old(form).body@ == encode_parts(old(form).boundary@, parts@),
    ensures
        final(form).boundary == old(form).boundary,
        r@ == parts@.push(FormPart::Text { name: name@, value: value@ }),
        final(form).body@ == encode_parts(final(form).boundary@, r@),
{
    form.add_text(name, value);
    proof {
        lemma_encode_parts_push(form.boundary@, parts@, FormPart::Text { name: name@, value: value@ });
    }
    Ghost(parts@.push(FormPart::Text { name: name@, value: value@ }))
}

/// Adds a text part whose value is `v` in decimal.
pub(crate) fn add_number_part(
    form: &mut MultipartFormData,
    name: &str,
    v: u32,
    parts: Ghost<Seq<FormPart>>,
) -> (r: Ghost<Seq<FormPart>>)
    requires
        old(form).body@ == encode_parts(old(form).boundary@, parts@),
    ensures
        final(form).boundary == old(form).boundary,
        r@ == parts@.push(FormPart::Text { name: name@, value: decimal(v as nat) }),
        final(form).body@ == encode_parts(final(form).boundary@, r@),
{
    let d = decimal_string(v as u64);
    add_text_part(form, name, d.as_str(), parts)
}

/// Adds a file part to a body that holds `parts`; fails where the path has
/// no extension.
pub(crate) fn add_file_part(
    form: &mut MultipartFormData,
    name: &str,
    path: &str,
    content: &[u8],
    parts: Ghost<Seq<FormPart>>,
) -> (r: Result<Ghost<Seq<FormPart>>, Error>)
    requires
        old(form).body@ == encode_parts(old(form).boundary@, parts@),
    ensures
        final(form).boundary == old(form).boundary,
        r is Ok <==> has_dot(encode_utf8(path@)),
        r matches Ok(g) ==> g@ == parts@.push(
            FormPart::File { name: name@, path: path@, content: content@ },
        ) && final(form).body@ == encode_parts(final(form).boundary@, g@),
        r matches Err(e) ==> e matches Error::InvalidFilePath(p) && p@ == path@,
{
    let res = form.add_file(name, path, content);
    match res {
        Ok(()) => {
            proof {
                lemma_encode_parts_push(
                    form.boundary@,
                    parts@,
                    FormPart::File { name: name@, path: path@, content: content@ },
                );
            }
            Ok(Ghost(parts@.push(FormPart::File { name: name@, path: path@, content: content@ })))
        },
        Err(e) => Err(e),
    }
}

/// Adds the text parts of the prompts.
pub(crate) fn add_prompt_parts(
    form: &mut MultipartFormData,
    ps: &Vec<TextPrompt>,
    parts: Ghost<Seq<FormPart>>,
) -> (r: Ghost<Seq<FormPart>>)
    requires
        old(form).body@ == encode_parts(old(form).boundary@, parts@),
    ensures
        final(form).boundary == old(form).boundary,
        r@ == parts@ + prompt_parts(ps@),
        final(form).body@ == encode_parts(final(form).boundary@, r@),
{
    let mut cur = parts;
    let mut i: usize = 0;
    while i < ps.len()
        invariant
            i <= ps@.len(),
            form.boundary == old(form).boundary,
            cur@ == parts@ + prompt_parts(ps@.subrange(0, i as int)),
            form.body@ == encode_parts(form.boundary@, cur@),
        decreases ps@.len() - i,
    {
        let idx = decimal_string(i as u64);
        let mut text_name = String::from_str("text_prompts[");
        text_name.append(idx.as_str());
        text_name.append("][text]");
        let mut weight_name = String::from_str("text_prompts[");
        weight_name.append(idx.as_str());
        weight_name.append("][weight]");
        let w = thousandths_string(ps[i].weight.0);
        cur = add_text_part(form, text_name.as_str(), ps[i].text.as_str(), cur);
        cur = add_text_part(form, weight_name.as_str(), w.as_str(), cur);
        proof {
            let sub = ps@.subrange(0, i + 1 as int);
            assert(sub.drop_last() =~= ps@.subrange(0, i as int));
            assert(text_name@ =~= prompt_field(i as nat, "][text]"@));
            assert(weight_name@ =~= prompt_field(i as nat, "][weight]"@));
        }
        i = i + 1;
        assert(cur@ =~= parts@ + prompt_parts(ps@.subrange(0, i as int)));
    }
    assert(ps@.subrange(0, ps@.len() as int) =~= ps@);
    cur
}

/// Adds the text parts of the extra pairs.
pub(crate) fn add_extras_parts(
    form: &mut MultipartFormData,
    es: &Option<Vec<(String, String)>>,
    parts: Ghost<Seq<FormPart>>,
) -> (r: Ghost<Seq<FormPart>>)
    requires
        old(form).body@ == encode_parts(old(form).boundary@, parts@),
    ensures
        final(form).boundary == old(form).boundary,
        r@ == parts@ + extras_parts(*es),
        final(form).body@ == encode_parts(final(form).boundary@, r@),
{
    match es {
        Some(v) => {
            let mut cur = parts;
            let mut i: usize = 0;
            while i < v.len()
                invariant
                    i <= v@.len(),
                    form.boundary == old(form).boundary,
                    cur@ == parts@ + extras_parts(*es).subrange(0, i as int),
                    extras_parts(*es).len() == v@.len(),
                    *es == Some(*v),
                    form.body@ == encode_parts(form.boundary@, cur@),
                decreases v@.len() - i,
            {
                cur = add_text_part(form, v[i].0.as_str(), v[i].1.as_str(), cur);
                assert(extras_parts(*es)[i as int] == FormPart::Text {
                    name: v@[i as int].0@,
                    value: v@[i as int].1@,
                });
                i = i + 1;
                assert(cur@ =~= parts@ + extras_parts(*es).subrange(0, i as int));
            }
            assert(extras_parts(*es).subrange(0, v@.len() as int) =~= extras_parts(*es));
            cur
        },
        None => {
            assert(parts@ + extras_parts(*es) =~= parts@);
            parts
        },
    }
}

/// Relies on rand's `thread_rng().gen::<u64>()`: a random number, of which
/// nothing is known. (rand panics only where the operating system offers no
/// randomness at all.)
#[verifier::external_body]
pub(crate) fn random_u64() -> (r: u64) {
    rand::Rng::gen::<u64>(&mut rand::thread_rng())
}

fn append_bytes(v: &mut Vec<u8>, s: &[u8])
    ensures
        final(v)@ == old(v)@ + s@,
{
    let mut i: usize = 0;
    while i < s.len()
        invariant
            i <= s@.len(),
            v@ == old(v)@ + s@.subrange(0, i as int),
        decreases s@.len() - i,
    {
        v.push(s[i]);
        i = i + 1;
        assert(s@.subrange(0, i as int) =~= s@.subrange(0, i - 1 as int).push(s@[i - 1]));
    }
    assert(s@.subrange(0, s@.len() as int) =~= s@);
}

fn append_text(v: &mut Vec<u8>, s: &str)
    ensures
        final(v)@ == old(v)@ + encode_utf8(s@),
{
    append_bytes(v, s.as_bytes());
}

/// A multipart/form-data body under construction, with its boundary.
#[derive(Debug)]
pub struct MultipartFormData {
    pub boundary: String,
    pub body: Vec<u8>,
}

impl MultipartFormData {
    /// An empty body whose boundary is made from a random number.
    pub fn new() -> (r: Self)
        ensures
            exists|n: u64| r.boundary@ == boundary_text(n as nat),
            r.body@ == Seq::<u8>::empty(),
    {
        let n = random_u64();
        Self::with_boundary_number(n)
    }

    /// An empty body whose boundary is made from the number `n`.
    pub fn with_boundary_number(n: u64) -> (r: Self)
        ensures
            r.boundary@ == boundary_text(n as nat),
            r.body@ == Seq::<u8>::empty(),
    {
        let mut boundary = String::from_str("-----------------------------");
        let digits = decimal_string(n);
        boundary.append(digits.as_str());
        MultipartFormData { boundary, body: Vec::new() }
    }

    /// The `Content-Type` header value that announces this body.
    pub fn content_type(&self) -> (r: String)
        ensures
            r@ == MULTIPART_FORM_DATA_BOUNDARY@ + self.boundary@,
    {
        let mut s = String::from_str(MULTIPART_FORM_DATA_BOUNDARY);
        s.append(self.boundary.as_str());
        s
    }

    /// Appends a text part.
    pub fn add_text(&mut self, name: &str, value: &str)
        ensures
            final(self).boundary == old(self).boundary,
            final(self).body@ == old(self).body@ + encode_part(
                old(self).boundary@,
                FormPart::Text { name: name@, value: value@ },
            ),
    {
        let mut s = String::from_str("--");
        s.append(self.boundary.as_str());
        s.append("\r\n");
        s.append("Content-Disposition: form-data; name=\"");
        s.append(name);
        s.append("\"\r\n\r\n");
        s.append(value);
        s.append("\r\n");
        assert(s@ =~= text_part(self.boundary@, name@, value@));
        append_text(&mut self.body, s.as_str());
    }

    /// Appends a file part that carries `content`, the bytes of the file at
    /// `path`; fails where the path has no extension.
    pub fn add_file(&mut self, name: &str, path: &str, content: &[u8]) -> (r: Result<(), Error>)
        ensures
            final(self).boundary == old(self).boundary,
            r is Ok <==> has_dot(encode_utf8(path@)),
            r is Ok ==> final(self).body@ == old(self).body@ + encode_part(
                old(self).boundary@,
                FormPart::File { name: name@, path: path@, content: content@ },
            ),
            r is Err ==> final(self).body@ == old(self).body@,
            r matches Err(e) ==> e matches Error::InvalidFilePath(p) && p@ == path@,
    {
        let bytes = path.as_bytes();
        let mut i: usize = 0;
        while i < bytes.len() && bytes[i] != 46u8
            invariant
                i <= bytes@.len(),
                bytes@ == encode_utf8(path@),
                forall|j: int| 0 <= j < i ==> bytes@[j] != dot(),
            decreases bytes@.len() - i,
        {
            i = i + 1;
        }
        if i == bytes.len() {
            return Err(Error::InvalidFilePath(String::from_str(path)));
        }
        proof {
            assert(is_first_dot(bytes@, i as int));
            let k = choose|k: int| is_first_dot(bytes@, k);
            assert(k == i as int) by {
                if k < i {
                    assert(bytes@[k] != dot());
                } else if k > i {
                    assert(bytes@[i as int] != dot());
                }
            }
        }
        let ext = slice_subrange(bytes, i + 1, bytes.len());
        let mut s = String::from_str("--");
        s.append(self.boundary.as_str());
        s.append("\r\n");
        s.append("Content-Disposition: form-data; name=\"");
        s.append(name);
        s.append("\"; filename=\"");
        s.append(path);
        s.append("\"\r\n");
        s.append("Content-Type: image/");
        assert(s@ =~= file_head(self.boundary@, name@, path@));
        append_text(&mut self.body, s.as_str());
        append_bytes(&mut self.body, ext);
        append_text(&mut self.body, "\r\n\r\n");
        append_bytes(&mut self.body, content);
        append_text(&mut self.body, "\r\n");
        Ok(())
    }

    /// Appends the marker that closes the body.
    pub fn end_body(&mut self)
        ensures
            final(self).boundary == old(self).boundary,
            final(self).body@ == old(self).body@ + encode_utf8(closing_marker(old(self).boundary@)),
    {
        let mut s = String::from_str("--");
        s.append(self.boundary.as_str());
        s.append("--\r\n");
        assert(s@ =~= closing_marker(self.boundary@));
        append_text(&mut self.body, s.as_str());
    }
}

} // verus!
