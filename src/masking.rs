//! Masking requests, which repaint the parts of an image that a mask
//! selects: their builder, and their multipart encoding.
use crate::error::{builder_error_text, Error, ImageBuilderError};
use crate::generation::{
    error_if_set, first_error,
    add_extras_parts, add_file_part, add_number_part, add_prompt_parts, add_text_part,
    boundary_text, cfg_scale_error, check_cfg_scale, check_first_prompt, check_samples,
    check_steps, closing_marker, encode_parts, engine_path, engine_route, extras_parts,
    first_prompt_ok, has_dot, or_default, prompt_parts, random_u64, samples_error, steps_error,
    unwrap_or_u32, ClipGuidancePreset, FormPart, MultipartFormData, Sampler, StylePreset,
    TextPrompt, Thousandths,
};
use crate::text::decimal;
use vstd::prelude::*;
use vstd::string::*;
use vstd::utf8::encode_utf8;

verus! {

/// The route of the masking endpoint, after the engine.
pub const MASKING_PATH: &'static str = "/image-to-image/masking";

/// Where the mask comes from.
#[derive(Debug, Clone, Copy, PartialEq, Eq, Structural)]
pub enum MaskSource {
    /// A mask image whose black pixels are repainted.
    MaskImageBlack,
    /// A mask image whose white pixels are repainted.
    MaskImageWhite,
    /// The alpha channel of the initial image.
    InitImageAlpha,
}

impl MaskSource {
    /// The name that the API knows the source by.
    pub open spec fn spec_wire_name(self) -> Seq<char> {
        match self {
            MaskSource::MaskImageBlack => "MASK_IMAGE_BLACK"@,
            MaskSource::MaskImageWhite => "MASK_IMAGE_WHITE"@,
            MaskSource::InitImageAlpha => "INIT_IMAGE_ALPHA"@,
        }
    }

    pub fn wire_name(&self) -> (r: &'static str)
        ensures
            r@ == self.spec_wire_name(),
    {
        match self {
            MaskSource::MaskImageBlack => "MASK_IMAGE_BLACK",
            MaskSource::MaskImageWhite => "MASK_IMAGE_WHITE",
            MaskSource::InitImageAlpha => "INIT_IMAGE_ALPHA",
        }
    }

    /// Whether the source is a mask image of its own.
    pub fn needs_mask_image(&self) -> (r: bool)
        ensures
            r == (*self != MaskSource::InitImageAlpha),
    {
        match self {
            MaskSource::InitImageAlpha => false,
            _ => true,
        }
    }
}

/// The part of an optional CLIP guidance preset; none where it is unset.
pub open spec fn masker_clip_parts(c: Option<ClipGuidancePreset>) -> Seq<FormPart> {
    match c {
        Some(c) => seq![FormPart::Text { name: "clip_guidance_preset"@, value: c.spec_wire_name() }],
        None => seq![],
    }
}

/// The part of an optional sampler; none where it is unset.
pub open spec fn masker_sampler_parts(s: Option<Sampler>) -> Seq<FormPart> {
    match s {
        Some(s) => seq![FormPart::Text { name: "sampler"@, value: s.spec_wire_name() }],
        None => seq![],
    }
}

/// A validated masking request.
#[derive(Debug)]
pub struct Masker {
    text_prompts: Vec<TextPrompt>,
    init_image: String,
    mask_source: MaskSource,
    mask_image: Option<String>,
    cfg_scale: u32,
    clip_guidance_preset: Option<ClipGuidancePreset>,
    sampler: Option<Sampler>,
    samples: u32,
    seed: u32,
    steps: u32,
    style_preset: StylePreset,
    extras: Option<Vec<(String, String)>>,
}

impl Masker {
    /// The path of the init image file.
    pub closed spec fn init_image_view(self) -> Seq<char> {
        self.init_image@
    }

    /// The path of the init image file.
    pub fn init_image_path(&self) -> (r: &str)
        ensures
            r@ == self.init_image_view(),
    {
        self.init_image.as_str()
    }

    /// Whether every setting lies within what the API accepts, with a mask
    /// image wherever the source needs one.
    pub closed spec fn wf(self) -> bool {
        &&& cfg_scale_error(self.cfg_scale) is None
        &&& samples_error(self.samples) is None
        &&& steps_error(self.steps) is None
        &&& first_prompt_ok(self.text_prompts@)
        &&& (self.mask_source != MaskSource::InitImageAlpha ==> self.mask_image is Some)
    }

    /// The parts of the mask source and the numeric settings.
    pub closed spec fn number_parts(self) -> Seq<FormPart> {
        seq![
            FormPart::Text { name: "mask_source"@, value: self.mask_source.spec_wire_name() },
            FormPart::Text { name: "cfg_scale"@, value: decimal(self.cfg_scale as nat) },
            FormPart::Text { name: "samples"@, value: decimal(self.samples as nat) },
            FormPart::Text { name: "seed"@, value: decimal(self.seed as nat) },
            FormPart::Text { name: "steps"@, value: decimal(self.steps as nat) },
            FormPart::Text { name: "style_preset"@, value: self.style_preset.spec_wire_name() },
        ]
    }

    /// The settings' parts, which open the body.
    pub closed spec fn setting_parts(self) -> Seq<FormPart> {
        self.number_parts() + masker_clip_parts(self.clip_guidance_preset) + masker_sampler_parts(
            self.sampler,
        )
    }

    /// The path of the mask image where the source needs one; the empty
    /// text where none was given.
    pub closed spec fn mask_path(self) -> Seq<char> {
        match self.mask_image {
            Some(p) => p@,
            None => seq![],
        }
    }

    /// The part of the mask image, where the source needs one.
    pub closed spec fn mask_parts(self, mask_image: Seq<u8>) -> Seq<FormPart> {
        if self.mask_source == MaskSource::InitImageAlpha {
            seq![]
        } else {
            seq![FormPart::File { name: "mask_image"@, path: self.mask_path(), content: mask_image }]
        }
    }

    /// The parts of the request's body, in order, where `init_image` and
    /// `mask_image` hold the bytes of the two images: the settings, the
    /// extra pairs, the prompts, the initial image and, where the source
    /// needs it, the mask image.
    pub closed spec fn form_parts(self, init_image: Seq<u8>, mask_image: Seq<u8>) -> Seq<FormPart> {
        self.setting_parts() + extras_parts(self.extras) + prompt_parts(self.text_prompts@) + seq![
            FormPart::File { name: "init_image"@, path: self.init_image_view(), content: init_image },
        ] + self.mask_parts(mask_image)
    }

    /// Whether the encoding succeeds: each file that it sends has a path
    /// with an extension.
    pub closed spec fn paths_ok(self) -> bool {
        &&& has_dot(encode_utf8(self.init_image_view()))
        &&& (self.mask_source != MaskSource::InitImageAlpha ==> has_dot(
            encode_utf8(self.mask_path()),
        ))
    }

    /// Where the mask comes from.
    pub closed spec fn source(self) -> MaskSource {
        self.mask_source
    }

    /// Whether a mask image path was given.
    pub closed spec fn has_mask_path(self) -> bool {
        self.mask_image is Some
    }

    /// Whether the request sends a mask image.
    pub fn needs_mask_image(&self) -> (r: bool)
        ensures
            r == (self.source() != MaskSource::InitImageAlpha),
    {
        self.mask_source.needs_mask_image()
    }

    /// The path of the mask image, where one was given.
    pub fn mask_image_path(&self) -> (r: Option<&str>)
        ensures
            r is Some <==> self.has_mask_path(),
            r matches Some(p) ==> p@ == self.mask_path(),
    {
        match &self.mask_image {
            Some(p) => Some(p.as_str()),
            None => None,
        }
    }

    fn add_number_parts(&self, form: &mut MultipartFormData, parts: Ghost<Seq<FormPart>>) -> (r: Ghost<
        Seq<FormPart>,
    >)
        requires
            old(form).body@ == encode_parts(old(form).boundary@, parts@),
        ensures
            final(form).boundary == old(form).boundary,
            r@ == parts@ + self.number_parts(),
            final(form).body@ == encode_parts(final(form).boundary@, r@),
    {
        let mut cur = add_text_part(form, "mask_source", self.mask_source.wire_name(), parts);
        cur = add_number_part(form, "cfg_scale", self.cfg_scale, cur);
        cur = add_number_part(form, "samples", self.samples, cur);
        cur = add_number_part(form, "seed", self.seed, cur);
        cur = add_number_part(form, "steps", self.steps, cur);
        cur = add_text_part(form, "style_preset", self.style_preset.wire_name(), cur);
        assert(cur@ =~= parts@ + self.number_parts());
        cur
    }

    fn add_setting_parts(&self, form: &mut MultipartFormData, parts: Ghost<Seq<FormPart>>) -> (r:
        Ghost<Seq<FormPart>>)
        requires
            old(form).body@ == encode_parts(old(form).boundary@, parts@),
        ensures
            final(form).boundary == old(form).boundary,
            r@ == parts@ + self.setting_parts(),
            final(form).body@ == encode_parts(final(form).boundary@, r@),
    {
        let mut cur = self.add_number_parts(form, parts);
        let ghost a = cur@;
        match &self.clip_guidance_preset {
            Some(c) => {
                cur = add_text_part(form, "clip_guidance_preset", c.wire_name(), cur);
            },
            None => {},
        }
        assert(cur@ =~= a + masker_clip_parts(self.clip_guidance_preset));
        let ghost b = cur@;
        match &self.sampler {
            Some(v) => {
                cur = add_text_part(form, "sampler", v.wire_name(), cur);
            },
            None => {},
        }
        assert(cur@ =~= b + masker_sampler_parts(self.sampler));
        assert(cur@ =~= parts@ + self.setting_parts());
        cur
    }

    fn add_mask_part(&self, form: &mut MultipartFormData, mask_image: &[u8], parts: Ghost<Seq<FormPart>>) -> (r:
        Result<Ghost<Seq<FormPart>>, Error>)
        requires
            old(form).body@ == encode_parts(old(form).boundary@, parts@),
        ensures
            final(form).boundary == old(form).boundary,
            r is Ok <==> (self.mask_source != MaskSource::InitImageAlpha ==> has_dot(
                encode_utf8(self.mask_path()),
            )),
            r matches Ok(g) ==> g@ == parts@ + self.mask_parts(mask_image@) && final(form).body@
                == encode_parts(final(form).boundary@, g@),
            r matches Err(e) ==> e matches Error::InvalidFilePath(p) && p@ == self.mask_path(),
    {
        if !self.mask_source.needs_mask_image() {
            assert(parts@ + self.mask_parts(mask_image@) =~= parts@);
            return Ok(parts);
        }
        proof {
            reveal_strlit("");
            assert(""@ =~= Seq::<char>::empty());
        }
        let cur = match &self.mask_image {
            Some(p) => add_file_part(form, "mask_image", p.as_str(), mask_image, parts)?,
            None => add_file_part(form, "mask_image", "", mask_image, parts)?,
        };
        assert(cur@ =~= parts@ + self.mask_parts(mask_image@));
        Ok(cur)
    }

    /// Encodes the request as a multipart body under the boundary made from
    /// `boundary_number`; `init_image` and `mask_image` hold the bytes of
    /// the files at the two images' paths (the latter is sent only where the
    /// source needs it). Fails where a path that is sent has no extension.
    pub fn to_multipart_form_data_with_boundary(
        &self,
        boundary_number: u64,
        init_image: &[u8],
        mask_image: &[u8],
    ) -> (r: Result<MultipartFormData, Error>)
        ensures
            r is Ok <==> self.paths_ok(),
            r matches Ok(f) ==> f.boundary@ == boundary_text(boundary_number as nat) && f.body@
                == encode_parts(f.boundary@, self.form_parts(init_image@, mask_image@)) + encode_utf8(
                closing_marker(f.boundary@),
            ),
            r matches Err(e) ==> e matches Error::InvalidFilePath(p) && (if has_dot(
                encode_utf8(self.init_image_view()),
            ) {
                p@ == self.mask_path()
            } else {
                p@ == self.init_image_view()
            }),
    {
        let mut form = MultipartFormData::with_boundary_number(boundary_number);
        let ghost start: Seq<FormPart> = seq![];
        assert(form.body@ =~= encode_parts(form.boundary@, start)) by {
            reveal(encode_parts);
        }
        let cur = self.add_setting_parts(&mut form, Ghost(start));
        let cur = add_extras_parts(&mut form, &self.extras, cur);
        let cur = add_prompt_parts(&mut form, &self.text_prompts, cur);
        let cur = add_file_part(&mut form, "init_image", self.init_image.as_str(), init_image, cur)?;
        let cur = self.add_mask_part(&mut form, mask_image, cur)?;
        form.end_body();
        assert(cur@ =~= self.form_parts(init_image@, mask_image@));
        Ok(form)
    }

    /// Encodes the request as `to_multipart_form_data_with_boundary` does,
    /// under a boundary made from a random number.
    pub fn to_multipart_form_data(&self, init_image: &[u8], mask_image: &[u8]) -> (r: Result<
        MultipartFormData,
        Error,
    >)
        ensures
            r is Ok <==> self.paths_ok(),
            r matches Ok(f) ==> (exists|n: u64| f.boundary@ == boundary_text(n as nat)) && f.body@
                == encode_parts(f.boundary@, self.form_parts(init_image@, mask_image@)) + encode_utf8(
                closing_marker(f.boundary@),
            ),
            r matches Err(e) ==> e matches Error::InvalidFilePath(p) && (if has_dot(
                encode_utf8(self.init_image_view()),
            ) {
                p@ == self.mask_path()
            } else {
                p@ == self.init_image_view()
            }),
    {
        let n = random_u64();
        self.to_multipart_form_data_with_boundary(n, init_image, mask_image)
    }

    /// The path of the endpoint for `engine`, whose name is lower-cased.
    pub fn path(engine: &str) -> (r: String)
        ensures
            r@ == engine_route(engine@, MASKING_PATH@),
    {
        engine_path(engine, MASKING_PATH)
    }
}

/// Collects the settings of a masking request; `build` validates them and
/// applies the defaults.
#[derive(Debug)]
pub struct MaskerBuilder {
    pub text_prompts: Vec<TextPrompt>,
    pub init_image: Option<String>,
    pub mask_source: Option<MaskSource>,
    pub mask_image: Option<String>,
    pub cfg_scale: Option<u32>,
    pub clip_guidance_preset: Option<ClipGuidancePreset>,
    pub sampler: Option<Sampler>,
    pub samples: Option<u32>,
    pub seed: Option<u32>,
    pub steps: Option<u32>,
    pub style_preset: Option<StylePreset>,
    pub extras: Option<Vec<(String, String)>>,
}

impl MaskerBuilder {
    /// Whether every setting that is set lies within what the API accepts.
    pub open spec fn wf(self) -> bool {
        &&& (self.cfg_scale matches Some(v) ==> cfg_scale_error(v) is None)
        &&& (self.samples matches Some(v) ==> samples_error(v) is None)
        &&& (self.steps matches Some(v) ==> steps_error(v) is None)
    }

    /// The first setting that is set to a value the API does not accept,
    /// checked as its setter checks it.
    pub open spec fn setting_error(self) -> Option<ImageBuilderError> {
        first_error(
            error_if_set(self.cfg_scale, cfg_scale_error(self.cfg_scale->Some_0)),
            first_error(
            error_if_set(self.samples, samples_error(self.samples->Some_0)),
            error_if_set(self.steps, steps_error(self.steps->Some_0)),
        ),
        )
    }

    fn check_settings(&self) -> (r: Option<ImageBuilderError>)
        ensures
            r == self.setting_error(),
    {
        if let Some(v) = self.cfg_scale {
            if let Some(e) = check_cfg_scale(v) {
                return Some(e);
            }
        }
        if let Some(v) = self.samples {
            if let Some(e) = check_samples(v) {
                return Some(e);
            }
        }
        if let Some(v) = self.steps {
            if let Some(e) = check_steps(v) {
                return Some(e);
            }
        }
        None
    }

    /// The request that `build` makes: it needs an initial image path, a
    /// style preset, a first prompt that is not empty and a mask source, in
    /// that order, and a mask image path where the source is a black or
    /// white mask image; unset settings take their defaults. A setting
    /// that was set by hand to a value its setter rejects fails as there.
    pub closed spec fn spec_build(self) -> Result<Masker, ImageBuilderError> {
        if self.init_image is None {
            Err(ImageBuilderError::InitImagePathNotSet)
        } else if self.style_preset is None {
            Err(ImageBuilderError::StylePresetNotSet)
        } else if !first_prompt_ok(self.text_prompts@) {
            Err(ImageBuilderError::TextPromptEmpty)
        } else if self.mask_source is None {
            Err(ImageBuilderError::MaskSourceNotSet)
        } else if self.mask_source != Some(MaskSource::InitImageAlpha) && self.mask_image is None {
            Err(ImageBuilderError::MaskImagePathNotSet)
        } else if self.setting_error() is Some {
            Err(self.setting_error()->Some_0)
        } else {
            Ok(
                Masker {
                    text_prompts: self.text_prompts,
                    init_image: self.init_image->Some_0,
                    mask_source: self.mask_source->Some_0,
                    mask_image: self.mask_image,
                    cfg_scale: or_default(self.cfg_scale, 7),
                    clip_guidance_preset: self.clip_guidance_preset,
                    sampler: self.sampler,
                    samples: or_default(self.samples, 1),
                    seed: or_default(self.seed, 0),
                    steps: or_default(self.steps, 50),
                    style_preset: self.style_preset->Some_0,
                    extras: self.extras,
                },
            )
        }
    }

    /// A builder with nothing set.
    pub fn new() -> (r: Self)
        ensures
            r.init_image is None && r.mask_source is None && r.mask_image is None,
            r.cfg_scale is None && r.clip_guidance_preset is None && r.sampler is None,
            r.samples is None && r.seed is None && r.steps is None,
            r.style_preset is None && r.extras is None,
            r.text_prompts@ == Seq::<TextPrompt>::empty(),
            r.wf(),
    {
        MaskerBuilder {
            text_prompts: Vec::new(),
            init_image: None,
            mask_source: None,
            mask_image: None,
            cfg_scale: None,
            clip_guidance_preset: None,
            sampler: None,
            samples: None,
            seed: None,
            steps: None,
            style_preset: None,
            extras: None,
        }
    }

    /// Sets the path of the initial image.
    pub fn init_image_path(self, init_image_path: &str) -> (r: Result<Self, ImageBuilderError>)
        ensures
            r matches Ok(b) && b == (MaskerBuilder { init_image: b.init_image, ..self }) && (b.init_image matches Some(
                p,
            ) && p@ == init_image_path@),
            self.wf() ==> r->Ok_0.wf(),
    {
        let mut b = self;
        b.init_image = Some(String::from_str(init_image_path));
        Ok(b)
    }

    /// Sets where the mask comes from.
    pub fn mask_source(self, mask_source: MaskSource) -> (r: Result<Self, ImageBuilderError>)
        ensures
            r == Ok::<Self, ImageBuilderError>(MaskerBuilder { mask_source: Some(mask_source), ..self }),
            self.wf() ==> r->Ok_0.wf(),
    {
        let mut b = self;
        b.mask_source = Some(mask_source);
        Ok(b)
    }

    /// Sets the path of the mask image.
    pub fn mask_image(self, mask_image: &str) -> (r: Result<Self, ImageBuilderError>)
        ensures
            r matches Ok(b) && b == (MaskerBuilder { mask_image: b.mask_image, ..self }) && (b.mask_image matches Some(
                p,
            ) && p@ == mask_image@),
            self.wf() ==> r->Ok_0.wf(),
    {
        let mut b = self;
        b.mask_image = Some(String::from_str(mask_image));
        Ok(b)
    }

    /// Sets how strictly the diffusion adheres to the prompts; at most 35.
    pub fn cfg_scale(self, cfg_scale: u32) -> (r: Result<Self, ImageBuilderError>)
        ensures
            r == (match cfg_scale_error(cfg_scale) {
                Some(e) => Err(e),
                None => Ok(MaskerBuilder { cfg_scale: Some(cfg_scale), ..self }),
            }),
            self.wf() && r is Ok ==> r->Ok_0.wf(),
    {
        if let Some(e) = check_cfg_scale(cfg_scale) {
            return Err(e);
        }
        let mut b = self;
        b.cfg_scale = Some(cfg_scale);
        Ok(b)
    }

    /// Sets the CLIP guidance preset.
    pub fn clip_guidance_preset(self, clip_guidance_preset: ClipGuidancePreset) -> (r: Result<Self, ImageBuilderError>)
        ensures
            r == Ok::<Self, ImageBuilderError>(MaskerBuilder { clip_guidance_preset: Some(clip_guidance_preset), ..self }),
            self.wf() ==> r->Ok_0.wf(),
    {
        let mut b = self;
        b.clip_guidance_preset = Some(clip_guidance_preset);
        Ok(b)
    }

    /// Sets the sampler.
    pub fn sampler(self, sampler: Sampler) -> (r: Result<Self, ImageBuilderError>)
        ensures
            r == Ok::<Self, ImageBuilderError>(MaskerBuilder { sampler: Some(sampler), ..self }),
            self.wf() ==> r->Ok_0.wf(),
    {
        let mut b = self;
        b.sampler = Some(sampler);
        Ok(b)
    }

    /// Sets the number of images to generate; at most 10.
    pub fn samples(self, samples: u32) -> (r: Result<Self, ImageBuilderError>)
        ensures
            r == (match samples_error(samples) {
                Some(e) => Err(e),
                None => Ok(MaskerBuilder { samples: Some(samples), ..self }),
            }),
            self.wf() && r is Ok ==> r->Ok_0.wf(),
    {
        if let Some(e) = check_samples(samples) {
            return Err(e);
        }
        let mut b = self;
        b.samples = Some(samples);
        Ok(b)
    }

    /// Sets the random seed.
    pub fn seed(self, seed: u32) -> (r: Result<Self, ImageBuilderError>)
        ensures
            r == Ok::<Self, ImageBuilderError>(MaskerBuilder { seed: Some(seed), ..self }),
            self.wf() ==> r->Ok_0.wf(),
    {
        let mut b = self;
        b.seed = Some(seed);
        Ok(b)
    }

    /// Sets the number of diffusion steps; from 10 to 150.
    pub fn steps(self, steps: u32) -> (r: Result<Self, ImageBuilderError>)
        ensures
            r == (match steps_error(steps) {
                Some(e) => Err(e),
                None => Ok(MaskerBuilder { steps: Some(steps), ..self }),
            }),
            self.wf() && r is Ok ==> r->Ok_0.wf(),
    {
        if let Some(e) = check_steps(steps) {
            return Err(e);
        }
        let mut b = self;
        b.steps = Some(steps);
        Ok(b)
    }

    /// Sets the style preset.
    pub fn style_preset(self, style_preset: StylePreset) -> (r: Result<Self, ImageBuilderError>)
        ensures
            r == Ok::<Self, ImageBuilderError>(MaskerBuilder { style_preset: Some(style_preset), ..self }),
            self.wf() ==> r->Ok_0.wf(),
    {
        let mut b = self;
        b.style_preset = Some(style_preset);
        Ok(b)
    }

    /// Sets extra key-value pairs, sent in their order.
    pub fn extras(self, extras: Vec<(String, String)>) -> (r: Result<Self, ImageBuilderError>)
        ensures
            r == Ok::<Self, ImageBuilderError>(MaskerBuilder { extras: Some(extras), ..self }),
            self.wf() ==> r->Ok_0.wf(),
    {
        let mut b = self;
        b.extras = Some(extras);
        Ok(b)
    }

    /// Adds a prompt with its weight after those already given.
    pub fn text_prompt(self, text_prompt: &str, weight: Thousandths) -> (r: Result<
        Self,
        ImageBuilderError,
    >)
        ensures
            r matches Ok(b) && b == (MaskerBuilder { text_prompts: b.text_prompts, ..self })
                && b.text_prompts@.drop_last() == self.text_prompts@ && b.text_prompts@.len()
                == self.text_prompts@.len() + 1 && b.text_prompts@.last().text@ == text_prompt@
                && b.text_prompts@.last().weight == weight,
            self.wf() ==> r->Ok_0.wf(),
    {
        let mut b = self;
        b.text_prompts.push(TextPrompt { text: String::from_str(text_prompt), weight });
        assert(b.text_prompts@.drop_last() =~= self.text_prompts@);
        Ok(b)
    }

    /// Validates the settings and makes the request, as `spec_build` says.
    pub fn build(self) -> (r: Result<Masker, ImageBuilderError>)
        ensures
            r == self.spec_build(),
            r is Ok ==> r->Ok_0.wf(),
    {
        let setting_error = self.check_settings();
        let init_image = match self.init_image {
            Some(p) => p,
            None => {
                return Err(ImageBuilderError::InitImagePathNotSet);
            },
        };
        let style_preset = match self.style_preset {
            Some(s) => s,
            None => {
                return Err(ImageBuilderError::StylePresetNotSet);
            },
        };
        if !check_first_prompt(&self.text_prompts) {
            return Err(ImageBuilderError::TextPromptEmpty);
        }
        let mask_source = match self.mask_source {
            Some(m) => m,
            None => {
                return Err(ImageBuilderError::MaskSourceNotSet);
            },
        };
        if mask_source.needs_mask_image() && self.mask_image.is_none() {
            return Err(ImageBuilderError::MaskImagePathNotSet);
        }
        if let Some(e) = setting_error {
            return Err(e);
        }
        Ok(
            Masker {
                text_prompts: self.text_prompts,
                init_image,
                mask_source,
                mask_image: self.mask_image,
                cfg_scale: unwrap_or_u32(self.cfg_scale, 7),
                clip_guidance_preset: self.clip_guidance_preset,
                sampler: self.sampler,
                samples: unwrap_or_u32(self.samples, 1),
                seed: unwrap_or_u32(self.seed, 0),
                steps: unwrap_or_u32(self.steps, 50),
                style_preset,
                extras: self.extras,
            },
        )
    }
}

/// With an initial image path set, building without a style preset fails
/// with "a style preset must be set"; with one, a first prompt with an empty
/// text fails with "a text prompt must not be empty".
pub proof fn lemma_build_needs_style_and_prompt(b: MaskerBuilder)
    ensures
        b.init_image is Some && b.style_preset is None ==> b.spec_build() == Err::<
            Masker,
            ImageBuilderError,
        >(ImageBuilderError::StylePresetNotSet) && builder_error_text(
            ImageBuilderError::StylePresetNotSet,
        ) == "a style preset must be set"@,
        b.init_image is Some && b.style_preset is Some && b.text_prompts@.len() > 0
            && b.text_prompts@[0].text@.len() == 0 ==> b.spec_build() == Err::<
            Masker,
            ImageBuilderError,
        >(ImageBuilderError::TextPromptEmpty) && builder_error_text(
            ImageBuilderError::TextPromptEmpty,
        ) == "a text prompt must not be empty"@,
{
}

/// A black or white mask source without a mask image path is always
/// rejected, with "mask image path must be set when using a black or white
/// mask source" once the other required settings are there. Deriving the
/// mask from the initial image's alpha channel never needs a mask image:
/// with the other required settings, all within what the API accepts,
/// building succeeds whether or not a mask image path was given, and the
/// request then sends no mask image.
pub proof fn lemma_mask_source_rules(b: MaskerBuilder)
    ensures
        (b.mask_source == Some(MaskSource::MaskImageBlack) || b.mask_source == Some(
            MaskSource::MaskImageWhite,
        )) && b.mask_image is None ==> b.spec_build() is Err,
        (b.mask_source == Some(MaskSource::MaskImageBlack) || b.mask_source == Some(
            MaskSource::MaskImageWhite,
        )) && b.mask_image is None && b.init_image is Some && b.style_preset is Some
            && first_prompt_ok(b.text_prompts@) ==> b.spec_build() == Err::<
            Masker,
            ImageBuilderError,
        >(ImageBuilderError::MaskImagePathNotSet),
        b.mask_source == Some(MaskSource::InitImageAlpha) && b.init_image is Some
            && b.style_preset is Some && first_prompt_ok(b.text_prompts@) && b.wf()
            ==> b.spec_build() is Ok
            && (forall|m: Seq<u8>| #[trigger] b.spec_build()->Ok_0.mask_parts(m) == Seq::<
            FormPart,
        >::empty()) && (b.spec_build()->Ok_0.paths_ok() <==> has_dot(
            encode_utf8(b.init_image->Some_0@),
        )),
{
}

} // verus!
