//! Image-to-image requests: their builder, and their multipart encoding.
use crate::error::{builder_error_text, Error, ImageBuilderError};
use crate::generation::{
    error_if_set, first_error,
    add_extras_parts, add_file_part, add_number_part, add_prompt_parts, add_text_part,
    boundary_text, cfg_scale_error, check_cfg_scale, check_first_prompt, check_samples,
    check_steps, closing_marker, encode_parts, engine_path, engine_route, extras_parts,
    first_prompt_ok, has_dot, or_default, prompt_parts, random_u64, samples_error, steps_error,
    unwrap_or_u32, ClipGuidancePreset, FormPart, MultipartFormData, Sampler, StylePreset,
    TextPrompt, Thousandths,
};
use crate::text::{decimal, thousandths_string, thousandths_text};
use vstd::prelude::*;
use vstd::string::*;
use vstd::utf8::encode_utf8;

verus! {

/// The route of the image-to-image endpoint, after the engine.
pub const IMAGE_TO_IMAGE_PATH: &'static str = "/image-to-image";

/// How the initial image steers the generation.
#[derive(Debug, Clone, Copy, PartialEq, Eq, Structural)]
pub enum ImageMode {
    ImageStrength,
    StepSchedule,
}

impl ImageMode {
    /// The name that the API knows the mode by.
    pub open spec fn spec_wire_name(self) -> Seq<char> {
        match self {
            ImageMode::ImageStrength => "IMAGE_STRENGTH"@,
            ImageMode::StepSchedule => "STEP_SCHEDULE"@,
        }
    }

    pub fn wire_name(&self) -> (r: &'static str)
        ensures
            r@ == self.spec_wire_name(),
    {
        match self {
            ImageMode::ImageStrength => "IMAGE_STRENGTH",
            ImageMode::StepSchedule => "STEP_SCHEDULE",
        }
    }
}

/// The part of an optional sampler, by its name in upper case; none where
/// it is unset.
pub open spec fn sampler_parts(s: Option<Sampler>) -> Seq<FormPart> {
    match s {
        Some(s) => seq![FormPart::Text { name: "sampler"@, value: s.spec_wire_name() }],
        None => seq![],
    }
}

/// The part of an optional CLIP guidance preset; none where it is unset.
pub open spec fn clip_parts(c: Option<ClipGuidancePreset>) -> Seq<FormPart> {
    match c {
        Some(c) => seq![FormPart::Text { name: "clip_guidance_preset"@, value: c.spec_wire_name() }],
        None => seq![],
    }
}

fn add_sampler_part(form: &mut MultipartFormData, v: Option<Sampler>, parts: Ghost<Seq<FormPart>>) -> (r:
    Ghost<Seq<FormPart>>)
    requires
        old(form).body@ == encode_parts(old(form).boundary@, parts@),
    ensures
        final(form).boundary == old(form).boundary,
        r@ == parts@ + sampler_parts(v),
        final(form).body@ == encode_parts(final(form).boundary@, r@),
{
    match v {
        Some(v) => {
            let cur = add_text_part(form, "sampler", v.wire_name(), parts);
            assert(cur@ =~= parts@ + sampler_parts(Some(v)));
            cur
        },
        None => {
            assert(parts@ =~= parts@ + sampler_parts(v));
            parts
        },
    }
}

fn add_clip_part(
    form: &mut MultipartFormData,
    c: Option<ClipGuidancePreset>,
    parts: Ghost<Seq<FormPart>>,
) -> (r: Ghost<Seq<FormPart>>)
    requires
        old(form).body@ == encode_parts(old(form).boundary@, parts@),
    ensures
        final(form).boundary == old(form).boundary,
        r@ == parts@ + clip_parts(c),
        final(form).body@ == encode_parts(final(form).boundary@, r@),
{
    match c {
        Some(c) => {
            let cur = add_text_part(form, "clip_guidance_preset", c.wire_name(), parts);
            assert(cur@ =~= parts@ + clip_parts(Some(c)));
            cur
        },
        None => {
            assert(parts@ =~= parts@ + clip_parts(c));
            parts
        },
    }
}

/// A validated image-to-image request.
#[derive(Debug)]
pub struct ImageToImage {
    text_prompts: Vec<TextPrompt>,
    init_image: String,
    init_image_mode: ImageMode,
    image_strength: Thousandths,
    cfg_scale: u32,
    clip_guidance_preset: Option<ClipGuidancePreset>,
    sampler: Option<Sampler>,
    samples: u32,
    seed: u32,
    steps: u32,
    style_preset: StylePreset,
    extras: Option<Vec<(String, String)>>,
}

impl ImageToImage {
    /// The path of the init image file.
    pub closed spec fn init_image_view(self) -> Seq<char> {
        self.init_image@
    }

    /// The path of the init image file.
    pub fn init_image_path(&self) -> (r: &str)
        ensures
            r@ == self.init_image_view(),
    {
        self.init_image.as_str()
    }

    /// Whether every setting lies within what the API accepts.
    pub closed spec fn wf(self) -> bool {
        &&& cfg_scale_error(self.cfg_scale) is None
        &&& samples_error(self.samples) is None
        &&& steps_error(self.steps) is None
        &&& first_prompt_ok(self.text_prompts@)
    }

    /// The parts of the initial image's mode, and of the image strength
    /// where the mode uses it.
    pub closed spec fn mode_parts(self) -> Seq<FormPart> {
        seq![FormPart::Text { name: "init_image_mode"@, value: self.init_image_mode.spec_wire_name() }]
            + (if self.init_image_mode == ImageMode::ImageStrength {
            seq![
                FormPart::Text {
                    name: "image_strength"@,
                    value: thousandths_text(self.image_strength.0 as int),
                },
            ]
        } else {
            seq![]
        })
    }

    /// The parts of the guidance scale, the number of samples and of steps.
    pub closed spec fn number_parts(self) -> Seq<FormPart> {
        seq![
            FormPart::Text { name: "cfg_scale"@, value: decimal(self.cfg_scale as nat) },
            FormPart::Text { name: "samples"@, value: decimal(self.samples as nat) },
            FormPart::Text { name: "steps"@, value: decimal(self.steps as nat) },
        ]
    }

    /// The parts of the style preset and the seed.
    pub closed spec fn style_seed_parts(self) -> Seq<FormPart> {
        seq![
            FormPart::Text { name: "style_preset"@, value: self.style_preset.spec_wire_name() },
            FormPart::Text { name: "seed"@, value: decimal(self.seed as nat) },
        ]
    }

    /// The settings' parts between the prompts and the file.
    pub closed spec fn setting_parts(self) -> Seq<FormPart> {
        self.mode_parts() + self.number_parts() + sampler_parts(self.sampler) + clip_parts(
            self.clip_guidance_preset,
        ) + self.style_seed_parts()
    }

    /// The parts of the request's body, in order, where `init_image` holds
    /// the bytes of the initial image: the prompts, the settings, the image,
    /// and the extra pairs.
    pub closed spec fn form_parts(self, init_image: Seq<u8>) -> Seq<FormPart> {
        prompt_parts(self.text_prompts@) + self.setting_parts() + seq![
            FormPart::File { name: "init_image"@, path: self.init_image_view(), content: init_image },
        ] + extras_parts(self.extras)
    }

    fn add_mode_parts(&self, form: &mut MultipartFormData, parts: Ghost<Seq<FormPart>>) -> (r: Ghost<
        Seq<FormPart>,
    >)
        requires
            old(form).body@ == encode_parts(old(form).boundary@, parts@),
        ensures
            final(form).boundary == old(form).boundary,
            r@ == parts@ + self.mode_parts(),
            final(form).body@ == encode_parts(final(form).boundary@, r@),
    {
        let mut cur = add_text_part(form, "init_image_mode", self.init_image_mode.wire_name(), parts);
        match self.init_image_mode {
            ImageMode::ImageStrength => {
                let s = thousandths_string(self.image_strength.0);
                cur = add_text_part(form, "image_strength", s.as_str(), cur);
            },
            ImageMode::StepSchedule => {},
        }
        assert(cur@ =~= parts@ + self.mode_parts());
        cur
    }

    fn add_number_parts(&self, form: &mut MultipartFormData, parts: Ghost<Seq<FormPart>>) -> (r: Ghost<
        Seq<FormPart>,
    >)
        requires
            old(form).body@ == encode_parts(old(form).boundary@, parts@),
        ensures
            final(form).boundary == old(form).boundary,
            r@ == parts@ + self.number_parts(),
            final(form).body@ == encode_parts(final(form).boundary@, r@),
    {
        let mut cur = add_number_part(form, "cfg_scale", self.cfg_scale, parts);
        cur = add_number_part(form, "samples", self.samples, cur);
        cur = add_number_part(form, "steps", self.steps, cur);
        assert(cur@ =~= parts@ + self.number_parts());
        cur
    }

    fn add_style_seed_parts(&self, form: &mut MultipartFormData, parts: Ghost<Seq<FormPart>>) -> (r: Ghost<
        Seq<FormPart>,
    >)
        requires
            old(form).body@ == encode_parts(old(form).boundary@, parts@),
        ensures
            final(form).boundary == old(form).boundary,
            r@ == parts@ + self.style_seed_parts(),
            final(form).body@ == encode_parts(final(form).boundary@, r@),
    {
        let mut cur = add_text_part(form, "style_preset", self.style_preset.wire_name(), parts);
        cur = add_number_part(form, "seed", self.seed, cur);
        assert(cur@ =~= parts@ + self.style_seed_parts());
        cur
    }

    fn add_setting_parts(&self, form: &mut MultipartFormData, parts: Ghost<Seq<FormPart>>) -> (r: Ghost<
        Seq<FormPart>,
    >)
        requires
            old(form).body@ == encode_parts(old(form).boundary@, parts@),
        ensures
            final(form).boundary == old(form).boundary,
            r@ == parts@ + self.setting_parts(),
            final(form).body@ == encode_parts(final(form).boundary@, r@),
    {
        let mut cur = self.add_mode_parts(form, parts);
        cur = self.add_number_parts(form, cur);
        cur = add_sampler_part(form, self.sampler, cur);
        cur = add_clip_part(form, self.clip_guidance_preset, cur);
        cur = self.add_style_seed_parts(form, cur);
        assert(cur@ =~= parts@ + self.setting_parts());
        cur
    }

    /// Encodes the request as a multipart body under the boundary made from
    /// `boundary_number`; `init_image` holds the bytes of the file at the
    /// initial image's path. Fails where that path has no extension.
    pub fn to_multipart_form_data_with_boundary(&self, boundary_number: u64, init_image: &[u8]) -> (r:
        Result<MultipartFormData, Error>)
        ensures
            r is Ok <==> has_dot(encode_utf8(self.init_image_view())),
            r matches Ok(f) ==> f.boundary@ == boundary_text(boundary_number as nat) && f.body@
                == encode_parts(f.boundary@, self.form_parts(init_image@)) + encode_utf8(
                closing_marker(f.boundary@),
            ),
            r matches Err(e) ==> e matches Error::InvalidFilePath(p) && p@ == self.init_image_view(),
    {
        let mut form = MultipartFormData::with_boundary_number(boundary_number);
        let ghost start: Seq<FormPart> = seq![];
        assert(form.body@ =~= encode_parts(form.boundary@, start)) by {
            reveal(encode_parts);
        }
        let cur = add_prompt_parts(&mut form, &self.text_prompts, Ghost(start));
        let cur = self.add_setting_parts(&mut form, cur);
        let cur = add_file_part(&mut form, "init_image", self.init_image.as_str(), init_image, cur)?;
        let cur = add_extras_parts(&mut form, &self.extras, cur);
        form.end_body();
        assert(cur@ =~= self.form_parts(init_image@));
        Ok(form)
    }

    /// Encodes the request as `to_multipart_form_data_with_boundary` does,
    /// under a boundary made from a random number.
    pub fn to_multipart_form_data(&self, init_image: &[u8]) -> (r: Result<MultipartFormData, Error>)
        ensures
            r is Ok <==> has_dot(encode_utf8(self.init_image_view())),
            r matches Ok(f) ==> (exists|n: u64| f.boundary@ == boundary_text(n as nat)) && f.body@
                == encode_parts(f.boundary@, self.form_parts(init_image@)) + encode_utf8(
                closing_marker(f.boundary@),
            ),
            r matches Err(e) ==> e matches Error::InvalidFilePath(p) && p@ == self.init_image_view(),
    {
        let n = random_u64();
        self.to_multipart_form_data_with_boundary(n, init_image)
    }

    /// The path of the endpoint for `engine`, whose name is lower-cased.
    pub fn path(engine: &str) -> (r: String)
        ensures
            r@ == engine_route(engine@, IMAGE_TO_IMAGE_PATH@),
    {
        engine_path(engine, IMAGE_TO_IMAGE_PATH)
    }
}

/// Collects the settings of an image-to-image request; `build` validates
/// them and applies the defaults.
#[derive(Debug)]
pub struct ImageToImageBuilder {
    pub init_image: Option<String>,
    pub init_image_mode: Option<ImageMode>,
    pub image_strength: Option<Thousandths>,
    pub text_prompts: Vec<TextPrompt>,
    pub cfg_scale: Option<u32>,
    pub clip_guidance_preset: Option<ClipGuidancePreset>,
    pub sampler: Option<Sampler>,
    pub samples: Option<u32>,
    pub seed: Option<u32>,
    pub steps: Option<u32>,
    pub style_preset: Option<StylePreset>,
    pub extras: Option<Vec<(String, String)>>,
}

impl ImageToImageBuilder {
    /// Whether every setting that is set lies within what the API accepts.
    pub open spec fn wf(self) -> bool {
        &&& (self.cfg_scale matches Some(v) ==> cfg_scale_error(v) is None)
        &&& (self.samples matches Some(v) ==> samples_error(v) is None)
        &&& (self.steps matches Some(v) ==> steps_error(v) is None)
    }

    /// The first setting that is set to a value the API does not accept,
    /// checked as its setter checks it.
    pub open spec fn setting_error(self) -> Option<ImageBuilderError> {
        first_error(
            error_if_set(self.cfg_scale, cfg_scale_error(self.cfg_scale->Some_0)),
            first_error(
            error_if_set(self.samples, samples_error(self.samples->Some_0)),
            error_if_set(self.steps, steps_error(self.steps->Some_0)),
        ),
        )
    }

    fn check_settings(&self) -> (r: Option<ImageBuilderError>)
        ensures
            r == self.setting_error(),
    {
        if let Some(v) = self.cfg_scale {
            if let Some(e) = check_cfg_scale(v) {
                return Some(e);
            }
        }
        if let Some(v) = self.samples {
            if let Some(e) = check_samples(v) {
                return Some(e);
            }
        }
        if let Some(v) = self.steps {
            if let Some(e) = check_steps(v) {
                return Some(e);
            }
        }
        None
    }

    /// The request that `build` makes: it needs an initial image path, then
    /// a style preset, then a first prompt that is not empty; unset settings
    /// take their defaults. A setting
    /// that was set by hand to a value its setter rejects fails as there.
    pub closed spec fn spec_build(self) -> Result<ImageToImage, ImageBuilderError> {
        if self.init_image is None {
            Err(ImageBuilderError::InitImagePathNotSet)
        } else if self.style_preset is None {
            Err(ImageBuilderError::StylePresetNotSet)
        } else if !first_prompt_ok(self.text_prompts@) {
            Err(ImageBuilderError::TextPromptEmpty)
        } else if self.setting_error() is Some {
            Err(self.setting_error()->Some_0)
        } else {
            Ok(
                ImageToImage {
                    text_prompts: self.text_prompts,
                    init_image: self.init_image->Some_0,
                    init_image_mode: match self.init_image_mode {
                        Some(m) => m,
                        None => ImageMode::ImageStrength,
                    },
                    image_strength: match self.image_strength {
                        Some(s) => s,
                        None => Thousandths(0),
                    },
                    cfg_scale: or_default(self.cfg_scale, 7),
                    clip_guidance_preset: self.clip_guidance_preset,
                    sampler: self.sampler,
                    samples: or_default(self.samples, 1),
                    seed: or_default(self.seed, 0),
                    steps: or_default(self.steps, 50),
                    style_preset: self.style_preset->Some_0,
                    extras: self.extras,
                },
            )
        }
    }

    /// A builder with nothing set.
    pub fn new() -> (r: Self)
        ensures
            r.init_image is None && r.init_image_mode is None && r.image_strength is None,
            r.cfg_scale is None && r.clip_guidance_preset is None && r.sampler is None,
            r.samples is None && r.seed is None && r.steps is None,
            r.style_preset is None && r.extras is None,
            r.text_prompts@ == Seq::<TextPrompt>::empty(),
            r.wf(),
    {
        ImageToImageBuilder {
            init_image: None,
            init_image_mode: None,
            image_strength: None,
            text_prompts: Vec::new(),
            cfg_scale: None,
            clip_guidance_preset: None,
            sampler: None,
            samples: None,
            seed: None,
            steps: None,
            style_preset: None,
            extras: None,
        }
    }

    /// Sets the path of the initial image.
    pub fn init_image_path(self, init_image_path: &str) -> (r: Result<Self, ImageBuilderError>)
        ensures
            r matches Ok(b) && b == (ImageToImageBuilder { init_image: b.init_image, ..self }) && (
            b.init_image matches Some(p) && p@ == init_image_path@),
            self.wf() ==> r->Ok_0.wf(),
    {
        let mut b = self;
        b.init_image = Some(String::from_str(init_image_path));
        Ok(b)
    }

    /// Sets how the initial image steers the generation.
    pub fn init_image_mode(self, init_image_mode: ImageMode) -> (r: Result<Self, ImageBuilderError>)
        ensures
            r == Ok::<Self, ImageBuilderError>(ImageToImageBuilder { init_image_mode: Some(init_image_mode), ..self }),
            self.wf() ==> r->Ok_0.wf(),
    {
        let mut b = self;
        b.init_image_mode = Some(init_image_mode);
        Ok(b)
    }

    /// Sets how much the initial image shapes the result.
    pub fn image_strength(self, image_strength: Thousandths) -> (r: Result<Self, ImageBuilderError>)
        ensures
            r == Ok::<Self, ImageBuilderError>(ImageToImageBuilder { image_strength: Some(image_strength), ..self }),
            self.wf() ==> r->Ok_0.wf(),
    {
        let mut b = self;
        b.image_strength = Some(image_strength);
        Ok(b)
    }

    /// Sets how strictly the diffusion adheres to the prompts; at most 35.
    pub fn cfg_scale(self, cfg_scale: u32) -> (r: Result<Self, ImageBuilderError>)
        ensures
            r == (match cfg_scale_error(cfg_scale) {
                Some(e) => Err(e),
                None => Ok(ImageToImageBuilder { cfg_scale: Some(cfg_scale), ..self }),
            }),
            self.wf() && r is Ok ==> r->Ok_0.wf(),
    {
        if let Some(e) = check_cfg_scale(cfg_scale) {
            return Err(e);
        }
        let mut b = self;
        b.cfg_scale = Some(cfg_scale);
        Ok(b)
    }

    /// Sets the CLIP guidance preset.
    pub fn clip_guidance_preset(self, clip_guidance_preset: ClipGuidancePreset) -> (r: Result<Self, ImageBuilderError>)
        ensures
            r == Ok::<Self, ImageBuilderError>(ImageToImageBuilder { clip_guidance_preset: Some(clip_guidance_preset), ..self }),
            self.wf() ==> r->Ok_0.wf(),
    {
        let mut b = self;
        b.clip_guidance_preset = Some(clip_guidance_preset);
        Ok(b)
    }

    /// Sets the sampler.
    pub fn sampler(self, sampler: Sampler) -> (r: Result<Self, ImageBuilderError>)
        ensures
            r == Ok::<Self, ImageBuilderError>(ImageToImageBuilder { sampler: Some(sampler), ..self }),
            self.wf() ==> r->Ok_0.wf(),
    {
        let mut b = self;
        b.sampler = Some(sampler);
        Ok(b)
    }

    /// Sets the number of images to generate; at most 10.
    pub fn samples(self, samples: u32) -> (r: Result<Self, ImageBuilderError>)
        ensures
            r == (match samples_error(samples) {
                Some(e) => Err(e),
                None => Ok(ImageToImageBuilder { samples: Some(samples), ..self }),
            }),
            self.wf() && r is Ok ==> r->Ok_0.wf(),
    {
        if let Some(e) = check_samples(samples) {
            return Err(e);
        }
        let mut b = self;
        b.samples = Some(samples);
        Ok(b)
    }

    /// Sets the random seed.
    pub fn seed(self, seed: u32) -> (r: Result<Self, ImageBuilderError>)
        ensures
            r == Ok::<Self, ImageBuilderError>(ImageToImageBuilder { seed: Some(seed), ..self }),
            self.wf() ==> r->Ok_0.wf(),
    {
        let mut b = self;
        b.seed = Some(seed);
        Ok(b)
    }

    /// Sets the number of diffusion steps; from 10 to 150.
    pub fn steps(self, steps: u32) -> (r: Result<Self, ImageBuilderError>)
        ensures
            r == (match steps_error(steps) {
                Some(e) => Err(e),
                None => Ok(ImageToImageBuilder { steps: Some(steps), ..self }),
            }),
            self.wf() && r is Ok ==> r->Ok_0.wf(),
    {
        if let Some(e) = check_steps(steps) {
            return Err(e);
        }
        let mut b = self;
        b.steps = Some(steps);
        Ok(b)
    }

    /// Sets the style preset.
    pub fn style_preset(self, style_preset: StylePreset) -> (r: Result<Self, ImageBuilderError>)
        ensures
            r == Ok::<Self, ImageBuilderError>(ImageToImageBuilder { style_preset: Some(style_preset), ..self }),
            self.wf() ==> r->Ok_0.wf(),
    {
        let mut b = self;
        b.style_preset = Some(style_preset);
        Ok(b)
    }

    /// Sets extra key-value pairs, sent in their order.
    pub fn extras(self, extras: Vec<(String, String)>) -> (r: Result<Self, ImageBuilderError>)
        ensures
            r == Ok::<Self, ImageBuilderError>(ImageToImageBuilder { extras: Some(extras), ..self }),
            self.wf() ==> r->Ok_0.wf(),
    {
        let mut b = self;
        b.extras = Some(extras);
        Ok(b)
    }

    /// Adds a prompt with its weight after those already given.
    pub fn text_prompt(self, text_prompt: &str, weight: Thousandths) -> (r: Result<
        Self,
        ImageBuilderError,
    >)
        ensures
            r matches Ok(b) && b == (ImageToImageBuilder { text_prompts: b.text_prompts, ..self })
                && b.text_prompts@.drop_last() == self.text_prompts@ && b.text_prompts@.len()
                == self.text_prompts@.len() + 1 && b.text_prompts@.last().text@ == text_prompt@
                && b.text_prompts@.last().weight == weight,
            self.wf() ==> r->Ok_0.wf(),
    {
        let mut b = self;
        b.text_prompts.push(TextPrompt { text: String::from_str(text_prompt), weight });
        assert(b.text_prompts@.drop_last() =~= self.text_prompts@);
        Ok(b)
    }

    /// Validates the settings and makes the request, as `spec_build` says.
    pub fn build(self) -> (r: Result<ImageToImage, ImageBuilderError>)
        ensures
            r == self.spec_build(),
            r is Ok ==> r->Ok_0.wf(),
    {
        let setting_error = self.check_settings();
        let init_image = match self.init_image {
            Some(p) => p,
            None => {
                return Err(ImageBuilderError::InitImagePathNotSet);
            },
        };
        let style_preset = match self.style_preset {
            Some(s) => s,
            None => {
                return Err(ImageBuilderError::StylePresetNotSet);
            },
        };
        if !check_first_prompt(&self.text_prompts) {
            return Err(ImageBuilderError::TextPromptEmpty);
        }
        if let Some(e) = setting_error {
            return Err(e);
        }
        Ok(
            ImageToImage {
                text_prompts: self.text_prompts,
                init_image,
                init_image_mode: match self.init_image_mode {
                    Some(m) => m,
                    None => ImageMode::ImageStrength,
                },
                image_strength: match self.image_strength {
                    Some(s) => s,
                    None => Thousandths(0),
                },
                cfg_scale: unwrap_or_u32(self.cfg_scale, 7),
                clip_guidance_preset: self.clip_guidance_preset,
                sampler: self.sampler,
                samples: unwrap_or_u32(self.samples, 1),
                seed: unwrap_or_u32(self.seed, 0),
                steps: unwrap_or_u32(self.steps, 50),
                style_preset,
                extras: self.extras,
            },
        )
    }
}

/// With an initial image path set, building without a style preset fails
/// with "a style preset must be set"; with one, a first prompt with an empty
/// text fails with "a text prompt must not be empty". Without the path,
/// building fails with "init image path must be set".
pub proof fn lemma_build_needs_style_and_prompt(b: ImageToImageBuilder)
    ensures
        b.init_image is None ==> b.spec_build() == Err::<ImageToImage, ImageBuilderError>(
            ImageBuilderError::InitImagePathNotSet,
        ) && builder_error_text(ImageBuilderError::InitImagePathNotSet)
            == "init image path must be set"@,
        b.init_image is Some && b.style_preset is None ==> b.spec_build() == Err::<
            ImageToImage,
            ImageBuilderError,
        >(ImageBuilderError::StylePresetNotSet) && builder_error_text(
            ImageBuilderError::StylePresetNotSet,
        ) == "a style preset must be set"@,
        b.init_image is Some && b.style_preset is Some && b.text_prompts@.len() > 0
            && b.text_prompts@[0].text@.len() == 0 ==> b.spec_build() == Err::<
            ImageToImage,
            ImageBuilderError,
        >(ImageBuilderError::TextPromptEmpty) && builder_error_text(
            ImageBuilderError::TextPromptEmpty,
        ) == "a text prompt must not be empty"@,
{
}

} // verus!
