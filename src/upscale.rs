//! Upscaling requests: their builder, and their multipart encoding for
//! each of the two upscaling engines.
use crate::error::{builder_error_text, Error, ImageBuilderError};
use crate::generation::{
    error_if_set, first_error,
    add_file_part, add_number_part, add_prompt_parts, boundary_text, cfg_scale_error,
    check_cfg_scale, check_steps, closing_marker, encode_parts, has_dot, or_default,
    prompt_parts, random_u64, steps_error, unwrap_or_u32, FormPart, MultipartFormData,
    TextPrompt, Thousandths,
};
use crate::text::decimal;
use vstd::prelude::*;
use vstd::string::*;
use vstd::utf8::encode_utf8;

verus! {

/// The route of the upscaling endpoint, after the engine.
pub const UPSCALE_PATH: &'static str = "/image-to-image/upscale";

/// The engines that upscale images.
#[derive(Debug, Clone, Copy, PartialEq, Eq, Structural)]
pub enum UpscaleEngine {
    EsrganV1X2Plus,
    /// The latent upscaler, the one engine that takes prompts, a guidance
    /// scale, steps and a seed.
    StableDiffusionX4LatentUpscaler,
}

impl UpscaleEngine {
    /// The engine's identifier.
    pub open spec fn spec_wire_name(self) -> Seq<char> {
        match self {
            UpscaleEngine::EsrganV1X2Plus => "esrgan-v1-x2plus"@,
            UpscaleEngine::StableDiffusionX4LatentUpscaler => "stable-diffusion-x4-latent-upscaler"@,
        }
    }

    pub fn wire_name(&self) -> (r: &'static str)
        ensures
            r@ == self.spec_wire_name(),
    {
        match self {
            UpscaleEngine::EsrganV1X2Plus => "esrgan-v1-x2plus",
            UpscaleEngine::StableDiffusionX4LatentUpscaler => "stable-diffusion-x4-latent-upscaler",
        }
    }

    /// Whether this is the latent upscaler.
    pub fn is_latent(&self) -> (r: bool)
        ensures
            r == (*self == UpscaleEngine::StableDiffusionX4LatentUpscaler),
    {
        match self {
            UpscaleEngine::StableDiffusionX4LatentUpscaler => true,
            UpscaleEngine::EsrganV1X2Plus => false,
        }
    }
}

/// Why an upscaled height is rejected: it must be at least 512.
pub open spec fn upscale_height_error(v: u32) -> Option<ImageBuilderError> {
    if v < 512 {
        Some(ImageBuilderError::UpscaleHeightLessThan512(v))
    } else {
        None
    }
}

/// Why an upscaled width is rejected: it must be at least 512.
pub open spec fn upscale_width_error(v: u32) -> Option<ImageBuilderError> {
    if v < 512 {
        Some(ImageBuilderError::UpscaleWidthLessThan512(v))
    } else {
        None
    }
}

fn check_upscale_height(v: u32) -> (r: Option<ImageBuilderError>)
    ensures
        r == upscale_height_error(v),
{
    if v < 512 {
        Some(ImageBuilderError::UpscaleHeightLessThan512(v))
    } else {
        None
    }
}

fn check_upscale_width(v: u32) -> (r: Option<ImageBuilderError>)
    ensures
        r == upscale_width_error(v),
{
    if v < 512 {
        Some(ImageBuilderError::UpscaleWidthLessThan512(v))
    } else {
        None
    }
}

/// The part of an optional dimension; none where it is unset.
pub open spec fn dimension_parts(name: Seq<char>, v: Option<u32>) -> Seq<FormPart> {
    match v {
        Some(v) => seq![FormPart::Text { name, value: decimal(v as nat) }],
        None => seq![],
    }
}

fn add_dimension_part(
    form: &mut MultipartFormData,
    name: &str,
    v: Option<u32>,
    parts: Ghost<Seq<FormPart>>,
) -> (r: Ghost<Seq<FormPart>>)
    requires
        old(form).body@ == encode_parts(old(form).boundary@, parts@),
    ensures
        final(form).boundary == old(form).boundary,
        r@ == parts@ + dimension_parts(name@, v),
        final(form).body@ == encode_parts(final(form).boundary@, r@),
{
    match v {
        Some(v) => {
            let cur = add_number_part(form, name, v, parts);
            assert(cur@ =~= parts@ + dimension_parts(name@, Some(v)));
            cur
        },
        None => {
            assert(parts@ =~= parts@ + dimension_parts(name@, v));
            parts
        },
    }
}

/// A validated upscaling request.
#[derive(Debug)]
pub struct Upscaler {
    image: String,
    height: Option<u32>,
    width: Option<u32>,
    text_prompts: Vec<TextPrompt>,
    cfg_scale: u32,
    seed: u32,
    steps: u32,
}

impl Upscaler {
    /// The path of the image file.
    pub closed spec fn image_view(self) -> Seq<char> {
        self.image@
    }

    /// The path of the image file.
    pub fn image_path(&self) -> (r: &str)
        ensures
            r@ == self.image_view(),
    {
        self.image.as_str()
    }

    /// Whether the settings lie within what the API accepts: at most one of
    /// height and width, each at least 512.
    pub closed spec fn wf(self) -> bool {
        &&& !(self.height is Some && self.width is Some)
        &&& (self.height matches Some(v) ==> upscale_height_error(v) is None)
        &&& (self.width matches Some(v) ==> upscale_width_error(v) is None)
        &&& cfg_scale_error(self.cfg_scale) is None
        &&& steps_error(self.steps) is None
    }

    /// The parts of the request's body for `engine`, in order, where
    /// `image` holds the bytes of the image: for the latent upscaler the
    /// prompts, then the height and width that are set, then for the latent
    /// upscaler its guidance scale, steps and seed, and last the image.
    pub closed spec fn form_parts(self, engine: UpscaleEngine, image: Seq<u8>) -> Seq<FormPart> {
        let latent = engine == UpscaleEngine::StableDiffusionX4LatentUpscaler;
        (if latent {
            prompt_parts(self.text_prompts@)
        } else {
            seq![]
        }) + dimension_parts("height"@, self.height) + dimension_parts("width"@, self.width) + (
        if latent {
            seq![
                FormPart::Text { name: "cfg_scale"@, value: decimal(self.cfg_scale as nat) },
                FormPart::Text { name: "steps"@, value: decimal(self.steps as nat) },
                FormPart::Text { name: "seed"@, value: decimal(self.seed as nat) },
            ]
        } else {
            seq![]
        }) + seq![FormPart::File { name: "image"@, path: self.image_view(), content: image }]
    }

    /// A builder with nothing set.
    pub fn builder() -> (r: UpscalerBuilder)
        ensures
            r.image is None && r.height is None && r.width is None,
            r.cfg_scale is None && r.seed is None && r.steps is None,
            r.text_prompts@ == Seq::<TextPrompt>::empty(),
            r.wf(),
    {
        UpscalerBuilder::new()
    }

    /// Encodes the request for `engine` as a multipart body under the
    /// boundary made from `boundary_number`; `image` holds the bytes of the
    /// file at the image's path. Fails where that path has no extension.
    pub fn to_multipart_form_data_with_boundary(
        &self,
        engine: UpscaleEngine,
        boundary_number: u64,
        image: &[u8],
    ) -> (r: Result<MultipartFormData, Error>)
        ensures
            r is Ok <==> has_dot(encode_utf8(self.image_view())),
            r matches Ok(f) ==> f.boundary@ == boundary_text(boundary_number as nat) && f.body@
                == encode_parts(f.boundary@, self.form_parts(engine, image@)) + encode_utf8(
                closing_marker(f.boundary@),
            ),
            r matches Err(e) ==> e matches Error::InvalidFilePath(p) && p@ == self.image_view(),
    {
        let mut form = MultipartFormData::with_boundary_number(boundary_number);
        let ghost start: Seq<FormPart> = seq![];
        assert(form.body@ =~= encode_parts(form.boundary@, start)) by {
            reveal(encode_parts);
        }
        let latent = engine.is_latent();
        let mut cur = Ghost(start);
        if latent {
            cur = add_prompt_parts(&mut form, &self.text_prompts, cur);
        }
        cur = add_dimension_part(&mut form, "height", self.height, cur);
        cur = add_dimension_part(&mut form, "width", self.width, cur);
        if latent {
            cur = add_number_part(&mut form, "cfg_scale", self.cfg_scale, cur);
            cur = add_number_part(&mut form, "steps", self.steps, cur);
            cur = add_number_part(&mut form, "seed", self.seed, cur);
        }
        let cur = add_file_part(&mut form, "image", self.image.as_str(), image, cur)?;
        form.end_body();
        assert(cur@ =~= self.form_parts(engine, image@));
        Ok(form)
    }

    /// Encodes the request as `to_multipart_form_data_with_boundary` does,
    /// under a boundary made from a random number.
    pub fn to_multipart_form_data(&self, engine: UpscaleEngine, image: &[u8]) -> (r: Result<
        MultipartFormData,
        Error,
    >)
        ensures
            r is Ok <==> has_dot(encode_utf8(self.image_view())),
            r matches Ok(f) ==> (exists|n: u64| f.boundary@ == boundary_text(n as nat)) && f.body@
                == encode_parts(f.boundary@, self.form_parts(engine, image@)) + encode_utf8(
                closing_marker(f.boundary@),
            ),
            r matches Err(e) ==> e matches Error::InvalidFilePath(p) && p@ == self.image_view(),
    {
        let n = random_u64();
        self.to_multipart_form_data_with_boundary(engine, n, image)
    }

    /// The path of the endpoint for `engine`.
    pub fn path(engine: UpscaleEngine) -> (r: String)
        ensures
            r@ == "/generation/"@ + engine.spec_wire_name() + UPSCALE_PATH@,
    {
        let mut s = String::from_str("/generation/");
        s.append(engine.wire_name());
        s.append(UPSCALE_PATH);
        s
    }
}

/// Collects the settings of an upscaling request; `build` validates them
/// and applies the defaults.
#[derive(Debug)]
pub struct UpscalerBuilder {
    pub image: Option<String>,
    pub height: Option<u32>,
    pub width: Option<u32>,
    pub text_prompts: Vec<TextPrompt>,
    pub cfg_scale: Option<u32>,
    pub seed: Option<u32>,
    pub steps: Option<u32>,
}

impl UpscalerBuilder {
    /// Whether every setting that is set lies within what the API accepts.
    pub open spec fn wf(self) -> bool {
        &&& (self.height matches Some(v) ==> upscale_height_error(v) is None)
        &&& (self.width matches Some(v) ==> upscale_width_error(v) is None)
        &&& (self.cfg_scale matches Some(v) ==> cfg_scale_error(v) is None)
        &&& (self.steps matches Some(v) ==> steps_error(v) is None)
    }

    /// The first setting that is set to a value the API does not accept,
    /// checked as its setter checks it.
    pub open spec fn setting_error(self) -> Option<ImageBuilderError> {
        first_error(
            error_if_set(self.height, upscale_height_error(self.height->Some_0)),
            first_error(
            error_if_set(self.width, upscale_width_error(self.width->Some_0)),
            first_error(
            error_if_set(self.cfg_scale, cfg_scale_error(self.cfg_scale->Some_0)),
            error_if_set(self.steps, steps_error(self.steps->Some_0)),
        ),
        ),
        )
    }

    fn check_settings(&self) -> (r: Option<ImageBuilderError>)
        ensures
            r == self.setting_error(),
    {
        if let Some(v) = self.height {
            if let Some(e) = check_upscale_height(v) {
                return Some(e);
            }
        }
        if let Some(v) = self.width {
            if let Some(e) = check_upscale_width(v) {
                return Some(e);
            }
        }
        if let Some(v) = self.cfg_scale {
            if let Some(e) = check_cfg_scale(v) {
                return Some(e);
            }
        }
        if let Some(v) = self.steps {
            if let Some(e) = check_steps(v) {
                return Some(e);
            }
        }
        None
    }

    /// The request that `build` makes: it needs an image path, then at most
    /// one of height and width; unset settings take their defaults. A setting
    /// that was set by hand to a value its setter rejects fails as there.
    pub closed spec fn spec_build(self) -> Result<Upscaler, ImageBuilderError> {
        if self.image is None {
            Err(ImageBuilderError::UpscaleImagePathNotSet)
        } else if self.height is Some && self.width is Some {
            Err(ImageBuilderError::UpscaleWidthHeightConflict)
        } else if self.setting_error() is Some {
            Err(self.setting_error()->Some_0)
        } else {
            Ok(
                Upscaler {
                    image: self.image->Some_0,
                    height: self.height,
                    width: self.width,
                    text_prompts: self.text_prompts,
                    cfg_scale: or_default(self.cfg_scale, 7),
                    seed: or_default(self.seed, 0),
                    steps: or_default(self.steps, 50),
                },
            )
        }
    }

    /// A builder with nothing set.
    pub fn new() -> (r: Self)
        ensures
            r.image is None && r.height is None && r.width is None,
            r.cfg_scale is None && r.seed is None && r.steps is None,
            r.text_prompts@ == Seq::<TextPrompt>::empty(),
            r.wf(),
    {
        UpscalerBuilder {
            image: None,
            height: None,
            width: None,
            text_prompts: Vec::new(),
            cfg_scale: None,
            seed: None,
            steps: None,
        }
    }

    /// Sets the height of the result, at least 512.
    pub fn height(self, height: u32) -> (r: Result<Self, ImageBuilderError>)
        ensures
            r == (match upscale_height_error(height) {
                Some(e) => Err(e),
                None => Ok(UpscalerBuilder { height: Some(height), ..self }),
            }),
            self.wf() && r is Ok ==> r->Ok_0.wf(),
    {
        if let Some(e) = check_upscale_height(height) {
            return Err(e);
        }
        let mut b = self;
        b.height = Some(height);
        Ok(b)
    }

    /// Sets the width of the result, at least 512.
    pub fn width(self, width: u32) -> (r: Result<Self, ImageBuilderError>)
        ensures
            r == (match upscale_width_error(width) {
                Some(e) => Err(e),
                None => Ok(UpscalerBuilder { width: Some(width), ..self }),
            }),
            self.wf() && r is Ok ==> r->Ok_0.wf(),
    {
        if let Some(e) = check_upscale_width(width) {
            return Err(e);
        }
        let mut b = self;
        b.width = Some(width);
        Ok(b)
    }

    /// Sets the path of the image to upscale.
    pub fn image(self, image: &str) -> (r: Result<Self, ImageBuilderError>)
        ensures
            r matches Ok(b) && b == (UpscalerBuilder { image: b.image, ..self }) && (b.image matches Some(
                p,
            ) && p@ == image@),
            self.wf() ==> r->Ok_0.wf(),
    {
        let mut b = self;
        b.image = Some(String::from_str(image));
        Ok(b)
    }

    /// Adds a prompt with its weight after those already given.
    pub fn text_prompt(self, text_prompt: &str, weight: Thousandths) -> (r: Result<
        Self,
        ImageBuilderError,
    >)
        ensures
            r matches Ok(b) && b == (UpscalerBuilder { text_prompts: b.text_prompts, ..self })
                && b.text_prompts@.drop_last() == self.text_prompts@ && b.text_prompts@.len()
                == self.text_prompts@.len() + 1 && b.text_prompts@.last().text@ == text_prompt@
                && b.text_prompts@.last().weight == weight,
            self.wf() ==> r->Ok_0.wf(),
    {
        let mut b = self;
        b.text_prompts.push(TextPrompt { text: String::from_str(text_prompt), weight });
        assert(b.text_prompts@.drop_last() =~= self.text_prompts@);
        Ok(b)
    }

    /// Sets how strictly the diffusion adheres to the prompts; at most 35.
    pub fn cfg_scale(self, cfg_scale: u32) -> (r: Result<Self, ImageBuilderError>)
        ensures
            r == (match cfg_scale_error(cfg_scale) {
                Some(e) => Err(e),
                None => Ok(UpscalerBuilder { cfg_scale: Some(cfg_scale), ..self }),
            }),
            self.wf() && r is Ok ==> r->Ok_0.wf(),
    {
        if let Some(e) = check_cfg_scale(cfg_scale) {
            return Err(e);
        }
        let mut b = self;
        b.cfg_scale = Some(cfg_scale);
        Ok(b)
    }

    /// Sets the random seed.
    pub fn seed(self, seed: u32) -> (r: Result<Self, ImageBuilderError>)
        ensures
            r == Ok::<Self, ImageBuilderError>(UpscalerBuilder { seed: Some(seed), ..self }),
            self.wf() ==> r->Ok_0.wf(),
    {
        let mut b = self;
        b.seed = Some(seed);
        Ok(b)
    }

    /// Sets the number of diffusion steps; from 10 to 150.
    pub fn steps(self, steps: u32) -> (r: Result<Self, ImageBuilderError>)
        ensures
            r == (match steps_error(steps) {
                Some(e) => Err(e),
                None => Ok(UpscalerBuilder { steps: Some(steps), ..self }),
            }),
            self.wf() && r is Ok ==> r->Ok_0.wf(),
    {
        if let Some(e) = check_steps(steps) {
            return Err(e);
        }
        let mut b = self;
        b.steps = Some(steps);
        Ok(b)
    }

    /// Validates the settings and makes the request, as `spec_build` says.
    pub fn build(self) -> (r: Result<Upscaler, ImageBuilderError>)
        ensures
            r == self.spec_build(),
            r is Ok ==> r->Ok_0.wf(),
    {
        let setting_error = self.check_settings();
        let image = match self.image {
            Some(p) => p,
            None => {
                return Err(ImageBuilderError::UpscaleImagePathNotSet);
            },
        };
        if self.height.is_some() && self.width.is_some() {
            return Err(ImageBuilderError::UpscaleWidthHeightConflict);
        }
        if let Some(e) = setting_error {
            return Err(e);
        }
        Ok(
            Upscaler {
                image,
                height: self.height,
                width: self.width,
                text_prompts: self.text_prompts,
                cfg_scale: unwrap_or_u32(self.cfg_scale, 7),
                seed: unwrap_or_u32(self.seed, 0),
                steps: unwrap_or_u32(self.steps, 50),
            },
        )
    }
}

/// Building without an image path is always rejected, with "upscale image
/// path must be set"; with one, setting both height and width is always
/// rejected as conflicting.
pub proof fn lemma_upscaler_rejections(b: UpscalerBuilder)
    ensures
        b.image is None ==> b.spec_build() == Err::<Upscaler, ImageBuilderError>(
            ImageBuilderError::UpscaleImagePathNotSet,
        ) && builder_error_text(ImageBuilderError::UpscaleImagePathNotSet)
            == "upscale image path must be set"@,
        b.height is Some && b.width is Some ==> b.spec_build() is Err,
        b.image is Some && b.height is Some && b.width is Some ==> b.spec_build() == Err::<
            Upscaler,
            ImageBuilderError,
        >(ImageBuilderError::UpscaleWidthHeightConflict) && builder_error_text(
            ImageBuilderError::UpscaleWidthHeightConflict,
        ) == "only one of width or height may be specified"@,
{
}

} // verus!
