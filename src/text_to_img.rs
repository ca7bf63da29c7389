//! Text-to-image requests: their builder, and their JSON encoding.
use crate::error::{builder_error_text, ImageBuilderError};
use crate::generation::{
    error_if_set, first_error,
    cfg_scale_error, check_cfg_scale, check_first_prompt, check_height, check_samples,
    check_steps, check_width, engine_path, engine_route, first_prompt_ok, height_error,
    or_default, samples_error, steps_error, unwrap_or_u32, width_error, ClipGuidancePreset, Image,
    Sampler, StylePreset, TextPrompt, Thousandths,
};
use crate::json::{json_quote, json_string};
use crate::text::{decimal, decimal_string, thousandths_string, thousandths_text};
use vstd::prelude::*;
use vstd::string::*;

verus! {

/// The route of the text-to-image endpoint, after the engine.
pub const TEXT_TO_IMAGE_PATH: &'static str = "/text-to-image";

fn append_json_string(s: &mut String, t: &str)
    ensures
        final(s)@ == old(s)@ + json_string(t@),
{
    match json_quote(t) {
        Some(q) => s.append(q.as_str()),
        None => {},
    }
}

/// The key of a JSON member: the quoted name and a colon.
pub open spec fn json_key(name: Seq<char>) -> Seq<char> {
    "\""@ + name + "\":"@
}

fn append_key(s: &mut String, name: &str)
    ensures
        final(s)@ == old(s)@ + json_key(name@),
{
    s.append("\"");
    s.append(name);
    s.append("\":");
    assert(s@ =~= old(s)@ + json_key(name@));
}

/// The JSON object of one prompt.
pub open spec fn prompt_json(p: TextPrompt) -> Seq<char> {
    "{"@ + json_key("text"@) + json_string(p.text@) + ","@ + json_key("weight"@) + thousandths_text(
        p.weight.0 as int,
    ) + "}"@
}

/// The JSON objects of the prompts, separated by commas.
pub open spec fn prompts_json(ps: Seq<TextPrompt>) -> Seq<char>
    decreases ps.len(),
{
    if ps.len() == 0 {
        seq![]
    } else if ps.len() == 1 {
        prompt_json(ps[0])
    } else {
        prompts_json(ps.drop_last()) + ","@ + prompt_json(ps.last())
    }
}

/// The JSON members of the extra pairs, separated by commas.
pub open spec fn extras_json(es: Seq<(String, String)>) -> Seq<char>
    decreases es.len(),
{
    if es.len() == 0 {
        seq![]
    } else if es.len() == 1 {
        json_string(es[0].0@) + ":"@ + json_string(es[0].1@)
    } else {
        extras_json(es.drop_last()) + ","@ + json_string(es.last().0@) + ":"@ + json_string(
            es.last().1@,
        )
    }
}

fn append_prompt_json(s: &mut String, p: &TextPrompt)
    ensures
        final(s)@ == old(s)@ + prompt_json(*p),
{
    s.append("{");
    append_key(s, "text");
    append_json_string(s, p.text.as_str());
    s.append(",");
    append_key(s, "weight");
    let w = thousandths_string(p.weight.0);
    s.append(w.as_str());
    s.append("}");
    assert(s@ =~= old(s)@ + prompt_json(*p));
}

fn append_prompts_json(s: &mut String, ps: &Vec<TextPrompt>)
    ensures
        final(s)@ == old(s)@ + prompts_json(ps@),
{
    let ghost start = s@;
    let mut i: usize = 0;
    while i < ps.len()
        invariant
            i <= ps@.len(),
            s@ == start + prompts_json(ps@.subrange(0, i as int)),
            start == old(s)@,
        decreases ps@.len() - i,
    {
        if i > 0 {
            s.append(",");
        }
        append_prompt_json(s, &ps[i]);
        assert(ps@.subrange(0, i + 1 as int).drop_last() =~= ps@.subrange(0, i as int));
        i = i + 1;
        assert(s@ =~= start + prompts_json(ps@.subrange(0, i as int)));
    }
    assert(ps@.subrange(0, ps@.len() as int) =~= ps@);
}

fn append_extras_json(s: &mut String, es: &Vec<(String, String)>)
    ensures
        final(s)@ == old(s)@ + extras_json(es@),
{
    let ghost start = s@;
    let mut i: usize = 0;
    while i < es.len()
        invariant
            i <= es@.len(),
            s@ == start + extras_json(es@.subrange(0, i as int)),
            start == old(s)@,
        decreases es@.len() - i,
    {
        if i > 0 {
            s.append(",");
        }
        append_json_string(s, es[i].0.as_str());
        s.append(":");
        append_json_string(s, es[i].1.as_str());
        assert(es@.subrange(0, i + 1 as int).drop_last() =~= es@.subrange(0, i as int));
        i = i + 1;
        assert(s@ =~= start + extras_json(es@.subrange(0, i as int)));
    }
    assert(es@.subrange(0, es@.len() as int) =~= es@);
}

/// The JSON member of a CLIP guidance preset; none where it is unset.
pub open spec fn clip_json(c: Option<ClipGuidancePreset>) -> Seq<char> {
    match c {
        Some(c) => name_member("clip_guidance_preset"@, c.spec_wire_name()),
        None => seq![],
    }
}

/// The JSON member of a sampler; none where it is unset.
pub open spec fn sampler_json(s: Option<Sampler>) -> Seq<char> {
    match s {
        Some(s) => name_member("sampler"@, s.spec_wire_name()),
        None => seq![],
    }
}

/// The JSON member of the extra pairs; none where there are none.
pub open spec fn extras_member(es: Option<Vec<(String, String)>>) -> Seq<char> {
    match es {
        Some(es) => if es@.len() == 0 {
            seq![]
        } else {
            ","@ + json_key("extras"@) + "{"@ + extras_json(es@) + "}"@
        },
        None => seq![],
    }
}

fn append_number(s: &mut String, name: &str, v: u32)
    ensures
        final(s)@ == old(s)@ + json_key(name@) + decimal(v as nat),
{
    append_key(s, name);
    s.append(decimal_string(v as u64).as_str());
    assert(s@ =~= old(s)@ + json_key(name@) + decimal(v as nat));
}

/// A JSON member whose value is a string that needs no escaping.
pub open spec fn name_member(name: Seq<char>, value: Seq<char>) -> Seq<char> {
    ","@ + json_key(name) + "\""@ + value + "\""@
}

fn append_name_member(s: &mut String, name: &str, value: &str)
    ensures
        final(s)@ == old(s)@ + name_member(name@, value@),
{
    s.append(",");
    append_key(s, name);
    s.append("\"");
    s.append(value);
    s.append("\"");
    assert(s@ =~= old(s)@ + name_member(name@, value@));
}

fn append_clip(s: &mut String, c: Option<ClipGuidancePreset>)
    ensures
        final(s)@ == old(s)@ + clip_json(c),
{
    match c {
        Some(c) => append_name_member(s, "clip_guidance_preset", c.wire_name()),
        None => {},
    }
    assert(s@ =~= old(s)@ + clip_json(c));
}

fn append_sampler(s: &mut String, v: Option<Sampler>)
    ensures
        final(s)@ == old(s)@ + sampler_json(v),
{
    match v {
        Some(v) => append_name_member(s, "sampler", v.wire_name()),
        None => {},
    }
    assert(s@ =~= old(s)@ + sampler_json(v));
}

/// The response of the text-to-image endpoint.
#[derive(Debug)]
pub struct TextToImageResponse {
    pub artifacts: Vec<Image>,
}

/// A validated text-to-image request.
#[derive(Debug)]
pub struct TextToImage {
    height: u32,
    width: u32,
    text_prompts: Vec<TextPrompt>,
    cfg_scale: u32,
    clip_guidance_preset: Option<ClipGuidancePreset>,
    sampler: Option<Sampler>,
    samples: u32,
    seed: u32,
    steps: u32,
    style_preset: StylePreset,
    extras: Option<Vec<(String, String)>>,
}

impl TextToImage {
    /// The sampler, where one is set.
    pub closed spec fn spec_sampler(self) -> Option<Sampler> {
        self.sampler
    }

    /// The CLIP guidance preset, where one is set.
    pub closed spec fn spec_clip_guidance_preset(self) -> Option<ClipGuidancePreset> {
        self.clip_guidance_preset
    }

    /// Whether every setting lies within what the API accepts.
    pub closed spec fn wf(self) -> bool {
        &&& height_error(self.height) is None
        &&& width_error(self.width) is None
        &&& cfg_scale_error(self.cfg_scale) is None
        &&& samples_error(self.samples) is None
        &&& steps_error(self.steps) is None
        &&& first_prompt_ok(self.text_prompts@)
    }

    /// The JSON members before the prompts.
    #[verifier::opaque]
    pub closed spec fn json_head(self) -> Seq<char> {
        "{"@ + json_key("height"@) + decimal(self.height as nat) + ","@ + json_key("width"@)
            + decimal(self.width as nat) + ","@ + json_key("text_prompts"@) + "["@
    }

    /// The JSON members of the settings after the prompts.
    #[verifier::opaque]
    pub closed spec fn json_settings(self) -> Seq<char> {
        ","@ + json_key("samples"@) + decimal(self.samples as nat) + ","@ + json_key("seed"@)
            + decimal(self.seed as nat) + ","@ + json_key("steps"@) + decimal(self.steps as nat)
            + name_member("style_preset"@, self.style_preset.spec_wire_name())
    }

    /// The JSON members between the prompts and the extra pairs.
    #[verifier::opaque]
    pub closed spec fn json_middle(self) -> Seq<char> {
        "]"@ + ","@ + json_key("cfg_scale"@) + decimal(self.cfg_scale as nat) + clip_json(
            self.clip_guidance_preset,
        ) + sampler_json(self.sampler) + self.json_settings()
    }

    /// The JSON body of the request. Unset CLIP guidance and sampler are
    /// left out, and so are the extra pairs where there are none.
    pub closed spec fn spec_json(self) -> Seq<char> {
        self.json_head() + prompts_json(self.text_prompts@) + self.json_middle() + extras_member(
            self.extras,
        ) + "}"@
    }

    fn append_json_head(&self, s: &mut String)
        ensures
            final(s)@ == old(s)@ + self.json_head(),
    {
        s.append("{");
        append_number(s, "height", self.height);
        s.append(",");
        append_number(s, "width", self.width);
        s.append(",");
        append_key(s, "text_prompts");
        s.append("[");
        assert(s@ =~= old(s)@ + self.json_head()) by {
            reveal(TextToImage::json_head);
        }
    }

    fn append_json_settings(&self, s: &mut String)
        ensures
            final(s)@ == old(s)@ + self.json_settings(),
    {
        s.append(",");
        append_number(s, "samples", self.samples);
        s.append(",");
        append_number(s, "seed", self.seed);
        s.append(",");
        append_number(s, "steps", self.steps);
        append_name_member(s, "style_preset", self.style_preset.wire_name());
        assert(s@ =~= old(s)@ + self.json_settings()) by {
            reveal(TextToImage::json_settings);
        }
    }

    fn append_json_middle(&self, s: &mut String)
        ensures
            final(s)@ == old(s)@ + self.json_middle(),
    {
        s.append("]");
        s.append(",");
        append_number(s, "cfg_scale", self.cfg_scale);
        let ghost a = s@;
        append_clip(s, self.clip_guidance_preset);
        append_sampler(s, self.sampler);
        assert(s@ =~= a + clip_json(self.clip_guidance_preset) + sampler_json(self.sampler));
        self.append_json_settings(s);
        assert(s@ =~= old(s)@ + self.json_middle()) by {
            reveal(TextToImage::json_middle);
        }
    }

    fn append_extras_member(&self, s: &mut String)
        ensures
            final(s)@ == old(s)@ + extras_member(self.extras),
    {
        match &self.extras {
            Some(es) => {
                if es.len() > 0 {
                    s.append(",");
                    append_key(s, "extras");
                    s.append("{");
                    append_extras_json(s, es);
                    s.append("}");
                }
            },
            None => {},
        }
        assert(s@ =~= old(s)@ + extras_member(self.extras));
    }

    /// Encodes the request as JSON.
    pub fn to_json(&self) -> (r: String)
        ensures
            r@ == self.spec_json(),
    {
        let mut s = String::new();
        self.append_json_head(&mut s);
        append_prompts_json(&mut s, &self.text_prompts);
        self.append_json_middle(&mut s);
        self.append_extras_member(&mut s);
        s.append("}");
        assert(s@ =~= self.spec_json());
        s
    }

    /// The path of the endpoint for `engine`, whose name is lower-cased.
    pub fn path(engine: &str) -> (r: String)
        ensures
            r@ == engine_route(engine@, TEXT_TO_IMAGE_PATH@),
    {
        engine_path(engine, TEXT_TO_IMAGE_PATH)
    }
}

/// Collects the settings of a text-to-image request; `build` validates them
/// and applies the defaults.
#[derive(Debug)]
pub struct TextToImageBuilder {
    pub height: Option<u32>,
    pub width: Option<u32>,
    pub text_prompts: Vec<TextPrompt>,
    pub cfg_scale: Option<u32>,
    pub clip_guidance_preset: Option<ClipGuidancePreset>,
    pub sampler: Option<Sampler>,
    pub samples: Option<u32>,
    pub seed: Option<u32>,
    pub steps: Option<u32>,
    pub style_preset: Option<StylePreset>,
    pub extras: Option<Vec<(String, String)>>,
}

impl TextToImageBuilder {
    /// Whether every setting that is set lies within what the API accepts.
    pub open spec fn wf(self) -> bool {
        &&& (self.height matches Some(v) ==> height_error(v) is None)
        &&& (self.width matches Some(v) ==> width_error(v) is None)
        &&& (self.cfg_scale matches Some(v) ==> cfg_scale_error(v) is None)
        &&& (self.samples matches Some(v) ==> samples_error(v) is None)
        &&& (self.steps matches Some(v) ==> steps_error(v) is None)
    }

    /// The first setting that is set to a value the API does not accept,
    /// checked as its setter checks it.
    pub open spec fn setting_error(self) -> Option<ImageBuilderError> {
        first_error(
            error_if_set(self.height, height_error(self.height->Some_0)),
            first_error(
            error_if_set(self.width, width_error(self.width->Some_0)),
            first_error(
            error_if_set(self.cfg_scale, cfg_scale_error(self.cfg_scale->Some_0)),
            first_error(
            error_if_set(self.samples, samples_error(self.samples->Some_0)),
            error_if_set(self.steps, steps_error(self.steps->Some_0)),
        ),
        ),
        ),
        )
    }

    fn check_settings(&self) -> (r: Option<ImageBuilderError>)
        ensures
            r == self.setting_error(),
    {
        if let Some(v) = self.height {
            if let Some(e) = check_height(v) {
                return Some(e);
            }
        }
        if let Some(v) = self.width {
            if let Some(e) = check_width(v) {
                return Some(e);
            }
        }
        if let Some(v) = self.cfg_scale {
            if let Some(e) = check_cfg_scale(v) {
                return Some(e);
            }
        }
        if let Some(v) = self.samples {
            if let Some(e) = check_samples(v) {
                return Some(e);
            }
        }
        if let Some(v) = self.steps {
            if let Some(e) = check_steps(v) {
                return Some(e);
            }
        }
        None
    }

    /// The request that `build` makes: it needs a style preset, then a first
    /// prompt that is not empty; unset settings take their defaults. A setting
    /// that was set by hand to a value its setter rejects fails as there.
    pub closed spec fn spec_build(self) -> Result<TextToImage, ImageBuilderError> {
        if self.style_preset is None {
            Err(ImageBuilderError::StylePresetNotSet)
        } else if !first_prompt_ok(self.text_prompts@) {
            Err(ImageBuilderError::TextPromptEmpty)
        } else if self.setting_error() is Some {
            Err(self.setting_error()->Some_0)
        } else {
            Ok(
                TextToImage {
                    height: or_default(self.height, 1024),
                    width: or_default(self.width, 1024),
                    text_prompts: self.text_prompts,
                    cfg_scale: or_default(self.cfg_scale, 7),
                    clip_guidance_preset: self.clip_guidance_preset,
                    sampler: self.sampler,
                    samples: or_default(self.samples, 1),
                    seed: or_default(self.seed, 0),
                    steps: or_default(self.steps, 50),
                    style_preset: self.style_preset->Some_0,
                    extras: self.extras,
                },
            )
        }
    }

    /// A builder with nothing set.
    pub fn new() -> (r: Self)
        ensures
            r.height is None && r.width is None && r.cfg_scale is None,
            r.clip_guidance_preset is None && r.sampler is None,
            r.samples is None && r.seed is None && r.steps is None,
            r.style_preset is None && r.extras is None,
            r.text_prompts@ == Seq::<TextPrompt>::empty(),
            r.wf(),
    {
        TextToImageBuilder {
            height: None,
            width: None,
            text_prompts: Vec::new(),
            cfg_scale: None,
            clip_guidance_preset: None,
            sampler: None,
            samples: None,
            seed: None,
            steps: None,
            style_preset: None,
            extras: None,
        }
    }

    /// Sets the height, which must be a multiple of 64 and not less than 128.
    pub fn height(self, height: u32) -> (r: Result<Self, ImageBuilderError>)
        ensures
            r == (match height_error(height) {
                Some(e) => Err(e),
                None => Ok(TextToImageBuilder { height: Some(height), ..self }),
            }),
            self.wf() && r is Ok ==> r->Ok_0.wf(),
    {
        if let Some(e) = check_height(height) {
            return Err(e);
        }
        let mut b = self;
        b.height = Some(height);
        Ok(b)
    }

    /// Sets the width, which must be a multiple of 64 and not less than 128.
    pub fn width(self, width: u32) -> (r: Result<Self, ImageBuilderError>)
        ensures
            r == (match width_error(width) {
                Some(e) => Err(e),
                None => Ok(TextToImageBuilder { width: Some(width), ..self }),
            }),
            self.wf() && r is Ok ==> r->Ok_0.wf(),
    {
        if let Some(e) = check_width(width) {
            return Err(e);
        }
        let mut b = self;
        b.width = Some(width);
        Ok(b)
    }

    /// Adds a prompt with its weight after those already given.
    pub fn text_prompt(self, text_prompt: &str, weight: Thousandths) -> (r: Result<
        Self,
        ImageBuilderError,
    >)
        ensures
            r matches Ok(b) && b == (TextToImageBuilder { text_prompts: b.text_prompts, ..self })
                && b.text_prompts@.drop_last() == self.text_prompts@ && b.text_prompts@.len()
                == self.text_prompts@.len() + 1 && b.text_prompts@.last().text@ == text_prompt@
                && b.text_prompts@.last().weight == weight,
            self.wf() ==> r->Ok_0.wf(),
    {
        let mut b = self;
        b.text_prompts.push(TextPrompt { text: String::from_str(text_prompt), weight });
        assert(b.text_prompts@.drop_last() =~= self.text_prompts@);
        Ok(b)
    }

    /// Sets how strictly the diffusion adheres to the prompts; at most 35.
    pub fn cfg_scale(self, cfg_scale: u32) -> (r: Result<Self, ImageBuilderError>)
        ensures
            r == (match cfg_scale_error(cfg_scale) {
                Some(e) => Err(e),
                None => Ok(TextToImageBuilder { cfg_scale: Some(cfg_scale), ..self }),
            }),
            self.wf() && r is Ok ==> r->Ok_0.wf(),
    {
        if let Some(e) = check_cfg_scale(cfg_scale) {
            return Err(e);
        }
        let mut b = self;
        b.cfg_scale = Some(cfg_scale);
        Ok(b)
    }

    /// Sets the CLIP guidance preset.
    pub fn clip_guidance_preset(self, clip_guidance_preset: ClipGuidancePreset) -> (r: Result<
        Self,
        ImageBuilderError,
    >)
        ensures
            r == Ok::<Self, ImageBuilderError>(
                TextToImageBuilder { clip_guidance_preset: Some(clip_guidance_preset), ..self },
            ),
    {
        let mut b = self;
        b.clip_guidance_preset = Some(clip_guidance_preset);
        Ok(b)
    }

    /// Sets the sampler.
    pub fn sampler(self, sampler: Sampler) -> (r: Result<Self, ImageBuilderError>)
        ensures
            r == Ok::<Self, ImageBuilderError>(
                TextToImageBuilder { sampler: Some(sampler), ..self },
            ),
    {
        let mut b = self;
        b.sampler = Some(sampler);
        Ok(b)
    }

    /// Sets the number of images to generate; at most 10.
    pub fn samples(self, samples: u32) -> (r: Result<Self, ImageBuilderError>)
        ensures
            r == (match samples_error(samples) {
                Some(e) => Err(e),
                None => Ok(TextToImageBuilder { samples: Some(samples), ..self }),
            }),
            self.wf() && r is Ok ==> r->Ok_0.wf(),
    {
        if let Some(e) = check_samples(samples) {
            return Err(e);
        }
        let mut b = self;
        b.samples = Some(samples);
        Ok(b)
    }

    /// Sets the random seed.
    pub fn seed(self, seed: u32) -> (r: Result<Self, ImageBuilderError>)
        ensures
            r == Ok::<Self, ImageBuilderError>(TextToImageBuilder { seed: Some(seed), ..self }),
    {
        let mut b = self;
        b.seed = Some(seed);
        Ok(b)
    }

    /// Sets the number of diffusion steps; from 10 to 150.
    pub fn steps(self, steps: u32) -> (r: Result<Self, ImageBuilderError>)
        ensures
            r == (match steps_error(steps) {
                Some(e) => Err(e),
                None => Ok(TextToImageBuilder { steps: Some(steps), ..self }),
            }),
            self.wf() && r is Ok ==> r->Ok_0.wf(),
    {
        if let Some(e) = check_steps(steps) {
            return Err(e);
        }
        let mut b = self;
        b.steps = Some(steps);
        Ok(b)
    }

    /// Sets the style preset.
    pub fn style_preset(self, style_preset: StylePreset) -> (r: Result<Self, ImageBuilderError>)
        ensures
            r == Ok::<Self, ImageBuilderError>(
                TextToImageBuilder { style_preset: Some(style_preset), ..self },
            ),
    {
        let mut b = self;
        b.style_preset = Some(style_preset);
        Ok(b)
    }

    /// Sets extra key-value pairs, sent in their order.
    pub fn extras(self, extras: Vec<(String, String)>) -> (r: Result<Self, ImageBuilderError>)
        ensures
            r == Ok::<Self, ImageBuilderError>(TextToImageBuilder { extras: Some(extras), ..self }),
    {
        let mut b = self;
        b.extras = Some(extras);
        Ok(b)
    }

    /// Validates the settings and makes the request, as `spec_build` says.
    pub fn build(self) -> (r: Result<TextToImage, ImageBuilderError>)
        ensures
            r == self.spec_build(),
            r is Ok ==> r->Ok_0.wf(),
    {
        let setting_error = self.check_settings();
        if self.style_preset.is_none() {
            return Err(ImageBuilderError::StylePresetNotSet);
        }
        if !check_first_prompt(&self.text_prompts) {
            return Err(ImageBuilderError::TextPromptEmpty);
        }
        let style_preset = match self.style_preset {
            Some(s) => s,
            None => StylePreset::DigitalArt,
        };
        if let Some(e) = setting_error {
            return Err(e);
        }
        Ok(
            TextToImage {
                height: unwrap_or_u32(self.height, 1024),
                width: unwrap_or_u32(self.width, 1024),
                text_prompts: self.text_prompts,
                cfg_scale: unwrap_or_u32(self.cfg_scale, 7),
                clip_guidance_preset: self.clip_guidance_preset,
                sampler: self.sampler,
                samples: unwrap_or_u32(self.samples, 1),
                seed: unwrap_or_u32(self.seed, 0),
                steps: unwrap_or_u32(self.steps, 50),
                style_preset,
                extras: self.extras,
            },
        )
    }
}

/// Whether the JSON text `j` holds the member `name` with the number `v`,
/// followed by a comma, so that the number is read back whole.
pub open spec fn has_number_member(j: Seq<char>, name: Seq<char>, v: nat) -> bool {
    exists|pre: Seq<char>, post: Seq<char>| j == pre + json_key(name) + decimal(v) + ","@ + post
}

/// Whether the JSON text `j` holds `member` somewhere.
pub open spec fn has_member(j: Seq<char>, member: Seq<char>) -> bool {
    exists|pre: Seq<char>, post: Seq<char>| j == pre + member + post
}

/// Building without a style preset fails with "a style preset must be set";
/// with one, a first prompt with an empty text fails with "a text prompt
/// must not be empty".
pub proof fn lemma_build_needs_style_and_prompt(b: TextToImageBuilder)
    ensures
        b.style_preset is None ==> b.spec_build() == Err::<TextToImage, ImageBuilderError>(
            ImageBuilderError::StylePresetNotSet,
        ) && builder_error_text(ImageBuilderError::StylePresetNotSet)
            == "a style preset must be set"@,
        b.style_preset is Some && b.text_prompts@.len() > 0 && b.text_prompts@[0].text@.len() == 0
            ==> b.spec_build() == Err::<TextToImage, ImageBuilderError>(
            ImageBuilderError::TextPromptEmpty,
        ) && builder_error_text(ImageBuilderError::TextPromptEmpty)
            == "a text prompt must not be empty"@,
{
}

proof fn lemma_number_member(j: Seq<char>, pre: Seq<char>, name: Seq<char>, v: nat, post: Seq<char>)
    requires
        j == pre + json_key(name) + decimal(v) + ","@ + post,
    ensures
        has_number_member(j, name, v),
{
}

proof fn lemma_head_shape(
    a: Seq<char>,
    kh: Seq<char>,
    dh: Seq<char>,
    c: Seq<char>,
    kw: Seq<char>,
    dw: Seq<char>,
    tail: Seq<char>,
    rest: Seq<char>,
)
    ensures
        (a + kh + dh + c + kw + dw + c + tail) + rest == a + kh + dh + c + (kw + dw + c + (tail
            + rest)),
        (a + kh + dh + c + kw + dw + c + tail) + rest == (a + kh + dh + c) + kw + dw + c + (tail
            + rest),
{
    assert((a + kh + dh + c + kw + dw + c + tail) + rest =~= a + kh + dh + c + (kw + dw + c + (
    tail + rest)));
    assert((a + kh + dh + c + kw + dw + c + tail) + rest =~= (a + kh + dh + c) + kw + dw + c + (
    tail + rest));
}

proof fn lemma_head_members(t: TextToImage)
    ensures
        has_number_member(t.spec_json(), "height"@, t.height as nat),
        has_number_member(t.spec_json(), "width"@, t.width as nat),
{
    let j = t.spec_json();
    let kh = json_key("height"@);
    let dh = decimal(t.height as nat);
    let kw = json_key("width"@);
    let dw = decimal(t.width as nat);
    let tail = json_key("text_prompts"@) + "["@;
    let rest = prompts_json(t.text_prompts@) + t.json_middle() + extras_member(t.extras) + "}"@;
    assert(t.json_head() == "{"@ + kh + dh + ","@ + kw + dw + ","@ + tail) by {
        reveal(TextToImage::json_head);
        assert(t.json_head() =~= "{"@ + kh + dh + ","@ + kw + dw + ","@ + tail);
    }
    assert(j == t.json_head() + rest) by {
        let p = prompts_json(t.text_prompts@);
        let m = t.json_middle();
        let e = extras_member(t.extras);
        assert(t.json_head() + p + m + e + "}"@ =~= t.json_head() + (p + m + e + "}"@));
    }
    lemma_head_shape("{"@, kh, dh, ","@, kw, dw, tail, rest);
    lemma_number_member(j, "{"@, "height"@, t.height as nat, kw + dw + ","@ + (tail + rest));
    lemma_number_member(j, "{"@ + kh + dh + ","@, "width"@, t.width as nat, tail + rest);
}

proof fn lemma_settings_members(t: TextToImage)
    ensures
        has_number_member(t.json_settings(), "samples"@, t.samples as nat),
        has_number_member(t.json_settings(), "seed"@, t.seed as nat),
        has_number_member(t.json_settings(), "steps"@, t.steps as nat),
        has_member(
            t.json_settings(),
            name_member("style_preset"@, t.style_preset.spec_wire_name()),
        ),
{
    reveal(TextToImage::json_settings);
    let j = t.json_settings();
    let st = name_member("style_preset"@, t.style_preset.spec_wire_name());
    let after_steps = json_key("style_preset"@) + "\""@ + t.style_preset.spec_wire_name() + "\""@;
    let after_seed = json_key("steps"@) + decimal(t.steps as nat) + ","@ + after_steps;
    let after_samples = json_key("seed"@) + decimal(t.seed as nat) + ","@ + after_seed;
    assert(j =~= ","@ + json_key("samples"@) + decimal(t.samples as nat) + ","@ + after_samples);
    lemma_number_member(j, ","@, "samples"@, t.samples as nat, after_samples);
    let pre_seed = ","@ + json_key("samples"@) + decimal(t.samples as nat) + ","@;
    assert(j =~= pre_seed + json_key("seed"@) + decimal(t.seed as nat) + ","@ + after_seed);
    lemma_number_member(j, pre_seed, "seed"@, t.seed as nat, after_seed);
    let pre_steps = pre_seed + json_key("seed"@) + decimal(t.seed as nat) + ","@;
    assert(j =~= pre_steps + json_key("steps"@) + decimal(t.steps as nat) + ","@ + after_steps);
    lemma_number_member(j, pre_steps, "steps"@, t.steps as nat, after_steps);
    let pre_st = pre_steps + json_key("steps"@) + decimal(t.steps as nat);
    assert(j =~= pre_st + st + Seq::<char>::empty());
}

proof fn lemma_lift_number_member(inner: Seq<char>, pre: Seq<char>, post: Seq<char>, name: Seq<char>, v: nat)
    requires
        has_number_member(inner, name, v),
    ensures
        has_number_member(pre + inner + post, name, v),
{
    let (a, b) = choose|a: Seq<char>, b: Seq<char>|
        inner == a + json_key(name) + decimal(v) + ","@ + b;
    assert(pre + inner + post =~= (pre + a) + json_key(name) + decimal(v) + ","@ + (b + post));
    lemma_number_member(pre + inner + post, pre + a, name, v, b + post);
}

proof fn lemma_lift_member(inner: Seq<char>, pre: Seq<char>, post: Seq<char>, m: Seq<char>)
    requires
        has_member(inner, m),
    ensures
        has_member(pre + inner + post, m),
{
    let (a, b) = choose|a: Seq<char>, b: Seq<char>| inner == a + m + b;
    assert(pre + inner + post =~= (pre + a) + m + (b + post));
}

proof fn lemma_settings_start_with_comma(t: TextToImage)
    ensures
        exists|rest: Seq<char>| t.json_settings() == ","@ + rest,
{
    let rest = json_key("samples"@) + decimal(t.samples as nat) + ","@ + json_key("seed"@)
        + decimal(t.seed as nat) + ","@ + json_key("steps"@) + decimal(t.steps as nat)
        + name_member("style_preset"@, t.style_preset.spec_wire_name());
    assert(t.json_settings() =~= ","@ + rest) by {
        reveal(TextToImage::json_settings);
    }
}

proof fn lemma_cfg_member(t: TextToImage)
    ensures
        has_number_member(t.json_middle(), "cfg_scale"@, t.cfg_scale as nat),
{
    reveal(TextToImage::json_middle);
    let j = t.json_middle();
    let pre = "]"@ + ","@;
    let v = decimal(t.cfg_scale as nat);
    let k = json_key("cfg_scale"@);
    match t.clip_guidance_preset {
        Some(c) => {
            let rest = json_key("clip_guidance_preset"@) + "\""@ + c.spec_wire_name() + "\""@
                + sampler_json(t.sampler) + t.json_settings();
            assert(j =~= pre + k + v + ","@ + rest);
            lemma_number_member(j, pre, "cfg_scale"@, t.cfg_scale as nat, rest);
        },
        None => match t.sampler {
            Some(x) => {
                let rest = json_key("sampler"@) + "\""@ + x.spec_wire_name() + "\""@
                    + t.json_settings();
                assert(j =~= pre + k + v + ","@ + rest);
                lemma_number_member(j, pre, "cfg_scale"@, t.cfg_scale as nat, rest);
            },
            None => {
                lemma_settings_start_with_comma(t);
                let rest = choose|rest: Seq<char>| t.json_settings() == ","@ + rest;
                assert(j =~= pre + k + v + ","@ + rest);
                lemma_number_member(j, pre, "cfg_scale"@, t.cfg_scale as nat, rest);
            },
        },
    }
}

proof fn lemma_json_members(t: TextToImage)
    ensures
        has_number_member(t.spec_json(), "height"@, t.height as nat),
        has_number_member(t.spec_json(), "width"@, t.width as nat),
        has_number_member(t.spec_json(), "cfg_scale"@, t.cfg_scale as nat),
        has_number_member(t.spec_json(), "samples"@, t.samples as nat),
        has_number_member(t.spec_json(), "seed"@, t.seed as nat),
        has_number_member(t.spec_json(), "steps"@, t.steps as nat),
        has_member(
            t.spec_json(),
            name_member("style_preset"@, t.style_preset.spec_wire_name()),
        ),
{
    lemma_head_members(t);
    let j = t.spec_json();
    let ex = extras_member(t.extras) + "}"@;
    let before_mid = t.json_head() + prompts_json(t.text_prompts@);
    assert(j =~= before_mid + t.json_middle() + ex);
    lemma_cfg_member(t);
    lemma_lift_number_member(t.json_middle(), before_mid, ex, "cfg_scale"@, t.cfg_scale as nat);
    let before_settings = before_mid + "]"@ + ","@ + json_key("cfg_scale"@) + decimal(
        t.cfg_scale as nat,
    ) + clip_json(t.clip_guidance_preset) + sampler_json(t.sampler);
    assert(t.json_middle() == "]"@ + ","@ + json_key("cfg_scale"@) + decimal(t.cfg_scale as nat)
        + clip_json(t.clip_guidance_preset) + sampler_json(t.sampler) + t.json_settings()) by {
        reveal(TextToImage::json_middle);
    }
    assert(j =~= before_settings + t.json_settings() + ex);
    lemma_settings_members(t);
    lemma_lift_number_member(t.json_settings(), before_settings, ex, "samples"@, t.samples as nat);
    lemma_lift_number_member(t.json_settings(), before_settings, ex, "seed"@, t.seed as nat);
    lemma_lift_number_member(t.json_settings(), before_settings, ex, "steps"@, t.steps as nat);
    lemma_lift_member(
        t.json_settings(),
        before_settings,
        ex,
        name_member("style_preset"@, t.style_preset.spec_wire_name()),
    );
}

/// The JSON body of a request that a builder made shows each numeric
/// setting under its name: the value that was set or, where none was, the
/// default that `build` applied (height and width 1024, cfg_scale 7,
/// samples 1, seed 0, steps 50). The style preset stands under its name, and
/// an unset sampler or CLIP guidance preset adds nothing to the body.
pub proof fn lemma_json_shows_settings(b: TextToImageBuilder)
    requires
        b.spec_build() is Ok,
    ensures
        ({
            let t = b.spec_build()->Ok_0;
            let j = t.spec_json();
            &&& has_number_member(j, "height"@, or_default(b.height, 1024) as nat)
            &&& has_number_member(j, "width"@, or_default(b.width, 1024) as nat)
            &&& has_number_member(j, "cfg_scale"@, or_default(b.cfg_scale, 7) as nat)
            &&& has_number_member(j, "samples"@, or_default(b.samples, 1) as nat)
            &&& has_number_member(j, "seed"@, or_default(b.seed, 0) as nat)
            &&& has_number_member(j, "steps"@, or_default(b.steps, 50) as nat)
            &&& has_member(
                j,
                name_member("style_preset"@, b.style_preset->Some_0.spec_wire_name()),
            )
            &&& (b.sampler is None ==> sampler_json(t.spec_sampler()) == Seq::<char>::empty())
            &&& (b.clip_guidance_preset is None ==> clip_json(
                t.spec_clip_guidance_preset(),
            ) == Seq::<char>::empty())
        }),
{
    lemma_json_members(b.spec_build()->Ok_0);
}

} // verus!
