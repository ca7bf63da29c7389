use stability_rs::client::{ClientBuilder, request_client, APPLICATION_JSON, IMAGE_PNG, POST};
use stability_rs::error::{ApiResponseError, Error, ImageBuilderError};
use stability_rs::generation::{engine_path, Image, MultipartFormData};
use stability_rs::img_to_img::{ImageMode, ImageToImage, ImageToImageBuilder};
use stability_rs::masking::{MaskSource, MaskerBuilder};
use stability_rs::text::{decimal_string, thousandths_string};
use stability_rs::text_to_img::{TextToImage, TextToImageBuilder};
use stability_rs::upscale::{UpscaleEngine, Upscaler, UpscalerBuilder};
use stability_rs::{ClipGuidancePreset, Sampler, StylePreset, Thousandths};

fn castle() -> TextToImage {
    TextToImageBuilder::new()
        .height(1024)
        .unwrap()
        .width(1024)
        .unwrap()
        .text_prompt("a castle", Thousandths(1000))
        .unwrap()
        .style_preset(StylePreset::DigitalArt)
        .unwrap()
        .build()
        .unwrap()
}

#[test]
fn castle_json_omits_unset_sampler_and_clip_guidance() {
    let json = castle().to_json();
    assert_eq!(
        json,
        "{\"height\":1024,\"width\":1024,\"text_prompts\":[{\"text\":\"a castle\",\"weight\":1}],\
         \"cfg_scale\":7,\"samples\":1,\"seed\":0,\"steps\":50,\"style_preset\":\"digital-art\"}"
    );
    assert!(!json.contains("sampler"));
    assert!(!json.contains("clip_guidance_preset"));
}

#[test]
fn json_shows_defaults_and_settings() {
    let request = TextToImageBuilder::new()
        .cfg_scale(27)
        .unwrap()
        .clip_guidance_preset(ClipGuidancePreset::FastBlue)
        .unwrap()
        .sampler(Sampler::KDpmpp2sAncestral)
        .unwrap()
        .samples(2)
        .unwrap()
        .seed(9)
        .unwrap()
        .steps(33)
        .unwrap()
        .style_preset(StylePreset::ThreeDModel)
        .unwrap()
        .text_prompt("say \"hi\"", Thousandths(-900))
        .unwrap()
        .text_prompt("stones", Thousandths(350))
        .unwrap()
        .extras(vec![("k".to_string(), "v".to_string())])
        .unwrap()
        .build()
        .unwrap();
    let json = request.to_json();
    assert_eq!(
        json,
        "{\"height\":1024,\"width\":1024,\"text_prompts\":[{\"text\":\"say \\\"hi\\\"\",\"weight\":-0.9},\
         {\"text\":\"stones\",\"weight\":0.35}],\"cfg_scale\":27,\"clip_guidance_preset\":\"FAST_BLUE\",\
         \"sampler\":\"K_DPMPP_2S_ANCESTRAL\",\"samples\":2,\"seed\":9,\"steps\":33,\
         \"style_preset\":\"3d-model\",\"extras\":{\"k\":\"v\"}}"
    );
}

#[test]
fn setters_accept_bounds() {
    assert!(TextToImageBuilder::new().height(128).is_ok());
    assert!(TextToImageBuilder::new().width(1536).is_ok());
    assert!(TextToImageBuilder::new().cfg_scale(35).is_ok());
    assert!(TextToImageBuilder::new().samples(10).is_ok());
    assert!(TextToImageBuilder::new().steps(150).is_ok());
    assert!(TextToImageBuilder::new().steps(10).is_ok());
    assert_eq!(
        TextToImageBuilder::new().height(100).unwrap_err(),
        ImageBuilderError::HeightNotMultipleOf64(100)
    );
    assert_eq!(
        TextToImageBuilder::new().height(0).unwrap_err(),
        ImageBuilderError::HeightLessThan128(0)
    );
}

#[test]
fn steps_below_10_are_rejected() {
    let e = TextToImageBuilder::new().steps(9).unwrap_err();
    assert_eq!(e.message(), "steps must be no less than 10, but was 9");
    let e = ImageToImageBuilder::new().steps(5).unwrap_err();
    assert_eq!(e, ImageBuilderError::StepsLessThan10(5));
    let e = MaskerBuilder::new().steps(151).unwrap_err();
    assert_eq!(e, ImageBuilderError::StepsGreaterThan150(151));
    let e = UpscalerBuilder::new().steps(0).unwrap_err();
    assert_eq!(e, ImageBuilderError::StepsLessThan10(0));
}

#[test]
fn range_checks_hold_in_every_builder() {
    assert_eq!(
        ImageToImageBuilder::new().cfg_scale(36).unwrap_err(),
        ImageBuilderError::CfgScaleGreaterThan35(36)
    );
    assert_eq!(
        MaskerBuilder::new().samples(11).unwrap_err(),
        ImageBuilderError::SamplesGreaterThan10(11)
    );
    assert_eq!(
        UpscalerBuilder::new().cfg_scale(100).unwrap_err(),
        ImageBuilderError::CfgScaleGreaterThan35(100)
    );
}

#[test]
fn every_builder_error_has_its_message() {
    let cases = vec![
        (ImageBuilderError::HeightNotMultipleOf64(1), "height must be a multiple of 64, but was 1"),
        (ImageBuilderError::HeightLessThan128(64), "height must not be less than 128, but was 64"),
        (ImageBuilderError::WidthNotMultipleOf64(65), "width must be a multiple of 64, but was 65"),
        (ImageBuilderError::WidthLessThan128(0), "width must not be less than 128, but was 0"),
        (ImageBuilderError::CfgScaleGreaterThan35(4294967295), "cfg_scale must be no greater than 35, but was 4294967295"),
        (ImageBuilderError::SamplesGreaterThan10(11), "samples must be no greater than 10, but was 11"),
        (ImageBuilderError::StepsGreaterThan150(151), "steps must be no greater than 150, but was 151"),
        (ImageBuilderError::StepsLessThan10(9), "steps must be no less than 10, but was 9"),
        (ImageBuilderError::StylePresetNotSet, "a style preset must be set"),
        (ImageBuilderError::TextPromptEmpty, "a text prompt must not be empty"),
        (ImageBuilderError::InitImageReadError("gone".to_string()), "failed to read init image: gone"),
        (ImageBuilderError::InitImagePathNotSet, "init image path must be set"),
        (ImageBuilderError::UpscaleHeightLessThan512(511), "upscale height must be greater or equal to 512, but was 511"),
        (ImageBuilderError::UpscaleWidthLessThan512(1), "upscale width must be greater or equal to 512, but was 1"),
        (ImageBuilderError::UpscaleImagePathNotSet, "upscale image path must be set"),
        (ImageBuilderError::UpscaleWidthHeightConflict, "only one of width or height may be specified"),
        (ImageBuilderError::MaskSourceNotSet, "a mask source must be set"),
        (ImageBuilderError::MaskImagePathNotSet, "mask image path must be set when using a black or white mask source"),
    ];
    for (e, m) in cases {
        assert_eq!(e.message(), m);
    }
}

#[test]
fn api_error_is_described() {
    let e = ApiResponseError {
        id: "42".to_string(),
        name: "unauthorized".to_string(),
        message: "missing key".to_string(),
    };
    assert_eq!(e.describe(), "id: 42, name: unauthorized, message: missing key");
}

#[test]
fn numbers_render_in_decimal() {
    assert_eq!(decimal_string(0), "0");
    assert_eq!(decimal_string(1024), "1024");
    assert_eq!(decimal_string(u64::MAX), "18446744073709551615");
    assert_eq!(thousandths_string(1000), "1");
    assert_eq!(thousandths_string(-900), "-0.9");
    assert_eq!(thousandths_string(350), "0.35");
    assert_eq!(thousandths_string(1005), "1.005");
    assert_eq!(thousandths_string(0), "0");
    assert_eq!(thousandths_string(i32::MIN), "-2147483.648");
}

#[test]
fn text_parts_are_framed_by_one_boundary() {
    let mut form = MultipartFormData::with_boundary_number(7);
    assert_eq!(form.boundary, "-----------------------------7");
    form.add_text("a", "1");
    form.add_text("b", "2");
    form.add_text("c", "3");
    form.end_body();
    let body = String::from_utf8(form.body.clone()).unwrap();
    let delimiter = "-------------------------------7";
    assert!(body.starts_with(delimiter));
    assert!(body.ends_with("-------------------------------7--\r\n"));
    assert_eq!(body.matches(delimiter).count(), 4);
    assert_eq!(
        body,
        "-------------------------------7\r\nContent-Disposition: form-data; name=\"a\"\r\n\r\n1\r\n\
         -------------------------------7\r\nContent-Disposition: form-data; name=\"b\"\r\n\r\n2\r\n\
         -------------------------------7\r\nContent-Disposition: form-data; name=\"c\"\r\n\r\n3\r\n\
         -------------------------------7--\r\n"
    );
    assert_eq!(
        form.content_type(),
        "multipart/form-data; boundary=-----------------------------7"
    );
}

#[test]
fn empty_body_is_only_the_closing_marker() {
    let mut form = MultipartFormData::with_boundary_number(0);
    form.end_body();
    assert_eq!(form.body, b"-------------------------------0--\r\n".to_vec());
}

#[test]
fn random_boundaries_share_the_prefix() {
    let form = MultipartFormData::new();
    assert!(form.boundary.starts_with("-----------------------------"));
    assert!(form.boundary.len() > 29);
    assert!(form.body.is_empty());
}

#[test]
fn file_part_names_the_extension() {
    let mut form = MultipartFormData::with_boundary_number(1);
    form.add_file("init_image", "cat.png", &[1, 2, 3]).unwrap();
    let mut expected = b"-------------------------------1\r\nContent-Disposition: form-data; name=\"init_image\"; filename=\"cat.png\"\r\nContent-Type: image/png\r\n\r\n".to_vec();
    expected.extend_from_slice(&[1, 2, 3]);
    expected.extend_from_slice(b"\r\n");
    assert_eq!(form.body, expected);
}

#[test]
fn file_part_needs_an_extension() {
    let mut form = MultipartFormData::with_boundary_number(1);
    let e = form.add_file("init_image", "noextension", &[1]).unwrap_err();
    assert!(matches!(e, Error::InvalidFilePath(ref p) if p == "noextension"));
    assert!(form.body.is_empty());
}

fn crab() -> ImageToImage {
    ImageToImageBuilder::new()
        .init_image_path("init.png")
        .unwrap()
        .image_strength(Thousandths(350))
        .unwrap()
        .sampler(Sampler::KDpm2Ancestral)
        .unwrap()
        .style_preset(StylePreset::FantasyArt)
        .unwrap()
        .text_prompt("a crab", Thousandths(500))
        .unwrap()
        .build()
        .unwrap()
}

#[test]
fn image_to_image_parts_come_in_order() {
    let form = crab().to_multipart_form_data_with_boundary(5, &[9]).unwrap();
    let d = "-------------------------------5\r\n";
    let part = |name: &str, value: &str| {
        format!("{}Content-Disposition: form-data; name=\"{}\"\r\n\r\n{}\r\n", d, name, value)
    };
    let mut expected = String::new();
    expected.push_str(&part("text_prompts[0][text]", "a crab"));
    expected.push_str(&part("text_prompts[0][weight]", "0.5"));
    expected.push_str(&part("init_image_mode", "IMAGE_STRENGTH"));
    expected.push_str(&part("image_strength", "0.35"));
    expected.push_str(&part("cfg_scale", "7"));
    expected.push_str(&part("samples", "1"));
    expected.push_str(&part("steps", "50"));
    expected.push_str(&part("sampler", "K_DPM_2_ANCESTRAL"));
    expected.push_str(&part("style_preset", "fantasy-art"));
    expected.push_str(&part("seed", "0"));
    let mut bytes = expected.into_bytes();
    bytes.extend_from_slice(format!("{}Content-Disposition: form-data; name=\"init_image\"; filename=\"init.png\"\r\nContent-Type: image/png\r\n\r\n", d).as_bytes());
    bytes.push(9);
    bytes.extend_from_slice(b"\r\n-------------------------------5--\r\n");
    assert_eq!(form.body, bytes);
}

#[test]
fn step_schedule_sends_no_strength() {
    let request = ImageToImageBuilder::new()
        .init_image_path("a.jpg")
        .unwrap()
        .init_image_mode(ImageMode::StepSchedule)
        .unwrap()
        .style_preset(StylePreset::Anime)
        .unwrap()
        .text_prompt("x", Thousandths(1000))
        .unwrap()
        .build()
        .unwrap();
    let form = request.to_multipart_form_data(&[]).unwrap();
    let body = String::from_utf8(form.body).unwrap();
    assert!(body.contains("STEP_SCHEDULE"));
    assert!(!body.contains("image_strength"));
    assert!(body.contains("Content-Type: image/jpg"));
}

#[test]
fn image_to_image_needs_an_image_path_with_extension() {
    let request = ImageToImageBuilder::new()
        .init_image_path("image")
        .unwrap()
        .style_preset(StylePreset::Anime)
        .unwrap()
        .text_prompt("x", Thousandths(1000))
        .unwrap()
        .build()
        .unwrap();
    let e = request.to_multipart_form_data_with_boundary(1, &[]).unwrap_err();
    assert!(matches!(e, Error::InvalidFilePath(ref p) if p == "image"));
}

#[test]
fn masker_black_source_needs_mask_image() {
    let e = MaskerBuilder::new()
        .init_image_path("init.png")
        .unwrap()
        .style_preset(StylePreset::FantasyArt)
        .unwrap()
        .text_prompt("a crab dancing", Thousandths(1000))
        .unwrap()
        .mask_source(MaskSource::MaskImageBlack)
        .unwrap()
        .build()
        .unwrap_err();
    assert_eq!(e, ImageBuilderError::MaskImagePathNotSet);
    let e = MaskerBuilder::new()
        .mask_source(MaskSource::MaskImageWhite)
        .unwrap()
        .build()
        .unwrap_err();
    assert_eq!(e, ImageBuilderError::InitImagePathNotSet);
}

#[test]
fn masker_needs_a_source() {
    let e = MaskerBuilder::new()
        .init_image_path("init.png")
        .unwrap()
        .style_preset(StylePreset::FantasyArt)
        .unwrap()
        .text_prompt("a crab dancing", Thousandths(1000))
        .unwrap()
        .build()
        .unwrap_err();
    assert_eq!(e.message(), "a mask source must be set");
}

#[test]
fn masker_alpha_source_needs_no_mask_image() {
    let masker = MaskerBuilder::new()
        .init_image_path("init.png")
        .unwrap()
        .mask_source(MaskSource::InitImageAlpha)
        .unwrap()
        .style_preset(StylePreset::FantasyArt)
        .unwrap()
        .clip_guidance_preset(ClipGuidancePreset::FastBlue)
        .unwrap()
        .sampler(Sampler::KLms)
        .unwrap()
        .text_prompt("a crab dancing", Thousandths(1000))
        .unwrap()
        .build()
        .unwrap();
    assert!(!masker.needs_mask_image());
    let form = masker.to_multipart_form_data_with_boundary(3, &[1], &[2]).unwrap();
    let body = String::from_utf8_lossy(&form.body).to_string();
    assert!(body.starts_with(
        "-------------------------------3\r\nContent-Disposition: form-data; name=\"mask_source\"\r\n\r\nINIT_IMAGE_ALPHA\r\n"
    ));
    assert!(body.contains("name=\"clip_guidance_preset\"\r\n\r\nFAST_BLUE\r\n"));
    assert!(body.contains("name=\"sampler\"\r\n\r\nK_LMS\r\n"));
    assert!(!body.contains("mask_image"));
}

#[test]
fn masker_sends_mask_image() {
    let masker = MaskerBuilder::new()
        .init_image_path("init.png")
        .unwrap()
        .mask_source(MaskSource::MaskImageWhite)
        .unwrap()
        .mask_image("mask.webp")
        .unwrap()
        .style_preset(StylePreset::Origami)
        .unwrap()
        .text_prompt("paper", Thousandths(1000))
        .unwrap()
        .build()
        .unwrap();
    let form = masker.to_multipart_form_data(&[1], &[2]).unwrap();
    let body = String::from_utf8_lossy(&form.body).to_string();
    assert!(body.contains("name=\"mask_image\"; filename=\"mask.webp\"\r\nContent-Type: image/webp"));
    assert!(body.ends_with("--\r\n"));
}

#[test]
fn upscaler_rejects_both_dimensions() {
    let e = UpscalerBuilder::new()
        .image("a.png")
        .unwrap()
        .height(2048)
        .unwrap()
        .width(2048)
        .unwrap()
        .build()
        .unwrap_err();
    assert_eq!(e, ImageBuilderError::UpscaleWidthHeightConflict);
    assert_eq!(e.message(), "only one of width or height may be specified");
}

#[test]
fn upscaler_needs_an_image() {
    let e = Upscaler::builder().height(1024).unwrap().build().unwrap_err();
    assert_eq!(e, ImageBuilderError::UpscaleImagePathNotSet);
    let e = UpscalerBuilder::new().width(511).unwrap_err();
    assert_eq!(e.message(), "upscale width must be greater or equal to 512, but was 511");
    let e = UpscalerBuilder::new().height(100).unwrap_err();
    assert_eq!(e, ImageBuilderError::UpscaleHeightLessThan512(100));
}

#[test]
fn upscaler_engines_send_their_fields() {
    let upscaler = UpscalerBuilder::new()
        .image("a.png")
        .unwrap()
        .height(2048)
        .unwrap()
        .text_prompt("sharp", Thousandths(1000))
        .unwrap()
        .cfg_scale(10)
        .unwrap()
        .seed(3)
        .unwrap()
        .steps(20)
        .unwrap()
        .build()
        .unwrap();
    let plain = upscaler
        .to_multipart_form_data_with_boundary(UpscaleEngine::EsrganV1X2Plus, 2, &[])
        .unwrap();
    let plain = String::from_utf8(plain.body).unwrap();
    assert!(plain.contains("name=\"height\"\r\n\r\n2048\r\n"));
    assert!(!plain.contains("width"));
    assert!(!plain.contains("cfg_scale"));
    assert!(!plain.contains("text_prompts"));
    let latent = upscaler
        .to_multipart_form_data_with_boundary(UpscaleEngine::StableDiffusionX4LatentUpscaler, 2, &[])
        .unwrap();
    let latent = String::from_utf8(latent.body).unwrap();
    assert!(latent.starts_with("-------------------------------2\r\nContent-Disposition: form-data; name=\"text_prompts[0][text]\"\r\n\r\nsharp\r\n"));
    assert!(latent.contains("name=\"cfg_scale\"\r\n\r\n10\r\n"));
    assert!(latent.contains("name=\"steps\"\r\n\r\n20\r\n"));
    assert!(latent.contains("name=\"seed\"\r\n\r\n3\r\n"));
    assert_eq!(
        Upscaler::path(UpscaleEngine::EsrganV1X2Plus),
        "/generation/esrgan-v1-x2plus/image-to-image/upscale"
    );
}

#[test]
fn engine_names_are_lower_cased_in_paths() {
    assert_eq!(
        TextToImage::path("Stable-Diffusion-XL-1024-v1-0"),
        "/generation/stable-diffusion-xl-1024-v1-0/text-to-image"
    );
    assert_eq!(
        ImageToImage::path("SDXL"),
        "/generation/sdxl/image-to-image"
    );
    assert_eq!(
        stability_rs::masking::Masker::path("Inpaint"),
        "/generation/inpaint/image-to-image/masking"
    );
    assert_eq!(engine_path("ABC", "/x"), "/generation/abc/x");
}

#[test]
fn image_payload_is_decoded() {
    let image = Image {
        base64: "aGVsbG8=".to_string(),
        finish_reason: "SUCCESS".to_string(),
        seed: 1,
    };
    assert_eq!(image.decoded().unwrap(), b"hello".to_vec());
    let broken = Image {
        base64: "not base64!".to_string(),
        finish_reason: "SUCCESS".to_string(),
        seed: 1,
    };
    assert!(matches!(broken.decoded(), Err(Error::Base64Decode)));
}

#[test]
fn client_builder_needs_a_path() {
    let e = ClientBuilder::new("key").unwrap().build().unwrap_err();
    assert!(matches!(e, Error::ClientBuildError(ref m) if m == "url is not set"));
}

#[test]
fn client_builder_sets_target_method_and_headers() {
    let client = ClientBuilder::new("key")
        .unwrap()
        .path("/user/account")
        .unwrap()
        .header("accept", "application/json")
        .unwrap()
        .build()
        .unwrap();
    assert_eq!(client.url, "https://api.stability.ai/v1/user/account");
    assert_eq!(client.method, "GET");
    assert_eq!(
        client.headers,
        vec![
            ("host".to_string(), "api.stability.ai".to_string()),
            ("authorization".to_string(), "key".to_string()),
            ("accept".to_string(), "application/json".to_string()),
        ]
    );
    assert_eq!(client.format_address(), "api.stability.ai:443");
}

#[test]
fn client_builder_rejects_invalid_parts() {
    assert!(matches!(ClientBuilder::new("bad\nkey"), Err(Error::InvalidHeaderValue(_))));
    let b = ClientBuilder::new("key").unwrap();
    assert!(matches!(b.header("bad name", "v"), Err(Error::InvalidHeaderName(_))));
    let b = ClientBuilder::new("key").unwrap();
    assert!(matches!(b.method("BAD METHOD"), Err(Error::InvalidMethod(_))));
    let b = ClientBuilder::new("key").unwrap();
    assert!(matches!(b.path("/a b"), Err(Error::InvalidUri(_))));
}

#[test]
fn request_client_for_text_to_image() {
    let path = TextToImage::path("SDXL");
    let client = request_client("key", &path, POST, IMAGE_PNG, APPLICATION_JSON).unwrap();
    assert_eq!(client.url, "https://api.stability.ai/v1/generation/sdxl/text-to-image");
    assert_eq!(client.method, "POST");
    assert_eq!(client.headers.len(), 4);
    assert_eq!(client.headers[2], ("accept".to_string(), "image/png".to_string()));
    assert_eq!(
        client.headers[3],
        ("Content-Type".to_string(), "application/json".to_string())
    );
}

#[test]
fn build_checks_settings_set_by_hand() {
    let mut b = TextToImageBuilder::new()
        .style_preset(StylePreset::Anime)
        .unwrap()
        .text_prompt("x", Thousandths(1000))
        .unwrap();
    b.height = Some(100);
    assert_eq!(b.build().unwrap_err(), ImageBuilderError::HeightNotMultipleOf64(100));
    let mut u = UpscalerBuilder::new().image("a.png").unwrap();
    u.steps = Some(200);
    assert_eq!(u.build().unwrap_err(), ImageBuilderError::StepsGreaterThan150(200));
}
