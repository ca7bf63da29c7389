use stability_rs::img_to_img::ImageToImageBuilder;
use stability_rs::text_to_img::TextToImageBuilder;
use stability_rs::{StylePreset, Thousandths};

#[test]
fn generation_height_is_erring_when_not_a_multiple_of_64() {
    let image = TextToImageBuilder::new().height(1023).unwrap_err();
    assert_eq!(
        image.message(),
        "height must be a multiple of 64, but was 1023"
    );
}

#[test]
fn generation_height_is_erring_when_less_than_128() {
    let image = TextToImageBuilder::new().height(64).unwrap_err();
    assert_eq!(
        image.message(),
        "height must not be less than 128, but was 64"
    );
}

#[test]
fn generation_width_is_erring_when_not_a_multiple_of_64() {
    let image = TextToImageBuilder::new().width(1023).unwrap_err();
    assert_eq!(
        image.message(),
        "width must be a multiple of 64, but was 1023"
    );
}

#[test]
fn generation_width_is_erring_when_less_than_128() {
    let image = TextToImageBuilder::new().width(64).unwrap_err();
    assert_eq!(
        image.message(),
        "width must not be less than 128, but was 64"
    );
}

#[test]
fn generation_cfg_scale_is_erring_when_greater_than_35() {
    let image = TextToImageBuilder::new().cfg_scale(36).unwrap_err();
    assert_eq!(
        image.message(),
        "cfg_scale must be no greater than 35, but was 36"
    );
}

#[test]
fn generation_samples_is_erring_when_greater_than_10() {
    let image = TextToImageBuilder::new().samples(11).unwrap_err();
    assert_eq!(
        image.message(),
        "samples must be no greater than 10, but was 11"
    );
}

#[test]
fn generation_steps_is_erring_when_greater_than_150() {
    let image = TextToImageBuilder::new().steps(151).unwrap_err();
    assert_eq!(
        image.message(),
        "steps must be no greater than 150, but was 151"
    );
}

#[test]
fn text_to_img_height_is_erring_when_not_a_multiple_of_64() {
    let image = TextToImageBuilder::new().height(1023).unwrap_err();
    assert_eq!(
        image.message(),
        "height must be a multiple of 64, but was 1023"
    );
}

#[test]
fn text_to_img_height_is_erring_when_less_than_128() {
    let image = TextToImageBuilder::new().height(64).unwrap_err();
    assert_eq!(
        image.message(),
        "height must not be less than 128, but was 64"
    );
}

#[test]
fn text_to_img_width_is_erring_when_not_a_multiple_of_64() {
    let image = TextToImageBuilder::new().width(1023).unwrap_err();
    assert_eq!(
        image.message(),
        "width must be a multiple of 64, but was 1023"
    );
}

#[test]
fn text_to_img_width_is_erring_when_less_than_128() {
    let image = TextToImageBuilder::new().width(64).unwrap_err();
    assert_eq!(
        image.message(),
        "width must not be less than 128, but was 64"
    );
}

#[test]
fn text_to_img_cfg_scale_is_erring_when_greater_than_35() {
    let image = TextToImageBuilder::new().cfg_scale(36).unwrap_err();
    assert_eq!(
        image.message(),
        "cfg_scale must be no greater than 35, but was 36"
    );
}

#[test]
fn text_to_img_samples_is_erring_when_greater_than_10() {
    let image = TextToImageBuilder::new().samples(11).unwrap_err();
    assert_eq!(
        image.message(),
        "samples must be no greater than 10, but was 11"
    );
}

#[test]
fn text_to_img_steps_is_erring_when_greater_than_150() {
    let image = TextToImageBuilder::new().steps(151).unwrap_err();
    assert_eq!(
        image.message(),
        "steps must be no greater than 150, but was 151"
    );
}

#[test]
fn style_preset_is_erring_when_not_set() {
    let image = TextToImageBuilder::new().build().unwrap_err();
    assert_eq!(image.message(), "a style preset must be set");
}

#[test]
fn tti_build_is_erring_when_style_preset_is_not_set() {
    let image = TextToImageBuilder::new().build().unwrap_err();
    assert_eq!(image.message(), "a style preset must be set");
}

#[test]
fn text_prompt_is_erring_when_empty() {
    let image = TextToImageBuilder::new()
        .style_preset(StylePreset::DigitalArt)
        .unwrap()
        .text_prompt("", Thousandths(1000))
        .unwrap()
        .build()
        .unwrap_err();
    assert_eq!(image.message(), "a text prompt must not be empty");
}

#[test]
fn tti_build_is_erring_when_textprompt_is_empty() {
    let image = TextToImageBuilder::new()
        .style_preset(StylePreset::DigitalArt)
        .unwrap()
        .text_prompt("", Thousandths(1000))
        .unwrap()
        .build()
        .unwrap_err();
    assert_eq!(image.message(), "a text prompt must not be empty");
}

#[test]
fn image_builder_is_erring_when_init_image_path_is_not_set() {
    let image = ImageToImageBuilder::new().build().unwrap_err();
    assert_eq!(
        image.message(),
        "init image path must be set"
    );
}
