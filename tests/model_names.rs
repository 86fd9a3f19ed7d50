use gemini_chat::common::Modality;
use gemini_chat::model::{GoogleModel, GoogleModelVariant, ModelError};
use gemini_chat::request::{decimal_text, map_fn_name, unmap_fn_name, RequestError};

#[test]
fn parses_plain_model_name() {
    let m = GoogleModel::from_model_name("gemini-2.5-flash").unwrap();
    assert_eq!(m.variant, GoogleModelVariant::Gemini25Flash);
    assert_eq!(m.name, "gemini-2.5-flash");
    assert_eq!(m.output, vec![Modality::Text]);
}

#[test]
fn parses_preview_model_name() {
    let m = GoogleModel::from_model_name("gemini-2.5-flash-preview-05-20").unwrap();
    assert_eq!(m.variant, GoogleModelVariant::Gemini25Flash);
    assert_eq!(m.name, "gemini-2.5-flash-preview-05-20");
}

#[test]
fn parses_lite_and_image_models() {
    let lite = GoogleModel::from_model_name("gemini-2.5-flash-lite").unwrap();
    assert_eq!(lite.variant, GoogleModelVariant::Gemini25FlashLight);
    let img = GoogleModel::from_model_name("gemini-2.0-flash-exp-image-generation").unwrap();
    assert_eq!(img.variant, GoogleModelVariant::Gemini20FlashExpImageGen);
    assert_eq!(img.output, vec![Modality::Text, Modality::Image]);
}

#[test]
fn rejects_unknown_model_name() {
    match GoogleModel::from_model_name("gemini-9") {
        Err(ModelError::NotFound(msg)) => assert_eq!(msg, "No such model: gemini-9"),
        other => panic!("unexpected: {:?}", other),
    }
}

#[test]
fn new_model_with_suffix() {
    let m = GoogleModel::new(GoogleModelVariant::Gemini25Pro, Some("preview-06-05".to_string()));
    assert_eq!(m.name, "gemini-2.5-pro-preview-06-05");
    assert_eq!(m.display_name(), "gemini-2.5-pro-preview-06-05");
    assert_eq!(
        m.input,
        vec![Modality::Text, Modality::Video, Modality::Image, Modality::Audio]
    );
    let plain = GoogleModel::new(GoogleModelVariant::Gemini20Flash, None);
    assert_eq!(plain.name, "gemini-2.0-flash");
}

#[test]
fn variant_names_and_capabilities() {
    assert_eq!(GoogleModelVariant::Gemini25FlashLight.name(), "gemini-2.5-flash-lite");
    assert_eq!(GoogleModelVariant::Gemini20Flash.outputs(), vec![Modality::Text]);
    assert_eq!(GoogleModelVariant::Gemini25Pro.inputs().len(), 4);
}

#[test]
fn maps_function_names() {
    assert_eq!(map_fn_name(3, "say_hello"), "3_say_hello");
    assert_eq!(map_fn_name(120, "x"), "120_x");
    assert_eq!(map_fn_name(0, ""), "0_");
}

#[test]
fn unmaps_function_names() {
    assert_eq!(unmap_fn_name("3_say_hello").unwrap(), "say_hello");
    assert_eq!(unmap_fn_name("_x").unwrap(), "x");
    match unmap_fn_name("plain") {
        Err(RequestError::NotFound(msg)) => assert_eq!(msg, "Function name: plain"),
        other => panic!("unexpected: {:?}", other),
    }
}

#[test]
fn decimal_spelling() {
    assert_eq!(decimal_text(0), "0");
    assert_eq!(decimal_text(7), "7");
    assert_eq!(decimal_text(10), "10");
    assert_eq!(decimal_text(1234567), "1234567");
    assert_eq!(decimal_text(usize::MAX), usize::MAX.to_string());
}
