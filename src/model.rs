//! The supported models and what each of them accepts and produces.

use vstd::prelude::*;
use vstd::string::*;

use crate::common::Modality;
use crate::text::{find, find_text, same_text};

verus! {

/// Errors in naming a model.
#[derive(Debug)]
pub enum ModelError {
    NotFound(String),
}

pub const GEMINI_2_0_FLASH_EXP_IMAGE_GEN: &'static str = "gemini-2.0-flash-exp-image-generation";

pub const GEMINI_2_0_FLASH: &'static str = "gemini-2.0-flash";

pub const GEMINI_2_5_FLASH: &'static str = "gemini-2.5-flash";

pub const GEMINI_2_5_FLASH_LITE: &'static str = "gemini-2.5-flash-lite";

pub const GEMINI_2_5_PRO: &'static str = "gemini-2.5-pro";

pub const PREVIEW_MARK: &'static str = "-preview";

/// Supported models. Their capabilities differ, so this enum is what callers branch on.
#[derive(Debug, Clone, Copy, PartialEq, Eq, Structural, Hash)]
pub enum GoogleModelVariant {
    Gemini20FlashExpImageGen,
    Gemini20Flash,
    Gemini25Flash,
    Gemini25Pro,
    Gemini25FlashLight,
}

/// The service's name of a model.
pub open spec fn variant_name(v: GoogleModelVariant) -> Seq<char> {
    match v {
        GoogleModelVariant::Gemini20FlashExpImageGen => GEMINI_2_0_FLASH_EXP_IMAGE_GEN@,
        GoogleModelVariant::Gemini20Flash => GEMINI_2_0_FLASH@,
        GoogleModelVariant::Gemini25Flash => GEMINI_2_5_FLASH@,
        GoogleModelVariant::Gemini25Pro => GEMINI_2_5_PRO@,
        GoogleModelVariant::Gemini25FlashLight => GEMINI_2_5_FLASH_LITE@,
    }
}

/// The model whose service name is `n`, if any.
pub open spec fn variant_named(n: Seq<char>) -> Option<GoogleModelVariant> {
    if n == GEMINI_2_5_PRO@ {
        Some(GoogleModelVariant::Gemini25Pro)
    } else if n == GEMINI_2_5_FLASH@ {
        Some(GoogleModelVariant::Gemini25Flash)
    } else if n == GEMINI_2_5_FLASH_LITE@ {
        Some(GoogleModelVariant::Gemini25FlashLight)
    } else if n == GEMINI_2_0_FLASH@ {
        Some(GoogleModelVariant::Gemini20Flash)
    } else if n == GEMINI_2_0_FLASH_EXP_IMAGE_GEN@ {
        Some(GoogleModelVariant::Gemini20FlashExpImageGen)
    } else {
        None
    }
}

/// Every model takes text, video, images and audio.
pub open spec fn variant_inputs(v: GoogleModelVariant) -> Seq<Modality> {
    seq![Modality::Text, Modality::Video, Modality::Image, Modality::Audio]
}

/// Only the image-generation model answers with images as well as text.
pub open spec fn variant_outputs(v: GoogleModelVariant) -> Seq<Modality> {
    match v {
        GoogleModelVariant::Gemini20FlashExpImageGen => seq![Modality::Text, Modality::Image],
        _ => seq![Modality::Text],
    }
}

impl GoogleModelVariant {
    pub fn name(&self) -> (r: String)
        ensures
            r@ == variant_name(*self),
    {
        match self {
            GoogleModelVariant::Gemini20FlashExpImageGen => GEMINI_2_0_FLASH_EXP_IMAGE_GEN,
            GoogleModelVariant::Gemini20Flash => GEMINI_2_0_FLASH,
            GoogleModelVariant::Gemini25Flash => GEMINI_2_5_FLASH,
            GoogleModelVariant::Gemini25Pro => GEMINI_2_5_PRO,
            GoogleModelVariant::Gemini25FlashLight => GEMINI_2_5_FLASH_LITE,
        }.to_string()
    }

    pub fn inputs(&self) -> (r: Vec<Modality>)
        ensures
            r@ == variant_inputs(*self),
    {
        let r = match self {
            GoogleModelVariant::Gemini20FlashExpImageGen => vec![
                Modality::Text,
                Modality::Video,
                Modality::Image,
                Modality::Audio,
            ],
            GoogleModelVariant::Gemini20Flash => vec![
                Modality::Text,
                Modality::Video,
                Modality::Image,
                Modality::Audio,
            ],
            GoogleModelVariant::Gemini25Flash => vec![
                Modality::Text,
                Modality::Video,
                Modality::Image,
                Modality::Audio,
            ],
            GoogleModelVariant::Gemini25Pro => vec![
                Modality::Text,
                Modality::Video,
                Modality::Image,
                Modality::Audio,
            ],
            GoogleModelVariant::Gemini25FlashLight => vec![
                Modality::Text,
                Modality::Video,
                Modality::Image,
                Modality::Audio,
            ],
        };
        assert(r@ =~= variant_inputs(*self));
        r
    }

    pub fn outputs(&self) -> (r: Vec<Modality>)
        ensures
            r@ == variant_outputs(*self),
    {
        let r = match self {
            GoogleModelVariant::Gemini20FlashExpImageGen => vec![Modality::Text, Modality::Image],
            GoogleModelVariant::Gemini20Flash => vec![Modality::Text],
            GoogleModelVariant::Gemini25Flash => vec![Modality::Text],
            GoogleModelVariant::Gemini25Pro => vec![Modality::Text],
            GoogleModelVariant::Gemini25FlashLight => vec![Modality::Text],
        };
        assert(r@ =~= variant_outputs(*self));
        r
    }
}

/// A model as the client uses it: its variant, full name and capabilities.
#[derive(Debug)]
pub struct GoogleModel {
    pub variant: GoogleModelVariant,
    pub name: String,
    pub input: Vec<Modality>,
    pub output: Vec<Modality>,
}

/// The full name of a variant with an optional suffix: `<name>-<suffix>`.
pub open spec fn model_name(v: GoogleModelVariant, suffix: Option<Seq<char>>) -> Seq<char> {
    match suffix {
        Some(s) => variant_name(v) + "-"@ + s,
        None => variant_name(v),
    }
}

pub open spec fn suffix_view(suffix: Option<String>) -> Option<Seq<char>> {
    match suffix {
        Some(s) => Some(s@),
        None => None,
    }
}

/// `m` is the model of variant `v` with the given name suffix.
pub open spec fn is_model(m: GoogleModel, v: GoogleModelVariant, suffix: Option<Seq<char>>) -> bool {
    &&& m.variant == v
    &&& m.name@ == model_name(v, suffix)
    &&& m.input@ == variant_inputs(v)
    &&& m.output@ == variant_outputs(v)
}

/// How a model string splits into the model's name and an optional preview suffix:
/// everything from the first `-preview` on, without the leading dash.
pub open spec fn split_preview(value: Seq<char>) -> (Seq<char>, Option<Seq<char>>) {
    match find(value, PREVIEW_MARK@) {
        Some(i) => (value.take(i), Some(value.skip(i + 1))),
        None => (value, None),
    }
}

impl Clone for GoogleModel {
    fn clone(&self) -> (r: Self)
        ensures
            r.variant == self.variant,
            r.name@ == self.name@,
            r.input@ == self.input@,
            r.output@ == self.output@,
    {
        GoogleModel {
            variant: self.variant,
            name: self.name.clone(),
            input: self.input.clone(),
            output: self.output.clone(),
        }
    }
}

impl GoogleModel {
    pub fn new(variant: GoogleModelVariant, suffix: Option<String>) -> (r: Self)
        ensures
            is_model(r, variant, suffix_view(suffix)),
    {
        let name = match suffix {
            Some(suffix) => variant.name().concat("-").concat(suffix.as_str()),
            None => variant.name(),
        };
        let input = variant.inputs();
        let output = variant.outputs();
        GoogleModel { variant, name, input, output }
    }

    /// Reads a model string such as `gemini-2.5-flash-preview-05-20`.
    pub fn from_model_name(value: &str) -> (r: Result<Self, ModelError>)
        ensures
            match r {
                Ok(m) => variant_named(split_preview(value@).0) == Some(m.variant)
                    && is_model(m, m.variant, split_preview(value@).1),
                Err(ModelError::NotFound(msg)) => variant_named(split_preview(value@).0) is None
                    && msg@ == "No such model: "@ + value@,
            },
    {
        proof {
            reveal_strlit("-preview");
        }
        assert(PREVIEW_MARK@.len() == 8);
        let (model, preview) = match find_text(value, PREVIEW_MARK) {
            Some(i) => {
                let len = value.unicode_len();
                (value.substring_char(0, i), Some(value.substring_char(i + 1, len).to_string()))
            },
            None => (value, None),
        };
        proof {
            assert(model@ == split_preview(value@).0);
            assert(suffix_view(preview) == split_preview(value@).1);
        }
        let variant = if same_text(model, GEMINI_2_5_PRO) {
            GoogleModelVariant::Gemini25Pro
        } else if same_text(model, GEMINI_2_5_FLASH) {
            GoogleModelVariant::Gemini25Flash
        } else if same_text(model, GEMINI_2_5_FLASH_LITE) {
            GoogleModelVariant::Gemini25FlashLight
        } else if same_text(model, GEMINI_2_0_FLASH) {
            GoogleModelVariant::Gemini20Flash
        } else if same_text(model, GEMINI_2_0_FLASH_EXP_IMAGE_GEN) {
            GoogleModelVariant::Gemini20FlashExpImageGen
        } else {
            return Err(ModelError::NotFound("No such model: ".to_string().concat(value)));
        };
        Ok(GoogleModel::new(variant, preview))
    }

    /// The model's full name, as the service's endpoint spells it.
    pub fn display_name(&self) -> (r: String)
        ensures
            r@ == self.name@,
    {
        self.name.clone()
    }
}

} // verus!
