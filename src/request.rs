//! Request-side vocabulary: tool settings, safety thresholds, speech and thinking
//! options, and the naming of declared functions.

use vstd::prelude::*;
use vstd::string::*;

use crate::common::HarmCategory;
use crate::text::{find, find_text};

verus! {

/// Errors in reading request-side names.
#[derive(Debug)]
pub enum RequestError {
    NotFound(String),
}

#[derive(Debug, Clone, Copy, PartialEq, Eq, Structural)]
pub enum Type {
    TypeUnspecified,
    String,
    Number,
    Integer,
    Boolean,
    Array,
    Object,
    Null,
}

impl Default for Type {
    fn default() -> (r: Self)
        ensures
            r == Type::TypeUnspecified,
    {
        Type::TypeUnspecified
    }
}

#[derive(Debug, Clone, Copy, PartialEq, Eq, Structural)]
pub enum Mode {
    ModeUnspecified,
    ModeDynamic,
}

#[derive(Debug, Clone, Copy, PartialEq, Eq, Structural)]
pub struct DynamicRetrievalConfig {
    pub mode: Mode,
    pub dynamic_threshold: i32,
}

#[derive(Debug, Clone, Copy, PartialEq, Eq, Structural)]
pub struct GoogleSearchRetrieval {
    pub dynamic_retrieval_config: DynamicRetrievalConfig,
}

#[derive(Debug, Clone, Copy, PartialEq, Eq, Structural)]
pub struct UrlContext {}

#[derive(Debug, Clone)]
pub struct FunctionCallingConfig {
    pub mode: Option<Mode>,
    pub allowed_function_names: Vec<String>,
}

#[derive(Debug, Clone)]
pub struct ToolConfig {
    pub function_calling_config: Option<FunctionCallingConfig>,
}

#[derive(Debug, Clone, Copy, PartialEq, Eq, Structural)]
pub enum HarmBlockThreshold {
    BlockNone,
    BlockOnlyHigh,
    BlockMediumAndAbove,
    BlockLowAndAbove,
    HarmBlockThresholdUnspecified,
    Off,
}

impl Default for HarmBlockThreshold {
    fn default() -> (r: Self)
        ensures
            r == HarmBlockThreshold::BlockLowAndAbove,
    {
        HarmBlockThreshold::BlockLowAndAbove
    }
}

/// The threshold at which content of one harm category is blocked.
#[derive(Debug, Clone, Copy, PartialEq, Eq, Structural)]
pub struct SafetySettings {
    pub category: HarmCategory,
    pub threshold: HarmBlockThreshold,
}

#[derive(Debug, Clone)]
pub struct PrebuiltVoiceConfig {
    pub voice_name: String,
}

#[derive(Debug, Clone)]
pub struct VoiceConfig {
    pub prebuilt_voice_config: PrebuiltVoiceConfig,
}

#[derive(Debug, Clone)]
pub struct SpeechConfig {
    pub voice_config: VoiceConfig,
    pub language_code: Option<String>,
}

#[derive(Debug, Clone, Copy, PartialEq, Eq, Structural)]
pub struct ThinkingConfig {
    pub include_thoughts: bool,
    pub thinking_budget: i32,
}

#[derive(Debug, Clone, Copy, PartialEq, Eq, Structural)]
pub enum MediaResolution {
    MediaResolutionUnspecified,
    MediaResolutionLow,
    MediaResolutionMedium,
    MediaResolutionHigh,
}

/// The decimal digit for `d < 10`.
pub open spec fn digit(d: nat) -> char {
    seq!['0', '1', '2', '3', '4', '5', '6', '7', '8', '9'][d as int]
}

/// The decimal spelling of `n`, without leading zeros.
pub open spec fn decimal(n: nat) -> Seq<char>
    decreases n,
{
    if n < 10 {
        seq![digit(n)]
    } else {
        decimal(n / 10).push(digit(n % 10))
    }
}

/// The one-character text of the decimal digit `d < 10`.
fn digit_text(d: usize) -> (r: &'static str)
    requires
        d < 10,
    ensures
        r@ == seq![digit(d as nat)],
{
    proof {
        reveal_strlit("0");
        reveal_strlit("1");
        reveal_strlit("2");
        reveal_strlit("3");
        reveal_strlit("4");
        reveal_strlit("5");
        reveal_strlit("6");
        reveal_strlit("7");
        reveal_strlit("8");
        reveal_strlit("9");
    }
    let r = match d {
        0 => "0",
        1 => "1",
        2 => "2",
        3 => "3",
        4 => "4",
        5 => "5",
        6 => "6",
        7 => "7",
        8 => "8",
        _ => "9",
    };
    assert(r@ =~= seq![digit(d as nat)]);
    r
}

/// The decimal spelling of `n`.
pub fn decimal_text(n: usize) -> (r: String)
    ensures
        r@ == decimal(n as nat),
    decreases n,
{
    if n < 10 {
        digit_text(n).to_string()
    } else {
        let r = decimal_text(n / 10).concat(digit_text(n % 10));
        assert(r@ =~= decimal(n as nat));
        r
    }
}

/// The function name under which block `index` declares `name`: `<index>_<name>`.
pub open spec fn mapped_name(index: nat, name: Seq<char>) -> Seq<char> {
    decimal(index) + "_"@ + name
}

pub fn map_fn_name(index: usize, name: &str) -> (r: String)
    ensures
        r@ == mapped_name(index as nat, name@),
{
    decimal_text(index).concat("_").concat(name)
}

/// What follows the first `_` of a name, if it has one.
pub open spec fn unmapped_name(name: Seq<char>) -> Option<Seq<char>> {
    match find(name, "_"@) {
        Some(i) => Some(name.skip(i + 1)),
        None => None,
    }
}

pub fn unmap_fn_name(name: &str) -> (r: Result<String, RequestError>)
    ensures
        match r {
            Ok(s) => unmapped_name(name@) == Some(s@),
            Err(RequestError::NotFound(msg)) => unmapped_name(name@) is None
                && msg@ == "Function name: "@ + name@,
        },
{
    proof {
        reveal_strlit("_");
    }
    match find_text(name, "_") {
        Some(i) => {
            let len = name.unicode_len();
            Ok(name.substring_char(i + 1, len).to_string())
        },
        None => Err(RequestError::NotFound("Function name: ".to_string().concat(name))),
    }
}

} // verus!
