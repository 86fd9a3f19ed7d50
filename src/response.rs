//! Response-side vocabulary: fragments of a streamed reply, their candidates,
//! and what a batch of fragments holds.

use vstd::prelude::*;

use crate::common::{Content, HarmCategory, HarmProbability, Modality, Part, Role, Turn};

verus! {

#[derive(Debug, Clone, Copy, PartialEq, Eq, Structural)]
pub enum FinishReason {
    FinishReasonUnspecified,
    Stop,
    MaxTokens,
    Safety,
    Recitation,
    Language,
    Other,
    BlockList,
    ProhibitedContent,
    Spii,
    MalformedFunctionCall,
    ImageSafety,
}

#[derive(Debug, Clone, Copy, PartialEq, Eq, Structural)]
pub struct SafetyRating {
    pub category: HarmCategory,
    pub probability: HarmProbability,
    pub blocked: bool,
}

#[derive(Debug, Clone)]
pub struct CitationSource {
    pub start_index: Option<u32>,
    pub end_index: Option<u32>,
    pub uri: Option<String>,
    pub license: Option<String>,
}

#[derive(Debug, Clone)]
pub struct CitationMetadata {
    pub citation_sources: Vec<CitationSource>,
}

#[derive(Debug, Clone)]
pub struct GroundingPassageId {
    pub passage_id: String,
    pub part_index: i32,
}

#[derive(Debug, Clone)]
pub struct SemanticRetrieverChunk {
    pub source: String,
    pub chunk: String,
}

#[derive(Debug, Clone)]
pub struct AttributionSourceId {
    pub grounding_passage: GroundingPassageId,
    pub semantic_retriever_chunk: SemanticRetrieverChunk,
}

#[derive(Debug, Clone)]
pub struct GroundingAttribution {
    pub source_id: AttributionSourceId,
    pub content: Content,
}

#[derive(Debug, Clone)]
pub struct Web {
    pub uri: String,
    pub title: String,
}

#[derive(Debug, Clone)]
pub struct GroundingChunk {
    pub web: Web,
}

#[derive(Debug, Clone)]
pub struct Segment {
    pub part_index: i32,
    pub start_index: i32,
    pub end_index: i32,
    pub text: String,
}

#[derive(Debug, Clone)]
pub struct SearchEntryPoint {
    pub rendered_content: Option<String>,
    pub sdk_blob: Option<String>,
}

#[derive(Debug, Clone)]
pub struct UrlRetrievalContext {
    pub retrieved_url: String,
}

#[derive(Debug, Clone)]
pub struct UrlRetrievalMetadata {
    pub url_retrieval_contexts: Vec<UrlRetrievalContext>,
}

/// One reply of the model inside a fragment: a turn and what is known about it.
#[derive(Debug, Clone)]
pub struct Candidate {
    pub content: Content,
    pub finish_reason: Option<FinishReason>,
    pub safety_ratings: Vec<SafetyRating>,
    pub citation_metadata: Option<CitationMetadata>,
    pub grounding_attributions: Vec<GroundingAttribution>,
    pub url_retrieval_metadata: Option<UrlRetrievalMetadata>,
    pub index: Option<i32>,
    pub token_count: Option<i32>,
}

#[derive(Debug, Clone, Copy, PartialEq, Eq, Structural)]
pub enum BlockReason {
    BlockReasonUnspecified,
    Safety,
    Other,
    BlockList,
    ProhibitedContent,
    ImageSafety,
}

#[derive(Debug, Clone)]
pub struct PromptFeedBack {
    pub block_reason: Option<BlockReason>,
    pub safety_ratings: Vec<SafetyRating>,
}

#[derive(Debug, Clone, Copy, PartialEq, Eq, Structural)]
pub struct ModalityTokenCount {
    pub modality: Modality,
    pub token_count: i32,
}

#[derive(Debug, Clone)]
pub struct UsageMetadata {
    pub prompt_token_count: Option<i32>,
    pub cached_content_token_count: Option<i32>,
    pub candidates_token_count: Option<i32>,
    pub tool_use_prompt_token_count: Option<i32>,
    pub thoughts_token_count: Option<i32>,
    pub total_token_count: Option<i32>,
    pub prompt_tokens_details: Vec<ModalityTokenCount>,
    pub cache_tokens_details: Vec<ModalityTokenCount>,
    pub candidates_tokens_details: Vec<ModalityTokenCount>,
    pub tool_use_prompt_tokens_details: Vec<ModalityTokenCount>,
}

/// An error that the service reported inside a fragment.
#[derive(Debug, Clone)]
pub struct ErrorObject {
    pub code: i32,
    pub message: String,
}

/// The error object that the service reported, from its two fields as read: `code`
/// is `None` when the field is missing and `Some(None)` when it is not an `i32`;
/// `message` is `None` when missing and `Some(None)` when it is not a string. A
/// missing or unreadable code counts as 0; an unreadable message reads "Unknown
/// error", a missing one is empty.
pub fn error_object(code: Option<Option<i32>>, message: Option<Option<String>>) -> (r: ErrorObject)
    ensures
        r.code == (match code {
            Some(Some(c)) => c,
            _ => 0i32,
        }),
        r.message@ == (match message {
            Some(Some(m)) => m@,
            Some(None) => "Unknown error"@,
            None => ""@,
        }),
{
    let code = match code {
        Some(Some(c)) => c,
        _ => 0,
    };
    let message = match message {
        Some(Some(m)) => m,
        Some(None) => "Unknown error".to_string(),
        None => "".to_string(),
    };
    ErrorObject { code, message }
}

/// One fragment of a streamed reply.
#[derive(Debug, Clone)]
pub struct ContentResponse {
    pub candidates: Vec<Candidate>,
    pub prompt_feedback: Option<PromptFeedBack>,
    pub usage_metadata: Option<UsageMetadata>,
    pub model_version: Option<String>,
    pub error: Option<ErrorObject>,
}

/// All parts of the given candidates, in order.
pub open spec fn candidates_parts(cs: Seq<Candidate>) -> Seq<Part>
    decreases cs.len(),
{
    if cs.len() == 0 {
        seq![]
    } else {
        candidates_parts(cs.drop_last()) + cs.last().content.parts@
    }
}

/// All parts of all candidates of a batch of fragments, in arrival order.
pub open spec fn batch_parts(b: Seq<ContentResponse>) -> Seq<Part>
    decreases b.len(),
{
    if b.len() == 0 {
        seq![]
    } else {
        batch_parts(b.drop_last()) + candidates_parts(b.last().candidates@)
    }
}

/// The turns of the given candidates that have at least one part, as model turns.
pub open spec fn candidates_turns(cs: Seq<Candidate>) -> Seq<Turn>
    decreases cs.len(),
{
    if cs.len() == 0 {
        seq![]
    } else if cs.last().content.parts@.len() > 0 {
        candidates_turns(cs.drop_last()).push(
            Turn { role: Role::Model, parts: cs.last().content.parts@ },
        )
    } else {
        candidates_turns(cs.drop_last())
    }
}

/// The turns that a batch of fragments adds to the history.
pub open spec fn batch_turns(b: Seq<ContentResponse>) -> Seq<Turn>
    decreases b.len(),
{
    if b.len() == 0 {
        seq![]
    } else {
        batch_turns(b.drop_last()) + candidates_turns(b.last().candidates@)
    }
}

/// The error of the first fragment of a batch that carries one.
pub open spec fn batch_error(b: Seq<ContentResponse>) -> Option<ErrorObject>
    decreases b.len(),
{
    if b.len() == 0 {
        None
    } else {
        match batch_error(b.drop_last()) {
            Some(e) => Some(e),
            None => b.last().error,
        }
    }
}

/// The text of the text parts, joined.
pub open spec fn texts(ps: Seq<Part>) -> Seq<char>
    decreases ps.len(),
{
    if ps.len() == 0 {
        seq![]
    } else {
        match ps.last() {
            Part::Text(t) => texts(ps.drop_last()) + t@,
            _ => texts(ps.drop_last()),
        }
    }
}

/// The mime type and data of each inline-data part, in order.
pub open spec fn images(ps: Seq<Part>) -> Seq<(Seq<char>, Seq<char>)>
    decreases ps.len(),
{
    if ps.len() == 0 {
        seq![]
    } else {
        match ps.last() {
            Part::InlineData(b) => images(ps.drop_last()).push((b.mime_type@, b.data@)),
            _ => images(ps.drop_last()),
        }
    }
}

/// All parts of a batch, gathered into one vector.
pub fn collect_parts(b: &Vec<ContentResponse>) -> (r: Vec<Part>)
    ensures
        r@ == batch_parts(b@),
{
    let mut r: Vec<Part> = Vec::new();
    let mut i: usize = 0;
    while i < b.len()
        invariant
            i <= b.len(),
            r@ == batch_parts(b@.take(i as int)),
        decreases b.len() - i,
    {
        let cs = &b[i].candidates;
        let mut j: usize = 0;
        while j < cs.len()
            invariant
                i < b.len(),
                cs == b@[i as int].candidates,
                j <= cs.len(),
                r@ == batch_parts(b@.take(i as int)) + candidates_parts(cs@.take(j as int)),
            decreases cs.len() - j,
        {
            let ps = &cs[j].content.parts;
            let ghost before = r@;
            let mut k: usize = 0;
            while k < ps.len()
                invariant
                    j < cs.len(),
                    ps == cs@[j as int].content.parts,
                    k <= ps.len(),
                    r@ == before + ps@.take(k as int),
                decreases ps.len() - k,
            {
                r.push(ps[k].clone());
                k += 1;
                assert(r@ =~= before + ps@.take(k as int));
            }
            assert(cs@.take(j + 1).drop_last() =~= cs@.take(j as int));
            assert(ps@.take(k as int) =~= ps@);
            assert(r@ =~= batch_parts(b@.take(i as int)) + candidates_parts(cs@.take(j + 1)));
            j += 1;
        }
        assert(b@.take(i + 1).drop_last() =~= b@.take(i as int));
        assert(cs@.take(j as int) =~= cs@);
        i += 1;
    }
    assert(b@.take(i as int) =~= b@);
    r
}

} // verus!
