//! The message vocabulary: parts, roles and turns.

use vstd::prelude::*;

verus! {

/// A JSON object, carried through the conversation unexamined.
pub type JsonObject = serde_json::Map<String, serde_json::Value>;

#[derive(Debug, Clone, Copy, PartialEq, Eq, Structural)]
pub enum HarmCategory {
    HarmCategoryHarassment,
    HarmCategoryHateSpeech,
    HarmCategorySexuallyExplicit,
    HarmCategoryDangerousContent,
    HarmCategoryCivicIntegrity,
}

#[derive(Debug, Clone, Copy, PartialEq, Eq, Structural)]
pub enum HarmProbability {
    HarmProbabilityUnspecified,
    Negligible,
    Low,
    Medium,
    High,
}

impl Default for HarmProbability {
    fn default() -> (r: Self)
        ensures
            r == HarmProbability::Low,
    {
        HarmProbability::Low
    }
}

#[derive(Debug, Clone, Copy, PartialEq, Eq, Structural)]
pub enum Modality {
    ModalityUnspecified,
    Text,
    Image,
    Audio,
    Video,
}

/// Inline binary data: a mime type and the base64 text of the bytes.
#[derive(Debug)]
pub struct Blob {
    pub mime_type: String,
    pub data: String,
}

impl Clone for Blob {
    fn clone(&self) -> (r: Self)
        ensures
            r == *self,
    {
        Blob { mime_type: self.mime_type.clone(), data: self.data.clone() }
    }
}

/// A reference to a file by its URI.
#[derive(Debug)]
pub struct FileData {
    pub mime_type: String,
    pub file_uri: String,
}

impl Clone for FileData {
    fn clone(&self) -> (r: Self)
        ensures
            r == *self,
    {
        FileData { mime_type: self.mime_type.clone(), file_uri: self.file_uri.clone() }
    }
}

/// A request from the model to invoke a tool.
#[derive(Debug)]
pub struct FunctionCall {
    pub id: Option<String>,
    pub name: String,
    pub args: Option<JsonObject>,
}

impl Clone for FunctionCall {
    fn clone(&self) -> (r: Self)
        ensures
            r == *self,
    {
        let id = match &self.id {
            Some(id) => Some(id.clone()),
            None => None,
        };
        let args = match &self.args {
            Some(args) => Some(args.clone()),
            None => None,
        };
        FunctionCall { id, name: self.name.clone(), args }
    }
}

/// The outcome of a tool invocation, handed back to the model.
#[derive(Debug)]
pub struct FunctionResponse {
    pub id: Option<String>,
    pub name: String,
    pub response: JsonObject,
}

impl Clone for FunctionResponse {
    fn clone(&self) -> (r: Self)
        ensures
            r == *self,
    {
        let id = match &self.id {
            Some(id) => Some(id.clone()),
            None => None,
        };
        FunctionResponse { id, name: self.name.clone(), response: self.response.clone() }
    }
}

#[derive(Debug, Clone, Copy, PartialEq, Eq, Structural)]
pub enum Language {
    Python,
    LanguageUnspecified,
}

#[derive(Debug)]
pub struct ExecutableCode {
    pub language: Language,
    pub code: String,
}

impl Clone for ExecutableCode {
    fn clone(&self) -> (r: Self)
        ensures
            r == *self,
    {
        ExecutableCode { language: self.language, code: self.code.clone() }
    }
}

#[derive(Debug, Clone, Copy, PartialEq, Eq, Structural)]
pub enum Outcome {
    OutcomeUnspecified,
    OutcomeOk,
    OutcomeFailed,
    OutcomeDeadlineExceeded,
}

#[derive(Debug)]
pub struct CodeExecutionResult {
    pub outcome: Outcome,
    pub output: String,
}

impl Clone for CodeExecutionResult {
    fn clone(&self) -> (r: Self)
        ensures
            r == *self,
    {
        CodeExecutionResult { outcome: self.outcome, output: self.output.clone() }
    }
}

/// One typed piece of a turn.
#[derive(Debug)]
pub enum Part {
    Thought(bool),
    Text(String),
    InlineData(Blob),
    FunctionCall(FunctionCall),
    FunctionResponse(FunctionResponse),
    FileData(FileData),
    ExecutableCode(ExecutableCode),
    CodeExecutionResult(CodeExecutionResult),
}

impl Clone for Part {
    fn clone(&self) -> (r: Self)
        ensures
            r == *self,
    {
        match self {
            Part::Thought(b) => Part::Thought(*b),
            Part::Text(t) => Part::Text(t.clone()),
            Part::InlineData(b) => Part::InlineData(b.clone()),
            Part::FunctionCall(c) => Part::FunctionCall(c.clone()),
            Part::FunctionResponse(f) => Part::FunctionResponse(f.clone()),
            Part::FileData(f) => Part::FileData(f.clone()),
            Part::ExecutableCode(e) => Part::ExecutableCode(e.clone()),
            Part::CodeExecutionResult(c) => Part::CodeExecutionResult(c.clone()),
        }
    }
}

#[derive(Debug, Clone, Copy, PartialEq, Eq, Structural)]
pub enum Role {
    User,
    Model,
}

impl Default for Role {
    fn default() -> (r: Self)
        ensures
            r == Role::User,
    {
        Role::User
    }
}

/// What a turn is, as far as contracts are concerned: its role and its parts.
pub ghost struct Turn {
    pub role: Role,
    pub parts: Seq<Part>,
}

/// One role-tagged turn of the conversation.
#[derive(Debug)]
pub struct Content {
    pub parts: Vec<Part>,
    pub role: Role,
}

impl View for Content {
    type V = Turn;

    open spec fn view(&self) -> Turn {
        Turn { role: self.role, parts: self.parts@ }
    }
}

impl Clone for Content {
    fn clone(&self) -> (r: Self)
        ensures
            r@ == self@,
    {
        let mut parts: Vec<Part> = Vec::new();
        let mut i: usize = 0;
        while i < self.parts.len()
            invariant
                i <= self.parts.len(),
                parts@ == self.parts@.take(i as int),
            decreases self.parts.len() - i,
        {
            parts.push(self.parts[i].clone());
            i += 1;
            assert(parts@ =~= self.parts@.take(i as int));
        }
        assert(parts@ =~= self.parts@);
        Content { parts, role: self.role }
    }
}

impl Default for Content {
    fn default() -> (r: Self)
        ensures
            r@.parts.len() == 0,
            r@.role == Role::User,
    {
        Content { parts: Vec::new(), role: Role::User }
    }
}

/// The turns of a sequence of contents, in order.
pub open spec fn turns_of(cs: Seq<Content>) -> Seq<Turn> {
    cs.map_values(|c: Content| c@)
}

/// A turn made of a single text part.
pub open spec fn is_text_turn(t: Turn, role: Role, text: Seq<char>) -> bool {
    &&& t.role == role
    &&& t.parts.len() == 1
    &&& t.parts[0] matches Part::Text(s) && s@ == text
}

impl Content {
    /// A turn holding the given text alone.
    pub fn from_text(role: Role, text: &str) -> (r: Content)
        ensures
            is_text_turn(r@, role, text@),
    {
        Content { parts: vec![Part::Text(text.to_string())], role }
    }
}

} // verus!
