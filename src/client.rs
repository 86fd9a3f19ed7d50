//! The conversation driver: it owns the history, consolidates each batch of reply
//! fragments, dispatches the tool calls that a batch asks for, and says at each
//! point what the caller has to do next (post the request, invoke a tool, or stop).

use vstd::prelude::*;
use vstd::string::*;

use crate::common::{
    Blob, Content, FileData, FunctionCall, FunctionResponse, HarmCategory, JsonObject, Modality,
    Part, Role, Turn, is_text_turn, turns_of,
};
use crate::media::{base64_url_of, detect_media_type, encode_base64_url, media_type_of};
use crate::model::{GoogleModel, GoogleModelVariant, suffix_view};
use crate::request::{HarmBlockThreshold, SafetySettings};
use crate::response::{
    ContentResponse, batch_error, batch_parts, batch_turns, candidates_turns, collect_parts, images,
    texts,
};
use crate::text::same_text;

verus! {

/// Why a send did not complete.
#[derive(Debug)]
pub enum ClientError {
    SerdeJson(serde_json::Error),
    Reqwest(reqwest::Error),
    Request { code: i32, message: String },
    Io(std::io::Error),
    MpcSdk(rust_mcp_sdk::error::McpSdkError),
    UnsupportedConfig(String),
    NotFound(String),
}

/// The fragments of a completed reply, with helpers to read what they hold.
#[derive(Debug)]
pub struct Responses(pub Vec<ContentResponse>);

pub open spec fn image_views(v: Seq<(String, String)>) -> Seq<(Seq<char>, Seq<char>)> {
    v.map_values(|p: (String, String)| (p.0@, p.1@))
}

impl Responses {
    pub fn inner(&self) -> (r: &[ContentResponse])
        ensures
            r@ == self.0@,
    {
        self.0.as_slice()
    }

    /// The text of all text parts, joined; `None` when there is none.
    pub fn text(&self) -> (r: Option<String>)
        ensures
            match r {
                Some(t) => t@ == texts(batch_parts(self.0@)) && t@.len() > 0,
                None => texts(batch_parts(self.0@)).len() == 0,
            },
    {
        let parts = collect_parts(&self.0);
        let mut text = String::new();
        let mut i: usize = 0;
        while i < parts.len()
            invariant
                i <= parts.len(),
                text@ == texts(parts@.take(i as int)),
            decreases parts.len() - i,
        {
            match &parts[i] {
                Part::Text(t) => text.append(t.as_str()),
                _ => {},
            }
            assert(parts@.take(i + 1).drop_last() =~= parts@.take(i as int));
            i += 1;
        }
        assert(parts@.take(i as int) =~= parts@);
        if text.as_str().is_empty() {
            None
        } else {
            Some(text)
        }
    }

    /// The mime type and base64 data of each inline image, in order.
    pub fn images(&self) -> (r: Vec<(String, String)>)
        ensures
            image_views(r@) == images(batch_parts(self.0@)),
    {
        let parts = collect_parts(&self.0);
        let mut r: Vec<(String, String)> = Vec::new();
        let mut i: usize = 0;
        while i < parts.len()
            invariant
                i <= parts.len(),
                image_views(r@) == images(parts@.take(i as int)),
            decreases parts.len() - i,
        {
            match &parts[i] {
                Part::InlineData(blob) => {
                    r.push((blob.mime_type.clone(), blob.data.clone()));
                },
                _ => {},
            }
            assert(parts@.take(i + 1).drop_last() =~= parts@.take(i as int));
            assert(image_views(r@) =~= images(parts@.take(i + 1)));
            i += 1;
        }
        assert(parts@.take(i as int) =~= parts@);
        r
    }
}

/// The tool calls among the parts, in order.
pub open spec fn calls(ps: Seq<Part>) -> Seq<FunctionCall>
    decreases ps.len(),
{
    if ps.len() == 0 {
        seq![]
    } else {
        match ps.last() {
            Part::FunctionCall(c) => calls(ps.drop_last()).push(c),
            _ => calls(ps.drop_last()),
        }
    }
}

/// The tool calls that a batch asks for, in the order of discovery.
pub open spec fn pending_calls(b: Seq<ContentResponse>) -> Seq<FunctionCall> {
    calls(batch_parts(b))
}

/// The tool calls that a batch asks for, in the order of discovery.
pub fn pending_calls_of(batch: &Vec<ContentResponse>) -> (r: Vec<FunctionCall>)
    ensures
        r@ == pending_calls(batch@),
{
    let parts = collect_parts(batch);
    let mut r: Vec<FunctionCall> = Vec::new();
    let mut i: usize = 0;
    while i < parts.len()
        invariant
            i <= parts.len(),
            r@ == calls(parts@.take(i as int)),
        decreases parts.len() - i,
    {
        match &parts[i] {
            Part::FunctionCall(c) => {
                r.push(c.clone());
            },
            _ => {},
        }
        assert(parts@.take(i + 1).drop_last() =~= parts@.take(i as int));
        i += 1;
    }
    assert(parts@.take(i as int) =~= parts@);
    r
}

/// Whether a batch asks for any tool call.
pub fn has_pending_calls(batch: &Vec<ContentResponse>) -> (r: bool)
    ensures
        r == (pending_calls(batch@).len() > 0),
{
    pending_calls_of(batch).len() > 0
}

/// The block of declared names holds `name`.
pub open spec fn block_declares(block: Seq<String>, name: Seq<char>) -> bool {
    exists|k: int| 0 <= k < block.len() && (#[trigger] block[k])@ == name
}

/// The first block of declared tools that holds `name`; block `i` belongs to tool client `i`.
pub open spec fn declaring_block(tools: Seq<Vec<String>>, name: Seq<char>) -> Option<int>
    decreases tools.len(),
{
    if tools.len() == 0 {
        None
    } else {
        match declaring_block(tools.drop_last(), name) {
            Some(i) => Some(i),
            None => if block_declares(tools.last()@, name) {
                Some(tools.len() - 1)
            } else {
                None
            },
        }
    }
}

/// Once a prefix of the blocks declares `name`, the whole sequence resolves it the same way.
proof fn lemma_declaring_block_extends(tools: Seq<Vec<String>>, n: int, name: Seq<char>)
    requires
        0 <= n <= tools.len(),
        declaring_block(tools.take(n), name) is Some,
    ensures
        declaring_block(tools, name) == declaring_block(tools.take(n), name),
    decreases tools.len() - n,
{
    if n < tools.len() {
        assert(tools.take(n + 1).drop_last() =~= tools.take(n));
        lemma_declaring_block_extends(tools, n + 1, name);
    } else {
        assert(tools.take(n) =~= tools);
    }
}

/// The first block of declared tools that holds `name`.
pub fn find_declaring_block(tools: &Vec<Vec<String>>, name: &String) -> (r: Option<usize>)
    ensures
        match r {
            Some(i) => declaring_block(tools@, name@) == Some(i as int),
            None => declaring_block(tools@, name@) is None,
        },
{
    let mut i: usize = 0;
    while i < tools.len()
        invariant
            i <= tools.len(),
            declaring_block(tools@.take(i as int), name@) is None,
        decreases tools.len() - i,
    {
        let block = &tools[i];
        assert(tools@.take(i + 1).drop_last() =~= tools@.take(i as int));
        let mut j: usize = 0;
        while j < block.len()
            invariant
                i < tools.len(),
                block == tools@[i as int],
                declaring_block(tools@.take(i as int), name@) is None,
                j <= block.len(),
                forall|k: int| 0 <= k < j ==> (#[trigger] block@[k])@ != name@,
            decreases block.len() - j,
        {
            if same_text(block[j].as_str(), name.as_str()) {
                assert(block_declares(block@, name@));
                assert(tools@.take(i + 1).drop_last() =~= tools@.take(i as int));
                assert(tools@.take(i + 1).last() == tools@[i as int]);
                assert(declaring_block(tools@.take(i + 1), name@) == Some(i as int));
                proof {
                    lemma_declaring_block_extends(tools@, i + 1, name@);
                }
                return Some(i);
            }
            j += 1;
        }
        i += 1;
    }
    assert(tools@.take(i as int) =~= tools@);
    None
}

/// The result parts for one invocation: one per returned item, tagged with the tool's name.
pub open spec fn responses_for(name: String, payloads: Seq<JsonObject>) -> Seq<Part> {
    payloads.map_values(
        |p: JsonObject| Part::FunctionResponse(FunctionResponse { id: None, name: name, response: p }),
    )
}

/// The result parts of a dispatch cycle whose first invocations returned `received`,
/// in the order of the calls.
pub open spec fn cycle_parts(calls: Seq<FunctionCall>, received: Seq<Seq<JsonObject>>) -> Seq<Part>
    decreases received.len(),
{
    if received.len() == 0 {
        seq![]
    } else {
        cycle_parts(calls, received.drop_last()) + responses_for(
            calls[received.len() - 1].name,
            received.last(),
        )
    }
}

/// What the caller has to do next.
#[derive(Debug)]
pub enum Step {
    /// Post the conversation (see `Client::outgoing`) and hand the reply to `Client::receive`.
    Post,
    /// Invoke `call` on tool client number `client` and hand the result to `Client::tool_result`.
    Invoke { client: usize, call: FunctionCall },
    /// The send is complete: the final, tool-free reply.
    Done(Responses),
    /// The send failed.
    Failed(ClientError),
}

/// What a run of tool results returned, taking a failure as nothing returned.
pub open spec fn payloads(rs: Seq<Result<Vec<JsonObject>, ClientError>>) -> Seq<Seq<JsonObject>> {
    rs.map_values(
        |r: Result<Vec<JsonObject>, ClientError>|
            match r {
                Ok(v) => v@,
                Err(_) => Seq::<JsonObject>::empty(),
            },
    )
}

/// A dispatch cycle in progress: the calls of one batch, the index of the call being
/// invoked, and the result parts of the calls before it.
struct Dispatch {
    calls: Vec<FunctionCall>,
    next: usize,
    results: Vec<Part>,
    received: Ghost<Seq<Seq<JsonObject>>>,
}

/// The state of one conversation: the model, its settings, the declared tools and the
/// history of turns, which only ever grows.
pub struct Client {
    model: GoogleModel,
    key: String,
    system_instruction: Option<Content>,
    contents: Vec<Content>,
    tools: Vec<Vec<String>>,
    safety_settings: Vec<SafetySettings>,
    response_modalities: Option<Vec<Modality>>,
    pending_user: Option<Content>,
    dispatch: Option<Dispatch>,
}

/// The pending user turn as a sequence of zero or one turns.
pub open spec fn pending_seq(t: Option<Turn>) -> Seq<Turn> {
    match t {
        Some(t) => seq![t],
        None => seq![],
    }
}

/// The history after a batch consolidates: the send's pending user turn, if any,
/// then the model turns of the batch.
pub open spec fn consolidated(h: Seq<Turn>, pending: Option<Turn>, b: Seq<ContentResponse>) -> Seq<
    Turn,
> {
    h + pending_seq(pending) + batch_turns(b)
}

/// A user turn with an optional text part followed by an inline image.
pub open spec fn is_image_turn(
    t: Turn,
    message: Option<Seq<char>>,
    mime_type: Seq<char>,
    data: Seq<char>,
) -> bool {
    let image = t.parts.last();
    &&& t.role == Role::User
    &&& t.parts.len() == (if message is Some { 2int } else { 1int })
    &&& image matches Part::InlineData(b) && b.mime_type@ == mime_type && b.data@ == data
    &&& message matches Some(m) ==> t.parts[0] matches Part::Text(s) && s@ == m
}

impl Client {
    /// The turns of the conversation so far.
    pub closed spec fn turns(&self) -> Seq<Turn> {
        turns_of(self.contents@)
    }

    /// The blocks of declared tool names; block `i` belongs to tool client `i`.
    pub closed spec fn declared(&self) -> Seq<Vec<String>> {
        self.tools@
    }

    pub closed spec fn variant(&self) -> GoogleModelVariant {
        self.model.variant
    }

    pub closed spec fn model_name(&self) -> Seq<char> {
        self.model.name@
    }

    pub closed spec fn model_input(&self) -> Seq<Modality> {
        self.model.input@
    }

    pub closed spec fn model_output(&self) -> Seq<Modality> {
        self.model.output@
    }

    /// The user turn of the send in progress, kept out of the history until the
    /// first reply to it consolidates.
    pub closed spec fn pending_user(&self) -> Option<Turn> {
        match self.pending_user {
            Some(c) => Some(c@),
            None => None,
        }
    }

    pub closed spec fn api_key(&self) -> Seq<char> {
        self.key@
    }

    pub closed spec fn safety(&self) -> Seq<SafetySettings> {
        self.safety_settings@
    }

    pub closed spec fn system_turn(&self) -> Option<Turn> {
        match self.system_instruction {
            Some(c) => Some(c@),
            None => None,
        }
    }

    pub closed spec fn modalities(&self) -> Option<Seq<Modality>> {
        match self.response_modalities {
            Some(m) => Some(m@),
            None => None,
        }
    }

    /// A dispatch cycle is in progress.
    pub closed spec fn dispatching(&self) -> bool {
        self.dispatch is Some
    }

    /// The calls of the cycle in progress.
    pub closed spec fn pending(&self) -> Seq<FunctionCall> {
        self.dispatch->0.calls@
    }

    /// The index of the call being invoked.
    pub closed spec fn next_call(&self) -> int {
        self.dispatch->0.next as int
    }

    /// What the calls before it returned.
    pub closed spec fn received(&self) -> Seq<Seq<JsonObject>> {
        self.dispatch->0.received@
    }

    pub closed spec fn wf(&self) -> bool {
        match self.dispatch {
            Some(d) => {
                &&& d.next < d.calls@.len()
                &&& d.received@.len() == d.next
                &&& d.results@ == cycle_parts(d.calls@, d.received@)
            },
            None => true,
        }
    }

    /// Everything but the history and the dispatch state is as in `other`.
    pub open spec fn same_setup(&self, other: &Client) -> bool {
        &&& self.variant() == other.variant()
        &&& self.model_name() == other.model_name()
        &&& self.model_input() == other.model_input()
        &&& self.model_output() == other.model_output()
        &&& self.api_key() == other.api_key()
        &&& self.system_turn() == other.system_turn()
        &&& self.declared() == other.declared()
        &&& self.safety() == other.safety()
        &&& self.modalities() == other.modalities()
    }

    /// The dispatch state is as in `other`.
    pub open spec fn same_dispatch(&self, other: &Client) -> bool {
        &&& self.dispatching() == other.dispatching()
        &&& self.pending() == other.pending()
        &&& self.next_call() == other.next_call()
        &&& self.received() == other.received()
    }

    /// The step after resolving call `n` of `calls`: its invocation, with the cycle
    /// state recorded, or `NotFound` when no declared block holds its name.
    pub open spec fn resolved_step(
        &self,
        r: Step,
        calls: Seq<FunctionCall>,
        n: int,
        received: Seq<Seq<JsonObject>>,
    ) -> bool {
        match declaring_block(self.declared(), calls[n].name@) {
            Some(i) => {
                &&& r == (Step::Invoke { client: i as usize, call: calls[n] })
                &&& self.dispatching()
                &&& self.pending() == calls
                &&& self.next_call() == n
                &&& self.received() == received
            },
            None => {
                &&& !self.dispatching()
                &&& r matches Step::Failed(ClientError::NotFound(msg)) && msg@ == calls[n].name@
            },
        }
    }

    /// Consolidates a batch of fragments in arrival order. The first fragment that
    /// carries an error ends it: the error is returned, and neither the pending user
    /// turn of the send nor any turn of the batch is kept. Otherwise the pending user
    /// turn, then the turn of each candidate with parts, as a model turn, are added to
    /// the history, and the batch is handed back whole.
    pub fn merge_response(&mut self, responses: Vec<ContentResponse>) -> (r: Result<
        Vec<ContentResponse>,
        ClientError,
    >)
        requires
            old(self).wf(),
        ensures
            final(self).wf(),
            final(self).same_setup(old(self)),
            final(self).same_dispatch(old(self)),
            final(self).pending_user() is None,
            match batch_error(responses@) {
                Some(e) => {
                    &&& final(self).turns() == old(self).turns()
                    &&& r matches Err(ClientError::Request { code, message }) && code == e.code
                        && message == e.message
                },
                None => {
                    &&& final(self).turns() == consolidated(
                        old(self).turns(),
                        old(self).pending_user(),
                        responses@,
                    )
                    &&& r matches Ok(v) && v@ == responses@
                },
            },
    {
        let mut staged: Vec<Content> = Vec::new();
        match &self.pending_user {
            Some(t) => staged.push(t.clone()),
            None => {},
        }
        assert(turns_of(staged@) =~= pending_seq(self.pending_user()));
        assert(responses@.take(0) =~= Seq::<ContentResponse>::empty());
        let mut i: usize = 0;
        while i < responses.len()
            invariant
                i <= responses.len(),
                *self == *old(self),
                self.wf(),
                batch_error(responses@.take(i as int)) is None,
                turns_of(staged@) == pending_seq(self.pending_user()) + batch_turns(
                    responses@.take(i as int),
                ),
            decreases responses.len() - i,
        {
            let fragment = &responses[i];
            assert(responses@.take(i + 1).drop_last() =~= responses@.take(i as int));
            match &fragment.error {
                Some(e) => {
                    proof {
                        lemma_batch_error_extends(responses@, i + 1);
                    }
                    let err = ClientError::Request { code: e.code, message: e.message.clone() };
                    self.pending_user = None;
                    return Err(err);
                },
                None => {},
            }
            let cs = &fragment.candidates;
            let ghost before = staged@;
            let mut j: usize = 0;
            while j < cs.len()
                invariant
                    j <= cs.len(),
                    turns_of(staged@) == turns_of(before) + candidates_turns(cs@.take(j as int)),
                decreases cs.len() - j,
            {
                assert(cs@.take(j + 1).drop_last() =~= cs@.take(j as int));
                assert(cs@.take(j + 1).last() == cs@[j as int]);
                if cs[j].content.parts.len() > 0 {
                    let ghost prev = staged@;
                    let copy = cs[j].content.clone();
                    let turn = Content { parts: copy.parts, role: Role::Model };
                    staged.push(turn);
                    assert(turns_of(staged@) =~= turns_of(prev).push(
                        Turn { role: Role::Model, parts: cs@[j as int].content.parts@ },
                    ));
                    assert(turns_of(staged@) =~= turns_of(before) + candidates_turns(
                        cs@.take(j + 1),
                    ));
                }
                j += 1;
            }
            assert(cs@.take(j as int) =~= cs@);
            i += 1;
        }
        assert(responses@.take(i as int) =~= responses@);
        let ghost old_contents = self.contents@;
        let ghost staged_all = staged@;
        self.contents.append(&mut staged);
        self.pending_user = None;
        assert(turns_of(self.contents@) =~= turns_of(old_contents) + turns_of(staged_all));
        Ok(responses)
    }
}

impl Client {
    /// Resolves call `next` of a dispatch cycle: records the cycle and asks for the
    /// invocation, or ends the cycle with `NotFound`.
    fn advance(
        &mut self,
        calls: Vec<FunctionCall>,
        next: usize,
        results: Vec<Part>,
        received: Ghost<Seq<Seq<JsonObject>>>,
    ) -> (r: Step)
        requires
            next < calls@.len(),
            received@.len() == next,
            results@ == cycle_parts(calls@, received@),
        ensures
            final(self).wf(),
            final(self).same_setup(old(self)),
            final(self).turns() == old(self).turns(),
            final(self).pending_user() == old(self).pending_user(),
            final(self).resolved_step(r, calls@, next as int, received@),
    {
        match find_declaring_block(&self.tools, &calls[next].name) {
            Some(client) => {
                let call = calls[next].clone();
                self.dispatch = Some(Dispatch { calls, next, results, received });
                Step::Invoke { client, call }
            },
            None => {
                let name = calls[next].name.clone();
                self.dispatch = None;
                Step::Failed(ClientError::NotFound(name))
            },
        }
    }

    /// Takes the reply to a posted request. A transport failure or an error fragment
    /// fails the send, and the history stays as it was before the send: the send's
    /// user turn is dropped with the batch. Otherwise the user turn and the batch are
    /// consolidated into the history. A batch
    /// without tool calls completes the send; one with tool calls starts a dispatch
    /// cycle with its first call.
    pub fn receive(&mut self, reply: Result<Vec<ContentResponse>, ClientError>) -> (r: Step)
        requires
            old(self).wf(),
        ensures
            final(self).wf(),
            final(self).same_setup(old(self)),
            final(self).pending_user() is None,
            match reply {
                Err(e) => {
                    &&& r == Step::Failed(e)
                    &&& final(self).turns() == old(self).turns()
                    &&& !final(self).dispatching()
                },
                Ok(b) => match batch_error(b@) {
                    Some(e) => {
                        &&& final(self).turns() == old(self).turns()
                        &&& !final(self).dispatching()
                        &&& r matches Step::Failed(ClientError::Request { code, message })
                            && code == e.code && message == e.message
                    },
                    None => {
                        &&& final(self).turns() == consolidated(
                            old(self).turns(),
                            old(self).pending_user(),
                            b@,
                        )
                        &&& pending_calls(b@).len() == 0 ==> {
                            &&& !final(self).dispatching()
                            &&& r matches Step::Done(resp) && resp.0@ == b@
                        }
                        &&& pending_calls(b@).len() > 0 ==> final(self).resolved_step(
                            r,
                            pending_calls(b@),
                            0,
                            seq![],
                        )
                    },
                },
            },
    {
        self.dispatch = None;
        match reply {
            Err(e) => {
                self.pending_user = None;
                Step::Failed(e)
            },
            Ok(batch) => match self.merge_response(batch) {
                Err(e) => Step::Failed(e),
                Ok(batch) => {
                    let calls = pending_calls_of(&batch);
                    if calls.len() == 0 {
                        Step::Done(Responses(batch))
                    } else {
                        let ghost none: Seq<Seq<JsonObject>> = seq![];
                        self.advance(calls, 0, Vec::new(), Ghost(none))
                    }
                },
            },
        }
    }

    /// Takes what the invoked tool returned. A failure ends the cycle and the send,
    /// with no turn added. Otherwise each returned item becomes one result part
    /// tagged with the tool's name; the next call is resolved, and after the last
    /// one all result parts of the cycle are added as a single user turn and the
    /// conversation is to be posted again.
    pub fn tool_result(&mut self, reply: Result<Vec<JsonObject>, ClientError>) -> (r: Step)
        requires
            old(self).wf(),
            old(self).dispatching(),
        ensures
            final(self).wf(),
            final(self).same_setup(old(self)),
            final(self).pending_user() == old(self).pending_user(),
            match reply {
                Err(e) => {
                    &&& r == Step::Failed(e)
                    &&& final(self).turns() == old(self).turns()
                    &&& !final(self).dispatching()
                },
                Ok(p) => {
                    let received = old(self).received().push(p@);
                    if old(self).next_call() + 1 < old(self).pending().len() {
                        &&& final(self).turns() == old(self).turns()
                        &&& final(self).resolved_step(
                            r,
                            old(self).pending(),
                            old(self).next_call() + 1,
                            received,
                        )
                    } else {
                        &&& final(self).turns() == old(self).turns().push(
                            Turn { role: Role::User, parts: cycle_parts(old(self).pending(), received) },
                        )
                        &&& r == Step::Post
                        &&& !final(self).dispatching()
                    }
                },
            },
    {
        let Dispatch { calls, next, mut results, received } = self.dispatch.take().unwrap();
        assert(next < calls@.len());
        match reply {
            Err(e) => Step::Failed(e),
            Ok(payloads) => {
                let name = calls[next].name.clone();
                let ghost base = results@;
                let mut k: usize = 0;
                while k < payloads.len()
                    invariant
                        k <= payloads.len(),
                        results@ == base + responses_for(name, payloads@.take(k as int)),
                    decreases payloads.len() - k,
                {
                    let response = payloads[k].clone();
                    results.push(
                        Part::FunctionResponse(FunctionResponse { id: None, name: name.clone(), response }),
                    );
                    assert(results@ =~= base + responses_for(name, payloads@.take(k + 1)));
                    k += 1;
                }
                assert(payloads@.take(k as int) =~= payloads@);
                let ghost all = received@.push(payloads@);
                assert(all.drop_last() =~= received@);
                assert(results@ == cycle_parts(calls@, all));
                if next < calls.len() - 1 {
                    self.advance(calls, next + 1, results, Ghost(all))
                } else {
                    self.contents.push(Content { parts: results, role: Role::User });
                    Step::Post
                }
            },
        }
    }

    /// Hands over, in call order, what each remaining invocation of the cycle in
    /// progress returned, for a caller that invokes a cycle's tools together. Each is
    /// taken as `tool_result` takes it, and the first step that is not a further
    /// invocation is returned. When every invocation succeeded and every later call
    /// names a declared tool, the whole cycle adds exactly one user turn, holding the
    /// result parts of all calls in the order of the calls.
    pub fn tool_results(&mut self, replies: Vec<Result<Vec<JsonObject>, ClientError>>) -> (r: Step)
        requires
            old(self).wf(),
            old(self).dispatching(),
            replies@.len() == old(self).pending().len() - old(self).next_call(),
        ensures
            final(self).wf(),
            final(self).same_setup(old(self)),
            final(self).pending_user() == old(self).pending_user(),
            r is Post || r is Failed,
            r is Failed ==> final(self).turns() == old(self).turns() && !final(self).dispatching(),
            r is Post ==> {
                &&& !final(self).dispatching()
                &&& final(self).turns() == old(self).turns().push(
                    Turn {
                        role: Role::User,
                        parts: cycle_parts(old(self).pending(), old(self).received() + payloads(replies@)),
                    },
                )
            },
            (forall|k: int| 0 <= k < replies@.len() ==> (#[trigger] replies@[k]) is Ok) && (forall|j: int|
                old(self).next_call() < j < old(self).pending().len() ==> #[trigger] declaring_block(
                    old(self).declared(),
                    old(self).pending()[j].name@,
                ) is Some) ==> r is Post,
        decreases replies@.len(),
    {
        let ghost all = replies@;
        let ghost before_received = self.received();
        let ghost start = self.next_call();
        let mut rest = replies;
        let reply = rest.remove(0);
        let ghost this = all[0];
        assert(payloads(all) =~= seq![payloads(all)[0]] + payloads(rest@));
        assert(payloads(all)[0] == match this {
            Ok(v) => v@,
            Err(_) => Seq::<JsonObject>::empty(),
        });
        assert(forall|k: int| 0 <= k < rest@.len() ==> rest@[k] == all[k + 1]);
        let step = self.tool_result(reply);
        match step {
            Step::Invoke { client, call } => {
                let ghost mid = *self;
                let r = self.tool_results(rest);
                proof {
                    assert(mid.received() == before_received.push(payloads(all)[0]));
                    assert(mid.received() + payloads(rest@) =~= before_received + payloads(all));
                    if (forall|k: int| 0 <= k < all.len() ==> (#[trigger] all[k]) is Ok) && (forall|
                        j: int,
                    |
                        start < j < old(self).pending().len() ==> #[trigger] declaring_block(
                            old(self).declared(),
                            old(self).pending()[j].name@,
                        ) is Some) {
                        assert forall|k: int| 0 <= k < rest@.len() implies (#[trigger] rest@[k]) is Ok by {
                            assert(all[k + 1] is Ok);
                        }
                        assert forall|j: int|
                            mid.next_call() < j < mid.pending().len() implies #[trigger] declaring_block(
                            mid.declared(),
                            mid.pending()[j].name@,
                        ) is Some by {
                            assert(declaring_block(
                                old(self).declared(),
                                old(self).pending()[j].name@,
                            ) is Some);
                        }
                    }
                }
                r
            },
            other => {
                proof {
                    if other is Post {
                        assert(this is Ok);
                        assert(rest@.len() == 0);
                        assert(before_received.push(payloads(all)[0]) =~= before_received + payloads(all));
                    } else {
                        if (forall|k: int| 0 <= k < all.len() ==> (#[trigger] all[k]) is Ok) && (forall|
                            j: int,
                        |
                            start < j < old(self).pending().len() ==> #[trigger] declaring_block(
                                old(self).declared(),
                                old(self).pending()[j].name@,
                            ) is Some) {
                            assert(this is Ok);
                            if rest@.len() > 0 {
                                assert(declaring_block(
                                    old(self).declared(),
                                    old(self).pending()[start + 1].name@,
                                ) is Some);
                            }
                            assert(false);
                        }
                    }
                }
                other
            },
        }
    }

    /// Starts a send: the user turn is held as pending until the reply to it
    /// consolidates.
    fn push_user_turn(&mut self, parts: Vec<Part>) -> (r: Step)
        ensures
            final(self).wf(),
            final(self).same_setup(old(self)),
            final(self).turns() == old(self).turns(),
            final(self).pending_user() == Some(Turn { role: Role::User, parts: parts@ }),
            !final(self).dispatching(),
            r == Step::Post,
    {
        self.dispatch = None;
        self.pending_user = Some(Content { parts, role: Role::User });
        Step::Post
    }

    /// Sends text as a user turn; the conversation is then to be posted.
    pub fn send_text(&mut self, text: &str) -> (r: Step)
        ensures
            final(self).wf(),
            final(self).same_setup(old(self)),
            final(self).turns() == old(self).turns(),
            final(self).pending_user() matches Some(t) && is_text_turn(t, Role::User, text@),
            !final(self).dispatching(),
            r == Step::Post,
    {
        self.push_user_turn(vec![Part::Text(text.to_string())])
    }

    /// Sends an inline image.
    pub fn send_image(&mut self, blob: &Blob) -> (r: Step)
        ensures
            final(self).wf(),
            final(self).same_setup(old(self)),
            final(self).turns() == old(self).turns(),
            final(self).pending_user() == Some(
                Turn { role: Role::User, parts: seq![Part::InlineData(*blob)] },
            ),
            !final(self).dispatching(),
            r == Step::Post,
    {
        let parts = vec![Part::InlineData(blob.clone())];
        assert(parts@ =~= seq![Part::InlineData(*blob)]);
        self.push_user_turn(parts)
    }

    /// Sends a file reference.
    pub fn send_file_data(&mut self, data: &FileData) -> (r: Step)
        ensures
            final(self).wf(),
            final(self).same_setup(old(self)),
            final(self).turns() == old(self).turns(),
            final(self).pending_user() == Some(
                Turn { role: Role::User, parts: seq![Part::FileData(*data)] },
            ),
            !final(self).dispatching(),
            r == Step::Post,
    {
        let parts = vec![Part::FileData(data.clone())];
        assert(parts@ =~= seq![Part::FileData(*data)]);
        self.push_user_turn(parts)
    }

    /// Sends an image given as base64 text, with optional text before it, as one turn.
    pub fn send_image_bytes(&mut self, message: Option<String>, mime_type: &str, data: &str) -> (r:
        Step)
        ensures
            final(self).wf(),
            final(self).same_setup(old(self)),
            final(self).turns() == old(self).turns(),
            final(self).pending_user() matches Some(t) && is_image_turn(
                t,
                suffix_view(message),
                mime_type@,
                data@,
            ),
            !final(self).dispatching(),
            r == Step::Post,
    {
        let mut parts: Vec<Part> = Vec::new();
        match message {
            Some(message) => parts.push(Part::Text(message)),
            None => {},
        }
        parts.push(Part::InlineData(Blob { mime_type: mime_type.to_string(), data: data.to_string() }));
        self.push_user_turn(parts)
    }

    /// Sends the bytes of an image file, with optional text before it: the media type
    /// is detected from the bytes and the bytes are sent as URL-safe base64.
    pub fn send_image_file(&mut self, message: Option<String>, bytes: &[u8]) -> (r: Step)
        requires
            bytes@.len() <= usize::MAX / 2,
        ensures
            final(self).wf(),
            final(self).same_setup(old(self)),
            final(self).turns() == old(self).turns(),
            final(self).pending_user() matches Some(t) && is_image_turn(
                t,
                suffix_view(message),
                media_type_of(bytes@),
                base64_url_of(bytes@),
            ),
            !final(self).dispatching(),
            r == Step::Post,
    {
        let media_type = detect_media_type(bytes);
        let data = encode_base64_url(bytes);
        self.send_image_bytes(message, media_type.as_str(), data.as_str())
    }

    /// The conversation as it is to be posted: the history, then the pending user
    /// turn of the send in progress, if any.
    pub fn outgoing(&self) -> (r: Vec<Content>)
        ensures
            turns_of(r@) == self.turns() + pending_seq(self.pending_user()),
    {
        let mut r: Vec<Content> = Vec::new();
        let mut i: usize = 0;
        while i < self.contents.len()
            invariant
                i <= self.contents.len(),
                turns_of(r@) == turns_of(self.contents@.take(i as int)),
            decreases self.contents.len() - i,
        {
            let ghost prev = r@;
            r.push(self.contents[i].clone());
            assert(self.contents@.take(i + 1) =~= self.contents@.take(i as int).push(
                self.contents@[i as int],
            ));
            assert(turns_of(r@) =~= turns_of(prev).push(self.contents@[i as int]@));
            assert(turns_of(r@) =~= turns_of(self.contents@.take(i + 1)));
            i += 1;
        }
        assert(self.contents@.take(i as int) =~= self.contents@);
        let ghost before = r@;
        match &self.pending_user {
            Some(t) => r.push(t.clone()),
            None => {},
        }
        assert(turns_of(r@) =~= turns_of(before) + pending_seq(self.pending_user()));
        r
    }
}

pub const URL_BASE: &'static str = "https://generativelanguage.googleapis.com/v1beta/models";

pub const URL_EXTENSION: &'static str = ":streamGenerateContent";

/// Every harm category, in declaration order.
pub open spec fn all_categories() -> Seq<HarmCategory> {
    seq![
        HarmCategory::HarmCategoryHarassment,
        HarmCategory::HarmCategoryHateSpeech,
        HarmCategory::HarmCategorySexuallyExplicit,
        HarmCategory::HarmCategoryDangerousContent,
        HarmCategory::HarmCategoryCivicIntegrity,
    ]
}

/// The default threshold for every harm category.
pub open spec fn default_safety() -> Seq<SafetySettings> {
    all_categories().map_values(
        |c: HarmCategory| SafetySettings { category: c, threshold: HarmBlockThreshold::BlockLowAndAbove },
    )
}

/// The response modalities that a model is asked for by default.
pub open spec fn default_modalities(v: GoogleModelVariant) -> Seq<Modality> {
    match v {
        GoogleModelVariant::Gemini20FlashExpImageGen => seq![Modality::Text, Modality::Image],
        _ => seq![Modality::Text],
    }
}

/// The response modalities used when `requested` is asked for: only the
/// image-generation model may answer with anything but text.
pub open spec fn granted_modalities(v: GoogleModelVariant, requested: Seq<Modality>) -> Seq<Modality> {
    match v {
        GoogleModelVariant::Gemini20FlashExpImageGen => requested,
        _ => seq![Modality::Text],
    }
}

/// A tool that a tool client offers: its name, and whether its parameter schema
/// could be mapped to the schema that requests declare.
#[derive(Debug, Clone)]
pub struct ToolSpec {
    pub name: String,
    pub schema_mapped: bool,
}

/// The names of the tools of a block that can be declared, in order.
pub open spec fn declarable(block: Seq<ToolSpec>) -> Seq<String>
    decreases block.len(),
{
    if block.len() == 0 {
        seq![]
    } else if block.last().schema_mapped {
        declarable(block.drop_last()).push(block.last().name)
    } else {
        declarable(block.drop_last())
    }
}

/// The names of the tools of a block that can be declared, in order.
pub fn declarable_names(block: &Vec<ToolSpec>) -> (r: Vec<String>)
    ensures
        r@ == declarable(block@),
{
    let mut r: Vec<String> = Vec::new();
    let mut i: usize = 0;
    while i < block.len()
        invariant
            i <= block.len(),
            r@ == declarable(block@.take(i as int)),
        decreases block.len() - i,
    {
        assert(block@.take(i + 1).drop_last() =~= block@.take(i as int));
        if block[i].schema_mapped {
            r.push(block[i].name.clone());
        }
        i += 1;
    }
    assert(block@.take(i as int) =~= block@);
    r
}

/// Every harm category, in declaration order.
pub fn harm_categories() -> (r: Vec<HarmCategory>)
    ensures
        r@ == all_categories(),
{
    let r = vec![
        HarmCategory::HarmCategoryHarassment,
        HarmCategory::HarmCategoryHateSpeech,
        HarmCategory::HarmCategorySexuallyExplicit,
        HarmCategory::HarmCategoryDangerousContent,
        HarmCategory::HarmCategoryCivicIntegrity,
    ];
    assert(r@ =~= all_categories());
    r
}

impl Client {
    /// A conversation with the given model and key, with an empty history, no tools
    /// and no settings.
    pub fn new(model: &GoogleModel, key: &str) -> (r: Client)
        ensures
            r.wf(),
            r.turns() == Seq::<Turn>::empty(),
            !r.dispatching(),
            r.variant() == model.variant,
            r.model_name() == model.name@,
            r.model_input() == model.input@,
            r.model_output() == model.output@,
            r.api_key() == key@,
            r.pending_user() is None,
            r.declared().len() == 0,
            r.safety().len() == 0,
            r.system_turn() is None,
            r.modalities() is None,
    {
        Client {
            model: model.clone(),
            key: key.to_string(),
            system_instruction: None,
            contents: Vec::new(),
            tools: Vec::new(),
            safety_settings: Vec::new(),
            response_modalities: None,
            pending_user: None,
            dispatch: None,
        }
    }

    /// Sets the default threshold for every harm category and the model's default
    /// response modalities.
    pub fn with_defaults(self) -> (r: Client)
        requires
            self.wf(),
        ensures
            r.wf(),
            r.turns() == self.turns(),
            r.pending_user() == self.pending_user(),
            r.same_dispatch(&self),
            r.variant() == self.variant(),
            r.model_name() == self.model_name(),
            r.declared() == self.declared(),
            r.system_turn() == self.system_turn(),
            r.safety() == default_safety(),
            r.modalities() == Some(default_modalities(self.variant())),
    {
        let mut r = self;
        let categories = harm_categories();
        let mut safety: Vec<SafetySettings> = Vec::new();
        let mut i: usize = 0;
        while i < categories.len()
            invariant
                i <= categories.len(),
                categories@ == all_categories(),
                safety@ == default_safety().take(i as int),
            decreases categories.len() - i,
        {
            safety.push(SafetySettings { category: categories[i], threshold: HarmBlockThreshold::default() });
            assert(safety@ =~= default_safety().take(i + 1));
            i += 1;
        }
        assert(safety@ =~= default_safety());
        let modalities = match r.model.variant {
            GoogleModelVariant::Gemini20FlashExpImageGen => vec![Modality::Text, Modality::Image],
            _ => vec![Modality::Text],
        };
        assert(modalities@ =~= default_modalities(r.model.variant));
        r.safety_settings = safety;
        r.response_modalities = Some(modalities);
        r
    }

    /// Sets the given safety settings.
    pub fn with_safety(self, safety_settings: &[SafetySettings]) -> (r: Client)
        requires
            self.wf(),
        ensures
            r.wf(),
            r.turns() == self.turns(),
            r.pending_user() == self.pending_user(),
            r.same_dispatch(&self),
            r.variant() == self.variant(),
            r.model_name() == self.model_name(),
            r.declared() == self.declared(),
            r.system_turn() == self.system_turn(),
            r.modalities() == self.modalities(),
            r.safety() == safety_settings@,
    {
        let mut r = self;
        let mut safety: Vec<SafetySettings> = Vec::new();
        let mut i: usize = 0;
        while i < safety_settings.len()
            invariant
                i <= safety_settings@.len(),
                safety@ == safety_settings@.take(i as int),
            decreases safety_settings@.len() - i,
        {
            safety.push(safety_settings[i]);
            assert(safety@ =~= safety_settings@.take(i + 1));
            i += 1;
        }
        assert(safety@ =~= safety_settings@);
        r.safety_settings = safety;
        r
    }

    /// Sets the system instructions. The image-generation model takes none, so for it
    /// the instructions are put first in the history as a user turn instead.
    pub fn with_instructions(self, system_instruction: &str) -> (r: Client)
        requires
            self.wf(),
        ensures
            r.wf(),
            r.pending_user() == self.pending_user(),
            r.same_dispatch(&self),
            r.variant() == self.variant(),
            r.model_name() == self.model_name(),
            r.declared() == self.declared(),
            r.safety() == self.safety(),
            r.modalities() == self.modalities(),
            self.variant() == GoogleModelVariant::Gemini20FlashExpImageGen ==> {
                &&& r.system_turn() == self.system_turn()
                &&& r.turns().len() == self.turns().len() + 1
                &&& r.turns().drop_first() == self.turns()
                &&& is_text_turn(r.turns()[0], Role::User, system_instruction@)
            },
            self.variant() != GoogleModelVariant::Gemini20FlashExpImageGen ==> {
                &&& r.turns() == self.turns()
                &&& r.system_turn() matches Some(t) && is_text_turn(t, Role::User, system_instruction@)
            },
    {
        let mut r = self;
        let turn = Content::from_text(Role::User, system_instruction);
        match r.model.variant {
            GoogleModelVariant::Gemini20FlashExpImageGen => {
                let ghost before = r.contents@;
                let mut contents: Vec<Content> = vec![turn];
                let ghost first = contents@;
                contents.append(&mut r.contents);
                assert(turns_of(contents@).drop_first() =~= turns_of(before));
                r.contents = contents;
            },
            _ => {
                r.system_instruction = Some(turn);
            },
        }
        r
    }

    /// Sets the response modalities to ask for, as far as the model grants them.
    pub fn with_response_modalities(self, requested: &Vec<Modality>) -> (r: Client)
        requires
            self.wf(),
        ensures
            r.wf(),
            r.turns() == self.turns(),
            r.pending_user() == self.pending_user(),
            r.same_dispatch(&self),
            r.variant() == self.variant(),
            r.model_name() == self.model_name(),
            r.declared() == self.declared(),
            r.system_turn() == self.system_turn(),
            r.safety() == self.safety(),
            r.modalities() == Some(granted_modalities(self.variant(), requested@)),
    {
        let mut r = self;
        let modalities = match r.model.variant {
            GoogleModelVariant::Gemini20FlashExpImageGen => requested.clone(),
            _ => vec![Modality::Text],
        };
        assert(modalities@ =~= granted_modalities(r.model.variant, requested@));
        r.response_modalities = Some(modalities);
        r
    }

    /// Whether the model accepts tool declarations.
    pub fn supports_tools(&self) -> (r: bool)
        ensures
            r == (self.variant() != GoogleModelVariant::Gemini20FlashExpImageGen),
    {
        match self.model.variant {
            GoogleModelVariant::Gemini20FlashExpImageGen => false,
            _ => true,
        }
    }

    /// Declares the tools of the tool clients: block `i` lists what client `i`
    /// offers, and holds the names of those whose parameter schema could be mapped;
    /// a tool whose schema could not be mapped is left out. Fails, leaving the client
    /// as it was, for a model that takes no tools.
    pub fn with_tools_client(&mut self, tools: &Vec<Vec<ToolSpec>>) -> (r: Result<(), ClientError>)
        requires
            old(self).wf(),
        ensures
            final(self).wf(),
            final(self).turns() == old(self).turns(),
            final(self).pending_user() == old(self).pending_user(),
            final(self).same_dispatch(old(self)),
            final(self).variant() == old(self).variant(),
            final(self).model_name() == old(self).model_name(),
            final(self).model_input() == old(self).model_input(),
            final(self).model_output() == old(self).model_output(),
            final(self).api_key() == old(self).api_key(),
            final(self).system_turn() == old(self).system_turn(),
            final(self).safety() == old(self).safety(),
            final(self).modalities() == old(self).modalities(),
            match r {
                Err(ClientError::UnsupportedConfig(msg)) => {
                    &&& old(self).variant() == GoogleModelVariant::Gemini20FlashExpImageGen
                    &&& msg@ == "Model "@ + old(self).model_name() + " does not support tool calls"@
                    &&& final(self).declared() == old(self).declared()
                },
                Err(_) => false,
                Ok(()) => {
                    &&& old(self).variant() != GoogleModelVariant::Gemini20FlashExpImageGen
                    &&& final(self).declared().len() == tools@.len()
                    &&& forall|k: int|
                        0 <= k < tools@.len() ==> (#[trigger] final(self).declared()[k])@
                            == declarable(tools@[k]@)
                },
            },
    {
        if !self.supports_tools() {
            let msg = "Model ".to_string().concat(self.model.name.as_str()).concat(
                " does not support tool calls",
            );
            return Err(ClientError::UnsupportedConfig(msg));
        }
        let mut declared: Vec<Vec<String>> = Vec::new();
        let mut i: usize = 0;
        while i < tools.len()
            invariant
                i <= tools.len(),
                declared@.len() == i,
                forall|k: int| 0 <= k < i ==> (#[trigger] declared@[k])@ == declarable(tools@[k]@),
            decreases tools.len() - i,
        {
            declared.push(declarable_names(&tools[i]));
            i += 1;
        }
        self.tools = declared;
        Ok(())
    }

    /// The turns of the conversation so far, oldest first.
    pub fn history(&self) -> (r: &[Content])
        ensures
            turns_of(r@) == self.turns(),
    {
        self.contents.as_slice()
    }

    pub fn system_instruction(&self) -> (r: &Option<Content>)
        ensures
            match r {
                Some(c) => self.system_turn() == Some(c@),
                None => self.system_turn() is None,
            },
    {
        &self.system_instruction
    }

    pub fn safety_settings(&self) -> (r: &[SafetySettings])
        ensures
            r@ == self.safety(),
    {
        self.safety_settings.as_slice()
    }

    pub fn response_modalities(&self) -> (r: &Option<Vec<Modality>>)
        ensures
            match r {
                Some(m) => self.modalities() == Some(m@),
                None => self.modalities() is None,
            },
    {
        &self.response_modalities
    }

    pub fn declared_tools(&self) -> (r: &[Vec<String>])
        ensures
            r@ == self.declared(),
    {
        self.tools.as_slice()
    }

    pub fn model(&self) -> (r: &GoogleModel)
        ensures
            r.variant == self.variant(),
            r.name@ == self.model_name(),
            r.input@ == self.model_input(),
            r.output@ == self.model_output(),
    {
        &self.model
    }

    pub fn key(&self) -> (r: &str)
        ensures
            r@ == self.api_key(),
    {
        self.key.as_str()
    }

    /// Whether a dispatch cycle waits for a tool result.
    pub fn is_dispatching(&self) -> (r: bool)
        ensures
            r == self.dispatching(),
    {
        self.dispatch.is_some()
    }

    /// The streaming endpoint of the model.
    pub fn url(&self) -> (r: String)
        ensures
            r@ == URL_BASE@ + "/"@ + self.model_name() + URL_EXTENSION@,
    {
        URL_BASE.to_string().concat("/").concat(self.model.name.as_str()).concat(URL_EXTENSION)
    }
}

/// Once a prefix of a batch holds an error, the whole batch reports that error.
proof fn lemma_batch_error_extends(b: Seq<ContentResponse>, n: int)
    requires
        0 <= n <= b.len(),
        batch_error(b.take(n)) is Some,
    ensures
        batch_error(b) == batch_error(b.take(n)),
    decreases b.len() - n,
{
    if n < b.len() {
        assert(b.take(n + 1).drop_last() =~= b.take(n));
        lemma_batch_error_extends(b, n + 1);
    } else {
        assert(b.take(n) =~= b);
    }
}

/// The history after a run of sends that involve no tool: each send holds its user
/// turn as pending (`send_text` and the other sends), and `receive` consolidates its
/// reply onto the history as `consolidated` says.
pub open spec fn after_exchanges(
    h: Seq<Turn>,
    users: Seq<Turn>,
    replies: Seq<Seq<ContentResponse>>,
) -> Seq<Turn>
    decreases replies.len(),
{
    if replies.len() == 0 || users.len() == 0 {
        h
    } else {
        consolidated(
            after_exchanges(h, users.drop_last(), replies.drop_last()),
            Some(users.last()),
            replies.last(),
        )
    }
}

/// How many turns the model's replies add: one per candidate with parts.
pub open spec fn model_turn_count(replies: Seq<Seq<ContentResponse>>) -> nat
    decreases replies.len(),
{
    if replies.len() == 0 {
        0
    } else {
        model_turn_count(replies.drop_last()) + batch_turns(replies.last()).len()
    }
}

/// After N sends that involve no tool, the history has grown by exactly the turns
/// appended: N user turns and the model's turns of the N replies.
pub proof fn lemma_plain_sends_count_turns(
    h: Seq<Turn>,
    users: Seq<Turn>,
    replies: Seq<Seq<ContentResponse>>,
)
    requires
        users.len() == replies.len(),
    ensures
        after_exchanges(h, users, replies).len() == h.len() + replies.len() + model_turn_count(
            replies,
        ),
    decreases replies.len(),
{
    if replies.len() > 0 {
        lemma_plain_sends_count_turns(h, users.drop_last(), replies.drop_last());
    }
}

/// After N sends whose replies carry no error and no tool call, each reply having
/// exactly one candidate with parts, the history has grown by exactly two turns per
/// send: the user's and the model's.
pub proof fn lemma_plain_sends_add_two_turns_each(
    h: Seq<Turn>,
    users: Seq<Turn>,
    replies: Seq<Seq<ContentResponse>>,
)
    requires
        users.len() == replies.len(),
        forall|i: int|
            0 <= i < replies.len() ==> {
                &&& batch_error(#[trigger] replies[i]) is None
                &&& pending_calls(replies[i]).len() == 0
                &&& batch_turns(replies[i]).len() == 1
            },
    ensures
        after_exchanges(h, users, replies).len() == h.len() + 2 * replies.len(),
    decreases replies.len(),
{
    if replies.len() > 0 {
        let k = replies.len() - 1;
        assert(batch_turns(replies[k]).len() == 1);
        lemma_plain_sends_add_two_turns_each(h, users.drop_last(), replies.drop_last());
    }
}

/// A prefix of fragments without errors reports none.
proof fn lemma_no_error_prefix(b: Seq<ContentResponse>, n: int)
    requires
        0 <= n <= b.len(),
        forall|i: int| 0 <= i < n ==> (#[trigger] b[i]).error is None,
    ensures
        batch_error(b.take(n)) is None,
    decreases n,
{
    if n > 0 {
        assert(b.take(n).drop_last() =~= b.take(n - 1));
        lemma_no_error_prefix(b, n - 1);
    }
}

/// A batch whose fragment `m` carries an error, after `m` fragments that carry none,
/// reports exactly that error; so consolidating it adds none of the batch's turns
/// (see `Client::merge_response` and `Client::receive`).
pub proof fn lemma_error_after_successes(b: Seq<ContentResponse>, m: int)
    requires
        0 <= m < b.len(),
        b[m].error is Some,
        forall|i: int| 0 <= i < m ==> (#[trigger] b[i]).error is None,
    ensures
        batch_error(b) == b[m].error,
{
    lemma_no_error_prefix(b, m);
    assert(b.take(m + 1).drop_last() =~= b.take(m));
    assert(b.take(m + 1).last() == b[m]);
    lemma_batch_error_extends(b, m + 1);
}

/// A dispatch cycle of K invocations that each returned one item yields exactly K
/// result parts, in the order of the calls, each tagged with its call's tool name and
/// carrying no id; `Client::tool_result` and `Client::tool_results` add them as one
/// single user turn.
pub proof fn lemma_cycle_parts_one_per_call(
    calls: Seq<FunctionCall>,
    received: Seq<Seq<JsonObject>>,
)
    requires
        received.len() <= calls.len(),
        forall|i: int| 0 <= i < received.len() ==> (#[trigger] received[i]).len() == 1,
    ensures
        cycle_parts(calls, received).len() == received.len(),
        forall|i: int|
            0 <= i < received.len() ==> #[trigger] cycle_parts(calls, received)[i] == Part::FunctionResponse(
                FunctionResponse { id: None, name: calls[i].name, response: received[i][0] },
            ),
    decreases received.len(),
{
    if received.len() > 0 {
        let n = received.len() - 1;
        let prev = received.drop_last();
        assert forall|i: int| 0 <= i < prev.len() implies (#[trigger] prev[i]).len() == 1 by {
            assert(prev[i] == received[i]);
        }
        lemma_cycle_parts_one_per_call(calls, prev);
        assert(received[n].len() == 1);
        let last = responses_for(calls[n].name, received[n]);
        assert(last.len() == 1);
        assert forall|i: int| 0 <= i < received.len() implies #[trigger] cycle_parts(calls, received)[i]
            == Part::FunctionResponse(
            FunctionResponse { id: None, name: calls[i].name, response: received[i][0] },
        ) by {
            if i < n {
                assert(prev[i] == received[i]);
            }
        }
    }
}

/// Consolidating an empty batch reports no error, adds no turn and finds no tool call.
pub proof fn lemma_empty_batch_changes_nothing()
    ensures
        batch_error(Seq::<ContentResponse>::empty()) is None,
        batch_turns(Seq::<ContentResponse>::empty()) == Seq::<Turn>::empty(),
        pending_calls(Seq::<ContentResponse>::empty()).len() == 0,
{
    assert(batch_parts(Seq::<ContentResponse>::empty()) == Seq::<Part>::empty());
}

} // verus!
