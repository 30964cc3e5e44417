//! The agent loop as a state machine. The caller performs the network
//! exchange and the tool effects; the machine owns the transcript and decides
//! each transition.
use vstd::prelude::*;
use vstd::string::StringExecFns;
use crate::tools::{Args, args_view};
use crate::tools::same_text;

verus! {

/// One block of an assistant turn.
pub enum Block {
    /// Prose.
    Text { text: String },
    /// A request to run the tool `name` on `input`, correlated by `id`.
    ToolUse { id: String, name: String, input: Args },
    /// A block of another kind, kept in the history and otherwise ignored.
    Other { kind: String },
}

/// A tool invocation taken from an assistant turn.
pub struct ToolCall {
    pub id: String,
    pub name: String,
    pub input: Args,
}

/// The outcome of one tool invocation, correlated by the invocation's id.
pub struct ToolResult {
    pub tool_use_id: String,
    pub content: String,
}

/// One entry of the transcript.
pub enum Turn {
    /// The user's task.
    Prompt { text: String },
    /// What the model answered.
    Assistant { blocks: Vec<Block> },
    /// The results of the tools the previous assistant turn asked for.
    Results { results: Vec<ToolResult> },
}

/// Whether the model asks for tools or is done.
pub enum StopReason {
    ToolUse,
    Done,
}

/// A decoded model response.
pub struct Response {
    pub content: Vec<Block>,
    pub stop_reason: StopReason,
}

/// Where the loop stands.
pub enum Phase {
    AwaitingModel,
    ExecutingTools,
    Done,
    Failed,
}

/// The stop reason named by the wire value `s`: `"tool_use"` asks for
/// tools, anything else ends the conversation.
pub open spec fn stop_reason_of(s: Seq<char>) -> StopReason {
    if s == "tool_use"@ {
        StopReason::ToolUse
    } else {
        StopReason::Done
    }
}

/// The stop reason named by the wire value `s`.
pub fn parse_stop_reason(s: &str) -> (r: StopReason)
    ensures
        r == stop_reason_of(s@),
{
    if same_text(s, "tool_use") {
        StopReason::ToolUse
    } else {
        StopReason::Done
    }
}

/// The block that a decoded wire block of kind `kind` stands for: a text
/// block, a tool invocation, or a block of another kind. Absent fields read as
/// empty.
pub fn block_from_parts(
    kind: String,
    id: Option<String>,
    name: Option<String>,
    input: Args,
    text: Option<String>,
) -> (r: Block)
    ensures
        kind@ == "text"@ ==> (r matches Block::Text { text: t } && t@ == text_or_empty(text)),
        kind@ == "tool_use"@ ==> (r matches Block::ToolUse { id: i, name: n, input: a } && i@
            == text_or_empty(id) && n@ == text_or_empty(name) && a == input),
        kind@ != "text"@ && kind@ != "tool_use"@ ==> r == (Block::Other { kind }),
{
    proof {
        reveal_strlit("text");
        reveal_strlit("tool_use");
        assert("text"@.len() != "tool_use"@.len());
    }
    if same_text(kind.as_str(), "text") {
        Block::Text { text: or_empty(text) }
    } else if same_text(kind.as_str(), "tool_use") {
        Block::ToolUse { id: or_empty(id), name: or_empty(name), input }
    } else {
        Block::Other { kind }
    }
}

/// The text of `s`, or the empty text when it is absent.
pub open spec fn text_or_empty(s: Option<String>) -> Seq<char> {
    match s {
        Some(v) => v@,
        None => Seq::empty(),
    }
}

fn or_empty(s: Option<String>) -> (r: String)
    ensures
        r@ == text_or_empty(s),
{
    match s {
        Some(v) => v,
        None => String::new(),
    }
}

/// The text blocks of `blocks` concatenated in order.
pub open spec fn final_text(blocks: Seq<Block>) -> Seq<char>
    decreases blocks.len(),
{
    if blocks.len() == 0 {
        Seq::empty()
    } else {
        final_text(blocks.drop_last()) + match blocks.last() {
            Block::Text { text } => text@,
            _ => Seq::empty(),
        }
    }
}

/// Abstract view of a tool invocation: its id, tool name and arguments.
pub type CallView = (Seq<char>, Seq<char>, Seq<(Seq<char>, Seq<char>)>);

/// Abstract view of a tool result: the id it answers and its text.
pub type ResultView = (Seq<char>, Seq<char>);

/// The abstract view of each call of `calls`.
pub open spec fn calls_view(calls: Seq<ToolCall>) -> Seq<CallView> {
    calls.map_values(|c: ToolCall| (c.id@, c.name@, args_view(c.input@)))
}

/// The abstract view of each result of `results`.
pub open spec fn results_view(results: Seq<ToolResult>) -> Seq<ResultView> {
    results.map_values(|r: ToolResult| (r.tool_use_id@, r.content@))
}

/// The tool invocations among `blocks`, in order.
pub open spec fn invocations(blocks: Seq<Block>) -> Seq<CallView>
    decreases blocks.len(),
{
    if blocks.len() == 0 {
        Seq::empty()
    } else {
        invocations(blocks.drop_last()) + match blocks.last() {
            Block::ToolUse { id, name, input } => seq![(id@, name@, args_view(input@))],
            _ => Seq::empty(),
        }
    }
}

/// The results that answer `calls` with `outputs`, pairwise.
pub open spec fn answers(calls: Seq<CallView>, outputs: Seq<Seq<char>>) -> Seq<ResultView> {
    Seq::new(calls.len(), |i: int| (calls[i].0, outputs[i]))
}

/// Answering invocations gives exactly one result per invocation, carrying
/// its id, in the order of the invocations.
pub proof fn lemma_one_result_per_invocation(calls: Seq<CallView>, outputs: Seq<Seq<char>>)
    requires
        outputs.len() == calls.len(),
    ensures
        answers(calls, outputs).len() == calls.len(),
        forall|i: int|
            0 <= i < calls.len() ==> (#[trigger] answers(calls, outputs)[i]).0 == calls[i].0
                && answers(calls, outputs)[i].1 == outputs[i],
{
}

/// The concatenated text of the text blocks of `blocks`.
pub fn collect_text(blocks: &Vec<Block>) -> (r: String)
    ensures
        r@ == final_text(blocks@),
{
    let mut r = String::new();
    let mut i: usize = 0;
    while i < blocks.len()
        invariant
            i <= blocks@.len(),
            r@ == final_text(blocks@.subrange(0, i as int)),
        decreases blocks@.len() - i,
    {
        assert(blocks@.subrange(0, i + 1).drop_last() =~= blocks@.subrange(0, i as int));
        let ghost prefix = r@;
        match &blocks[i] {
            Block::Text { text } => {
                r.append(text.as_str());
            },
            _ => {
                assert(r@ =~= prefix + Seq::<char>::empty());
            },
        }
        i = i + 1;
    }
    assert(blocks@.subrange(0, blocks@.len() as int) =~= blocks@);
    r
}

fn clone_args(a: &Args) -> (r: Args)
    ensures
        r@ == a@,
{
    let mut r: Args = Vec::new();
    let mut i: usize = 0;
    while i < a.len()
        invariant
            i <= a@.len(),
            r@ == a@.subrange(0, i as int),
        decreases a@.len() - i,
    {
        r.push((a[i].0.clone(), a[i].1.clone()));
        assert(r@ =~= a@.subrange(0, i + 1));
        i = i + 1;
    }
    assert(a@.subrange(0, a@.len() as int) =~= a@);
    r
}

/// The tool invocations among `blocks`, in order.
pub fn collect_calls(blocks: &Vec<Block>) -> (r: Vec<ToolCall>)
    ensures
        calls_view(r@) == invocations(blocks@),
{
    let mut r: Vec<ToolCall> = Vec::new();
    let mut i: usize = 0;
    while i < blocks.len()
        invariant
            i <= blocks@.len(),
            calls_view(r@) == invocations(blocks@.subrange(0, i as int)),
        decreases blocks@.len() - i,
    {
        assert(blocks@.subrange(0, i + 1).drop_last() =~= blocks@.subrange(0, i as int));
        let ghost prefix = calls_view(r@);
        match &blocks[i] {
            Block::ToolUse { id, name, input } => {
                r.push(ToolCall { id: id.clone(), name: name.clone(), input: clone_args(input) });
                assert(calls_view(r@) =~= prefix + seq![(id@, name@, args_view(input@))]);
            },
            _ => {
                assert(calls_view(r@) =~= prefix + Seq::<CallView>::empty());
            },
        }
        i = i + 1;
    }
    assert(blocks@.subrange(0, blocks@.len() as int) =~= blocks@);
    r
}

/// The conversation state: where the loop stands, the transcript, and, once
/// the loop has ended, its final answer or its error.
pub struct Agent {
    pub phase: Phase,
    pub transcript: Vec<Turn>,
    pub outcome: String,
}

impl Agent {
    /// The blocks of the last turn, when it is an assistant turn.
    pub open spec fn last_blocks(&self) -> Seq<Block> {
        if self.transcript@.len() > 0 {
            match self.transcript@.last() {
                Turn::Assistant { blocks } => blocks@,
                _ => Seq::empty(),
            }
        } else {
            Seq::empty()
        }
    }

    /// The invocations that the next tool-result turn must answer.
    pub open spec fn pending(&self) -> Seq<CallView> {
        invocations(self.last_blocks())
    }

    /// The transcript starts with the prompt, and tools are executed only
    /// right after an assistant turn.
    pub open spec fn wf(&self) -> bool {
        &&& self.transcript@.len() >= 1
        &&& self.transcript@[0] is Prompt
        &&& self.phase is ExecutingTools ==> self.transcript@.last() is Assistant
    }

    /// A loop about to send `prompt` as the only turn.
    pub fn new(prompt: String) -> (r: Agent)
        ensures
            r.wf(),
            r.phase is AwaitingModel,
            r.transcript@ == seq![Turn::Prompt { text: prompt }],
            r.outcome@ == Seq::<char>::empty(),
    {
        let mut transcript: Vec<Turn> = Vec::new();
        transcript.push(Turn::Prompt { text: prompt });
        Agent { phase: Phase::AwaitingModel, transcript, outcome: String::new() }
    }

    /// Whether the loop has ended, in `Done` or in `Failed`.
    pub fn is_finished(&self) -> (r: bool)
        ensures
            r == (self.phase is Done || self.phase is Failed),
    {
        match self.phase {
            Phase::Done | Phase::Failed => true,
            _ => false,
        }
    }

    /// The request could not be sent or its answer not decoded: the loop
    /// fails with `error`, and the transcript stays as it was.
    pub fn on_transport_error(&mut self, error: String)
        requires
            old(self).phase is AwaitingModel,
        ensures
            final(self).phase is Failed,
            final(self).transcript == old(self).transcript,
            final(self).outcome == error,
    {
        self.phase = Phase::Failed;
        self.outcome = error;
    }

    /// The model answered: its blocks join the transcript. When it is done,
    /// the loop ends with the text of those blocks; otherwise the tools it
    /// asked for are to be run.
    pub fn on_response(&mut self, response: Response)
        requires
            old(self).wf(),
            old(self).phase is AwaitingModel,
        ensures
            final(self).wf(),
            final(self).transcript@ == old(self).transcript@.push(
                Turn::Assistant { blocks: response.content },
            ),
            final(self).last_blocks() == response.content@,
            response.stop_reason is Done ==> final(self).phase is Done && final(self).outcome@
                == final_text(response.content@),
            response.stop_reason is ToolUse ==> final(self).phase is ExecutingTools
                && final(self).outcome == old(self).outcome,
    {
        let done = match response.stop_reason {
            StopReason::Done => true,
            StopReason::ToolUse => false,
        };
        if done {
            self.outcome = collect_text(&response.content);
            self.phase = Phase::Done;
        } else {
            self.phase = Phase::ExecutingTools;
        }
        self.transcript.push(Turn::Assistant { blocks: response.content });
    }

    /// The invocations that the last assistant turn asked for, in order.
    pub fn pending_calls(&self) -> (r: Vec<ToolCall>)
        requires
            self.wf(),
        ensures
            calls_view(r@) == self.pending(),
    {
        let n = self.transcript.len();
        match &self.transcript[n - 1] {
            Turn::Assistant { blocks } => collect_calls(blocks),
            _ => Vec::new(),
        }
    }

    /// The tools have run: `outputs[i]` is the text of the `i`-th pending
    /// invocation. One turn answering each invocation, by its id and in
    /// order, joins the transcript, and the next request is due.
    pub fn on_tool_outputs(&mut self, outputs: Vec<String>)
        requires
            old(self).wf(),
            old(self).phase is ExecutingTools,
            outputs@.len() == old(self).pending().len(),
        ensures
            final(self).wf(),
            final(self).phase is AwaitingModel,
            final(self).outcome == old(self).outcome,
            final(self).transcript@.len() == old(self).transcript@.len() + 1,
            final(self).transcript@.subrange(0, old(self).transcript@.len() as int)
                == old(self).transcript@,
            final(self).transcript@.last() matches Turn::Results { results } && results_view(
                results@,
            ) == answers(old(self).pending(), outputs@.map_values(|s: String| s@)),
    {
        let calls = self.pending_calls();
        let ghost outs = outputs@.map_values(|s: String| s@);
        let mut results: Vec<ToolResult> = Vec::new();
        let mut rest = outputs;
        let mut i: usize = 0;
        assert(rest@.subrange(0, rest@.len() as int) =~= rest@);
        while i < calls.len()
            invariant
                i <= calls@.len(),
                calls@.len() == outs.len(),
                rest@.len() == outs.len() - i,
                forall|k: int| 0 <= k < rest@.len() ==> rest@[k]@ == outs[(i + k) as int],
                results_view(results@) == answers(calls_view(calls@), outs).subrange(0, i as int),
            decreases calls@.len() - i,
        {
            assert(rest@[0]@ == outs[i as int]);
            let ghost old_rest = rest@;
            let content = rest.remove(0);
            let ghost before = results_view(results@);
            results.push(ToolResult { tool_use_id: calls[i].id.clone(), content });
            assert(results_view(results@) =~= before.push((calls_view(calls@)[i as int].0, outs[i as int])));
            assert(results_view(results@) =~= answers(calls_view(calls@), outs).subrange(0, i + 1));
            assert forall|k: int| 0 <= k < rest@.len() implies rest@[k]@ == outs[(i + 1 + k) as int] by {
                assert(rest@[k] == old_rest[k + 1]);
            }
            i = i + 1;
        }
        assert(answers(calls_view(calls@), outs).subrange(0, calls@.len() as int) =~= answers(
            calls_view(calls@),
            outs,
        ));
        self.transcript.push(Turn::Results { results });
        self.phase = Phase::AwaitingModel;
        assert(self.transcript@.subrange(0, self.transcript@.len() - 1) =~= old(self).transcript@);
    }
}

} // verus!
