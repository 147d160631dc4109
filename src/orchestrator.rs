//! The decisions of the multi-turn loop: what a model response does to the
//! history, whether a tool runs next, and when the run ends.
//!
//! The loop itself (asking the model, running the tool) is driven from
//! outside: it hands each response to [`Orchestrator::on_response`] and each
//! tool outcome to [`Orchestrator::on_tool_output`].
use vstd::prelude::*;
use crate::conversation::{
    answers, calls_answered, first_call, has_call, is_first_call, recorded_turns, segment_turn,
    FinalAnswer, ResponseSegment, ToolCallRequest, Turn,
};
use crate::dispatch::{error_text, outcome_text, tool_output_text, ToolError};

verus! {

/// Where a run stands.
pub enum Phase {
    /// The prompt `current` is to be sent to the model with the history.
    Ready,
    /// The tool call with this `call_id` is to be run.
    AwaitingTool { call_id: String },
    /// The run has ended.
    Done,
}

/// What the loop does after a response.
pub enum Next {
    Finished(FinalAnswer),
    CallTool(ToolCallRequest),
}

/// One run of the loop: the history, the prompt to send next, and where
/// the run stands.
pub struct Orchestrator {
    history: Vec<Turn>,
    current: Turn,
    phase: Phase,
    /// Tool calls answered so far (saturating).
    tool_rounds: u64,
    /// The most tool rounds the caller allows, if any.
    round_limit: Option<u64>,
}

/// The segments of a response that are acted on: all of them up to the
/// first tool call; the rest of that response is ignored.
pub open spec fn acted_segments(segs: Seq<ResponseSegment>) -> Seq<ResponseSegment> {
    if has_call(segs) {
        segs.take(first_call(segs) + 1)
    } else {
        segs
    }
}

/// The history after a response `segs` to the prompt `current`.
pub open spec fn history_after(history: Seq<Turn>, current: Turn, segs: Seq<ResponseSegment>) -> Seq<Turn> {
    history + recorded_turns(current, acted_segments(segs))
}

/// What the loop does after the response `segs`: end with no action when it
/// is empty, run its first tool call if it has one, else end with the text
/// of its last segment.
pub open spec fn next_after(segs: Seq<ResponseSegment>) -> Next {
    if segs.len() == 0 {
        Next::Finished(FinalAnswer::NoFurtherAction)
    } else if has_call(segs) {
        Next::CallTool(segs[first_call(segs)]->ToolCall_0)
    } else {
        Next::Finished(FinalAnswer::Answer(segs.last()->Text_0))
    }
}

pub proof fn lemma_answered_concat(a: Seq<Turn>, b: Seq<Turn>)
    requires
        calls_answered(a),
        calls_answered(b),
    ensures
        calls_answered(a + b),
{
    let c = a + b;
    assert forall|i: int| 0 <= i < c.len() && (#[trigger] c[i]) is AssistantToolCall implies i + 1
        < c.len() && answers(c[i], c[i + 1]) by {
        if i < a.len() {
            assert(a[i] is AssistantToolCall);
        } else {
            assert(b[i - a.len()] is AssistantToolCall);
        }
    }
}

impl Orchestrator {
    pub closed spec fn history_view(&self) -> Seq<Turn> {
        self.history@
    }

    pub closed spec fn current_view(&self) -> Turn {
        self.current
    }

    pub closed spec fn phase_view(&self) -> Phase {
        self.phase
    }

    pub closed spec fn rounds_view(&self) -> nat {
        self.tool_rounds as nat
    }

    pub closed spec fn limit_view(&self) -> Option<u64> {
        self.round_limit
    }

    /// The prompt that the run started with.
    pub open spec fn initial(&self) -> Turn {
        if self.history_view().len() > 0 {
            self.history_view()[0]
        } else {
            self.current_view()
        }
    }

    /// The turns exchanged so far: the history and, unless a tool call is
    /// pending, the prompt last sent or to be sent.
    pub open spec fn transcript(&self) -> Seq<Turn> {
        if self.phase_view() is AwaitingTool {
            self.history_view()
        } else {
            self.history_view().push(self.current_view())
        }
    }

    /// Every tool call in the transcript is answered by the result that
    /// follows it, but for the one pending call, which is the last turn.
    pub open spec fn calls_paired(&self) -> bool {
        if self.phase_view() is AwaitingTool {
            &&& self.history_view().len() > 0
            &&& self.history_view().last() is AssistantToolCall
            &&& self.history_view().last()->request.call_id
                == self.phase_view()->AwaitingTool_call_id
            &&& calls_answered(self.history_view().drop_last())
        } else {
            calls_answered(self.transcript())
        }
    }

    pub open spec fn wf(&self) -> bool {
        &&& self.phase_view() is AwaitingTool ==> self.history_view().len() > 0
        &&& self.initial().is_user() ==> {
            &&& self.current_view().is_user()
            &&& self.calls_paired()
        }
    }

    /// Starts a run on the prompt `initial_prompt`, with an empty history.
    pub fn new(initial_prompt: Turn) -> (r: Orchestrator)
        ensures
            r.wf(),
            r.history_view().len() == 0,
            r.current_view() == initial_prompt,
            r.phase_view() is Ready,
            r.rounds_view() == 0,
            r.limit_view() is None,
    {
        Orchestrator {
            history: Vec::new(),
            current: initial_prompt,
            phase: Phase::Ready,
            tool_rounds: 0,
            round_limit: None,
        }
    }

    /// Starts a run that allows at most `limit` tool rounds.
    pub fn with_round_limit(initial_prompt: Turn, limit: u64) -> (r: Orchestrator)
        ensures
            r.wf(),
            r.history_view().len() == 0,
            r.current_view() == initial_prompt,
            r.phase_view() is Ready,
            r.rounds_view() == 0,
            r.limit_view() == Some(limit),
    {
        Orchestrator {
            history: Vec::new(),
            current: initial_prompt,
            phase: Phase::Ready,
            tool_rounds: 0,
            round_limit: Some(limit),
        }
    }

    /// The run has used up the tool rounds that its caller allows; the
    /// driver then stops instead of asking the model again.
    pub fn round_limit_reached(&self) -> (r: bool)
        ensures
            r == (self.limit_view() matches Some(n) && self.rounds_view() >= n),
    {
        match self.round_limit {
            Some(n) => self.tool_rounds >= n,
            None => false,
        }
    }

    /// The history to send with the prompt.
    pub fn history(&self) -> (r: &Vec<Turn>)
        ensures
            r@ == self.history_view(),
    {
        &self.history
    }

    /// The prompt to send next.
    pub fn current(&self) -> (r: &Turn)
        ensures
            *r == self.current_view(),
    {
        &self.current
    }

    pub fn is_ready(&self) -> (r: bool)
        ensures
            r == self.phase_view() is Ready,
    {
        match self.phase {
            Phase::Ready => true,
            _ => false,
        }
    }

    /// Takes the model's response to the current prompt. Each segment acted
    /// on is recorded after a copy of the prompt; the first tool call stops
    /// the scan and is handed back to be run; otherwise the run ends.
    pub fn on_response(&mut self, segments: Vec<ResponseSegment>) -> (r: Next)
        requires
            old(self).wf(),
            old(self).phase_view() is Ready,
        ensures
            final(self).wf(),
            final(self).initial() == old(self).initial(),
            final(self).current_view() == old(self).current_view(),
            final(self).history_view() == history_after(
                old(self).history_view(),
                old(self).current_view(),
                segments@,
            ),
            r == next_after(segments@),
            r matches Next::CallTool(req) ==> final(self).phase_view() == (Phase::AwaitingTool {
                call_id: req.call_id,
            }),
            r is Finished ==> final(self).phase_view() is Done,
            final(self).rounds_view() == old(self).rounds_view(),
            final(self).limit_view() == old(self).limit_view(),
    {
        let ghost h0 = self.history@;
        let ghost c = self.current;
        let ghost segs = segments@;
        if segments.len() == 0 {
            self.phase = Phase::Done;
            assert(!has_call(segs));
            assert(segs =~= acted_segments(segs));
            assert(recorded_turns(c, segs) =~= Seq::<Turn>::empty());
            assert(self.history@ =~= h0 + recorded_turns(c, segs));
            return Next::Finished(FinalAnswer::NoFurtherAction);
        }
        let mut last_text: String = String::new();
        let mut i: usize = 0;
        while i < segments.len()
            invariant
                segs == segments@,
                0 < segs.len(),
                i <= segs.len(),
                self.current == c,
                self.phase is Ready,
                self.history@ == h0 + recorded_turns(c, segs.take(i as int)),
                forall|j: int| 0 <= j < i ==> (#[trigger] segs[j]) is Text,
                i > 0 ==> last_text == segs[i - 1]->Text_0,
                h0.len() > 0 ==> self.history@[0] == h0[0],
                h0.len() == 0 && i > 0 ==> self.history@[0] == c,
                old(self).wf(),
                old(self).history_view() == h0,
                old(self).current_view() == c,
                old(self).phase_view() is Ready,
                self.tool_rounds == old(self).tool_rounds,
                self.round_limit == old(self).round_limit,
                i == 0 ==> self.history@ == h0,
                old(self).initial().is_user() ==> c.is_user() && calls_answered(self.history@.push(c)),
            decreases segs.len() - i,
        {
            proof {
                assert(segs.take(i + 1).drop_last() =~= segs.take(i as int));
            }
            match &segments[i] {
                ResponseSegment::Text(t) => {
                    let prompt = self.current.duplicate();
                    self.history.push(prompt);
                    self.history.push(Turn::AssistantText { text: t.clone() });
                    last_text = t.clone();
                    proof {
                        assert(segment_turn(segs[i as int]) == Turn::AssistantText { text: *t });
                        assert(self.history@ =~= h0 + recorded_turns(c, segs.take(i + 1)));
                        if old(self).initial().is_user() {
                            let before = h0 + recorded_turns(c, segs.take(i as int));
                            assert(calls_answered(before.push(c)));
                            assert(calls_answered(seq![Turn::AssistantText { text: *t }, c]));
                            lemma_answered_concat(before.push(c), seq![Turn::AssistantText { text: *t }, c]);
                            assert(self.history@.push(c) =~= before.push(c) + seq![Turn::AssistantText { text: *t }, c]);
                        }
                    }
                },
                ResponseSegment::ToolCall(req) => {
                    let prompt = self.current.duplicate();
                    self.history.push(prompt);
                    self.history.push(Turn::AssistantToolCall { request: req.duplicate() });
                    self.phase = Phase::AwaitingTool { call_id: req.call_id.clone() };
                    proof {
                        assert(is_first_call(segs, i as int));
                        assert(has_call(segs));
                        let k = first_call(segs);
                        assert(is_first_call(segs, k));
                        if k < i {
                            assert(segs[k] is Text);
                        }
                        if k > i {
                            assert(segs[i as int] is Text);
                        }
                        assert(k == i);
                        assert(segment_turn(segs[i as int]) == Turn::AssistantToolCall { request: *req });
                        assert(self.history@ =~= h0 + recorded_turns(c, segs.take(i + 1)));
                        let before = h0 + recorded_turns(c, segs.take(i as int));
                        assert(self.history@.drop_last() =~= before.push(c));
                    }
                    return Next::CallTool(req.duplicate());
                },
            }
            i = i + 1;
        }
        self.phase = Phase::Done;
        proof {
            assert(segs.take(segs.len() as int) =~= segs);
            assert(!has_call(segs)) by {
                if has_call(segs) {
                    let k = first_call(segs);
                    assert(is_first_call(segs, k));
                    assert(segs[k] is Text);
                }
            }
        }
        Next::Finished(FinalAnswer::Answer(last_text))
    }

    /// Takes the outcome of the pending tool call: its output, or its error
    /// as text, becomes the next prompt, a result that carries the call's
    /// `call_id`.
    pub fn on_tool_output(&mut self, outcome: Result<String, ToolError>)
        requires
            old(self).wf(),
            old(self).phase_view() is AwaitingTool,
        ensures
            final(self).wf(),
            final(self).initial() == old(self).initial(),
            final(self).phase_view() is Ready,
            final(self).history_view() == old(self).history_view(),
            final(self).current_view() matches Turn::UserToolResult { call_id, content }
                && call_id == old(self).phase_view()->AwaitingTool_call_id
                && content@ == outcome_text(outcome),
            final(self).rounds_view() == if old(self).rounds_view() < u64::MAX {
                old(self).rounds_view() + 1
            } else {
                old(self).rounds_view()
            },
            final(self).limit_view() == old(self).limit_view(),
    {
        let call_id = match &self.phase {
            Phase::AwaitingTool { call_id } => call_id.clone(),
            _ => String::new(),
        };
        let content = tool_output_text(outcome);
        self.current = Turn::UserToolResult { call_id, content };
        self.phase = Phase::Ready;
        if self.tool_rounds < u64::MAX {
            self.tool_rounds = self.tool_rounds + 1;
        }
        proof {
            let h = self.history@;
            if old(self).initial().is_user() {
                assert(h.len() > 0);
                assert(calls_answered(seq![h.last(), self.current]));
                lemma_answered_concat(h.drop_last(), seq![h.last(), self.current]);
                assert(h.push(self.current) =~= h.drop_last() + seq![h.last(), self.current]);
            }
        }
    }
}

/// A response with any tool call has a first one.
pub proof fn lemma_call_has_first(segs: Seq<ResponseSegment>, k: int)
    requires
        0 <= k < segs.len(),
        segs[k] is ToolCall,
    ensures
        has_call(segs),
    decreases k,
{
    if forall|j: int| 0 <= j < k ==> (#[trigger] segs[j]) is Text {
        assert(is_first_call(segs, k));
    } else {
        let j = choose|j: int| 0 <= j < k && !((#[trigger] segs[j]) is Text);
        lemma_call_has_first(segs, j);
    }
}

/// In every state of a run that started from a user turn, each tool call
/// of the transcript is followed by exactly one result with its `call_id`
/// before anything else, but for the pending call, which is the last turn.
pub proof fn lemma_tool_calls_answered(o: Orchestrator)
    requires
        o.wf(),
        o.initial().is_user(),
    ensures
        !(o.phase_view() is AwaitingTool) ==> calls_answered(o.transcript()),
        o.phase_view() is AwaitingTool ==> {
            &&& calls_answered(o.transcript().drop_last())
            &&& o.transcript().last() is AssistantToolCall
            &&& o.transcript().last()->request.call_id == o.phase_view()->AwaitingTool_call_id
        },
{
}

/// A response without segments ends the run with the no-action answer and
/// leaves the history as it was.
pub proof fn lemma_empty_response_ends(history: Seq<Turn>, current: Turn, segs: Seq<ResponseSegment>)
    requires
        segs.len() == 0,
    ensures
        next_after(segs) == Next::Finished(FinalAnswer::NoFurtherAction),
        history_after(history, current, segs) == history,
{
    assert(!has_call(segs));
    assert(recorded_turns(current, segs) =~= Seq::<Turn>::empty());
    assert(history + Seq::<Turn>::empty() =~= history);
}

/// Text followed by a tool call in one response is no final answer: the
/// loop goes on with the tool call.
pub proof fn lemma_text_before_call_not_final(segs: Seq<ResponseSegment>, j: int, k: int)
    requires
        0 <= j < k < segs.len(),
        segs[j] is Text,
        segs[k] is ToolCall,
    ensures
        next_after(segs) is CallTool,
{
    lemma_call_has_first(segs, k);
}

/// A round on a response that holds only a tool call adds exactly two turns
/// to the transcript: the assistant's call and the user's result for it.
pub proof fn lemma_tool_round_adds_two(
    before: Orchestrator,
    mid: Orchestrator,
    after: Orchestrator,
    request: ToolCallRequest,
)
    requires
        before.phase_view() is Ready,
        mid.history_view() == history_after(
            before.history_view(),
            before.current_view(),
            seq![ResponseSegment::ToolCall(request)],
        ),
        mid.phase_view() is AwaitingTool,
        after.phase_view() is Ready,
        after.history_view() == mid.history_view(),
        after.current_view() is UserToolResult,
    ensures
        next_after(seq![ResponseSegment::ToolCall(request)]) == Next::CallTool(request),
        after.transcript() == before.transcript() + seq![
            Turn::AssistantToolCall { request },
            after.current_view(),
        ],
{
    let segs = seq![ResponseSegment::ToolCall(request)];
    lemma_call_has_first(segs, 0);
    assert(is_first_call(segs, 0));
    let k = first_call(segs);
    assert(is_first_call(segs, k));
    assert(k == 0);
    assert(segs.take(1) =~= segs);
    assert(segs.drop_last() =~= Seq::<ResponseSegment>::empty());
    assert(recorded_turns(before.current_view(), segs.drop_last()) =~= Seq::<Turn>::empty());
    assert(recorded_turns(before.current_view(), segs) =~= seq![
        before.current_view(),
        Turn::AssistantToolCall { request },
    ]);
    assert(after.transcript() =~= before.transcript() + seq![
        Turn::AssistantToolCall { request },
        after.current_view(),
    ]);
}

/// A failed tool call does not end the run: the description of its error
/// becomes the result that answers the pending call, and the loop goes on.
pub proof fn lemma_tool_error_fed_back(before: Orchestrator, after: Orchestrator, e: ToolError)
    requires
        before.phase_view() is AwaitingTool,
        after.phase_view() is Ready,
        after.history_view() == before.history_view(),
        after.current_view() matches Turn::UserToolResult { call_id, content }
            && call_id == before.phase_view()->AwaitingTool_call_id
            && content@ == outcome_text(Err(e)),
    ensures
        after.current_view()->UserToolResult_content@ == error_text(e),
        after.transcript() == before.transcript().push(after.current_view()),
{
}

} // verus!
