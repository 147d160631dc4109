//! Turns of a conversation, the segments of a model response, and the
//! pairing of tool calls with their results.
use vstd::prelude::*;

verus! {

/// A request of the model to run one tool.
pub struct ToolCallRequest {
    /// Correlation key between the call and its result; never interpreted.
    pub call_id: String,
    pub tool_name: String,
    /// The arguments, as JSON text.
    pub arguments: String,
}

/// One entry of the conversation.
pub enum Turn {
    UserText { text: String },
    UserToolResult { call_id: String, content: String },
    AssistantText { text: String },
    AssistantToolCall { request: ToolCallRequest },
}

/// One unit of a completion response.
pub enum ResponseSegment {
    Text(String),
    ToolCall(ToolCallRequest),
}

/// What a run ends with when the model raised no error.
pub enum FinalAnswer {
    /// The text of the model's last response.
    Answer(String),
    /// The model answered with no segment at all.
    NoFurtherAction,
}

impl ToolCallRequest {
    pub fn duplicate(&self) -> (r: ToolCallRequest)
        ensures
            r == *self,
    {
        ToolCallRequest {
            call_id: self.call_id.clone(),
            tool_name: self.tool_name.clone(),
            arguments: self.arguments.clone(),
        }
    }
}

impl Turn {
    pub fn duplicate(&self) -> (r: Turn)
        ensures
            r == *self,
    {
        match self {
            Turn::UserText { text } => Turn::UserText { text: text.clone() },
            Turn::UserToolResult { call_id, content } => Turn::UserToolResult {
                call_id: call_id.clone(),
                content: content.clone(),
            },
            Turn::AssistantText { text } => Turn::AssistantText { text: text.clone() },
            Turn::AssistantToolCall { request } => Turn::AssistantToolCall {
                request: request.duplicate(),
            },
        }
    }

    /// The turn speaks for the user: a prompt or a tool result.
    pub open spec fn is_user(&self) -> bool {
        self is UserText || self is UserToolResult
    }
}

/// The turn that records a response segment in the history.
pub open spec fn segment_turn(s: ResponseSegment) -> Turn {
    match s {
        ResponseSegment::Text(t) => Turn::AssistantText { text: t },
        ResponseSegment::ToolCall(r) => Turn::AssistantToolCall { request: r },
    }
}

/// The result turn that answers a call with the given output.
pub open spec fn answers(call: Turn, result: Turn) -> bool {
    &&& call is AssistantToolCall
    &&& result is UserToolResult
    &&& result->UserToolResult_call_id@ == call->request.call_id@
}

/// Every tool call of `conv` is followed at once by the one result that
/// carries its `call_id`: no other turn comes between a call and its answer.
pub open spec fn calls_answered(conv: Seq<Turn>) -> bool {
    forall|i: int|
        0 <= i < conv.len() && (#[trigger] conv[i]) is AssistantToolCall ==> i + 1 < conv.len()
            && answers(conv[i], conv[i + 1])
}

/// The turns that the history gains for the segments `segs`, each recorded
/// after a copy of the prompt `current`.
pub open spec fn recorded_turns(current: Turn, segs: Seq<ResponseSegment>) -> Seq<Turn>
    decreases segs.len(),
{
    if segs.len() == 0 {
        Seq::empty()
    } else {
        recorded_turns(current, segs.drop_last()) + seq![current, segment_turn(segs.last())]
    }
}

/// `k` is the position of the first tool call of `segs`.
pub open spec fn is_first_call(segs: Seq<ResponseSegment>, k: int) -> bool {
    &&& 0 <= k < segs.len()
    &&& segs[k] is ToolCall
    &&& forall|j: int| 0 <= j < k ==> (#[trigger] segs[j]) is Text
}

pub open spec fn has_call(segs: Seq<ResponseSegment>) -> bool {
    exists|k: int| is_first_call(segs, k)
}

pub open spec fn first_call(segs: Seq<ResponseSegment>) -> int {
    choose|k: int| is_first_call(segs, k)
}

} // verus!
