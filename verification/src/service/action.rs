use vstd::prelude::*;
use crate::agent::action::ActionView;

verus! {

/// An action that the model asks for.
pub enum Action {
    Code(String),
    Tool(String, String),
    Unknown,
}

impl View for Action {
    type V = ActionView;

    open spec fn view(&self) -> ActionView {
        match self {
            Action::Code(c) => ActionView::Code(c@),
            Action::Tool(t, i) => ActionView::Tool(t@, i@),
            Action::Unknown => ActionView::Unknown,
        }
    }
}

/// The members of an action as JSON carries them; each may be missing.
pub struct JsonAction {
    pub tool: Option<String>,
    pub input: Option<String>,
    pub code: Option<String>,
}

/// The action that JSON members name: non-empty code first, then a tool with
/// its input, else unknown.
pub open spec fn action_from_members(
    tool: Option<Seq<char>>,
    input: Option<Seq<char>>,
    code: Option<Seq<char>>,
) -> ActionView {
    match code {
        Some(c) if c.len() > 0 => ActionView::Code(c),
        _ => match (tool, input) {
            (Some(t), Some(i)) => ActionView::Tool(t, i),
            _ => ActionView::Unknown,
        },
    }
}

/// How an action is shown.
pub open spec fn action_text(a: ActionView) -> Seq<char> {
    match a {
        ActionView::Code(c) => "Code: "@ + c,
        ActionView::Tool(t, i) => "Tool: "@ + t + ", Input: "@ + i,
        ActionView::Unknown => "Unknown action"@,
    }
}

impl Action {
    /// The action that parsed JSON members name.
    pub fn from_json_action(json: JsonAction) -> (r: Action)
        ensures
            r@ == action_from_members(
                json.tool.deep_view(),
                json.input.deep_view(),
                json.code.deep_view(),
            ),
    {
        if let Some(code) = json.code {
            if !code.as_str().is_empty() {
                return Action::Code(code);
            }
        }
        match (json.tool, json.input) {
            (Some(tool), Some(input)) => Action::Tool(tool, input),
            _ => Action::Unknown,
        }
    }

    /// The action that an attempt to parse action JSON names, or the error
    /// that says why it failed.
    pub fn from_parsed(parsed: Result<JsonAction, String>) -> (r: Result<Action, String>)
        ensures
            match parsed {
                Ok(json) => r matches Ok(a) && a@ == action_from_members(
                    json.tool.deep_view(),
                    json.input.deep_view(),
                    json.code.deep_view(),
                ),
                Err(e) => r matches Err(m) && m@ == "Failed to parse action JSON: "@ + e@,
            },
    {
        match parsed {
            Ok(json) => Ok(Action::from_json_action(json)),
            Err(e) => {
                let mut m = String::from_str("Failed to parse action JSON: ");
                m.append(e.as_str());
                Err(m)
            },
        }
    }

    /// The action as text.
    pub fn format(&self) -> (r: String)
        ensures
            r@ == action_text(self@),
    {
        match self {
            Action::Code(code) => {
                let mut r = String::from_str("Code: ");
                r.append(code.as_str());
                r
            },
            Action::Tool(tool, input) => {
                let mut r = String::from_str("Tool: ");
                r.append(tool.as_str());
                r.append(", Input: ");
                r.append(input.as_str());
                r
            },
            Action::Unknown => String::from_str("Unknown action"),
        }
    }
}

/// Non-empty code decides the action, whatever the tool and input members
/// hold, and the action shows as "Code: " and that code.
pub proof fn law_code_comes_first(tool: Option<Seq<char>>, input: Option<Seq<char>>, code: Seq<char>)
    requires
        code.len() > 0,
    ensures
        action_from_members(tool, input, Some(code)) == ActionView::Code(code),
        action_text(action_from_members(tool, input, Some(code))) == "Code: "@ + code,
{
}

/// Without code (none, or empty), a tool with its input is that tool action,
/// shown as "Tool: <tool>, Input: <input>", and a missing tool or input leaves
/// the action unknown, shown as "Unknown action".
pub proof fn law_tool_without_code(
    tool: Option<Seq<char>>,
    input: Option<Seq<char>>,
    code: Option<Seq<char>>,
)
    requires
        code is None || code == Some(Seq::<char>::empty()),
    ensures
        tool is Some && input is Some ==> action_from_members(tool, input, code) == ActionView::Tool(
            tool->0,
            input->0,
        ),
        tool is None || input is None ==> action_from_members(tool, input, code) == ActionView::Unknown,
        tool is Some && input is Some ==> action_text(action_from_members(tool, input, code))
            == "Tool: "@ + tool->0 + ", Input: "@ + input->0,
        tool is None || input is None ==> action_text(action_from_members(tool, input, code))
            == "Unknown action"@,
{
}

} // verus!
