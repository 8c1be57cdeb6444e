use vstd::prelude::*;
use crate::agent::prompt::REACT_PROMPT;
use crate::fence::{
    FenceError, fenced_json, fenced_json_exec, fenced_reply, fences_ordered, lemma_fenced_reply,
};
use crate::json::{json_object_text, members_distinct, object_json, reads_back};
use crate::service::{Agent, Message, TaskContext, TaskResult, Tool};
use crate::text::{
    contains, contains_exec, decimal, decimal_string, join, join_strings, lemma_contains_within,
    lemma_join_contains, occurs_at, starts_with,
};

verus! {

/// One line of memory in a thought prompt.
pub open spec fn memory_line(m: Message) -> Seq<char> {
    "["@ + m.role@ + "] "@ + m.content@
}

/// One line of the tool list in a thought prompt.
pub open spec fn tool_line(t: Tool) -> Seq<char> {
    "- "@ + t.name@ + ": "@ + t.description@
}

/// The prompt that asks the model for the next thought.
pub open spec fn thought_prompt(task: Seq<char>, tools: Seq<Tool>, memory: Seq<Message>) -> Seq<
    char,
> {
    REACT_PROMPT@ + "\n\nCurrent Task: "@ + task + "\nAvailable Tools:\n"@ + join(
        tools.map_values(|t: Tool| tool_line(t)),
        "\n"@,
    ) + "\nMessages:\n"@ + join(memory.map_values(|m: Message| memory_line(m)), "\n"@)
        + "\n\nGenerate the next reasoning step (Thought) and suggest an Action in JSON format:\n```json\n{\"tool\": \"<tool_name>\", \"input\": \"<input_string>\"}\n```"@
}

/// The tool and input that the model picks for `prompt`: compiling when the
/// prompt mentions "Compile", generating when it mentions "Generate", else a
/// knowledge search.
pub open spec fn chosen_tool(prompt: Seq<char>) -> (Seq<char>, Seq<char>) {
    if contains(prompt, "Compile"@) {
        (
            "compile_lumora"@,
            "(module Math (fn add (a int) (b int) -> int ((return (+ a b)))) (export add))"@,
        )
    } else if contains(prompt, "Generate"@) {
        ("generate_code"@, "Generate a Lumora factorial function"@)
    } else {
        ("search_knowledge"@, "Lumora best practices for performance"@)
    }
}

/// The reply that wraps a JSON text in a thought.
pub open spec fn thought_reply_of(json: Seq<char>) -> Seq<char> {
    fenced_reply("Thought: Analyzing task...\n"@, json)
}

/// The members of the action that the model picks for `prompt`.
pub open spec fn chosen_members(prompt: Seq<char>) -> Seq<(Seq<char>, Seq<char>)> {
    seq![("tool"@, chosen_tool(prompt).0), ("input"@, chosen_tool(prompt).1)]
}

/// The JSON text of the action that the model picks for `prompt`.
pub open spec fn chosen_action_json(prompt: Seq<char>) -> Seq<char> {
    json_object_text(chosen_members(prompt), Seq::<(Seq<char>, Seq<Seq<char>>)>::empty())
}

/// The model's reply to a thought prompt.
pub open spec fn thought_reply(prompt: Seq<char>) -> Seq<char> {
    thought_reply_of(chosen_action_json(prompt))
}

/// What the JSON text of the model's action for `prompt` is known to be: an
/// object between braces whose `tool` and `input` read back.
pub open spec fn action_json_readable(prompt: Seq<char>) -> bool {
    let j = chosen_action_json(prompt);
    &&& j.len() >= 2
    &&& j[0] == '{'
    &&& j.last() == '}'
    &&& reads_back(j, chosen_members(prompt))
}

/// `after` is `before` with one more message of that role and content.
pub open spec fn pushed_message(
    before: Seq<Message>,
    after: Seq<Message>,
    role: Seq<char>,
    content: Seq<char>,
) -> bool {
    &&& after.len() == before.len() + 1
    &&& after.take(before.len() as int) == before
    &&& after.last().role@ == role
    &&& after.last().content@ == content
}

/// `after` is `before` with one more result of that content.
pub open spec fn pushed_result(
    before: Seq<TaskResult>,
    after: Seq<TaskResult>,
    task: Seq<char>,
    success: bool,
    output: Seq<char>,
    feedback: Option<Seq<char>>,
) -> bool {
    &&& after.len() == before.len() + 1
    &&& after.take(before.len() as int) == before
    &&& after.last().task@ == task
    &&& after.last().success == success
    &&& after.last().output@ == output
    &&& after.last().feedback.deep_view() == feedback
}

/// The lines of a list of memory entries.
fn memory_lines(memory: &Vec<Message>) -> (r: Vec<String>)
    ensures
        r.deep_view() == memory@.map_values(|m: Message| memory_line(m)),
{
    let mut r: Vec<String> = Vec::new();
    let mut i: usize = 0;
    while i < memory.len()
        invariant
            i <= memory@.len(),
            r.deep_view() =~= memory@.take(i as int).map_values(|m: Message| memory_line(m)),
        decreases memory@.len() - i,
    {
        let mut line = String::from_str("[");
        line.append(memory[i].role.as_str());
        line.append("] ");
        line.append(memory[i].content.as_str());
        let ghost before = r.deep_view();
        assert(line@ == memory_line(memory@[i as int]));
        r.push(line);
        assert(r.deep_view() =~= before.push(memory_line(memory@[i as int])));
        assert(memory@.take(i + 1) =~= memory@.take(i as int).push(memory@[i as int]));
        i = i + 1;
    }
    assert(memory@.take(i as int) =~= memory@);
    r
}

/// The lines of a list of tools.
fn tool_lines(tools: &Vec<Tool>) -> (r: Vec<String>)
    ensures
        r.deep_view() == tools@.map_values(|t: Tool| tool_line(t)),
{
    let mut r: Vec<String> = Vec::new();
    let mut i: usize = 0;
    while i < tools.len()
        invariant
            i <= tools@.len(),
            r.deep_view() =~= tools@.take(i as int).map_values(|t: Tool| tool_line(t)),
        decreases tools@.len() - i,
    {
        let mut line = String::from_str("- ");
        line.append(tools[i].name.as_str());
        line.append(": ");
        line.append(tools[i].description.as_str());
        let ghost before = r.deep_view();
        assert(line@ == tool_line(tools@[i as int]));
        r.push(line);
        assert(r.deep_view() =~= before.push(tool_line(tools@[i as int])));
        assert(tools@.take(i + 1) =~= tools@.take(i as int).push(tools@[i as int]));
        i = i + 1;
    }
    assert(tools@.take(i as int) =~= tools@);
    r
}

/// Builds the prompt that asks for the next thought.
pub fn build_thought_prompt(agent: &Agent, context: &TaskContext) -> (r: Result<String, String>)
    ensures
        r matches Ok(p) && p@ == thought_prompt(context.task@, agent.tools@, context.memory@),
{
    let messages = join_strings(&memory_lines(&context.memory), "\n");
    let tools = join_strings(&tool_lines(agent.tools.as_vec()), "\n");
    let mut p = String::from_str(REACT_PROMPT);
    p.append("\n\nCurrent Task: ");
    p.append(context.task.as_str());
    p.append("\nAvailable Tools:\n");
    p.append(tools.as_str());
    p.append("\nMessages:\n");
    p.append(messages.as_str());
    p.append(
        "\n\nGenerate the next reasoning step (Thought) and suggest an Action in JSON format:\n```json\n{\"tool\": \"<tool_name>\", \"input\": \"<input_string>\"}\n```",
    );
    assert(p@ =~= thought_prompt(context.task@, agent.tools@, context.memory@));
    Ok(p)
}

/// The stand-in for the model: answers a thought prompt with a thought whose
/// JSON block names a tool and its input.
pub fn call_llm(prompt: &str) -> (r: Result<String, String>)
    ensures
        r matches Ok(reply) && reply@ == thought_reply(prompt@),
        action_json_readable(prompt@),
{
    let tool: String;
    let input: String;
    if contains_exec(prompt, "Compile") {
        tool = String::from_str("compile_lumora");
        input = String::from_str(
            "(module Math (fn add (a int) (b int) -> int ((return (+ a b)))) (export add))",
        );
    } else if contains_exec(prompt, "Generate") {
        tool = String::from_str("generate_code");
        input = String::from_str("Generate a Lumora factorial function");
    } else {
        tool = String::from_str("search_knowledge");
        input = String::from_str("Lumora best practices for performance");
    }
    let text_members = vec![(String::from_str("tool"), tool), (String::from_str("input"), input)];
    let list_members: Vec<(String, Vec<String>)> = Vec::new();
    assert(text_members.deep_view() =~= seq![
        ("tool"@, chosen_tool(prompt@).0),
        ("input"@, chosen_tool(prompt@).1),
    ]);
    assert(list_members.deep_view() =~= Seq::<(Seq<char>, Seq<Seq<char>>)>::empty());
    proof {
        reveal_strlit("tool");
        reveal_strlit("input");
        let tm = text_members.deep_view();
        assert(tm[0].0.len() == 4 && tm[1].0.len() == 5);
        assert(members_distinct(text_members.deep_view(), list_members.deep_view()));
    }
    let json = object_json(&text_members, &list_members);
    let mut reply = String::from_str("Thought: Analyzing task...\n");
    reply.append("```json\n");
    reply.append(json.as_str());
    reply.append("\n```");
    assert(reply@ =~= thought_reply(prompt@));
    Ok(reply)
}

/// The error for a thought without a usable JSON block.
pub open spec fn block_error(e: FenceError) -> Seq<char> {
    match e {
        FenceError::MissingOpening => "No JSON block found in thought"@,
        FenceError::MissingClosing => "No closing JSON block found"@,
    }
}

/// The JSON block of a thought, which holds the action as `tool` and `input`.
pub fn action_block(thought: &str) -> (r: Result<String, String>)
    requires
        fences_ordered(thought@),
    ensures
        match fenced_json(thought@) {
            Ok(j) => r matches Ok(b) && b@ == j,
            Err(e) => r matches Err(m) && m@ == block_error(e),
        },
{
    match fenced_json_exec(thought) {
        Ok(b) => Ok(b),
        Err(FenceError::MissingOpening) => Err(String::from_str("No JSON block found in thought")),
        Err(FenceError::MissingClosing) => Err(String::from_str("No closing JSON block found")),
    }
}

/// Whether a tool's output finishes the task: it does when it mentions
/// "success". An output that does not, but mentions "error" or "failed", is
/// recorded as a failed result.
pub fn is_task_complete(context: &mut TaskContext, output: &str) -> (r: Result<bool, String>)
    ensures
        r matches Ok(done) && done == contains(output@, "success"@),
        final(context).task == old(context).task,
        final(context).memory == old(context).memory,
        if !contains(output@, "success"@) && (contains(output@, "error"@) || contains(
            output@,
            "failed"@,
        )) {
            pushed_result(
                old(context).history@,
                final(context).history@,
                old(context).task@,
                false,
                output@,
                Some("Tool reported an error"@),
            )
        } else {
            final(context).history == old(context).history
        },
{
    if contains_exec(output, "success") {
        return Ok(true);
    }
    if contains_exec(output, "error") || contains_exec(output, "failed") {
        let ghost before = context.history@;
        context.history.push(
            TaskResult {
                task: context.task.clone(),
                success: false,
                output: String::from_str(output),
                feedback: Some(String::from_str("Tool reported an error")),
            },
        );
        assert(context.history@.take(before.len() as int) =~= before);
        return Ok(false);
    }
    Ok(false)
}

/// Where a ReAct run stands.
pub enum ReactPhase {
    /// The next thought is to be asked for.
    Thinking,
    /// A thought's action block is being parsed.
    AwaitingAction,
    /// A tool has been asked for and its output is awaited.
    AwaitingOutput(String, String),
    /// The run is over.
    Done,
}

/// What a ReAct run needs done next.
pub enum ReactStep {
    /// Ask for the next thought (with `think`).
    Continue,
    /// Parse this JSON text as an action with `tool` and `input` (and report it
    /// with `on_action`).
    ParseAction(String),
    /// Call this tool with this input (and report its output with `on_output`).
    CallTool(String, String),
    /// The run is over, with the final output or the error.
    Finished(Result<String, String>),
}

/// A ReAct run of a task: thoughts, actions and observations, at most
/// `max_step` of them. Tool calls and the parsing of actions happen outside;
/// the run decides what comes next and records it in the task's context.
pub struct ReactRun {
    /// Tool outputs received so far.
    pub step: usize,
    /// The most tool calls for this run.
    pub max_step: usize,
    pub phase: ReactPhase,
}

/// The message that an action leaves in memory.
pub open spec fn action_line(tool: Seq<char>, input: Seq<char>, output: Seq<char>) -> Seq<char> {
    "Tool: "@ + tool + ", Input: "@ + input + ", Output: "@ + output
}

impl ReactRun {
    /// The run's counters agree with its phase: no step past the limit, and a
    /// thought in progress only below it.
    pub open spec fn wf(&self) -> bool {
        &&& self.step <= self.max_step
        &&& (self.phase is AwaitingAction || self.phase is AwaitingOutput) ==> self.step
            < self.max_step
    }

    /// The tool calls that the run may still ask for: each `CallTool` uses one,
    /// and nothing gives one back before the run is done.
    pub open spec fn calls_left(&self) -> int {
        self.max_step - self.step - (if self.phase is AwaitingOutput {
            1int
        } else {
            0int
        })
    }

    /// Starts a run of `context`'s task: records the task as the system message.
    pub fn start(agent: &Agent, context: &mut TaskContext) -> (run: ReactRun)
        ensures
            run.wf(),
            run.step == 0,
            run.max_step == agent.max_step,
            run.phase is Thinking,
            run.calls_left() == agent.max_step,
            pushed_message(
                old(context).memory@,
                final(context).memory@,
                "system"@,
                "Task: "@ + old(context).task@,
            ),
            final(context).task == old(context).task,
            final(context).history == old(context).history,
    {
        let mut content = String::from_str("Task: ");
        content.append(context.task.as_str());
        let ghost before = context.memory@;
        context.memory.push(Message { role: String::from_str("system"), content });
        assert(context.memory@.take(before.len() as int) =~= before);
        ReactRun { step: 0, max_step: agent.max_step, phase: ReactPhase::Thinking }
    }

    /// Asks for the next thought, or ends the run when the steps are used up
    /// (recording the failure).
    pub fn think(&mut self, agent: &Agent, context: &mut TaskContext) -> (r: ReactStep)
        requires
            old(self).wf(),
            old(self).phase is Thinking,
        ensures
            final(self).wf(),
            final(self).step == old(self).step,
            final(self).max_step == old(self).max_step,
            final(self).calls_left() == old(self).calls_left(),
            final(context).task == old(context).task,
            old(self).step >= old(self).max_step ==> {
                &&& final(self).phase is Done
                &&& r matches ReactStep::Finished(Err(e)) && e@ == "Task failed to complete within "@
                    + decimal(old(self).max_step as nat) + " steps"@
                &&& final(context).memory == old(context).memory
                &&& pushed_result(
                    old(context).history@,
                    final(context).history@,
                    old(context).task@,
                    false,
                    "Failed to complete task"@,
                    Some("Reached maximum steps: "@ + decimal(old(self).max_step as nat)),
                )
            },
            old(self).step < old(self).max_step ==> {
                let thought = thought_reply(
                    thought_prompt(old(context).task@, agent.tools@, old(context).memory@),
                );
                &&& final(self).phase is AwaitingAction
                &&& r matches ReactStep::ParseAction(j) && fenced_json(thought) == Ok::<
                    Seq<char>,
                    FenceError,
                >(j@) && j@ == chosen_action_json(
                    thought_prompt(old(context).task@, agent.tools@, old(context).memory@),
                )
                &&& pushed_message(old(context).memory@, final(context).memory@, "thought"@, thought)
                &&& final(context).history == old(context).history
            },
    {
        if self.step >= self.max_step {
            let ghost before = context.history@;
            let n = decimal_string(self.max_step);
            let mut feedback = String::from_str("Reached maximum steps: ");
            feedback.append(n.as_str());
            context.history.push(
                TaskResult {
                    task: context.task.clone(),
                    success: false,
                    output: String::from_str("Failed to complete task"),
                    feedback: Some(feedback),
                },
            );
            assert(context.history@.take(before.len() as int) =~= before);
            let mut e = String::from_str("Task failed to complete within ");
            e.append(n.as_str());
            e.append(" steps");
            self.phase = ReactPhase::Done;
            return ReactStep::Finished(Err(e));
        }
        let prompt = match build_thought_prompt(agent, context) {
            Ok(p) => p,
            Err(e) => {
                self.phase = ReactPhase::Done;
                return ReactStep::Finished(Err(e));
            },
        };
        let thought = match call_llm(prompt.as_str()) {
            Ok(t) => t,
            Err(e) => {
                self.phase = ReactPhase::Done;
                return ReactStep::Finished(Err(e));
            },
        };
        proof {
            reveal_strlit("Thought: Analyzing task...\n");
            lemma_fenced_reply("Thought: Analyzing task...\n"@, chosen_action_json(prompt@));
        }
        let ghost before = context.memory@;
        context.memory.push(Message { role: String::from_str("thought"), content: thought.clone() });
        assert(context.memory@.take(before.len() as int) =~= before);
        match action_block(thought.as_str()) {
            Ok(block) => {
                self.phase = ReactPhase::AwaitingAction;
                ReactStep::ParseAction(block)
            },
            Err(e) => {
                self.phase = ReactPhase::Done;
                ReactStep::Finished(Err(e))
            },
        }
    }

    /// Takes the parsed action (tool and input) or the parse error.
    pub fn on_action(&mut self, parsed: Result<(String, String), String>) -> (r: ReactStep)
        requires
            old(self).wf(),
            old(self).phase is AwaitingAction,
        ensures
            final(self).wf(),
            final(self).step == old(self).step,
            final(self).max_step == old(self).max_step,
            final(self).calls_left() == old(self).calls_left() - (if r is CallTool {
                1int
            } else {
                0int
            }),
            match parsed {
                Ok((tool, input)) => {
                    &&& r matches ReactStep::CallTool(t, i) && t@ == tool@ && i@ == input@
                    &&& final(self).phase matches ReactPhase::AwaitingOutput(t, i) && t@ == tool@
                        && i@ == input@
                },
                Err(e) => {
                    &&& r matches ReactStep::Finished(Err(m)) && m@ == "Failed to parse action JSON: "@
                        + e@
                    &&& final(self).phase is Done
                },
            },
    {
        match parsed {
            Ok((tool, input)) => {
                self.phase = ReactPhase::AwaitingOutput(tool.clone(), input.clone());
                ReactStep::CallTool(tool, input)
            },
            Err(e) => {
                let mut m = String::from_str("Failed to parse action JSON: ");
                m.append(e.as_str());
                self.phase = ReactPhase::Done;
                ReactStep::Finished(Err(m))
            },
        }
    }

    /// Takes the tool's output (or its error), records the action and the
    /// observation, and ends the run when the output finishes the task.
    pub fn on_output(&mut self, context: &mut TaskContext, output: Result<String, String>) -> (r:
        ReactStep)
        requires
            old(self).wf(),
            old(self).phase is AwaitingOutput,
        ensures
            final(self).wf(),
            final(self).max_step == old(self).max_step,
            final(self).phase is Done || final(self).calls_left() == old(self).calls_left(),
            final(context).task == old(context).task,
            match output {
                Err(e) => {
                    &&& r matches ReactStep::Finished(Err(m)) && m@ == e@
                    &&& final(self).phase is Done
                    &&& final(self).step == old(self).step
                    &&& final(context).memory == old(context).memory
                    &&& final(context).history == old(context).history
                },
                Ok(out) => {
                    let (tool, input) = match old(self).phase {
                        ReactPhase::AwaitingOutput(t, i) => (t@, i@),
                        _ => (Seq::empty(), Seq::empty()),
                    };
                    let n = old(context).memory@.len();
                    let m = final(context).memory@;
                    &&& m.len() == n + 2
                    &&& m.take(n as int) == old(context).memory@
                    &&& m[n as int].role@ == "action"@
                    &&& m[n as int].content@ == action_line(tool, input, out@)
                    &&& m[n + 1int].role@ == "observation"@
                    &&& m[n + 1int].content@ == out@
                    &&& if contains(out@, "success"@) {
                        &&& r matches ReactStep::Finished(Ok(o)) && o@ == out@
                        &&& final(self).phase is Done
                        &&& final(self).step == old(self).step
                        &&& pushed_result(
                            old(context).history@,
                            final(context).history@,
                            old(context).task@,
                            true,
                            out@,
                            None,
                        )
                    } else {
                        &&& r is Continue
                        &&& final(self).phase is Thinking
                        &&& final(self).step == old(self).step + 1
                        &&& if contains(out@, "error"@) || contains(out@, "failed"@) {
                            pushed_result(
                                old(context).history@,
                                final(context).history@,
                                old(context).task@,
                                false,
                                out@,
                                Some("Tool reported an error"@),
                            )
                        } else {
                            final(context).history == old(context).history
                        }
                    }
                },
            },
    {
        let out = match output {
            Ok(o) => o,
            Err(e) => {
                self.phase = ReactPhase::Done;
                return ReactStep::Finished(Err(e));
            },
        };
        let mut line = String::from_str("Tool: ");
        match &self.phase {
            ReactPhase::AwaitingOutput(tool, input) => {
                line.append(tool.as_str());
                line.append(", Input: ");
                line.append(input.as_str());
            },
            _ => {},
        }
        line.append(", Output: ");
        line.append(out.as_str());
        let ghost before = context.memory@;
        context.memory.push(Message { role: String::from_str("action"), content: line });
        context.memory.push(Message { role: String::from_str("observation"), content: out.clone() });
        assert(context.memory@.take(before.len() as int) =~= before);
        let done = match is_task_complete(context, out.as_str()) {
            Ok(d) => d,
            Err(e) => {
                self.phase = ReactPhase::Done;
                return ReactStep::Finished(Err(e));
            },
        };
        if done {
            let ghost hist = context.history@;
            context.history.push(
                TaskResult {
                    task: context.task.clone(),
                    success: true,
                    output: out.clone(),
                    feedback: None,
                },
            );
            assert(context.history@.take(hist.len() as int) =~= hist);
            self.phase = ReactPhase::Done;
            return ReactStep::Finished(Ok(out));
        }
        self.step = self.step + 1;
        self.phase = ReactPhase::Thinking;
        ReactStep::Continue
    }
}

/// A run that keeps its counters in order never has a negative number of tool
/// calls left: with `calls_left` starting at `max_step` and going down by one
/// per `CallTool`, a run asks for at most `max_step` tool calls.
pub proof fn law_tool_calls_bounded(run: ReactRun)
    requires
        run.wf(),
    ensures
        0 <= run.calls_left() <= run.max_step,
{
}

/// How the model picks its action: the Math module is compiled whenever the
/// prompt mentions "Compile", whatever else it mentions; otherwise a Lumora
/// factorial function is generated whenever the prompt mentions "Generate";
/// otherwise the knowledge is searched. Its reply is a thought whose JSON block
/// is the object of that `tool` and `input`.
pub proof fn law_action_choice(prompt: Seq<char>)
    ensures
        contains(prompt, "Compile"@) ==> chosen_tool(prompt) == (
            "compile_lumora"@,
            "(module Math (fn add (a int) (b int) -> int ((return (+ a b)))) (export add))"@,
        ),
        !contains(prompt, "Compile"@) && contains(prompt, "Generate"@) ==> chosen_tool(prompt) == (
            "generate_code"@,
            "Generate a Lumora factorial function"@,
        ),
        !contains(prompt, "Compile"@) && !contains(prompt, "Generate"@) ==> chosen_tool(prompt) == (
            "search_knowledge"@,
            "Lumora best practices for performance"@,
        ),
        thought_reply(prompt) == fenced_reply(
            "Thought: Analyzing task...\n"@,
            json_object_text(
                seq![("tool"@, chosen_tool(prompt).0), ("input"@, chosen_tool(prompt).1)],
                Seq::<(Seq<char>, Seq<Seq<char>>)>::empty(),
            ),
        ),
{
}

/// Every thought prompt mentions "Generate", as it asks to generate the next
/// step; so in a ReAct run the task decides: a task that mentions "Compile" is
/// answered by compiling the Math module, whatever the tools and memory hold.
pub proof fn law_compile_task_compiles(task: Seq<char>, tools: Seq<Tool>, memory: Seq<Message>)
    ensures
        contains(thought_prompt(task, tools, memory), "Generate"@),
        contains(task, "Compile"@) ==> chosen_tool(thought_prompt(task, tools, memory)) == (
            "compile_lumora"@,
            "(module Math (fn add (a int) (b int) -> int ((return (+ a b)))) (export add))"@,
        ),
{
    let last = "\n\nGenerate the next reasoning step (Thought) and suggest an Action in JSON format:\n```json\n{\"tool\": \"<tool_name>\", \"input\": \"<input_string>\"}\n```"@;
    reveal_strlit(
        "\n\nGenerate the next reasoning step (Thought) and suggest an Action in JSON format:\n```json\n{\"tool\": \"<tool_name>\", \"input\": \"<input_string>\"}\n```",
    );
    reveal_strlit("Generate");
    let head = REACT_PROMPT@ + "\n\nCurrent Task: "@;
    let tl = join(tools.map_values(|t: Tool| tool_line(t)), "\n"@);
    let ml = join(memory.map_values(|m: Message| memory_line(m)), "\n"@);
    let p = thought_prompt(task, tools, memory);
    let before = head + task + "\nAvailable Tools:\n"@ + tl + "\nMessages:\n"@ + ml;
    assert(p == before + last);
    assert(last.subrange(2, 10) =~= "Generate"@);
    assert(occurs_at(last, "Generate"@, 2));
    lemma_contains_within(before, last, Seq::empty(), "Generate"@);
    assert(before + last + Seq::<char>::empty() =~= p);
    let after = "\nAvailable Tools:\n"@ + tl + "\nMessages:\n"@ + ml + last;
    assert(head + task + after =~= p);
    if contains(task, "Compile"@) {
        lemma_contains_within(head, task, after, "Compile"@);
    }
}

/// A thought prompt begins with the ReAct instructions and holds the task,
/// the line of every tool and the line of every memory entry.
pub proof fn law_thought_prompt_holds_its_parts(
    task: Seq<char>,
    tools: Seq<Tool>,
    memory: Seq<Message>,
)
    ensures
        starts_with(thought_prompt(task, tools, memory), REACT_PROMPT@),
        contains(thought_prompt(task, tools, memory), task),
        forall|i: int|
            0 <= i < tools.len() ==> contains(
                thought_prompt(task, tools, memory),
                #[trigger] tool_line(tools[i]),
            ),
        forall|i: int|
            0 <= i < memory.len() ==> contains(
                thought_prompt(task, tools, memory),
                #[trigger] memory_line(memory[i]),
            ),
{
    let last = "\n\nGenerate the next reasoning step (Thought) and suggest an Action in JSON format:\n```json\n{\"tool\": \"<tool_name>\", \"input\": \"<input_string>\"}\n```"@;
    let head = REACT_PROMPT@ + "\n\nCurrent Task: "@;
    let tls = tools.map_values(|t: Tool| tool_line(t));
    let mls = memory.map_values(|m: Message| memory_line(m));
    let tl = join(tls, "\n"@);
    let ml = join(mls, "\n"@);
    let p = thought_prompt(task, tools, memory);
    assert(p.take(REACT_PROMPT@.len() as int) =~= REACT_PROMPT@);
    assert(task.subrange(0, task.len() as int) =~= task);
    assert(occurs_at(task, task, 0));
    let after = "\nAvailable Tools:\n"@ + tl + "\nMessages:\n"@ + ml + last;
    lemma_contains_within(head, task, after, task);
    assert(head + task + after =~= p);
    let t_before = head + task + "\nAvailable Tools:\n"@;
    let t_after = "\nMessages:\n"@ + ml + last;
    assert(t_before + tl + t_after =~= p);
    assert forall|i: int| 0 <= i < tools.len() implies contains(p, #[trigger] tool_line(tools[i])) by {
        lemma_join_contains(tls, "\n"@, i);
        lemma_contains_within(t_before, tl, t_after, tool_line(tools[i]));
    }
    let m_before = head + task + "\nAvailable Tools:\n"@ + tl + "\nMessages:\n"@;
    assert(m_before + ml + last =~= p);
    assert forall|i: int| 0 <= i < memory.len() implies contains(p, #[trigger] memory_line(memory[i])) by {
        lemma_join_contains(mls, "\n"@, i);
        lemma_contains_within(m_before, ml, last, memory_line(memory[i]));
    }
}

} // verus!
