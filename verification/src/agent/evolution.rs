use vstd::prelude::*;
use crate::agent::{Agent, TaskResult};
use crate::agent::prompt::{REACT_PROMPT, UPGRADE_PROMPT};
use crate::fence::{
    FenceError, fenced_json, fenced_json_exec, fenced_reply, fences_ordered, lemma_fenced_reply,
};
use crate::json::{
    json_object_text, json_string_members, members_distinct, object_json, reads_back, string_members,
    text_member,
};
use crate::text::{
    bool_string, bool_text, contains, contains_exec, join, lemma_contains_within,
    lemma_join_contains, lemma_join_take, occurs_at, starts_with,
};

verus! {

/// The state that reflection reads and upgrades: an agent's task, history,
/// template and knowledge.
pub type AgentState = Agent;

/// One line of the history in a reflection prompt.
pub open spec fn history_line(r: TaskResult) -> Seq<char> {
    "Task: "@ + r.task@ + ", Success: "@ + bool_text(r.success) + ", Output: "@ + r.output@
}

/// The history of a reflection prompt: one line per result.
pub open spec fn history_text(h: Seq<TaskResult>) -> Seq<char> {
    join(h.map_values(|r: TaskResult| history_line(r)), "\n"@)
}

/// The prompt that asks for improvements after a failure.
pub open spec fn reflection_prompt(
    task: Seq<char>,
    output: Seq<char>,
    feedback: Seq<char>,
    history: Seq<TaskResult>,
) -> Seq<char> {
    UPGRADE_PROMPT@ + "\n\nTask: "@ + task + "\nLast Output: "@ + output + "\nFeedback: "@ + feedback
        + "\nHistory:\n"@ + history_text(history)
        + "\n\nAnalyze the failure and suggest improvements (e.g., better prompt, tool usage). Return JSON:\n```json\n{\"prompt\": \"<new_prompt>\", \"tools\": [\"<tool_name>\"], \"strategy\": \"<strategy_description>\"}\n```"@
}

/// The string members of the improvements that the model suggests for `prompt`.
pub open spec fn suggested_text_members(prompt: Seq<char>) -> Seq<(Seq<char>, Seq<char>)> {
    if contains(prompt, "compile"@) {
        seq![
            ("prompt"@, REACT_PROMPT@ + "\nFocus on generating valid Lumora code with proper types."@),
            ("strategy"@, "Ensure type annotations in Lumora code to avoid type errors."@),
        ]
    } else {
        seq![
            ("prompt"@, REACT_PROMPT@ + "\nPrioritize performance optimization."@),
            ("strategy"@, "Optimize loops and reduce memory usage in generated code."@),
        ]
    }
}

/// The tool lists of the improvements that the model suggests for `prompt`.
pub open spec fn suggested_list_members(prompt: Seq<char>) -> Seq<(Seq<char>, Seq<Seq<char>>)> {
    if contains(prompt, "compile"@) {
        seq![("tools"@, seq!["compile_lumora"@, "generate_code"@])]
    } else {
        seq![("tools"@, seq!["run_wasm"@, "generate_code"@])]
    }
}

/// The prompt that the model suggests for `prompt`.
pub open spec fn suggested_prompt(prompt: Seq<char>) -> Seq<char> {
    suggested_text_members(prompt)[0].1
}

/// The strategy that the model suggests for `prompt`.
pub open spec fn suggested_strategy(prompt: Seq<char>) -> Seq<char> {
    suggested_text_members(prompt)[1].1
}

/// What the JSON text of the model's suggestions for `prompt` is known to be:
/// an object between braces whose string members read back.
pub open spec fn suggestion_json_readable(prompt: Seq<char>) -> bool {
    let j = json_object_text(suggested_text_members(prompt), suggested_list_members(prompt));
    &&& j.len() >= 2
    &&& j[0] == '{'
    &&& j.last() == '}'
    &&& reads_back(j, suggested_text_members(prompt))
}

/// The reply that wraps a JSON text in a reflection.
pub open spec fn reflection_reply_of(json: Seq<char>) -> Seq<char> {
    fenced_reply("Reflection: Analyzing failure...\n"@, json)
}

/// The model's reply to a reflection prompt.
pub open spec fn reflection_reply(prompt: Seq<char>) -> Seq<char> {
    reflection_reply_of(
        json_object_text(suggested_text_members(prompt), suggested_list_members(prompt)),
    )
}

/// The suggested prompt and strategy in an improvements text, or the error.
pub open spec fn improvement_members(text: Seq<char>) -> Result<Seq<Option<Seq<char>>>, Seq<char>> {
    match fenced_json(text) {
        Err(FenceError::MissingOpening) => Err("No JSON block in improvements"@),
        Err(FenceError::MissingClosing) => Err("No closing JSON block"@),
        Ok(j) => match json_string_members(j, seq!["prompt"@, "strategy"@]) {
            Ok(vals) => Ok(vals),
            Err(e) => Err("Failed to parse improvements JSON: "@ + e),
        },
    }
}

/// The two agents agree on everything that reflection does not touch.
pub open spec fn same_except_learning(a: AgentState, b: AgentState) -> bool {
    &&& a.messages == b.messages
    &&& a.tools == b.tools
    &&& a.task == b.task
    &&& a.history == b.history
    &&& a.max_iterations == b.max_iterations
}

/// `after` is `before` with the improvements of `text` applied, and `r` is
/// the outcome: on an error nothing changes; else a suggested prompt becomes
/// the template and a suggested strategy is stored under `strategy:<task>`.
pub open spec fn improvements_applied(
    before: AgentState,
    after: AgentState,
    text: Seq<char>,
    r: Result<(), String>,
) -> bool {
    match improvement_members(text) {
        Err(msg) => r matches Err(m) && m@ == msg && after == before,
        Ok(vals) => {
            &&& r is Ok
            &&& vals.len() == 2
            &&& after.prompt_template@ == (match vals[0] {
                Some(p) => p,
                None => before.prompt_template@,
            })
            &&& after.knowledge_base@ == (match vals[1] {
                Some(st) => before.knowledge_base@.insert("strategy:"@ + before.task@, st),
                None => before.knowledge_base@,
            })
            &&& same_except_learning(before, after)
        },
    }
}

/// The feedback of a result, or the stand-in when it has none.
pub open spec fn feedback_text(r: TaskResult) -> Seq<char> {
    match r.feedback {
        Some(f) => f@,
        None => "No specific feedback provided"@,
    }
}

/// Builds the prompt that asks for improvements after a failure.
pub fn build_reflection_prompt(state: &AgentState, output: &str, feedback: &str) -> (r: Result<
    String,
    String,
>)
    ensures
        r matches Ok(p) && p@ == reflection_prompt(state.task@, output@, feedback@, state.history@),
{
    let ghost lines = state.history@.map_values(|r: TaskResult| history_line(r));
    let mut history = String::new();
    let mut i: usize = 0;
    while i < state.history.len()
        invariant
            i <= state.history@.len(),
            lines == state.history@.map_values(|r: TaskResult| history_line(r)),
            history@ == join(lines.take(i as int), "\n"@),
        decreases state.history@.len() - i,
    {
        let r = &state.history[i];
        proof {
            lemma_join_take(lines, "\n"@, i as int);
        }
        if i > 0 {
            history.append("\n");
        }
        history.append("Task: ");
        history.append(r.task.as_str());
        history.append(", Success: ");
        let b = bool_string(r.success);
        history.append(b.as_str());
        history.append(", Output: ");
        history.append(r.output.as_str());
        proof {
            if i == 0 {
                assert(join(lines.take(0), "\n"@) =~= Seq::<char>::empty());
            }
        }
        assert(history@ =~= join(lines.take(i + 1), "\n"@));
        i = i + 1;
    }
    assert(lines.take(i as int) =~= lines);
    let mut p = String::from_str(UPGRADE_PROMPT);
    p.append("\n\nTask: ");
    p.append(state.task.as_str());
    p.append("\nLast Output: ");
    p.append(output);
    p.append("\nFeedback: ");
    p.append(feedback);
    p.append("\nHistory:\n");
    p.append(history.as_str());
    p.append(
        "\n\nAnalyze the failure and suggest improvements (e.g., better prompt, tool usage). Return JSON:\n```json\n{\"prompt\": \"<new_prompt>\", \"tools\": [\"<tool_name>\"], \"strategy\": \"<strategy_description>\"}\n```",
    );
    assert(p@ =~= reflection_prompt(state.task@, output@, feedback@, state.history@));
    Ok(p)
}

/// The stand-in for the model: suggests improvements for a reflection prompt,
/// focused on compiling when the prompt mentions "compile" and on performance
/// otherwise.
pub fn call_llm(prompt: &str) -> (r: Result<String, String>)
    ensures
        r matches Ok(reply) && reply@ == reflection_reply(prompt@),
        suggestion_json_readable(prompt@),
{
    let compile = contains_exec(prompt, "compile");
    let mut new_prompt = String::from_str(REACT_PROMPT);
    let strategy: String;
    let tools: Vec<String>;
    if compile {
        new_prompt.append("\nFocus on generating valid Lumora code with proper types.");
        strategy = String::from_str("Ensure type annotations in Lumora code to avoid type errors.");
        tools = vec![String::from_str("compile_lumora"), String::from_str("generate_code")];
    } else {
        new_prompt.append("\nPrioritize performance optimization.");
        strategy = String::from_str("Optimize loops and reduce memory usage in generated code.");
        tools = vec![String::from_str("run_wasm"), String::from_str("generate_code")];
    }
    let text_members = vec![
        (String::from_str("prompt"), new_prompt),
        (String::from_str("strategy"), strategy),
    ];
    let list_members = vec![(String::from_str("tools"), tools)];
    assert(text_members.deep_view() =~= suggested_text_members(prompt@));
    assert(list_members@[0].1.deep_view() =~= suggested_list_members(prompt@)[0].1);
    assert(list_members.deep_view() =~= suggested_list_members(prompt@));
    proof {
        reveal_strlit("prompt");
        reveal_strlit("strategy");
        reveal_strlit("tools");
        let tm = text_members.deep_view();
        let lm = list_members.deep_view();
        assert(tm.len() == 2 && lm.len() == 1);
        assert(tm[0].0.len() == 6 && tm[1].0.len() == 8 && lm[0].0.len() == 5);
        assert(members_distinct(text_members.deep_view(), list_members.deep_view()));
    }
    let json = object_json(&text_members, &list_members);
    let mut reply = String::from_str("Reflection: Analyzing failure...\n");
    reply.append("```json\n");
    reply.append(json.as_str());
    reply.append("\n```");
    assert(reply@ =~= reflection_reply(prompt@));
    Ok(reply)
}

/// Applies the improvements in the JSON block of `improvements`: a suggested
/// prompt becomes the template, a suggested strategy is stored under
/// `strategy:<task>`.
pub fn apply_improvements(state: &mut AgentState, improvements: &str) -> (r: Result<(), String>)
    requires
        fences_ordered(improvements@),
    ensures
        improvements_applied(*old(state), *final(state), improvements@, r),
{
    let block = match fenced_json_exec(improvements) {
        Ok(b) => b,
        Err(FenceError::MissingOpening) => {
            return Err(String::from_str("No JSON block in improvements"));
        },
        Err(FenceError::MissingClosing) => {
            return Err(String::from_str("No closing JSON block"));
        },
    };
    let keys = vec![String::from_str("prompt"), String::from_str("strategy")];
    assert(keys.deep_view() =~= seq!["prompt"@, "strategy"@]);
    let vals = match string_members(block.as_str(), &keys) {
        Ok(v) => v,
        Err(e) => {
            let mut m = String::from_str("Failed to parse improvements JSON: ");
            m.append(e.as_str());
            return Err(m);
        },
    };
    let ghost dv = vals.deep_view();
    assert(dv[0] == vals@[0].deep_view());
    assert(dv[1] == vals@[1].deep_view());
    match &vals[0] {
        Some(p) => {
            state.prompt_template = p.clone();
        },
        None => {},
    }
    match &vals[1] {
        Some(st) => {
            let mut key = String::from_str("strategy:");
            key.append(state.task.as_str());
            state.knowledge_base.insert(key, st.clone());
        },
        None => {},
    }
    Ok(())
}

/// A reflection prompt begins with the upgrade instructions and holds the
/// task, the last output, the feedback and the line of every earlier result.
pub proof fn law_reflection_prompt_holds_its_parts(
    task: Seq<char>,
    output: Seq<char>,
    feedback: Seq<char>,
    history: Seq<TaskResult>,
)
    ensures
        starts_with(reflection_prompt(task, output, feedback, history), UPGRADE_PROMPT@),
        contains(reflection_prompt(task, output, feedback, history), task),
        contains(reflection_prompt(task, output, feedback, history), output),
        contains(reflection_prompt(task, output, feedback, history), feedback),
        forall|i: int|
            0 <= i < history.len() ==> contains(
                reflection_prompt(task, output, feedback, history),
                #[trigger] history_line(history[i]),
            ),
{
    let last = "\n\nAnalyze the failure and suggest improvements (e.g., better prompt, tool usage). Return JSON:\n```json\n{\"prompt\": \"<new_prompt>\", \"tools\": [\"<tool_name>\"], \"strategy\": \"<strategy_description>\"}\n```"@;
    let lines = history.map_values(|r: TaskResult| history_line(r));
    let ht = join(lines, "\n"@);
    let p = reflection_prompt(task, output, feedback, history);
    assert(p.take(UPGRADE_PROMPT@.len() as int) =~= UPGRADE_PROMPT@);
    let a1 = UPGRADE_PROMPT@ + "\n\nTask: "@;
    let c1 = "\nLast Output: "@ + output + "\nFeedback: "@ + feedback + "\nHistory:\n"@ + ht + last;
    assert(a1 + task + c1 =~= p);
    assert(task.subrange(0, task.len() as int) =~= task);
    assert(occurs_at(task, task, 0));
    lemma_contains_within(a1, task, c1, task);
    let a2 = a1 + task + "\nLast Output: "@;
    let c2 = "\nFeedback: "@ + feedback + "\nHistory:\n"@ + ht + last;
    assert(a2 + output + c2 =~= p);
    assert(output.subrange(0, output.len() as int) =~= output);
    assert(occurs_at(output, output, 0));
    lemma_contains_within(a2, output, c2, output);
    let a3 = a2 + output + "\nFeedback: "@;
    let c3 = "\nHistory:\n"@ + ht + last;
    assert(a3 + feedback + c3 =~= p);
    assert(feedback.subrange(0, feedback.len() as int) =~= feedback);
    assert(occurs_at(feedback, feedback, 0));
    lemma_contains_within(a3, feedback, c3, feedback);
    let a4 = a3 + feedback + "\nHistory:\n"@;
    assert(a4 + ht + last =~= p);
    assert forall|i: int| 0 <= i < history.len() implies contains(p, #[trigger] history_line(history[i])) by {
        lemma_join_contains(lines, "\n"@, i);
        lemma_contains_within(a4, ht, last, history_line(history[i]));
    }
}

/// What the model suggests after a failure: a prompt that focuses on valid,
/// typed Lumora code, a strategy of type annotations and the compile and
/// generate tools exactly when the reflection prompt mentions "compile";
/// otherwise a prompt that prioritises performance, a strategy of faster
/// loops and less memory, and the run and generate tools.
pub proof fn law_reflection_suggestions(prompt: Seq<char>)
    ensures
        suggested_prompt(prompt) == REACT_PROMPT@ + (if contains(prompt, "compile"@) {
            "\nFocus on generating valid Lumora code with proper types."@
        } else {
            "\nPrioritize performance optimization."@
        }),
        suggested_strategy(prompt) == (if contains(prompt, "compile"@) {
            "Ensure type annotations in Lumora code to avoid type errors."@
        } else {
            "Optimize loops and reduce memory usage in generated code."@
        }),
        suggested_list_members(prompt) == seq![
            (
                "tools"@,
                if contains(prompt, "compile"@) {
                    seq!["compile_lumora"@, "generate_code"@]
                } else {
                    seq!["run_wasm"@, "generate_code"@]
                },
            ),
        ],
{
}

/// Applying the model's reply to a reflection prompt succeeds and upgrades
/// only what reflection learns: the template becomes the performance prompt
/// and the task's strategy the performance strategy, unless the prompt
/// mentions "compile", when both are the compile-focused ones.
pub proof fn law_reflection_upgrade(
    before: AgentState,
    after: AgentState,
    prompt: Seq<char>,
    r: Result<(), String>,
)
    requires
        suggestion_json_readable(prompt),
        improvements_applied(before, after, reflection_reply(prompt), r),
    ensures
        r is Ok,
        same_except_learning(before, after),
        !contains(prompt, "compile"@) ==> {
            &&& after.prompt_template@ == REACT_PROMPT@ + "\nPrioritize performance optimization."@
            &&& after.knowledge_base@ == before.knowledge_base@.insert(
                "strategy:"@ + before.task@,
                "Optimize loops and reduce memory usage in generated code."@,
            )
        },
        contains(prompt, "compile"@) ==> {
            &&& after.prompt_template@ == REACT_PROMPT@
                + "\nFocus on generating valid Lumora code with proper types."@
            &&& after.knowledge_base@ == before.knowledge_base@.insert(
                "strategy:"@ + before.task@,
                "Ensure type annotations in Lumora code to avoid type errors."@,
            )
        },
{
    lemma_reflection_members(prompt);
}

/// The improvements text that the model writes for `prompt` names its
/// suggested prompt and strategy.
proof fn lemma_reflection_members(prompt: Seq<char>)
    requires
        suggestion_json_readable(prompt),
    ensures
        improvement_members(reflection_reply(prompt)) == Ok::<Seq<Option<Seq<char>>>, Seq<char>>(
            seq![Some(suggested_prompt(prompt)), Some(suggested_strategy(prompt))],
        ),
{
    reveal_strlit("Reflection: Analyzing failure...\n");
    reveal_strlit("prompt");
    reveal_strlit("strategy");
    let tm = suggested_text_members(prompt);
    let j = json_object_text(tm, suggested_list_members(prompt));
    let t = reflection_reply_of(j);
    lemma_fenced_reply("Reflection: Analyzing failure...\n"@, j);
    assert(fenced_json(t) == Ok::<Seq<char>, FenceError>(j));
    let keys = seq!["prompt"@, "strategy"@];
    assert(json_string_members(j, keys) == Ok::<Seq<Option<Seq<char>>>, Seq<char>>(
        keys.map_values(|k: Seq<char>| text_member(tm, k)),
    ));
    assert(tm[0].0 == "prompt"@);
    assert(tm[1].0 == "strategy"@);
    assert(tm.len() == 2);
    let i0 = choose|i: int| 0 <= i < tm.len() && tm[i].0 == "prompt"@;
    assert(tm[i0].0 == "prompt"@);
    assert(i0 == 0);
    assert(text_member(tm, "prompt"@) == Some(suggested_prompt(prompt)));
    let i1 = choose|i: int| 0 <= i < tm.len() && tm[i].0 == "strategy"@;
    assert(tm[i1].0 == "strategy"@);
    assert(i1 == 1);
    assert(text_member(tm, "strategy"@) == Some(suggested_strategy(prompt)));
    assert(keys.map_values(|k: Seq<char>| text_member(tm, k)) =~= seq![
        Some(suggested_prompt(prompt)),
        Some(suggested_strategy(prompt)),
    ]);
}

/// Reflects on the last result of the history and upgrades the agent: after
/// a failure, the model's suggested prompt and strategy are applied; after a
/// success, the output is stored under `success:<task>`; with no history,
/// nothing changes.
pub fn reflect_and_upgrade(state: &mut AgentState) -> (r: Result<(), String>)
    ensures
        old(state).history@.len() == 0 ==> r is Ok && *final(state) == *old(state),
        old(state).history@.len() > 0 && old(state).history@.last().success ==> {
            &&& r is Ok
            &&& final(state).knowledge_base@ == old(state).knowledge_base@.insert(
                "success:"@ + old(state).history@.last().task@,
                old(state).history@.last().output@,
            )
            &&& final(state).prompt_template == old(state).prompt_template
            &&& same_except_learning(*old(state), *final(state))
        },
        old(state).history@.len() > 0 && !old(state).history@.last().success ==> {
            let last = old(state).history@.last();
            let p = reflection_prompt(
                old(state).task@,
                last.output@,
                feedback_text(last),
                old(state).history@,
            );
            &&& r is Ok
            &&& final(state).prompt_template@ == suggested_prompt(p)
            &&& final(state).knowledge_base@ == old(state).knowledge_base@.insert(
                "strategy:"@ + old(state).task@,
                suggested_strategy(p),
            )
            &&& same_except_learning(*old(state), *final(state))
        },
        old(state).history@.len() > 0 && !old(state).history@.last().success ==> {
            let last = old(state).history@.last();
            improvements_applied(
                *old(state),
                *final(state),
                reflection_reply(
                    reflection_prompt(
                        old(state).task@,
                        last.output@,
                        feedback_text(last),
                        old(state).history@,
                    ),
                ),
                r,
            )
        },
{
    let n = state.history.len();
    if n == 0 {
        return Ok(());
    }
    let success = state.history[n - 1].success;
    let task = state.history[n - 1].task.clone();
    let output = state.history[n - 1].output.clone();
    if !success {
        let feedback = match &state.history[n - 1].feedback {
            Some(f) => f.clone(),
            None => String::from_str("No specific feedback provided"),
        };
        let reflection_prompt = build_reflection_prompt(state, output.as_str(), feedback.as_str())?;
        let improvements = call_llm(reflection_prompt.as_str())?;
        proof {
            let p = reflection_prompt@;
            reveal_strlit("Reflection: Analyzing failure...\n");
            lemma_fenced_reply(
                "Reflection: Analyzing failure...\n"@,
                json_object_text(suggested_text_members(p), suggested_list_members(p)),
            );
            lemma_reflection_members(p);
        }
        return apply_improvements(state, improvements.as_str());
    }
    update_knowledge_base(state, task.as_str(), output.as_str())
}

/// Stores a successful output under `success:<task>`.
pub fn update_knowledge_base(state: &mut AgentState, task: &str, output: &str) -> (r: Result<
    (),
    String,
>)
    ensures
        r is Ok,
        final(state).knowledge_base@ == old(state).knowledge_base@.insert(
            "success:"@ + task@,
            output@,
        ),
        final(state).prompt_template == old(state).prompt_template,
        same_except_learning(*old(state), *final(state)),
{
    let mut key = String::from_str("success:");
    key.append(task);
    state.knowledge_base.insert(key, String::from_str(output));
    Ok(())
}

} // verus!
