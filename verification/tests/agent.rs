use geno::agent::action::Action;
use geno::agent::evolution::{
    apply_improvements, build_reflection_prompt, call_llm, reflect_and_upgrade,
    update_knowledge_base,
};
use geno::agent::interpreter::{extract, parse_response};
use geno::agent::prompt::{REACT_PROMPT, UPGRADE_PROMPT};
use geno::agent::{Agent, TaskResult};

fn code_of(a: &Action) -> Option<String> {
    match a {
        Action::Code(c) => Some(c.clone()),
        _ => None,
    }
}

#[test]
fn action_code_is_read() {
    let a = Action::from_str("code(\"print(1)\")");
    assert_eq!(code_of(&a), Some("print(1)".to_string()));
}

#[test]
fn action_code_round_trip() {
    let a = Action::from_str("code(let x = 2;)");
    assert_eq!(code_of(&a), Some("let x = 2;".to_string()));
}

#[test]
fn action_trims_repeated_wrappers() {
    let a = Action::from_str("code(code(x)))");
    assert_eq!(code_of(&a), Some("x".to_string()));
    let b = Action::from_str("code(\"\"a\"\")");
    assert_eq!(code_of(&b), Some("a".to_string()));
    let c = Action::from_str("code()");
    assert_eq!(code_of(&c), Some(String::new()));
}

#[test]
fn action_without_code_prefix_is_unknown() {
    assert!(matches!(Action::from_str("tool(x)"), Action::Unknown));
    assert!(matches!(Action::from_str(" code(x)"), Action::Unknown));
    assert!(matches!(Action::from_str(""), Action::Unknown));
}

#[test]
fn response_is_split_into_thought_and_action() {
    let r = parse_response("Thought: plan the step\nAction: code(run())");
    assert_eq!(r.thought, "plan the step");
    assert_eq!(code_of(&r.action), Some("run(".to_string()));
}

#[test]
fn response_lines_are_trimmed_and_crlf_ends_are_dropped() {
    let r = parse_response("intro\r\n   Thought:   think hard  \r\n\tAction: code(\"go\")\r\n");
    assert_eq!(r.thought, "think hard");
    assert_eq!(code_of(&r.action), Some("go".to_string()));
}

#[test]
fn response_without_markers_gives_empty_thought_and_unknown_action() {
    let r = parse_response("nothing here\nat all");
    assert_eq!(r.thought, "");
    assert!(matches!(r.action, Action::Unknown));
}

#[test]
fn extract_takes_the_first_matching_line() {
    assert_eq!(extract("A:", "x\nA: one\nA: two"), "one");
    assert_eq!(extract("A:", "A:"), "");
    assert_eq!(extract("A:", ""), "");
    assert_eq!(extract("B:", "A: one"), "");
    assert_eq!(extract("A:", "\u{3000}A:\u{2003}wide\u{a0}"), "wide");
}

#[test]
fn new_agent_starts_empty_with_react_template() {
    let a = Agent::new("build it", 7).unwrap();
    assert_eq!(a.task, "build it");
    assert_eq!(a.max_iterations, 7);
    assert_eq!(a.prompt_template, REACT_PROMPT);
    assert!(a.messages.is_empty());
    assert!(a.tools.is_empty());
    assert!(a.history.is_empty());
    assert_eq!(a.knowledge_base.len(), 0);
}

fn result(task: &str, success: bool, output: &str, feedback: Option<&str>) -> TaskResult {
    TaskResult {
        task: task.to_string(),
        success,
        output: output.to_string(),
        feedback: feedback.map(|f| f.to_string()),
    }
}

#[test]
fn reflection_prompt_lists_the_history() {
    let mut a = Agent::new("t1", 3).unwrap();
    a.history.push(result("t0", true, "ok", None));
    a.history.push(result("t1", false, "bad", None));
    let p = build_reflection_prompt(&a, "bad", "fb").unwrap();
    let expected = format!(
        "{}\n\nTask: t1\nLast Output: bad\nFeedback: fb\nHistory:\nTask: t0, Success: true, Output: ok\nTask: t1, Success: false, Output: bad\n\nAnalyze the failure and suggest improvements (e.g., better prompt, tool usage). Return JSON:\n```json\n{{\"prompt\": \"<new_prompt>\", \"tools\": [\"<tool_name>\"], \"strategy\": \"<strategy_description>\"}}\n```",
        UPGRADE_PROMPT
    );
    assert_eq!(p, expected);
}

#[test]
fn reflection_reply_is_exact_json() {
    let reply = call_llm("nothing special").unwrap();
    let json = r#"{"prompt":"\nYou are Geno, an AI Agent for Lumora code. Use ReAct:\n1. Thought: Plan the next step.\n2. Action: Output JSON: {\"tool\": \"<name>\", \"input\": \"<input>\"}\nTools: compile_lumora, generate_code, run_wasm, search_knowledge.\nTask: {task}\nMessages: {messages}\n\nPrioritize performance optimization.","strategy":"Optimize loops and reduce memory usage in generated code.","tools":["run_wasm","generate_code"]}"#;
    assert_eq!(reply, format!("Reflection: Analyzing failure...\n```json\n{}\n```", json));
}

#[test]
fn reflection_reply_for_compile_focuses_on_types() {
    let reply = call_llm("it did not compile").unwrap();
    assert!(reply.contains("Focus on generating valid Lumora code with proper types."));
    assert!(reply.contains(r#""tools":["compile_lumora","generate_code"]"#));
    assert!(reply.contains("Ensure type annotations in Lumora code to avoid type errors."));
}

#[test]
fn reflecting_on_a_failure_applies_the_suggestion() {
    let mut a = Agent::new("t", 3).unwrap();
    a.history.push(result("t", false, "crash", Some("too slow")));
    reflect_and_upgrade(&mut a).unwrap();
    assert_eq!(a.prompt_template, format!("{}\nPrioritize performance optimization.", REACT_PROMPT));
    assert_eq!(
        a.knowledge_base.get("strategy:t").map(|s| s.as_str()),
        Some("Optimize loops and reduce memory usage in generated code.")
    );
    assert_eq!(a.knowledge_base.len(), 1);
    assert_eq!(a.history.len(), 1);
}

#[test]
fn reflecting_on_a_compile_failure_applies_the_type_strategy() {
    let mut a = Agent::new("compile the module", 3).unwrap();
    a.history.push(result("compile the module", false, "type error", None));
    reflect_and_upgrade(&mut a).unwrap();
    assert_eq!(
        a.prompt_template,
        format!("{}\nFocus on generating valid Lumora code with proper types.", REACT_PROMPT)
    );
    assert_eq!(
        a.knowledge_base.get("strategy:compile the module").map(|s| s.as_str()),
        Some("Ensure type annotations in Lumora code to avoid type errors.")
    );
}

#[test]
fn reflecting_on_a_success_stores_the_output() {
    let mut a = Agent::new("t", 3).unwrap();
    a.history.push(result("done task", true, "wasm built", None));
    reflect_and_upgrade(&mut a).unwrap();
    assert_eq!(a.prompt_template, REACT_PROMPT);
    assert_eq!(a.knowledge_base.get("success:done task").map(|s| s.as_str()), Some("wasm built"));
}

#[test]
fn reflecting_without_history_changes_nothing() {
    let mut a = Agent::new("t", 3).unwrap();
    reflect_and_upgrade(&mut a).unwrap();
    assert_eq!(a.prompt_template, REACT_PROMPT);
    assert_eq!(a.knowledge_base.len(), 0);
}

#[test]
fn improvements_without_a_block_are_refused() {
    let mut a = Agent::new("t", 3).unwrap();
    let e = apply_improvements(&mut a, "no block here").unwrap_err();
    assert_eq!(e, "No JSON block in improvements");
    assert_eq!(a.prompt_template, REACT_PROMPT);
}

#[test]
fn improvements_with_bad_json_are_refused_with_the_parser_message() {
    let mut a = Agent::new("t", 3).unwrap();
    let e = apply_improvements(&mut a, "```json\n{bad\n```").unwrap_err();
    let parser = serde_json::from_str::<serde_json::Value>("{bad").unwrap_err().to_string();
    assert_eq!(e, format!("Failed to parse improvements JSON: {}", parser));
    assert_eq!(a.knowledge_base.len(), 0);
}

#[test]
fn improvements_apply_only_what_is_given() {
    let mut a = Agent::new("t", 3).unwrap();
    apply_improvements(&mut a, "x ```json {\"strategy\": \"s1\", \"prompt\": 5} ```").unwrap();
    assert_eq!(a.prompt_template, REACT_PROMPT);
    assert_eq!(a.knowledge_base.get("strategy:t").map(|s| s.as_str()), Some("s1"));
    apply_improvements(&mut a, "```json\n{\"prompt\": \"p2\"}\n```").unwrap();
    assert_eq!(a.prompt_template, "p2");
    assert_eq!(a.knowledge_base.get("strategy:t").map(|s| s.as_str()), Some("s1"));
}

#[test]
fn knowledge_is_stored_under_success_key() {
    let mut a = Agent::new("t", 3).unwrap();
    update_knowledge_base(&mut a, "a", "1").unwrap();
    update_knowledge_base(&mut a, "a", "2").unwrap();
    update_knowledge_base(&mut a, "b", "3").unwrap();
    assert_eq!(a.knowledge_base.get("success:a").map(|s| s.as_str()), Some("2"));
    assert_eq!(a.knowledge_base.get("success:b").map(|s| s.as_str()), Some("3"));
    assert_eq!(a.knowledge_base.get("success:c"), None);
    assert_eq!(a.knowledge_base.len(), 2);
}
