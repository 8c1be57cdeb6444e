use geno::agent::prompt::REACT_PROMPT;
use geno::config::AgentConfig;
use geno::service::action::{Action, JsonAction};
use geno::service::react::{
    action_block, build_thought_prompt, call_llm, is_task_complete, ReactPhase, ReactRun, ReactStep,
};
use geno::service::{Agent, Message, TaskContext, Tool};

fn json_action(tool: Option<&str>, input: Option<&str>, code: Option<&str>) -> JsonAction {
    JsonAction {
        tool: tool.map(|s| s.to_string()),
        input: input.map(|s| s.to_string()),
        code: code.map(|s| s.to_string()),
    }
}

#[test]
fn default_config_allows_ten_steps() {
    assert_eq!(AgentConfig::default().max_step, 10);
}

#[test]
fn actions_are_formatted() {
    assert_eq!(Action::Code("x = 1".to_string()).format(), "Code: x = 1");
    assert_eq!(Action::Tool("run".to_string(), "a b".to_string()).format(), "Tool: run, Input: a b");
    assert_eq!(Action::Unknown.format(), "Unknown action");
}

#[test]
fn json_actions_prefer_non_empty_code() {
    let a = Action::from_json_action(json_action(Some("t"), Some("i"), Some("c")));
    assert_eq!(a.format(), "Code: c");
    let b = Action::from_json_action(json_action(Some("t"), Some("i"), Some("")));
    assert_eq!(b.format(), "Tool: t, Input: i");
    let c = Action::from_json_action(json_action(Some("t"), None, None));
    assert_eq!(c.format(), "Unknown action");
    let d = Action::from_json_action(json_action(None, None, Some("")));
    assert_eq!(d.format(), "Unknown action");
}

#[test]
fn unparsable_action_json_is_an_error() {
    let r = Action::from_parsed(Err("EOF while parsing".to_string()));
    assert_eq!(r.err(), Some("Failed to parse action JSON: EOF while parsing".to_string()));
    let ok = Action::from_parsed(Ok(json_action(Some("t"), Some("i"), None))).unwrap();
    assert_eq!(ok.format(), "Tool: t, Input: i");
}

fn tool(name: &str, description: &str) -> Tool {
    Tool { name: name.to_string(), description: description.to_string() }
}

#[test]
fn new_agent_is_empty() {
    let a = Agent::new(AgentConfig { max_step: 4 }).unwrap();
    assert_eq!(a.max_step, 4);
    assert_eq!(a.tools.len(), 0);
    assert!(a.codes.is_empty());
    assert_eq!(a.knowledge_base.len(), 0);
}

#[test]
fn agent_actions_are_planned() {
    let mut a = Agent::new(AgentConfig::default()).unwrap();
    a.tools.register(tool("search", "finds things"));
    let p = a.action(&Action::Code("x".to_string()));
    assert!(p.call.is_none());
    assert_eq!(p.reply, "code");
    let p = a.action(&Action::Tool("search".to_string(), "rust".to_string()));
    assert_eq!(p.call, Some(("search".to_string(), "rust".to_string())));
    assert_eq!(p.reply, "success");
    let p = a.action(&Action::Tool("other".to_string(), "rust".to_string()));
    assert!(p.call.is_none());
    assert_eq!(p.reply, "success");
    let p = a.action(&Action::Unknown);
    assert!(p.call.is_none());
    assert_eq!(p.reply, "unknown");
}

#[test]
fn thought_prompt_lists_tools_and_memory() {
    let mut a = Agent::new(AgentConfig::default()).unwrap();
    a.tools.register(tool("t1", "x"));
    a.tools.register(tool("t2", "d2"));
    a.tools.register(tool("t1", "d1"));
    assert_eq!(a.tools.len(), 2);
    let mut c = TaskContext::new("my task".to_string());
    c.memory.push(Message { role: "system".to_string(), content: "Task: my task".to_string() });
    c.memory.push(Message { role: "thought".to_string(), content: "hmm".to_string() });
    let p = build_thought_prompt(&a, &c).unwrap();
    let expected = format!(
        "{}\n\nCurrent Task: my task\nAvailable Tools:\n- t1: d1\n- t2: d2\nMessages:\n[system] Task: my task\n[thought] hmm\n\nGenerate the next reasoning step (Thought) and suggest an Action in JSON format:\n```json\n{{\"tool\": \"<tool_name>\", \"input\": \"<input_string>\"}}\n```",
        REACT_PROMPT
    );
    assert_eq!(p, expected);
}

#[test]
fn model_picks_the_tool_by_prompt() {
    let reply = call_llm("please Compile this").unwrap();
    assert_eq!(
        reply,
        "Thought: Analyzing task...\n```json\n{\"input\":\"(module Math (fn add (a int) (b int) -> int ((return (+ a b)))) (export add))\",\"tool\":\"compile_lumora\"}\n```"
    );
    let reply = call_llm("Generate").unwrap();
    assert_eq!(
        reply,
        "Thought: Analyzing task...\n```json\n{\"input\":\"Generate a Lumora factorial function\",\"tool\":\"generate_code\"}\n```"
    );
    let reply = call_llm("anything").unwrap();
    assert!(reply.contains("\"tool\":\"search_knowledge\""));
}

#[test]
fn action_blocks_are_cut_out_of_thoughts() {
    assert_eq!(action_block("a ```json\n {\"x\": 1} \n``` b").unwrap(), "{\"x\": 1}");
    assert_eq!(action_block("no block").unwrap_err(), "No JSON block found in thought");
}

#[test]
fn task_completion_depends_on_the_output() {
    let mut c = TaskContext::new("t".to_string());
    assert_eq!(is_task_complete(&mut c, "all success").unwrap(), true);
    assert!(c.history.is_empty());
    assert_eq!(is_task_complete(&mut c, "still going").unwrap(), false);
    assert!(c.history.is_empty());
    assert_eq!(is_task_complete(&mut c, "it failed").unwrap(), false);
    assert_eq!(c.history.len(), 1);
    assert_eq!(c.history[0].task, "t");
    assert!(!c.history[0].success);
    assert_eq!(c.history[0].output, "it failed");
    assert_eq!(c.history[0].feedback.as_deref(), Some("Tool reported an error"));
    assert_eq!(is_task_complete(&mut c, "error but success").unwrap(), true);
    assert_eq!(c.history.len(), 1);
}

fn parse(block: &str) -> Result<(String, String), String> {
    let v: serde_json::Value = serde_json::from_str(block).map_err(|e| e.to_string())?;
    Ok((v["tool"].as_str().unwrap().to_string(), v["input"].as_str().unwrap().to_string()))
}

#[test]
fn react_run_finishes_on_success() {
    let agent = Agent::new(AgentConfig { max_step: 3 }).unwrap();
    let mut c = TaskContext::new("Generate a function".to_string());
    let mut run = ReactRun::start(&agent, &mut c);
    assert_eq!(c.memory[0].content, "Task: Generate a function");
    let mut outputs = vec!["working".to_string(), "compiled with success".to_string()];
    outputs.reverse();
    let mut calls = Vec::new();
    let mut step = run.think(&agent, &mut c);
    let result = loop {
        step = match step {
            ReactStep::Continue => run.think(&agent, &mut c),
            ReactStep::ParseAction(block) => run.on_action(parse(&block)),
            ReactStep::CallTool(t, i) => {
                calls.push((t, i));
                run.on_output(&mut c, Ok(outputs.pop().unwrap()))
            },
            ReactStep::Finished(r) => break r,
        };
    };
    assert_eq!(result, Ok("compiled with success".to_string()));
    assert_eq!(calls.len(), 2);
    assert_eq!(calls[0].0, "generate_code");
    assert_eq!(calls[0].1, "Generate a Lumora factorial function");
    let roles: Vec<&str> = c.memory.iter().map(|m| m.role.as_str()).collect();
    assert_eq!(
        roles,
        vec!["system", "thought", "action", "observation", "thought", "action", "observation"]
    );
    assert_eq!(
        c.memory[2].content,
        "Tool: generate_code, Input: Generate a Lumora factorial function, Output: working"
    );
    assert_eq!(c.history.len(), 1);
    assert!(c.history[0].success);
    assert_eq!(c.history[0].output, "compiled with success");
    assert!(matches!(run.phase, ReactPhase::Done));
}

#[test]
fn react_run_stops_after_max_steps() {
    let agent = Agent::new(AgentConfig { max_step: 2 }).unwrap();
    let mut c = TaskContext::new("t".to_string());
    let mut run = ReactRun::start(&agent, &mut c);
    let mut calls = 0;
    let mut step = run.think(&agent, &mut c);
    let result = loop {
        step = match step {
            ReactStep::Continue => run.think(&agent, &mut c),
            ReactStep::ParseAction(block) => run.on_action(parse(&block)),
            ReactStep::CallTool(_, _) => {
                calls += 1;
                run.on_output(&mut c, Ok("an error occurred".to_string()))
            },
            ReactStep::Finished(r) => break r,
        };
    };
    assert_eq!(calls, 2);
    assert_eq!(result, Err("Task failed to complete within 2 steps".to_string()));
    assert_eq!(c.history.len(), 3);
    assert_eq!(c.history[0].feedback.as_deref(), Some("Tool reported an error"));
    assert_eq!(c.history[2].output, "Failed to complete task");
    assert_eq!(c.history[2].feedback.as_deref(), Some("Reached maximum steps: 2"));
    assert_eq!(run.step, 2);
}

#[test]
fn react_run_with_no_steps_fails_at_once() {
    let agent = Agent::new(AgentConfig { max_step: 0 }).unwrap();
    let mut c = TaskContext::new("t".to_string());
    let mut run = ReactRun::start(&agent, &mut c);
    match run.think(&agent, &mut c) {
        ReactStep::Finished(r) => assert_eq!(r, Err("Task failed to complete within 0 steps".to_string())),
        _ => panic!("the run should be over"),
    }
    assert_eq!(c.memory.len(), 1);
}

#[test]
fn react_run_reports_parse_and_tool_errors() {
    let agent = Agent::new(AgentConfig::default()).unwrap();
    let mut c = TaskContext::new("t".to_string());
    let mut run = ReactRun::start(&agent, &mut c);
    assert!(matches!(run.think(&agent, &mut c), ReactStep::ParseAction(_)));
    match run.on_action(Err("bad".to_string())) {
        ReactStep::Finished(r) => assert_eq!(r, Err("Failed to parse action JSON: bad".to_string())),
        _ => panic!("the run should be over"),
    }
    let mut c = TaskContext::new("t".to_string());
    let mut run = ReactRun::start(&agent, &mut c);
    assert!(matches!(run.think(&agent, &mut c), ReactStep::ParseAction(_)));
    assert!(matches!(
        run.on_action(Ok(("x".to_string(), "y".to_string()))),
        ReactStep::CallTool(_, _)
    ));
    match run.on_output(&mut c, Err("tool broke".to_string())) {
        ReactStep::Finished(r) => assert_eq!(r, Err("tool broke".to_string())),
        _ => panic!("the run should be over"),
    }
    assert_eq!(c.memory.len(), 2);
}
