use geno::json::call_arguments;
use geno::demo::{
    code_file_name, code_run_plan, compile_error_output, plan_tool_call, run_output, tool_result,
    ChatPhase, ChatSession, ChatStep, CodeInterpreter, FileOperation, FileSystemTool, FunctionCall,
    RunPlan, ToolCall, ToolPlan, WebSearchTool,
};

fn function_call(id: &str, name: &str, args: &str) -> ToolCall {
    ToolCall {
        id: id.to_string(),
        call_type: "function".to_string(),
        function: Some(FunctionCall { name: name.to_string(), arguments: args.to_string() }),
        code_interpreter: None,
    }
}

fn code_call(id: &str, code: &str, language: &str) -> ToolCall {
    ToolCall {
        id: id.to_string(),
        call_type: "code_interpreter".to_string(),
        function: None,
        code_interpreter: Some(CodeInterpreter { input: code.to_string(), language: language.to_string() }),
    }
}

#[test]
fn a_plain_reply_ends_the_turn() {
    let mut s = ChatSession::new();
    assert!(matches!(s.user_turn("hello"), ChatStep::Request));
    match s.on_reply(Some("hi there".to_string()), None) {
        ChatStep::Reply(t) => assert_eq!(t, "hi there"),
        _ => panic!("expected a reply"),
    }
    assert_eq!(s.history.len(), 2);
    assert_eq!(s.history[0].role, "user");
    assert_eq!(s.history[0].content, "hello");
    assert_eq!(s.history[1].role, "assistant");
    assert!(matches!(s.phase, ChatPhase::Idle));
}

#[test]
fn a_reply_without_text_reads_as_empty() {
    let mut s = ChatSession::new();
    s.user_turn("hello");
    match s.on_reply(None, None) {
        ChatStep::Reply(t) => assert_eq!(t, ""),
        _ => panic!("expected a reply"),
    }
}

#[test]
fn each_tool_call_is_answered_then_the_model_goes_on() {
    let mut s = ChatSession::new();
    s.user_turn("search twice");
    let calls = vec![function_call("c1", "web_search", "{}"), code_call("c2", "print(1)", "python")];
    assert!(matches!(s.on_reply(None, Some(calls)), ChatStep::RunTool));
    assert_eq!(s.pending_call().id, "c1");
    assert!(matches!(s.on_tool_result(Ok("r1".to_string())), ChatStep::RunTool));
    assert_eq!(s.pending_call().id, "c2");
    assert!(matches!(s.on_tool_result(Ok("r2".to_string())), ChatStep::Request));
    let roles: Vec<&str> = s.history.iter().map(|m| m.role.as_str()).collect();
    assert_eq!(roles, vec!["user", "assistant", "tool", "tool", "user"]);
    assert_eq!(s.history[2].content, "r1");
    assert_eq!(s.history[2].name.as_deref(), Some("c1"));
    assert_eq!(s.history[3].name.as_deref(), Some("c2"));
    assert_eq!(s.history[4].content, "Please continue based on the tool results.");
    match s.on_reply(Some("all done".to_string()), None) {
        ChatStep::Reply(t) => assert_eq!(t, "all done"),
        _ => panic!("expected a reply"),
    }
}

#[test]
fn an_empty_call_list_goes_straight_on() {
    let mut s = ChatSession::new();
    s.user_turn("x");
    assert!(matches!(s.on_reply(Some("t".to_string()), Some(Vec::new())), ChatStep::Request));
    assert_eq!(s.history.len(), 3);
    assert_eq!(s.history[2].content, "Please continue based on the tool results.");
}

#[test]
fn a_failed_tool_call_ends_the_turn() {
    let mut s = ChatSession::new();
    s.user_turn("x");
    s.on_reply(None, Some(vec![function_call("c1", "web_search", "{}")]));
    match s.on_tool_result(Err("Tool not found: web_search".to_string())) {
        ChatStep::Failed(e) => assert_eq!(e, "Tool not found: web_search"),
        _ => panic!("expected a failure"),
    }
    assert_eq!(s.history.len(), 2);
    assert!(matches!(s.phase, ChatPhase::Idle));
}

#[test]
fn tool_calls_are_planned() {
    let names = vec!["web_search".to_string(), "file_system".to_string()];
    match plan_tool_call(&code_call("1", "puts 1", "ruby"), &names).unwrap() {
        ToolPlan::RunCode { code, language } => {
            assert_eq!(code, "puts 1");
            assert_eq!(language, "ruby");
        },
        _ => panic!("expected code"),
    }
    match plan_tool_call(&function_call("2", "file_system", "{\"a\":1}"), &names).unwrap() {
        ToolPlan::RunFunction { name, arguments } => {
            assert_eq!(name, "file_system");
            assert_eq!(arguments, "{\"a\":1}");
        },
        _ => panic!("expected a function"),
    }
}

#[test]
fn tool_calls_that_cannot_run_are_refused() {
    let names = vec!["web_search".to_string()];
    let e = |c: ToolCall| plan_tool_call(&c, &names).err().unwrap();
    assert_eq!(e(function_call("1", "nope", "{}")), "Tool not found: nope");
    let mut c = code_call("1", "x", "python");
    c.code_interpreter = None;
    assert_eq!(e(c), "Code interpreter data missing");
    let mut c = function_call("1", "web_search", "{}");
    c.function = None;
    assert_eq!(e(c), "Function call data missing");
    let mut c = function_call("1", "web_search", "{}");
    c.call_type = "retrieval".to_string();
    assert_eq!(e(c), "Unknown tool call type: retrieval");
}

#[test]
fn tool_results_carry_the_call_id() {
    let r = tool_result(&function_call("abc", "f", "{}"), "out".to_string());
    assert_eq!(r.tool_call_id, "abc");
    assert_eq!(r.output, "out");
}

#[test]
fn code_files_are_named_by_language() {
    assert_eq!(code_file_name("./tmp", "python"), "./tmp/code_TODO.py");
    assert_eq!(code_file_name("./tmp", "javascript"), "./tmp/code_TODO.js");
    assert_eq!(code_file_name("./tmp", "rust"), "./tmp/code_TODO.rs");
    assert_eq!(code_file_name("./tmp", "ruby"), "./tmp/code_TODO.rb");
    assert_eq!(code_file_name("./tmp", "bash"), "./tmp/code_TODO.bash");
}

fn program(p: Result<RunPlan, String>) -> String {
    match p.unwrap() {
        RunPlan::Interpret { program } => program,
        RunPlan::CompileAndRun { compiler, executable } => format!("{}:{}", compiler, executable),
    }
}

#[test]
fn code_runs_with_its_runner() {
    assert_eq!(program(code_run_plan("./tmp", "python")), "python");
    assert_eq!(program(code_run_plan("./tmp", "javascript")), "node");
    assert_eq!(program(code_run_plan("./tmp", "bash")), "bash");
    assert_eq!(program(code_run_plan("./tmp", "ruby")), "ruby");
    assert_eq!(program(code_run_plan("./tmp", "rust")), "rustc:./tmp/code_exe");
    assert_eq!(code_run_plan("./tmp", "cobol").err(), Some("Unsupported language: cobol".to_string()));
}

#[test]
fn run_outputs_are_reported() {
    assert_eq!(run_output(true, "out", "err"), "out");
    assert_eq!(run_output(false, "out", "err"), "Error: err\nOutput: out");
    assert_eq!(compile_error_output("E0308"), "Compilation error: E0308");
}

#[test]
fn web_search_needs_a_query() {
    let t = WebSearchTool;
    assert_eq!(t.name(), "web_search");
    assert_eq!(t.description(), "Search the web for information");
    assert_eq!(t.execute(Some("rust")).unwrap(), "Search results for: rust");
    assert_eq!(t.execute(None).unwrap_err(), "Query parameter missing");
}

#[test]
fn file_operations_are_checked() {
    let t = FileSystemTool;
    assert_eq!(t.name(), "file_system");
    assert_eq!(t.description(), "Read and write files on the system");
    assert!(matches!(t.operation(Some("read"), Some("a"), None), Ok(FileOperation::Read { .. })));
    assert!(matches!(t.operation(Some("list"), Some("a"), None), Ok(FileOperation::List { .. })));
    match t.operation(Some("write"), Some("a"), Some("c")) {
        Ok(FileOperation::Write { path, content }) => {
            assert_eq!(path, "a");
            assert_eq!(content, "c");
        },
        _ => panic!("expected a write"),
    }
    assert_eq!(t.operation(None, Some("a"), None).err(), Some("Operation parameter missing".to_string()));
    assert_eq!(t.operation(Some("read"), None, None).err(), Some("Path parameter missing".to_string()));
    assert_eq!(t.operation(Some("write"), None, None).err(), Some("Path parameter missing".to_string()));
    assert_eq!(
        t.operation(Some("write"), Some("a"), None).err(),
        Some("Content parameter missing".to_string())
    );
    assert_eq!(t.operation(Some("delete"), None, None).err(), Some("Unsupported operation: delete".to_string()));
    assert_eq!(t.write_confirmation("a.txt"), "File written successfully: a.txt");
}

#[test]
fn listings_are_json() {
    let t = FileSystemTool;
    let entries = vec!["a.txt".to_string(), "say \"hi\"".to_string()];
    assert_eq!(t.list_output(&entries).unwrap(), "[\"a.txt\",\"say \\\"hi\\\"\"]");
    assert_eq!(t.list_output(&Vec::new()).unwrap(), "[]");
}

fn parse_error(text: &str) -> String {
    serde_json::from_str::<serde_json::Value>(text).unwrap_err().to_string()
}

#[test]
fn calls_with_broken_arguments_run_no_tool() {
    let names = vec!["web_search".to_string()];
    match plan_tool_call(&function_call("1", "web_search", "not json"), &names) {
        Err(e) => assert_eq!(e, parse_error("not json")),
        Ok(_) => panic!("a call with broken arguments must not run"),
    }
    match plan_tool_call(&function_call("1", "web_search", "{\"query\": "), &names) {
        Err(e) => assert_eq!(e, parse_error("{\"query\": ")),
        Ok(_) => panic!("a call with broken arguments must not run"),
    }
    // An unknown tool is reported before its arguments are read.
    assert_eq!(
        plan_tool_call(&function_call("1", "nope", "not json"), &names).err(),
        Some("Tool not found: nope".to_string())
    );
}

#[test]
fn call_arguments_are_read_by_key() {
    let keys = vec!["query".to_string(), "limit".to_string(), "other".to_string()];
    let vals = call_arguments("{\"query\": \"rust\", \"limit\": 3}", &keys).unwrap();
    assert_eq!(vals, vec![Some("rust".to_string()), None, None]);
    let vals = call_arguments("[1, 2]", &keys).unwrap();
    assert_eq!(vals, vec![None, None, None]);
    assert_eq!(call_arguments("{", &keys).err(), Some(parse_error("{")));
}

#[test]
fn web_search_reads_its_arguments() {
    let t = WebSearchTool;
    assert_eq!(
        t.execute_arguments("{\"query\": \"verus\"}"),
        Ok("Search results for: verus".to_string())
    );
    assert_eq!(t.execute_arguments("{}"), Err("Query parameter missing".to_string()));
    assert_eq!(t.execute_arguments("{\"query\": 7}"), Err("Query parameter missing".to_string()));
    assert_eq!(t.execute_arguments("query"), Err(parse_error("query")));
}

#[test]
fn file_operations_are_read_from_arguments() {
    let t = FileSystemTool;
    match t.operation_from_arguments("{\"operation\": \"write\", \"path\": \"a.txt\", \"content\": \"hi\"}") {
        Ok(FileOperation::Write { path, content }) => {
            assert_eq!(path, "a.txt");
            assert_eq!(content, "hi");
        },
        _ => panic!("expected a write"),
    }
    match t.operation_from_arguments("{\"operation\": \"read\", \"path\": \"b\"}") {
        Ok(FileOperation::Read { path }) => assert_eq!(path, "b"),
        _ => panic!("expected a read"),
    }
    match t.operation_from_arguments("{\"operation\": \"list\", \"path\": \".\"}") {
        Ok(FileOperation::List { path }) => assert_eq!(path, "."),
        _ => panic!("expected a listing"),
    }
    assert_eq!(
        t.operation_from_arguments("{\"path\": \"b\"}").err(),
        Some("Operation parameter missing".to_string())
    );
    assert_eq!(
        t.operation_from_arguments("{\"operation\": \"write\", \"path\": \"b\"}").err(),
        Some("Content parameter missing".to_string())
    );
    assert_eq!(
        t.operation_from_arguments("{\"operation\": \"move\"}").err(),
        Some("Unsupported operation: move".to_string())
    );
    assert_eq!(t.operation_from_arguments("}").err(), Some(parse_error("}")));
}
