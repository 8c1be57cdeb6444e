use vstd::prelude::*;
use crate::json::{call_arguments, json_string_list_text, json_string_members, string_list_json};
use crate::text::str_eq;

verus! {

/// A function call that the model asks for.
pub struct FunctionCall {
    pub name: String,
    /// The arguments, as JSON text.
    pub arguments: String,
}

/// Code that the model asks to run.
pub struct CodeInterpreter {
    pub input: String,
    pub language: String,
}

/// A tool call in a model reply.
pub struct ToolCall {
    pub id: String,
    /// "function" or "code_interpreter".
    pub call_type: String,
    pub function: Option<FunctionCall>,
    pub code_interpreter: Option<CodeInterpreter>,
}

/// What a tool call gave back.
pub struct ToolResult {
    pub tool_call_id: String,
    pub output: String,
}

/// An entry of the conversation.
pub struct Message {
    /// "user", "assistant" or "tool".
    pub role: String,
    pub content: String,
    pub tool_calls: Option<Vec<ToolCall>>,
    /// For a tool's message, the id of the call it answers.
    pub name: Option<String>,
}

/// The tool calls that a message carries.
pub open spec fn calls_of(m: Message) -> Seq<ToolCall> {
    match m.tool_calls {
        Some(v) => v@,
        None => Seq::empty(),
    }
}

/// Where a conversation turn stands.
pub enum ChatPhase {
    /// No turn is under way.
    Idle,
    /// The history has been handed to the model; its reply is awaited.
    AwaitingReply,
    /// The tool calls of the assistant message at `message` are being run;
    /// `next` is the first not yet answered.
    RunningTools { message: usize, next: usize },
}

/// What a conversation needs done next.
pub enum ChatStep {
    /// Send the history to the model and report its reply (with `on_reply`).
    Request,
    /// Run the pending tool call (`pending_call`) and report its result (with
    /// `on_tool_result`).
    RunTool,
    /// The turn is over, with the assistant's reply.
    Reply(String),
    /// The turn failed with this error.
    Failed(String),
}

/// A conversation with a tool-using model: the history, and where the
/// current turn stands. The model and the tools are reached from outside.
pub struct ChatSession {
    pub history: Vec<Message>,
    pub phase: ChatPhase,
}

/// The text that asks the model to go on after its tool calls were answered.
pub open spec fn follow_up_text() -> Seq<char> {
    "Please continue based on the tool results."@
}

/// `after` is `before` with one more message of that role, content and name,
/// and no tool calls.
pub open spec fn appended(
    before: Seq<Message>,
    after: Seq<Message>,
    role: Seq<char>,
    content: Seq<char>,
    name: Option<Seq<char>>,
) -> bool {
    &&& after.len() == before.len() + 1
    &&& after.take(before.len() as int) == before
    &&& after.last().role@ == role
    &&& after.last().content@ == content
    &&& after.last().tool_calls is None
    &&& after.last().name.deep_view() == name
}

impl ChatSession {
    /// The phase agrees with the history: tool calls are run from an assistant
    /// message that carries them.
    pub open spec fn wf(&self) -> bool {
        match self.phase {
            ChatPhase::RunningTools { message, next } => {
                &&& message < self.history@.len()
                &&& self.history@[message as int].tool_calls is Some
                &&& next <= calls_of(self.history@[message as int]).len()
            },
            _ => true,
        }
    }

    /// An empty conversation.
    pub fn new() -> (s: ChatSession)
        ensures
            s.wf(),
            s.history@.len() == 0,
            s.phase is Idle,
    {
        ChatSession { history: Vec::new(), phase: ChatPhase::Idle }
    }

    /// Adds a message to the history.
    pub fn add_message(&mut self, message: Message)
        requires
            old(self).wf(),
        ensures
            final(self).wf(),
            final(self).history@ == old(self).history@.push(message),
            final(self).phase == old(self).phase,
    {
        self.history.push(message);
    }

    /// Starts a turn with the user's input.
    pub fn user_turn(&mut self, input: &str) -> (r: ChatStep)
        requires
            old(self).wf(),
            old(self).phase is Idle,
        ensures
            final(self).wf(),
            r is Request,
            final(self).phase is AwaitingReply,
            appended(old(self).history@, final(self).history@, "user"@, input@, None),
    {
        let ghost before = self.history@;
        self.add_message(
            Message {
                role: String::from_str("user"),
                content: String::from_str(input),
                tool_calls: None,
                name: None,
            },
        );
        assert(self.history@.take(before.len() as int) =~= before);
        self.phase = ChatPhase::AwaitingReply;
        ChatStep::Request
    }

    /// What comes after the tool calls answered so far: the next call, or,
    /// once all are answered, the follow-up request.
    fn advance(&mut self) -> (r: ChatStep)
        requires
            old(self).wf(),
            old(self).phase is RunningTools,
        ensures
            final(self).wf(),
            match old(self).phase {
                ChatPhase::RunningTools { message, next } => if next < calls_of(
                    old(self).history@[message as int],
                ).len() {
                    &&& r is RunTool
                    &&& *final(self) == *old(self)
                } else {
                    &&& r is Request
                    &&& final(self).phase is AwaitingReply
                    &&& appended(
                        old(self).history@,
                        final(self).history@,
                        "user"@,
                        follow_up_text(),
                        None,
                    )
                },
                _ => false,
            },
    {
        let (message, next) = match self.phase {
            ChatPhase::RunningTools { message, next } => (message, next),
            _ => {
                return ChatStep::Request;
            },
        };
        let count = match &self.history[message].tool_calls {
            Some(calls) => calls.len(),
            None => 0,
        };
        if next < count {
            return ChatStep::RunTool;
        }
        let ghost before = self.history@;
        self.history.push(
            Message {
                role: String::from_str("user"),
                content: String::from_str("Please continue based on the tool results."),
                tool_calls: None,
                name: None,
            },
        );
        assert(self.history@.take(before.len() as int) =~= before);
        self.phase = ChatPhase::AwaitingReply;
        ChatStep::Request
    }

    /// Takes the model's reply: its text (none reads as empty) and its tool
    /// calls. Without tool calls the turn ends with the text; with them, they
    /// are run one by one.
    pub fn on_reply(&mut self, content: Option<String>, tool_calls: Option<Vec<ToolCall>>) -> (r:
        ChatStep)
        requires
            old(self).wf(),
            old(self).phase is AwaitingReply,
        ensures
            final(self).wf(),
            ({
                let text = match content {
                    Some(c) => c@,
                    None => Seq::<char>::empty(),
                };
                let n = old(self).history@.len();
                let h = final(self).history@;
                &&& h.len() >= n + 1
                &&& h.take(n as int) == old(self).history@
                &&& h[n as int].role@ == "assistant"@
                &&& h[n as int].content@ == text
                &&& h[n as int].tool_calls == tool_calls
                &&& h[n as int].name is None
                &&& match tool_calls {
                    None => {
                        &&& h.len() == n + 1
                        &&& r matches ChatStep::Reply(t) && t@ == text
                        &&& final(self).phase is Idle
                    },
                    Some(calls) => if calls@.len() > 0 {
                        &&& h.len() == n + 1
                        &&& r is RunTool
                        &&& final(self).phase == (ChatPhase::RunningTools {
                            message: n as usize,
                            next: 0,
                        })
                    } else {
                        &&& r is Request
                        &&& final(self).phase is AwaitingReply
                        &&& appended(h.take(n + 1int), h, "user"@, follow_up_text(), None)
                    },
                }
            }),
    {
        let text = match content {
            Some(c) => c,
            None => String::new(),
        };
        let n = self.history.len();
        let ghost before = self.history@;
        let has_calls = tool_calls.is_some();
        self.history.push(
            Message { role: String::from_str("assistant"), content: text.clone(), tool_calls, name: None },
        );
        assert(self.history@.take(n as int) =~= before);
        if !has_calls {
            self.phase = ChatPhase::Idle;
            return ChatStep::Reply(text);
        }
        self.phase = ChatPhase::RunningTools { message: n, next: 0 };
        let ghost mid = self.history@;
        let r = self.advance();
        proof {
            if self.history@.len() > mid.len() {
                assert(self.history@.take(n as int) =~= mid.take(n as int));
                assert(self.history@.take(n + 1int) =~= mid);
            }
        }
        r
    }

    /// Takes the result of the pending tool call: its output is added as a
    /// tool message naming the call; an error ends the turn.
    pub fn on_tool_result(&mut self, result: Result<String, String>) -> (r: ChatStep)
        requires
            old(self).wf(),
            old(self).phase matches ChatPhase::RunningTools { message, next } && next < calls_of(
                old(self).history@[message as int],
            ).len(),
        ensures
            final(self).wf(),
            match (old(self).phase, result) {
                (ChatPhase::RunningTools { message, next }, Err(e)) => {
                    &&& r matches ChatStep::Failed(m) && m@ == e@
                    &&& final(self).phase is Idle
                    &&& final(self).history == old(self).history
                },
                (ChatPhase::RunningTools { message, next }, Ok(out)) => {
                    let calls = calls_of(old(self).history@[message as int]);
                    let n = old(self).history@.len();
                    let h = final(self).history@;
                    &&& h.len() >= n + 1
                    &&& appended(
                        old(self).history@,
                        h.take(n + 1int),
                        "tool"@,
                        out@,
                        Some(calls[next as int].id@),
                    )
                    &&& if next + 1 < calls.len() {
                        &&& r is RunTool
                        &&& h.len() == n + 1
                        &&& final(self).phase == (ChatPhase::RunningTools {
                            message,
                            next: (next + 1) as usize,
                        })
                    } else {
                        &&& r is Request
                        &&& final(self).phase is AwaitingReply
                        &&& appended(h.take(n + 1int), h, "user"@, follow_up_text(), None)
                    }
                },
                _ => false,
            },
    {
        let (message, next) = match self.phase {
            ChatPhase::RunningTools { message, next } => (message, next),
            _ => (0, 0),
        };
        let output = match result {
            Ok(o) => o,
            Err(e) => {
                self.phase = ChatPhase::Idle;
                return ChatStep::Failed(e);
            },
        };
        let id = self.pending_call().id.clone();
        let count = self.history[message].tool_calls.as_ref().unwrap().len();
        assert(next < count);
        let n = self.history.len();
        let ghost before = self.history@;
        self.history.push(
            Message { role: String::from_str("tool"), content: output, tool_calls: None, name: Some(id) },
        );
        assert(self.history@.take(n as int) =~= before);
        assert(self.history@[message as int] == before[message as int]);
        self.phase = ChatPhase::RunningTools { message, next: next + 1 };
        let ghost mid = self.history@;
        let r = self.advance();
        proof {
            if self.history@.len() > mid.len() {
                assert(self.history@.take(n as int) =~= mid.take(n as int));
                assert(self.history@.take(n + 1int) =~= mid);
            } else {
                assert(self.history@.take(n + 1int) =~= mid);
            }
        }
        r
    }

    /// The tool call to run next.
    pub fn pending_call(&self) -> (c: &ToolCall)
        requires
            self.wf(),
            self.phase matches ChatPhase::RunningTools { message, next } && next < calls_of(
                self.history@[message as int],
            ).len(),
        ensures
            match self.phase {
                ChatPhase::RunningTools { message, next } => *c == calls_of(
                    self.history@[message as int],
                )[next as int],
                _ => false,
            },
    {
        let (message, next) = match self.phase {
            ChatPhase::RunningTools { message, next } => (message, next),
            _ => (0, 0),
        };
        let calls = self.history[message].tool_calls.as_ref().unwrap();
        &calls[next]
    }
}

/// How a tool call is carried out.
pub enum ToolPlan {
    /// Run this code in this language.
    RunCode { code: String, language: String },
    /// Call the registered tool of this name with these JSON arguments.
    RunFunction { name: String, arguments: String },
}

/// Whether a tool of that name is registered.
pub open spec fn registered(names: Seq<String>, name: Seq<char>) -> bool {
    exists|i: int| 0 <= i < names.len() && names[i]@ == name
}

/// Decides how a tool call is carried out, or why it cannot be: the call's
/// type picks code or a registered tool, and the data for it must be there; a
/// registered tool is called only with arguments that parse as JSON.
pub fn plan_tool_call(call: &ToolCall, tool_names: &Vec<String>) -> (r: Result<ToolPlan, String>)
    ensures
        if call.call_type@ == "code_interpreter"@ {
            match call.code_interpreter {
                Some(ci) => r matches Ok(ToolPlan::RunCode { code, language }) && code@ == ci.input@
                    && language@ == ci.language@,
                None => r matches Err(m) && m@ == "Code interpreter data missing"@,
            }
        } else if call.call_type@ == "function"@ {
            match call.function {
                Some(f) => if registered(tool_names@, f.name@) {
                    match json_string_members(f.arguments@, Seq::empty()) {
                        Ok(_) => r matches Ok(ToolPlan::RunFunction { name, arguments }) && name@
                            == f.name@ && arguments@ == f.arguments@,
                        Err(e) => r matches Err(m) && m@ == e,
                    }
                } else {
                    r matches Err(m) && m@ == "Tool not found: "@ + f.name@
                },
                None => r matches Err(m) && m@ == "Function call data missing"@,
            }
        } else {
            r matches Err(m) && m@ == "Unknown tool call type: "@ + call.call_type@
        },
{
    if str_eq(call.call_type.as_str(), "code_interpreter") {
        match &call.code_interpreter {
            Some(ci) => Ok(ToolPlan::RunCode { code: ci.input.clone(), language: ci.language.clone() }),
            None => Err(String::from_str("Code interpreter data missing")),
        }
    } else if str_eq(call.call_type.as_str(), "function") {
        match &call.function {
            Some(f) => {
                let mut i: usize = 0;
                while i < tool_names.len()
                    invariant
                        i <= tool_names@.len(),
                        forall|j: int| 0 <= j < i ==> tool_names@[j]@ != f.name@,
                        call.call_type@ == "function"@,
                        call.call_type@ != "code_interpreter"@,
                        call.function == Some(*f),
                    decreases tool_names@.len() - i,
                {
                    if tool_names[i] == f.name {
                        assert(tool_names@[i as int]@ == f.name@);
                        let no_keys: Vec<String> = Vec::new();
                        assert(no_keys.deep_view() =~= Seq::<Seq<char>>::empty());
                        return match call_arguments(f.arguments.as_str(), &no_keys) {
                            Ok(_) => Ok(
                                ToolPlan::RunFunction {
                                    name: f.name.clone(),
                                    arguments: f.arguments.clone(),
                                },
                            ),
                            Err(e) => Err(e),
                        };
                    }
                    i = i + 1;
                }
                let mut m = String::from_str("Tool not found: ");
                m.append(f.name.as_str());
                Err(m)
            },
            None => Err(String::from_str("Function call data missing")),
        }
    } else {
        let mut m = String::from_str("Unknown tool call type: ");
        m.append(call.call_type.as_str());
        Err(m)
    }
}

/// The result of a tool call: its output, under the call's id.
pub fn tool_result(call: &ToolCall, output: String) -> (r: ToolResult)
    ensures
        r.tool_call_id@ == call.id@,
        r.output == output,
{
    ToolResult { tool_call_id: call.id.clone(), output }
}

/// The file extension for code in `language`.
pub open spec fn code_extension(language: Seq<char>) -> Seq<char> {
    if language == "python"@ {
        "py"@
    } else if language == "javascript"@ {
        "js"@
    } else if language == "rust"@ {
        "rs"@
    } else if language == "ruby"@ {
        "rb"@
    } else {
        language
    }
}

/// Where code in `language` is written before it runs.
pub fn code_file_name(temp_dir: &str, language: &str) -> (r: String)
    ensures
        r@ == temp_dir@ + "/code_TODO."@ + code_extension(language@),
{
    let mut r = String::from_str(temp_dir);
    r.append("/code_TODO.");
    if str_eq(language, "python") {
        r.append("py");
    } else if str_eq(language, "javascript") {
        r.append("js");
    } else if str_eq(language, "rust") {
        r.append("rs");
    } else if str_eq(language, "ruby") {
        r.append("rb");
    } else {
        r.append(language);
    }
    r
}

/// How the code file is run.
pub enum RunPlan {
    /// Run `program` with the code file as its argument.
    Interpret { program: String },
    /// Compile the code file with `compiler` into `executable`, then run that.
    CompileAndRun { compiler: String, executable: String },
}

/// How code in `language` is run, or the error for a language without a runner.
pub fn code_run_plan(temp_dir: &str, language: &str) -> (r: Result<RunPlan, String>)
    ensures
        if language@ == "python"@ {
            r matches Ok(RunPlan::Interpret { program }) && program@ == "python"@
        } else if language@ == "javascript"@ {
            r matches Ok(RunPlan::Interpret { program }) && program@ == "node"@
        } else if language@ == "rust"@ {
            r matches Ok(RunPlan::CompileAndRun { compiler, executable }) && compiler@ == "rustc"@
                && executable@ == temp_dir@ + "/code_exe"@
        } else if language@ == "bash"@ {
            r matches Ok(RunPlan::Interpret { program }) && program@ == "bash"@
        } else if language@ == "ruby"@ {
            r matches Ok(RunPlan::Interpret { program }) && program@ == "ruby"@
        } else {
            r matches Err(m) && m@ == "Unsupported language: "@ + language@
        },
{
    if str_eq(language, "python") {
        Ok(RunPlan::Interpret { program: String::from_str("python") })
    } else if str_eq(language, "javascript") {
        Ok(RunPlan::Interpret { program: String::from_str("node") })
    } else if str_eq(language, "rust") {
        let mut executable = String::from_str(temp_dir);
        executable.append("/code_exe");
        Ok(RunPlan::CompileAndRun { compiler: String::from_str("rustc"), executable })
    } else if str_eq(language, "bash") {
        Ok(RunPlan::Interpret { program: String::from_str("bash") })
    } else if str_eq(language, "ruby") {
        Ok(RunPlan::Interpret { program: String::from_str("ruby") })
    } else {
        let mut m = String::from_str("Unsupported language: ");
        m.append(language);
        Err(m)
    }
}

/// What a failed compilation reports.
pub fn compile_error_output(stderr: &str) -> (r: String)
    ensures
        r@ == "Compilation error: "@ + stderr@,
{
    let mut r = String::from_str("Compilation error: ");
    r.append(stderr);
    r
}

/// What a run reports: its standard output when it succeeded, else its error
/// output followed by its standard output.
pub fn run_output(success: bool, stdout: &str, stderr: &str) -> (r: String)
    ensures
        r@ == if success {
            stdout@
        } else {
            "Error: "@ + stderr@ + "\nOutput: "@ + stdout@
        },
{
    if success {
        String::from_str(stdout)
    } else {
        let mut r = String::from_str("Error: ");
        r.append(stderr);
        r.append("\nOutput: ");
        r.append(stdout);
        r
    }
}

/// What the web search tool answers, given its `query` argument or none.
pub open spec fn search_outcome(query: Option<Seq<char>>, r: Result<String, String>) -> bool {
    match query {
        Some(q) => r matches Ok(t) && t@ == "Search results for: "@ + q,
        None => r matches Err(m) && m@ == "Query parameter missing"@,
    }
}

/// A tool that searches the web.
pub struct WebSearchTool;

impl WebSearchTool {
    pub fn name(&self) -> (r: &'static str)
        ensures
            r@ == "web_search"@,
    {
        "web_search"
    }

    pub fn description(&self) -> (r: &'static str)
        ensures
            r@ == "Search the web for information"@,
    {
        "Search the web for information"
    }

    /// The search results for the `query` argument, which must be given.
    pub fn execute(&self, query: Option<&str>) -> (r: Result<String, String>)
        ensures
            search_outcome(query.deep_view(), r),
    {
        match query {
            Some(q) => {
                let mut t = String::from_str("Search results for: ");
                t.append(q);
                Ok(t)
            },
            None => Err(String::from_str("Query parameter missing")),
        }
    }

    /// The search results for a call whose arguments are the JSON text
    /// `arguments`: the error of parsing it, or what `execute` gives for its
    /// `query` string.
    pub fn execute_arguments(&self, arguments: &str) -> (r: Result<String, String>)
        ensures
            match json_string_members(arguments@, seq!["query"@]) {
                Err(e) => r matches Err(m) && m@ == e,
                Ok(vals) => search_outcome(vals[0], r),
            },
    {
        let mut keys: Vec<String> = Vec::new();
        keys.push(String::from_str("query"));
        assert(keys.deep_view() =~= seq!["query"@]);
        match call_arguments(arguments, &keys) {
            Err(e) => Err(e),
            Ok(vals) => match &vals[0] {
                Some(q) => self.execute(Some(q.as_str())),
                None => self.execute(None),
            },
        }
    }
}

/// A file operation that the file system tool carries out.
pub enum FileOperation {
    Read { path: String },
    Write { path: String, content: String },
    List { path: String },
}

/// What the file system tool makes of its `operation`, `path` and `content`
/// arguments: the operation they ask for, or the error for a missing argument
/// or an unknown operation.
pub open spec fn file_operation_outcome(
    operation: Option<Seq<char>>,
    path: Option<Seq<char>>,
    content: Option<Seq<char>>,
    r: Result<FileOperation, String>,
) -> bool {
    match operation {
        None => r matches Err(m) && m@ == "Operation parameter missing"@,
        Some(op) => if op == "read"@ || op == "write"@ || op == "list"@ {
            match path {
                None => r matches Err(m) && m@ == "Path parameter missing"@,
                Some(p) => if op == "read"@ {
                    r matches Ok(FileOperation::Read { path }) && path@ == p
                } else if op == "list"@ {
                    r matches Ok(FileOperation::List { path }) && path@ == p
                } else {
                    match content {
                        None => r matches Err(m) && m@ == "Content parameter missing"@,
                        Some(c) => r matches Ok(FileOperation::Write { path, content }) && path@
                            == p && content@ == c,
                    }
                },
            }
        } else {
            r matches Err(m) && m@ == "Unsupported operation: "@ + op
        },
    }
}

/// A tool that reads, writes and lists files.
pub struct FileSystemTool;

impl FileSystemTool {
    pub fn name(&self) -> (r: &'static str)
        ensures
            r@ == "file_system"@,
    {
        "file_system"
    }

    pub fn description(&self) -> (r: &'static str)
        ensures
            r@ == "Read and write files on the system"@,
    {
        "Read and write files on the system"
    }

    /// The operation that the `operation`, `path` and `content` arguments ask
    /// for, or the error for a missing argument or an unknown operation.
    pub fn operation(&self, operation: Option<&str>, path: Option<&str>, content: Option<&str>) -> (r:
        Result<FileOperation, String>)
        ensures
            file_operation_outcome(operation.deep_view(), path.deep_view(), content.deep_view(), r),
    {
        let op = match operation {
            Some(op) => op,
            None => {
                return Err(String::from_str("Operation parameter missing"));
            },
        };
        if !(str_eq(op, "read") || str_eq(op, "write") || str_eq(op, "list")) {
            let mut m = String::from_str("Unsupported operation: ");
            m.append(op);
            return Err(m);
        }
        let p = match path {
            Some(p) => p,
            None => {
                return Err(String::from_str("Path parameter missing"));
            },
        };
        if str_eq(op, "read") {
            Ok(FileOperation::Read { path: String::from_str(p) })
        } else if str_eq(op, "list") {
            Ok(FileOperation::List { path: String::from_str(p) })
        } else {
            match content {
                Some(c) => Ok(FileOperation::Write { path: String::from_str(p), content: String::from_str(c) }),
                None => Err(String::from_str("Content parameter missing")),
            }
        }
    }

    /// The operation that a call asks for whose arguments are the JSON text
    /// `arguments`: the error of parsing it, or what `operation` makes of its
    /// `operation`, `path` and `content` strings.
    pub fn operation_from_arguments(&self, arguments: &str) -> (r: Result<FileOperation, String>)
        ensures
            match json_string_members(arguments@, seq!["operation"@, "path"@, "content"@]) {
                Err(e) => r matches Err(m) && m@ == e,
                Ok(vals) => file_operation_outcome(vals[0], vals[1], vals[2], r),
            },
    {
        let mut keys: Vec<String> = Vec::new();
        keys.push(String::from_str("operation"));
        keys.push(String::from_str("path"));
        keys.push(String::from_str("content"));
        assert(keys.deep_view() =~= seq!["operation"@, "path"@, "content"@]);
        match call_arguments(arguments, &keys) {
            Err(e) => Err(e),
            Ok(vals) => {
                let operation = match &vals[0] {
                    Some(v) => Some(v.as_str()),
                    None => None,
                };
                let path = match &vals[1] {
                    Some(v) => Some(v.as_str()),
                    None => None,
                };
                let content = match &vals[2] {
                    Some(v) => Some(v.as_str()),
                    None => None,
                };
                self.operation(operation, path, content)
            },
        }
    }

    /// What a successful write reports.
    pub fn write_confirmation(&self, path: &str) -> (r: String)
        ensures
            r@ == "File written successfully: "@ + path@,
    {
        let mut r = String::from_str("File written successfully: ");
        r.append(path);
        r
    }

    /// What a listing reports: the entry names as a JSON list.
    pub fn list_output(&self, entries: &Vec<String>) -> (r: Result<String, String>)
        ensures
            match r {
                Ok(t) => json_string_list_text(entries.deep_view()) == Ok::<Seq<char>, Seq<char>>(t@),
                Err(e) => json_string_list_text(entries.deep_view()) == Err::<Seq<char>, Seq<char>>(e@),
            },
    {
        string_list_json(entries)
    }
}

/// A search answers for the whole query: its results are "Search results for: "
/// followed by all of the query, so two queries get the same results only when
/// they are the same query.
pub proof fn law_search_whole_query(
    q1: Seq<char>,
    q2: Seq<char>,
    r1: Result<String, String>,
    r2: Result<String, String>,
)
    requires
        search_outcome(Some(q1), r1),
        search_outcome(Some(q2), r2),
    ensures
        match (r1, r2) {
            (Ok(t1), Ok(t2)) => {
                &&& t1@.take(20) == "Search results for: "@
                &&& t1@.skip(20) == q1
                &&& t1@ == t2@ ==> q1 == q2
            },
            _ => false,
        },
{
    reveal_strlit("Search results for: ");
    assert(("Search results for: "@ + q1).take(20) =~= "Search results for: "@);
    assert(("Search results for: "@ + q1).skip(20) =~= q1);
    assert(("Search results for: "@ + q2).skip(20) =~= q2);
}

/// A file operation acts on the arguments it was given: a read or a listing
/// of path `p` reads or lists `p`, a write of content `c` to `p` writes `c` to
/// `p`, and no other operation name gives an operation.
pub proof fn law_file_operation_uses_arguments(
    op: Seq<char>,
    p: Seq<char>,
    content: Option<Seq<char>>,
    r: Result<FileOperation, String>,
)
    requires
        file_operation_outcome(Some(op), Some(p), content, r),
    ensures
        op == "read"@ ==> (r matches Ok(FileOperation::Read { path }) && path@ == p),
        op == "list"@ ==> (r matches Ok(FileOperation::List { path }) && path@ == p),
        op == "write"@ && content is Some ==> (r matches Ok(FileOperation::Write { path, content: c })
            && path@ == p && c@ == content->0),
        r is Ok ==> op == "read"@ || op == "list"@ || op == "write"@,
{
    reveal_strlit("read");
    reveal_strlit("list");
    reveal_strlit("write");
    if op == "read"@ || op == "list"@ || op == "write"@ {
        assert(op == "read"@ || op == "write"@ || op == "list"@);
        if op != "read"@ {
            assert(op[0] != 'r');
        }
        if op != "list"@ {
            assert(op[0] != 'l');
        }
    }
}

/// Code is written to a file whose extension is the usual one of its language:
/// `py` for Python, `js` for JavaScript, `rs` for Rust, `rb` for Ruby; any
/// other language names its own extension. The file lies in the given
/// directory, under the name `code_TODO`.
pub proof fn law_code_file_extension(temp_dir: Seq<char>, language: Seq<char>)
    ensures
        language == "python"@ ==> code_extension(language) == "py"@,
        language == "javascript"@ ==> code_extension(language) == "js"@,
        language == "rust"@ ==> code_extension(language) == "rs"@,
        language == "ruby"@ ==> code_extension(language) == "rb"@,
        language != "python"@ && language != "javascript"@ && language != "rust"@ && language
            != "ruby"@ ==> code_extension(language) == language,
{
    reveal_strlit("python");
    reveal_strlit("javascript");
    reveal_strlit("rust");
    reveal_strlit("ruby");
    if language == "javascript"@ || language == "rust"@ {
        assert(language[0] != 'p');
    }
    if language == "rust"@ {
        assert(language.len() != "javascript"@.len());
    }
    if language == "ruby"@ {
        assert(language[0] != 'p');
        assert(language.len() != "javascript"@.len());
        assert(language[2] != "rust"@[2]);
    }
}

} // verus!
