pub mod action;
pub mod react;

use vstd::prelude::*;
use crate::config::AgentConfig;
use crate::knowledge::KnowledgeBase;
use crate::service::action::Action;
pub use crate::agent::{Message, TaskResult, Tool};

verus! {

/// An agent that works in ReAct mode.
pub struct Agent {
    /// Successful cases and functions.
    pub knowledge_base: KnowledgeBase,
    /// Code examples.
    pub codes: Vec<String>,
    /// The tools that the agent may use, each under its own name.
    pub tools: ToolSet,
    /// The most ReAct steps for one task.
    pub max_step: usize,
}

/// Tools, each under a name of its own, in the order they were registered.
pub struct ToolSet {
    tools: Vec<Tool>,
}

/// Whether no two tools have the same name.
pub open spec fn names_distinct(tools: Seq<Tool>) -> bool {
    forall|i: int, j: int| 0 <= i < j < tools.len() ==> tools[i].name@ != tools[j].name@
}

impl View for ToolSet {
    type V = Seq<Tool>;

    closed spec fn view(&self) -> Seq<Tool> {
        self.tools@
    }
}

impl ToolSet {
    #[verifier::type_invariant]
    spec fn inv(self) -> bool {
        names_distinct(self.tools@)
    }

    /// No tools.
    pub fn new() -> (s: ToolSet)
        ensures
            s@.len() == 0,
    {
        ToolSet { tools: Vec::new() }
    }

    /// The tools, in order.
    pub fn as_vec(&self) -> (v: &Vec<Tool>)
        ensures
            v@ == self@,
            names_distinct(self@),
    {
        proof {
            use_type_invariant(self);
        }
        &self.tools
    }

    /// The number of tools.
    pub fn len(&self) -> (n: usize)
        ensures
            n == self@.len(),
    {
        self.tools.len()
    }

    /// Where the tool named `name` stands, if there is one.
    pub fn position(&self, name: &String) -> (r: Option<usize>)
        ensures
            match r {
                Some(i) => i < self@.len() && self@[i as int].name@ == name@,
                None => !has_tool(self@, name@),
            },
    {
        let mut i: usize = 0;
        while i < self.tools.len()
            invariant
                i <= self.tools@.len(),
                forall|j: int| 0 <= j < i ==> self.tools@[j].name@ != name@,
            decreases self.tools@.len() - i,
        {
            if self.tools[i].name == *name {
                return Some(i);
            }
            i = i + 1;
        }
        None
    }

    /// Registers `tool` under its name, in place of a tool of the same name.
    pub fn register(&mut self, tool: Tool)
        ensures
            if has_tool(old(self)@, tool.name@) {
                exists|i: int|
                    0 <= i < old(self)@.len() && old(self)@[i].name@ == tool.name@ && final(self)@
                        == old(self)@.update(i, tool)
            } else {
                final(self)@ == old(self)@.push(tool)
            },
    {
        proof {
            use_type_invariant(&*self);
        }
        let pos = self.position(&tool.name);
        let ghost before = self.tools@;
        let mut tools: Vec<Tool> = Vec::new();
        std::mem::swap(&mut tools, &mut self.tools);
        match pos {
            Some(i) => {
                let ghost t = tool;
                tools.set(i, tool);
                assert(tools@ =~= before.update(i as int, t));
                assert(before[i as int].name@ == t.name@);
            },
            None => {
                tools.push(tool);
            },
        }
        self.tools = tools;
    }
}

/// What a task's run remembers.
pub struct TaskContext {
    /// The task.
    pub task: String,
    /// Thoughts, actions and observations.
    pub memory: Vec<Message>,
    /// Results.
    pub history: Vec<TaskResult>,
}

/// What to do for an action: a tool to call, if any, and the reply.
pub struct ActionPlan {
    /// The registered tool to call, with its input.
    pub call: Option<(String, String)>,
    /// What the action answers.
    pub reply: String,
}

/// Whether a tool of that name is registered.
pub open spec fn has_tool(tools: Seq<Tool>, name: Seq<char>) -> bool {
    exists|i: int| 0 <= i < tools.len() && tools[i].name@ == name
}

impl TaskContext {
    /// A fresh context for `task`.
    pub fn new(task: String) -> (c: TaskContext)
        ensures
            c.task == task,
            c.memory@.len() == 0,
            c.history@.len() == 0,
    {
        TaskContext { task, memory: Vec::new(), history: Vec::new() }
    }
}

impl Agent {
    /// An agent with nothing learned and no tools, allowed `config.max_step`
    /// ReAct steps.
    pub fn new(config: AgentConfig) -> (r: Result<Agent, String>)
        ensures
            r matches Ok(a) && {
                &&& a.knowledge_base@ == Map::<Seq<char>, Seq<char>>::empty()
                &&& a.codes@.len() == 0
                &&& a.tools@.len() == 0
                &&& a.max_step == config.max_step
            },
    {
        Ok(
            Agent {
                knowledge_base: KnowledgeBase::new(),
                codes: Vec::new(),
                tools: ToolSet::new(),
                max_step: config.max_step,
            },
        )
    }

    /// Whether a tool named `name` is registered.
    pub fn has_tool(&self, name: &String) -> (r: bool)
        ensures
            r == has_tool(self.tools@, name@),
    {
        self.tools.position(name).is_some()
    }

    /// What the agent does for `action`: code answers "code"; a tool action calls
    /// the tool when it is registered and answers "success"; anything else
    /// answers "unknown".
    pub fn action(&self, action: &Action) -> (r: ActionPlan)
        ensures
            match action {
                Action::Code(_) => r.call is None && r.reply@ == "code"@,
                Action::Tool(name, input) => r.reply@ == "success"@ && (if has_tool(
                    self.tools@,
                    name@,
                ) {
                    r.call matches Some(c) && c.0@ == name@ && c.1@ == input@
                } else {
                    r.call is None
                }),
                Action::Unknown => r.call is None && r.reply@ == "unknown"@,
            },
    {
        match action {
            Action::Code(_) => ActionPlan { call: None, reply: String::from_str("code") },
            Action::Tool(name, input) => {
                let call = if self.has_tool(name) {
                    Some((name.clone(), input.clone()))
                } else {
                    None
                };
                ActionPlan { call, reply: String::from_str("success") }
            },
            Action::Unknown => ActionPlan { call: None, reply: String::from_str("unknown") },
        }
    }
}

/// A registered tool can be found by its name, whether it was added or took
/// the place of a tool of the same name, and the other tools stay found.
pub proof fn law_registered_tool_is_found(tools: Seq<Tool>, tool: Tool, i: int, name: Seq<char>)
    ensures
        has_tool(tools.push(tool), tool.name@),
        0 <= i < tools.len() && tools[i].name@ == tool.name@ ==> has_tool(
            tools.update(i, tool),
            tool.name@,
        ),
        has_tool(tools, name) ==> has_tool(tools.push(tool), name),
        !has_tool(tools, name) && name != tool.name@ ==> !has_tool(tools.push(tool), name),
{
    assert(tools.push(tool)[tools.len() as int] == tool);
    if 0 <= i < tools.len() && tools[i].name@ == tool.name@ {
        assert(tools.update(i, tool)[i] == tool);
    }
    if has_tool(tools, name) {
        let k = choose|k: int| 0 <= k < tools.len() && tools[k].name@ == name;
        assert(tools.push(tool)[k] == tools[k]);
    }
    if !has_tool(tools, name) && name != tool.name@ {
        assert forall|k: int| 0 <= k < tools.push(tool).len() implies tools.push(tool)[k].name@
            != name by {
            if k < tools.len() {
                assert(tools.push(tool)[k] == tools[k]);
            }
        }
    }
}

} // verus!
