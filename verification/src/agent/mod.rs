pub mod action;
pub mod evolution;
pub mod interpreter;
pub mod prompt;

use vstd::prelude::*;
use crate::knowledge::KnowledgeBase;
use crate::agent::prompt::REACT_PROMPT;

verus! {

/// A short-term memory entry: a thought, an action or an observation.
pub struct Message {
    /// "system", "thought", "action" or "observation".
    pub role: String,
    pub content: String,
}

/// A tool that the agent may use, as the prompt describes it.
pub struct Tool {
    pub name: String,
    pub description: String,
}

/// The outcome of a task.
pub struct TaskResult {
    pub task: String,
    pub success: bool,
    pub output: String,
    /// Feedback for the agent's evolution.
    pub feedback: Option<String>,
}

/// An agent that works in ReAct mode and reflects on its results.
pub struct Agent {
    /// Thoughts, actions and observations.
    pub messages: Vec<Message>,
    /// Successful cases and strategies.
    pub knowledge_base: KnowledgeBase,
    /// The ReAct template.
    pub prompt_template: String,
    /// The tools that the agent may use.
    pub tools: Vec<Tool>,
    /// The current task.
    pub task: String,
    /// Results of earlier tasks.
    pub history: Vec<TaskResult>,
    /// The most ReAct steps for one task.
    pub max_iterations: usize,
}

impl Agent {
    /// An agent for `task`, with nothing remembered yet and the ReAct template.
    pub fn new(task: &str, max_iterations: usize) -> (r: Result<Agent, String>)
        ensures
            r matches Ok(a) && {
                &&& a.messages@.len() == 0
                &&& a.knowledge_base@ == Map::<Seq<char>, Seq<char>>::empty()
                &&& a.prompt_template@ == REACT_PROMPT@
                &&& a.tools@.len() == 0
                &&& a.task@ == task@
                &&& a.history@.len() == 0
                &&& a.max_iterations == max_iterations
            },
    {
        Ok(
            Agent {
                messages: Vec::new(),
                knowledge_base: KnowledgeBase::new(),
                prompt_template: String::from_str(REACT_PROMPT),
                tools: Vec::new(),
                task: String::from_str(task),
                history: Vec::new(),
                max_iterations,
            },
        )
    }
}

} // verus!
