use vstd::prelude::*;

verus! {

/// How an agent is set up.
pub struct AgentConfig {
    /// The most ReAct steps for one task.
    pub max_step: usize,
}

impl Default for AgentConfig {
    /// Ten ReAct steps.
    fn default() -> (r: AgentConfig)
        ensures
            r.max_step == 10,
    {
        AgentConfig { max_step: 10 }
    }
}

} // verus!
