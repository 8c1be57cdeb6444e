use vstd::prelude::*;

verus! {

/// The ReAct instructions that every thought prompt begins with.
pub const REACT_PROMPT: &'static str = "\nYou are Geno, an AI Agent for Lumora code. Use ReAct:\n1. Thought: Plan the next step.\n2. Action: Output JSON: {\"tool\": \"<name>\", \"input\": \"<input>\"}\nTools: compile_lumora, generate_code, run_wasm, search_knowledge.\nTask: {task}\nMessages: {messages}\n";

/// The instructions that every reflection prompt begins with.
pub const UPGRADE_PROMPT: &'static str = "You are Geno, an AI Agent for Lumora code. Reflect on the last task result and upgrade your prompt, tools and strategy.";

} // verus!
