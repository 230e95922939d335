//! Task scripts: a named list of tasks, and the line that announces each.
use vstd::prelude::*;

verus! {

/// A named list of tasks to run against one binary.
#[derive(Debug)]
pub struct UreScript {
    pub name: String,
    pub tasks: Vec<Task>,
}

/// One step of a script.
#[derive(Debug)]
pub enum Task {
    Analyze { output: String, html: bool },
    Scan { pattern: String },
    Disasm { entry: bool },
}

/// The text of a flag.
pub open spec fn bool_text(b: bool) -> Seq<char> {
    if b {
        "true"@
    } else {
        "false"@
    }
}

/// The line that announces task `t`.
pub open spec fn task_line(t: Task) -> Seq<char> {
    match t {
        Task::Analyze { output, html } => "  - Task: Analyze (output: "@ + output@ + ", html: "@
            + bool_text(html) + ")"@,
        Task::Scan { pattern } => "  - Task: Scan (pattern: "@ + pattern@ + ")"@,
        Task::Disasm { entry } => "  - Task: Disasm (entry: "@ + bool_text(entry) + ")"@,
    }
}

/// The line that opens a run of the script named `name`.
pub open spec fn header_line(name: Seq<char>) -> Seq<char> {
    "Running script: "@ + name
}

/// Appends the text of `b` to `s`.
fn push_bool(s: &mut String, b: bool)
    ensures
        final(s)@ == old(s)@ + bool_text(b),
{
    if b {
        s.append("true");
    } else {
        s.append("false");
    }
}

/// Runs scripts; running a task so far only announces it.
pub struct ScriptEngine;

impl ScriptEngine {
    /// The line that announces `t`.
    pub fn describe_task(t: &Task) -> (r: String)
        ensures
            r@ == task_line(*t),
    {
        match t {
            Task::Analyze { output, html } => {
                let mut s = String::from_str("  - Task: Analyze (output: ");
                s.append(output.as_str());
                s.append(", html: ");
                push_bool(&mut s, *html);
                s.append(")");
                s
            },
            Task::Scan { pattern } => {
                let mut s = String::from_str("  - Task: Scan (pattern: ");
                s.append(pattern.as_str());
                s.append(")");
                s
            },
            Task::Disasm { entry } => {
                let mut s = String::from_str("  - Task: Disasm (entry: ");
                push_bool(&mut s, *entry);
                s.append(")");
                s
            },
        }
    }

    /// The lines of a run of `script`: its header, then one line per task in
    /// order.
    pub fn plan(script: &UreScript) -> (r: Vec<String>)
        ensures
            r@.len() == script.tasks@.len() + 1,
            r@[0]@ == header_line(script.name@),
            forall|i: int|
                0 <= i < script.tasks@.len() ==> (#[trigger] r@[i + 1])@ == task_line(
                    script.tasks@[i],
                ),
    {
        let mut r: Vec<String> = Vec::new();
        let mut head = String::from_str("Running script: ");
        head.append(script.name.as_str());
        r.push(head);
        let mut i: usize = 0;
        while i < script.tasks.len()
            invariant
                i <= script.tasks@.len(),
                r@.len() == i + 1,
                r@[0]@ == header_line(script.name@),
                forall|j: int|
                    0 <= j < i ==> (#[trigger] r@[j + 1])@ == task_line(script.tasks@[j]),
            decreases script.tasks.len() - i,
        {
            r.push(ScriptEngine::describe_task(&script.tasks[i]));
            i = i + 1;
        }
        r
    }
}

} // verus!
