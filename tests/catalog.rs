use unifyre::debugger::{Debugger, DebuggerBackend, LinuxBackend, MacosBackend, Registers};
use unifyre::error::UnifyError;
use unifyre::explanations::ExplanationEngine;
use unifyre::scripting::{ScriptEngine, Task, UreScript};
use unifyre::text::{push_decimal, push_fixed2, push_hex};

#[test]
fn known_ids_are_explained() {
    let e = ExplanationEngine::new();
    let hi = e.explain("HIGH_ENTROPY").unwrap();
    assert_eq!(hi.title, "High Entropy Section Detected");
    assert_eq!(hi.risk_level, "High - Possible packed or obfuscated code.");
    let seq = e.explain("SUSPICIOUS_SEQ").unwrap();
    assert_eq!(seq.title, "Suspicious Instruction Sequence");
}

#[test]
fn unknown_id_is_not_found() {
    let e = ExplanationEngine::new();
    assert!(e.explain("UNKNOWN").is_none());
    assert!(e.explain("").is_none());
    assert!(e.explain("high_entropy").is_none());
}

#[test]
fn numbers_render_as_text() {
    let mut s = String::new();
    push_decimal(&mut s, 0);
    s.push(' ');
    push_decimal(&mut s, 1234567890);
    s.push(' ');
    push_hex(&mut s, 0xdeadbeef);
    s.push(' ');
    push_fixed2(&mut s, 7_004_999);
    s.push(' ');
    push_fixed2(&mut s, 7_005_000);
    s.push(' ');
    push_fixed2(&mut s, 123_456);
    assert_eq!(s, "0 1234567890 deadbeef 7.00 7.01 0.12");
}

#[test]
fn stub_backends_report_not_implemented() {
    let mut d = Debugger::new(LinuxBackend);
    assert_eq!(d.backend.attach(1), Err(UnifyError::NotImplemented("Linux attach".to_string())));
    assert!(d.backend.list_breakpoints().is_empty());
    assert!(d.backend.read_memory(0, 4).is_err());
    let mut m = MacosBackend;
    assert_eq!(m.step(), Err(UnifyError::NotImplemented("macOS step".to_string())));
    assert_eq!(Registers::default().rip, 0);
}

#[test]
fn script_plan_lines() {
    let script = UreScript {
        name: "triage".to_string(),
        tasks: vec![
            Task::Analyze { output: "out.json".to_string(), html: true },
            Task::Scan { pattern: "9090".to_string() },
            Task::Disasm { entry: false },
        ],
    };
    assert_eq!(
        ScriptEngine::plan(&script),
        vec![
            "Running script: triage",
            "  - Task: Analyze (output: out.json, html: true)",
            "  - Task: Scan (pattern: 9090)",
            "  - Task: Disasm (entry: false)",
        ]
    );
}
