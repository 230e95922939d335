use unifyre::analyzer::{AnalysisResult, Confidence, Finding, SectionInfo};
use unifyre::disassembler::{CpuArch, Disassembler};
use unifyre::error::UnifyError;
use unifyre::report::render_html;

#[test]
fn html_report_lists_overview_findings_and_sections() {
    let r = AnalysisResult {
        format: "Elf".to_string(),
        architecture: "X86_64".to_string(),
        entry_point: 0x401000,
        sections: vec![
            SectionInfo { name: ".text".to_string(), address: 0x401000, size: 0x200, entropy: 7_254_000 },
            SectionInfo { name: ".data".to_string(), address: 0x402000, size: 0x10, entropy: 1_000_000 },
        ],
        symbols: vec![],
        findings: vec![Finding {
            id: "HIGH_ENTROPY".to_string(),
            message: "packed".to_string(),
            confidence: Confidence::High,
            offset: Some(0x401000),
        }],
    };
    let html = render_html(&r);
    assert!(html.starts_with("<!DOCTYPE html>\n"));
    assert!(html.ends_with("</div>\n</body>\n</html>"));
    assert!(html.contains("<tr><th>Entry Point</th><td>0x401000</td></tr>\n"));
    assert!(html.contains("<h2>Suspicious Findings</h2>\n<div class=\"finding\"><strong>(!)</strong> packed</div>\n"));
    assert!(html.contains("<tr><td>.text</td><td>0x401000</td><td>0x200</td><td class=\"high-entropy\">7.25</td></tr>\n"));
    assert!(html.contains("<tr><td>.data</td><td>0x402000</td><td>0x10</td><td class=\"\">1.00</td></tr>\n"));
}

#[test]
fn html_report_without_findings_has_no_findings_heading() {
    let r = AnalysisResult {
        format: "Pe".to_string(),
        architecture: "I386".to_string(),
        entry_point: 0,
        sections: vec![],
        symbols: vec![],
        findings: vec![],
    };
    assert!(!render_html(&r).contains("Suspicious Findings"));
}

#[test]
fn unsupported_architecture_is_named() {
    match Disassembler::new(CpuArch::Other("Mips".to_string())) {
        Err(UnifyError::UnsupportedArch(name)) => assert_eq!(name, "Mips"),
        _ => panic!("expected UnsupportedArch"),
    }
}

#[test]
fn x86_64_code_is_decoded() {
    let d = Disassembler::new(CpuArch::X86_64).ok().expect("x86-64 engine");
    let insns = d.disassemble(&[0x90, 0xc3], 0x1000).ok().expect("decoded");
    assert_eq!(insns.len(), 2);
    assert_eq!(insns[0].address, 0x1000);
    assert_eq!(insns[0].mnemonic, "nop");
    assert_eq!(insns[1].address, 0x1001);
    assert_eq!(insns[1].mnemonic, "ret");
    assert_eq!(insns[1].bytes, vec![0xc3]);
}

#[test]
fn engine_error_paths_are_typed() {
    let d = Disassembler::new(CpuArch::Arm).ok().expect("ARM engine");
    match d.disassemble(&[], 0) {
        Ok(v) => assert!(v.is_empty()),
        Err(e) => assert!(matches!(e, UnifyError::DisasmError(_))),
    }
}
