use unifyre::analyzer::{Analyzer, BinaryView, Confidence, SectionInfo, SymbolInfo};
use unifyre::entropy::byte_histogram;
use unifyre::error::UnifyError;
use unifyre::pattern::{find_pattern, parse_hex};
use unifyre::scanner::{detect_suspicious_sequences, find_byte_runs, MIN_NOP_RUN, NOP};

fn section(name: &str, address: u64, size: u64, entropy: u64) -> SectionInfo {
    SectionInfo { name: name.to_string(), address, size, entropy }
}

fn symbol(name: &str, address: u64) -> SymbolInfo {
    SymbolInfo { name: name.to_string(), address, kind: "Text".to_string() }
}

fn view(sections: Vec<SectionInfo>, symbols: Vec<SymbolInfo>, data: Vec<u8>) -> BinaryView {
    BinaryView {
        format: "Elf".to_string(),
        architecture: "X86_64".to_string(),
        entry_point: 0x1000,
        sections,
        symbols,
        data,
    }
}

#[test]
fn nineteen_nops_yield_no_finding() {
    let mut data = vec![0u8; 4];
    data.extend(vec![0x90u8; 19]);
    data.push(0);
    assert!(detect_suspicious_sequences(&data).is_empty());
}

#[test]
fn twenty_nops_yield_one_finding() {
    let mut data = vec![0u8; 4];
    data.extend(vec![0x90u8; 20]);
    data.push(0);
    let found = detect_suspicious_sequences(&data);
    assert_eq!(found.len(), 1);
    assert_eq!(found[0].0, 4);
    assert_eq!(found[0].1, "NOP sled detected (length: 20)");
}

#[test]
fn run_at_end_of_buffer_is_reported() {
    let mut data = vec![0x41u8, 0x42];
    data.extend(vec![0x90u8; 25]);
    let found = detect_suspicious_sequences(&data);
    assert_eq!(found.len(), 1);
    assert_eq!(found[0].0, 2);
    assert_eq!(found[0].1, "NOP sled detected (length: 25)");
}

#[test]
fn several_runs_in_scan_order() {
    let mut data = vec![0x90u8; 20];
    data.push(0xcc);
    data.extend(vec![0x90u8; 5]);
    data.push(0xcc);
    data.extend(vec![0x90u8; 30]);
    let runs = find_byte_runs(&data, NOP, MIN_NOP_RUN);
    assert_eq!(runs, vec![(0, 20), (27, 30)]);
}

#[test]
fn empty_buffer_has_no_runs() {
    assert!(detect_suspicious_sequences(&[]).is_empty());
}

#[test]
fn histogram_counts_each_value() {
    let h = byte_histogram(&[1, 1, 2, 255, 1]);
    assert_eq!(h.len(), 256);
    assert_eq!(h[1], 3);
    assert_eq!(h[2], 1);
    assert_eq!(h[255], 1);
    assert_eq!(h[0], 0);
    let same = byte_histogram(&[7u8; 100]);
    assert_eq!(same.iter().filter(|c| **c > 0).count(), 1);
    let all: Vec<u8> = (0..=255u8).collect();
    assert!(byte_histogram(&all).iter().all(|c| *c == 1));
}

#[test]
fn sections_sorted_by_address_stably() {
    let a = Analyzer::new(view(
        vec![
            section("c", 0x3000, 1, 0),
            section("a1", 0x1000, 1, 0),
            section("b", 0x2000, 1, 0),
            section("a2", 0x1000, 1, 0),
        ],
        vec![symbol("z", 9), symbol("x", 1), symbol("y", 1)],
        vec![],
    ));
    let r = a.analyze();
    let names: Vec<&str> = r.sections.iter().map(|s| s.name.as_str()).collect();
    assert_eq!(names, vec!["a1", "a2", "b", "c"]);
    let syms: Vec<&str> = r.symbols.iter().map(|s| s.name.as_str()).collect();
    assert_eq!(syms, vec!["x", "y", "z"]);
    assert_eq!(r.format, "Elf");
    assert_eq!(r.architecture, "X86_64");
    assert_eq!(r.entry_point, 0x1000);
}

#[test]
fn entropy_just_above_threshold_is_reported() {
    let a = Analyzer::new(view(vec![section(".text", 0x400, 16, 7_010_000)], vec![], vec![]));
    let r = a.analyze();
    assert_eq!(r.findings.len(), 1);
    assert_eq!(r.findings[0].id, "HIGH_ENTROPY");
    assert_eq!(r.findings[0].confidence, Confidence::High);
    assert_eq!(r.findings[0].offset, Some(0x400));
    assert_eq!(
        r.findings[0].message,
        "Section .text has high entropy (7.01) - potentially packed or encrypted."
    );
}

#[test]
fn entropy_at_threshold_is_not_reported() {
    let a = Analyzer::new(view(vec![section(".text", 0x400, 16, 7_000_000)], vec![], vec![]));
    assert!(a.analyze().findings.is_empty());
}

#[test]
fn entropy_findings_precede_sled_findings() {
    let mut data = vec![0u8; 8];
    data.extend(vec![0x90u8; 20]);
    let a = Analyzer::new(view(
        vec![section("hi2", 0x2000, 1, 7_500_000), section("hi1", 0x1000, 1, 8_000_000)],
        vec![],
        data,
    ));
    let r = a.analyze();
    assert_eq!(r.findings.len(), 3);
    assert_eq!(r.findings[0].offset, Some(0x1000));
    assert_eq!(r.findings[0].message, "Section hi1 has high entropy (8.00) - potentially packed or encrypted.");
    assert_eq!(r.findings[1].offset, Some(0x2000));
    assert_eq!(r.findings[2].id, "SUSPICIOUS_SEQ");
    assert_eq!(r.findings[2].confidence, Confidence::Medium);
    assert_eq!(r.findings[2].offset, Some(8));
    assert_eq!(r.findings[2].message, "NOP sled detected (length: 20)");
}

#[test]
fn scan_reports_overlapping_matches() {
    let a = Analyzer::new(view(vec![], vec![], vec![0x90, 0x90, 0x90]));
    assert_eq!(a.scan_patterns("9090").unwrap(), vec![0, 1]);
}

#[test]
fn scan_edge_cases() {
    let a = Analyzer::new(view(vec![], vec![], vec![0xde, 0xad, 0xbe, 0xef, 0xde, 0xad]));
    assert_eq!(a.scan_patterns("DEad").unwrap(), vec![0, 4]);
    assert_eq!(a.scan_patterns("").unwrap(), Vec::<u64>::new());
    assert_eq!(a.scan_patterns("deadbeefdeadbeef").unwrap(), Vec::<u64>::new());
    assert!(find_pattern(&[1, 2], &[]).is_empty());
}

#[test]
fn scan_rejects_bad_hex() {
    let a = Analyzer::new(view(vec![], vec![], vec![0x90]));
    match a.scan_patterns("9g") {
        Err(UnifyError::InvalidArgument(m)) => assert!(m.starts_with("Invalid hex pattern: ")),
        _ => panic!("expected InvalidArgument"),
    }
    assert!(matches!(a.scan_patterns("909"), Err(UnifyError::InvalidArgument(_))));
}

#[test]
fn hex_text_is_decoded() {
    assert_eq!(parse_hex("0aFF10").unwrap(), vec![0x0a, 0xff, 0x10]);
    assert!(parse_hex("zz").is_err());
}
