use unifyre::analyzer::{AnalysisResult, SectionInfo, SymbolInfo};
use unifyre::diff::DiffEngine;

fn section(name: &str, address: u64, size: u64, entropy: u64) -> SectionInfo {
    SectionInfo { name: name.to_string(), address, size, entropy }
}

fn symbol(name: &str, address: u64) -> SymbolInfo {
    SymbolInfo { name: name.to_string(), address, kind: "Text".to_string() }
}

fn result(sections: Vec<SectionInfo>, symbols: Vec<SymbolInfo>) -> AnalysisResult {
    AnalysisResult {
        format: "Elf".to_string(),
        architecture: "X86_64".to_string(),
        entry_point: 0,
        sections,
        symbols,
        findings: vec![],
    }
}

#[test]
fn identical_inputs_have_no_diff() {
    let a = result(
        vec![section(".text", 0x1000, 0x20, 6_000_000), section(".data", 0x2000, 8, 1_000_000)],
        vec![symbol("main", 0x1000), symbol("main", 0x1010), symbol("helper", 0x1020)],
    );
    let d = DiffEngine::compare(&a, &a);
    assert!(d.section_diffs.is_empty());
    assert!(d.symbol_diffs.is_empty());
}

#[test]
fn symbol_set_difference_by_name() {
    let a = result(vec![], vec![symbol("foo", 1), symbol("bar", 2)]);
    let b = result(vec![], vec![symbol("bar", 7), symbol("baz", 3)]);
    let d = DiffEngine::compare(&a, &b);
    assert!(d.section_diffs.is_empty());
    assert_eq!(d.symbol_diffs, vec!["Symbol removed: foo", "Symbol added: baz"]);
}

#[test]
fn count_mismatch_noted_once() {
    let a = result(vec![section("x", 0, 1, 0), section("y", 1, 1, 0)], vec![]);
    let b = result(
        vec![section("p", 0, 2, 0), section("q", 1, 1, 0), section("r", 2, 1, 0)],
        vec![],
    );
    let d = DiffEngine::compare(&a, &b);
    let mismatches = d.section_diffs.iter().filter(|n| n.starts_with("Section count mismatch")).count();
    assert_eq!(mismatches, 1);
    assert_eq!(
        d.section_diffs,
        vec![
            "Section count mismatch: 2 vs 3",
            "Section name change: x -> p",
            "Section x size change: 0x1 -> 0x2",
            "Section name change: y -> q",
        ]
    );
}

#[test]
fn pairwise_section_notes() {
    let a = result(vec![section(".text", 0, 0x10, 5_000_000), section(".bss", 0, 0, 3_000_000)], vec![]);
    let b = result(vec![section(".text", 0, 0x2a0, 5_200_000), section(".bss", 0, 0, 3_100_000)], vec![]);
    let d = DiffEngine::compare(&a, &b);
    assert_eq!(
        d.section_diffs,
        vec!["Section .text size change: 0x10 -> 0x2a0", "Section .text entropy shift: 5.00 -> 5.20"]
    );
}

#[test]
fn reordered_sections_give_index_based_notes() {
    let a = result(vec![section("a", 0, 1, 0), section("b", 0, 1, 0)], vec![]);
    let b = result(vec![section("b", 0, 1, 0), section("a", 0, 1, 0)], vec![]);
    let d = DiffEngine::compare(&a, &b);
    assert_eq!(d.section_diffs, vec!["Section name change: a -> b", "Section name change: b -> a"]);
}

#[test]
fn renamed_symbol_is_remove_plus_add() {
    let a = result(vec![], vec![symbol("old", 0x10)]);
    let b = result(vec![], vec![symbol("new", 0x10)]);
    let d = DiffEngine::compare(&a, &b);
    assert_eq!(d.symbol_diffs, vec!["Symbol removed: old", "Symbol added: new"]);
}
