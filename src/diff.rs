//! Structural comparison of two analyses: sections paired by index, symbols
//! compared as sets of names.
use crate::analyzer::{AnalysisResult, SectionInfo, SymbolInfo};
use crate::entropy::ENTROPY_SHIFT_THRESHOLD;
use crate::text::{decimal_of, fixed2_of, hex_of, push_decimal, push_fixed2, push_hex};
use vstd::prelude::*;

verus! {

/// The section notes of a comparison, in text.
#[derive(Debug)]
pub struct DiffResult {
    pub section_diffs: Vec<String>,
    pub symbol_diffs: Vec<String>,
}

/// What a section note says.
pub enum SectionNote {
    /// The two analyses have these many sections.
    CountMismatch(nat, nat),
    /// The paired sections are named differently.
    NameChange(Seq<char>, Seq<char>),
    /// The section of this name changed size.
    SizeChange(Seq<char>, u64, u64),
    /// The section of this name changed entropy by more than the threshold.
    EntropyShift(Seq<char>, u64, u64),
}

/// The text of a section note.
pub open spec fn note_text(n: SectionNote) -> Seq<char> {
    match n {
        SectionNote::CountMismatch(a, b) => "Section count mismatch: "@ + decimal_of(a) + " vs "@
            + decimal_of(b),
        SectionNote::NameChange(a, b) => "Section name change: "@ + a + " -> "@ + b,
        SectionNote::SizeChange(name, a, b) => "Section "@ + name + " size change: 0x"@ + hex_of(
            a as nat,
        ) + " -> 0x"@ + hex_of(b as nat),
        SectionNote::EntropyShift(name, a, b) => "Section "@ + name + " entropy shift: "@
            + fixed2_of(a as nat) + " -> "@ + fixed2_of(b as nat),
    }
}

/// The entropies `a` and `b` differ by strictly more than the threshold.
pub open spec fn entropy_shifted(a: u64, b: u64) -> bool {
    a > b + ENTROPY_SHIFT_THRESHOLD || b > a + ENTROPY_SHIFT_THRESHOLD
}

/// The notes on one pair of sections: name, then size, then entropy.
pub open spec fn pair_notes(s1: SectionInfo, s2: SectionInfo) -> Seq<SectionNote> {
    (if s1.name@ != s2.name@ {
        seq![SectionNote::NameChange(s1.name@, s2.name@)]
    } else {
        Seq::empty()
    }) + (if s1.size != s2.size {
        seq![SectionNote::SizeChange(s1.name@, s1.size, s2.size)]
    } else {
        Seq::empty()
    }) + (if entropy_shifted(s1.entropy, s2.entropy) {
        seq![SectionNote::EntropyShift(s1.name@, s1.entropy, s2.entropy)]
    } else {
        Seq::empty()
    })
}

/// The notes on the first `n` pairs of sections, pair by pair.
pub open spec fn zip_notes(a: Seq<SectionInfo>, b: Seq<SectionInfo>, n: int) -> Seq<SectionNote>
    decreases n,
{
    if n <= 0 {
        Seq::empty()
    } else {
        zip_notes(a, b, n - 1) + pair_notes(a[n - 1], b[n - 1])
    }
}

/// All section notes: a count mismatch first if the counts differ, then the
/// notes on the sections paired by index up to the shorter list.
pub open spec fn section_notes(a: Seq<SectionInfo>, b: Seq<SectionInfo>) -> Seq<SectionNote> {
    let m = if a.len() <= b.len() {
        a.len()
    } else {
        b.len()
    };
    (if a.len() != b.len() {
        seq![SectionNote::CountMismatch(a.len(), b.len())]
    } else {
        Seq::empty()
    }) + zip_notes(a, b, m as int)
}

/// The names of the symbols of `s`, in order.
pub open spec fn symbol_names(s: Seq<SymbolInfo>) -> Seq<Seq<char>> {
    s.map_values(|x: SymbolInfo| x.name@)
}

/// For each of the first `n` symbols of `s` whose name is not in `other`, in
/// order, `prefix` followed by the name.
pub open spec fn missing_notes(
    s: Seq<SymbolInfo>,
    other: Seq<Seq<char>>,
    prefix: Seq<char>,
    n: int,
) -> Seq<Seq<char>>
    decreases n,
{
    if n <= 0 {
        Seq::empty()
    } else if other.contains(s[n - 1].name@) {
        missing_notes(s, other, prefix, n - 1)
    } else {
        missing_notes(s, other, prefix, n - 1).push(prefix + s[n - 1].name@)
    }
}

/// All symbol notes: removals in the order of `a`, then additions in the
/// order of `b`; symbols are matched by name alone.
pub open spec fn symbol_notes(a: Seq<SymbolInfo>, b: Seq<SymbolInfo>) -> Seq<Seq<char>> {
    missing_notes(a, symbol_names(b), "Symbol removed: "@, a.len() as int) + missing_notes(
        b,
        symbol_names(a),
        "Symbol added: "@,
        b.len() as int,
    )
}

/// The text of each string of `v`.
pub open spec fn texts(v: Seq<String>) -> Seq<Seq<char>> {
    v.map_values(|s: String| s@)
}

/// Whether some symbol of `syms` is named `name`.
fn has_name(syms: &Vec<SymbolInfo>, name: &String) -> (r: bool)
    ensures
        r == symbol_names(syms@).contains(name@),
{
    let mut i: usize = 0;
    while i < syms.len()
        invariant
            i <= syms@.len(),
            forall|j: int| 0 <= j < i ==> syms@[j].name@ != name@,
        decreases syms.len() - i,
    {
        if syms[i].name == *name {
            assert(symbol_names(syms@)[i as int] == name@);
            return true;
        }
        i = i + 1;
    }
    assert forall|j: int| 0 <= j < symbol_names(syms@).len() implies symbol_names(syms@)[j]
        != name@ by {
        assert(syms@[j].name@ != name@);
    }
    false
}

/// Appends to `out`, for each symbol of `s` whose name is not in `other`, in
/// order, `prefix` followed by the name.
fn push_missing(
    out: &mut Vec<String>,
    s: &Vec<SymbolInfo>,
    other: &Vec<SymbolInfo>,
    prefix: &str,
)
    ensures
        texts(final(out)@) == texts(old(out)@) + missing_notes(
            s@,
            symbol_names(other@),
            prefix@,
            s@.len() as int,
        ),
{
    let ghost start = texts(out@);
    let mut i: usize = 0;
    while i < s.len()
        invariant
            i <= s@.len(),
            texts(out@) == start + missing_notes(s@, symbol_names(other@), prefix@, i as int),
        decreases s.len() - i,
    {
        let ghost before = out@;
        if !has_name(other, &s[i].name) {
            let mut note = String::from_str(prefix);
            note.append(s[i].name.as_str());
            out.push(note);
            assert(texts(out@) =~= texts(before).push(note@));
        }
        i = i + 1;
    }
}

/// The text of a section-count mismatch.
fn count_mismatch_text(a: usize, b: usize) -> (r: String)
    ensures
        r@ == note_text(SectionNote::CountMismatch(a as nat, b as nat)),
{
    let mut r = String::from_str("Section count mismatch: ");
    push_decimal(&mut r, a as u64);
    r.append(" vs ");
    push_decimal(&mut r, b as u64);
    r
}

/// Appends the text of the notes on one pair of sections to `out`.
fn push_pair_notes(out: &mut Vec<String>, s1: &SectionInfo, s2: &SectionInfo)
    ensures
        texts(final(out)@) == texts(old(out)@) + pair_notes(*s1, *s2).map_values(
            |n: SectionNote| note_text(n),
        ),
{
    let ghost start = out@;
    if s1.name != s2.name {
        let mut t = String::from_str("Section name change: ");
        t.append(s1.name.as_str());
        t.append(" -> ");
        t.append(s2.name.as_str());
        out.push(t);
    }
    let ghost after_name = out@;
    if s1.size != s2.size {
        let mut t = String::from_str("Section ");
        t.append(s1.name.as_str());
        t.append(" size change: 0x");
        push_hex(&mut t, s1.size);
        t.append(" -> 0x");
        push_hex(&mut t, s2.size);
        out.push(t);
    }
    let ghost after_size = out@;
    let shifted = if s1.entropy >= s2.entropy {
        s1.entropy - s2.entropy > ENTROPY_SHIFT_THRESHOLD
    } else {
        s2.entropy - s1.entropy > ENTROPY_SHIFT_THRESHOLD
    };
    if shifted {
        let mut t = String::from_str("Section ");
        t.append(s1.name.as_str());
        t.append(" entropy shift: ");
        push_fixed2(&mut t, s1.entropy);
        t.append(" -> ");
        push_fixed2(&mut t, s2.entropy);
        out.push(t);
    }
    assert(texts(out@) =~= texts(start) + pair_notes(*s1, *s2).map_values(
        |n: SectionNote| note_text(n),
    ));
}

pub struct DiffEngine;

impl DiffEngine {
    /// The structural differences between two analyses: the section notes of
    /// `section_notes` and the symbol notes of `symbol_notes`, as text.
    pub fn compare(res1: &AnalysisResult, res2: &AnalysisResult) -> (r: DiffResult)
        ensures
            texts(r.section_diffs@) == section_notes(res1.sections@, res2.sections@).map_values(
                |n: SectionNote| note_text(n),
            ),
            texts(r.symbol_diffs@) == symbol_notes(res1.symbols@, res2.symbols@),
    {
        let a = &res1.sections;
        let b = &res2.sections;
        let mut section_diffs: Vec<String> = Vec::new();
        if a.len() != b.len() {
            section_diffs.push(count_mismatch_text(a.len(), b.len()));
        }
        let ghost head = texts(section_diffs@);
        let m = if a.len() <= b.len() {
            a.len()
        } else {
            b.len()
        };
        let mut i: usize = 0;
        while i < m
            invariant
                i <= m,
                m <= a@.len(),
                m <= b@.len(),
                texts(section_diffs@) == head + zip_notes(a@, b@, i as int).map_values(
                    |n: SectionNote| note_text(n),
                ),
            decreases m - i,
        {
            push_pair_notes(&mut section_diffs, &a[i], &b[i]);
            i = i + 1;
            assert(zip_notes(a@, b@, i as int).map_values(|n: SectionNote| note_text(n))
                =~= zip_notes(a@, b@, i - 1).map_values(|n: SectionNote| note_text(n))
                + pair_notes(a@[i - 1], b@[i - 1]).map_values(|n: SectionNote| note_text(n)));
        }
        assert(texts(section_diffs@) =~= section_notes(a@, b@).map_values(
            |n: SectionNote| note_text(n),
        ));
        let mut symbol_diffs: Vec<String> = Vec::new();
        assert(texts(symbol_diffs@) =~= Seq::<Seq<char>>::empty());
        push_missing(&mut symbol_diffs, &res1.symbols, &res2.symbols, "Symbol removed: ");
        push_missing(&mut symbol_diffs, &res2.symbols, &res1.symbols, "Symbol added: ");
        assert(texts(symbol_diffs@) =~= symbol_notes(res1.symbols@, res2.symbols@));
        DiffResult { section_diffs, symbol_diffs }
    }
}

proof fn lemma_zip_notes_self(a: Seq<SectionInfo>, n: int)
    requires
        n <= a.len(),
    ensures
        zip_notes(a, a, n) == Seq::<SectionNote>::empty(),
    decreases n,
{
    if n > 0 {
        lemma_zip_notes_self(a, n - 1);
        assert(pair_notes(a[n - 1], a[n - 1]) =~= Seq::<SectionNote>::empty());
        assert(zip_notes(a, a, n) =~= Seq::<SectionNote>::empty());
    }
}

proof fn lemma_missing_notes_self(s: Seq<SymbolInfo>, prefix: Seq<char>, n: int)
    requires
        n <= s.len(),
    ensures
        missing_notes(s, symbol_names(s), prefix, n) == Seq::<Seq<char>>::empty(),
    decreases n,
{
    if n > 0 {
        lemma_missing_notes_self(s, prefix, n - 1);
        assert(symbol_names(s)[n - 1] == s[n - 1].name@);
        assert(symbol_names(s).contains(s[n - 1].name@));
    }
}

/// Comparing an analysis with itself yields no section note and no symbol
/// note.
pub proof fn lemma_compare_identical(a: AnalysisResult)
    ensures
        section_notes(a.sections@, a.sections@) == Seq::<SectionNote>::empty(),
        symbol_notes(a.symbols@, a.symbols@) == Seq::<Seq<char>>::empty(),
{
    lemma_zip_notes_self(a.sections@, a.sections@.len() as int);
    assert(section_notes(a.sections@, a.sections@) =~= Seq::<SectionNote>::empty());
    lemma_missing_notes_self(a.symbols@, "Symbol removed: "@, a.symbols@.len() as int);
    lemma_missing_notes_self(a.symbols@, "Symbol added: "@, a.symbols@.len() as int);
    assert(symbol_notes(a.symbols@, a.symbols@) =~= Seq::<Seq<char>>::empty());
}

proof fn lemma_zip_notes_no_count(a: Seq<SectionInfo>, b: Seq<SectionInfo>, n: int)
    ensures
        forall|i: int|
            0 <= i < zip_notes(a, b, n).len() ==> !(#[trigger] zip_notes(a, b, n)[i] is CountMismatch),
    decreases n,
{
    if n > 0 {
        lemma_zip_notes_no_count(a, b, n - 1);
        let prev = zip_notes(a, b, n - 1);
        let p = pair_notes(a[n - 1], b[n - 1]);
        assert forall|i: int| 0 <= i < p.len() implies !(#[trigger] p[i] is CountMismatch) by {}
        assert forall|i: int| 0 <= i < zip_notes(a, b, n).len() implies !(
        #[trigger] zip_notes(a, b, n)[i] is CountMismatch) by {
            if i < prev.len() {
                assert(zip_notes(a, b, n)[i] == prev[i]);
            } else {
                assert(zip_notes(a, b, n)[i] == p[i - prev.len()]);
            }
        }
    }
}

/// Whatever the paired sections hold, the section notes carry one count
/// mismatch, first, when the section counts differ, and none otherwise.
pub proof fn lemma_one_count_mismatch(a: Seq<SectionInfo>, b: Seq<SectionInfo>)
    ensures
        a.len() != b.len() ==> section_notes(a, b).len() > 0 && section_notes(a, b)[0]
            == SectionNote::CountMismatch(a.len(), b.len()),
        forall|i: int|
            0 <= i < section_notes(a, b).len() ==> ((#[trigger] section_notes(a, b)[i] is CountMismatch)
                <==> (i == 0 && a.len() != b.len())),
{
    let m = if a.len() <= b.len() {
        a.len()
    } else {
        b.len()
    };
    let z = zip_notes(a, b, m as int);
    lemma_zip_notes_no_count(a, b, m as int);
    if a.len() != b.len() {
        assert forall|i: int| 1 <= i < section_notes(a, b).len() implies #[trigger] section_notes(
            a,
            b,
        )[i] == z[i - 1] by {}
    } else {
        assert(section_notes(a, b) =~= z);
    }
}

} // verus!
