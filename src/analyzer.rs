//! The analysis pipeline: sections and symbols ordered by address, entropy
//! findings and NOP-sled findings in a fixed order, and pattern search over
//! the whole file.
use crate::entropy::HIGH_ENTROPY_THRESHOLD;
use crate::error::UnifyError;
use crate::pattern::{find_pattern, hex_decoded, match_offsets, parse_hex, valid_hex};
use crate::scanner::{
    detect_suspicious_sequences, lists_runs, nop_sleds, sled_message, MIN_NOP_RUN, NOP,
};
use crate::sort::{sort_by_address, stable_sorted, Addressed};
use crate::text::{fixed2_of, push_fixed2};
use vstd::prelude::*;
use vstd::string::StringSliceAdditionalSpecFns;

verus! {

/// How sure a finding is.
#[derive(Clone, Copy, Debug, PartialEq, Eq, Structural)]
pub enum Confidence {
    Low,
    Medium,
    High,
}

/// One heuristic detection: a stable taxonomy id, a message, a confidence
/// and, where it has one, the offset it concerns.
#[derive(Clone, Debug)]
pub struct Finding {
    pub id: String,
    pub message: String,
    pub confidence: Confidence,
    pub offset: Option<u64>,
}

/// A named, address-ranged region of the binary. `entropy` is the Shannon
/// entropy of its bytes in millionths of a bit per byte (see
/// `crate::entropy::ENTROPY_SCALE`).
#[derive(Debug)]
pub struct SectionInfo {
    pub name: String,
    pub address: u64,
    pub size: u64,
    pub entropy: u64,
}

/// A named address of the binary's symbol table, with its kind.
#[derive(Debug)]
pub struct SymbolInfo {
    pub name: String,
    pub address: u64,
    pub kind: String,
}

/// The outcome of one analysis.
#[derive(Debug)]
pub struct AnalysisResult {
    pub format: String,
    pub architecture: String,
    pub entry_point: u64,
    pub sections: Vec<SectionInfo>,
    pub symbols: Vec<SymbolInfo>,
    pub findings: Vec<Finding>,
}

/// What a binary-format parser hands over: the classification, the entry
/// point, sections and symbols in the parser's own order, each section's
/// entropy already scored, and the raw bytes of the whole file.
#[derive(Debug)]
pub struct BinaryView {
    pub format: String,
    pub architecture: String,
    pub entry_point: u64,
    pub sections: Vec<SectionInfo>,
    pub symbols: Vec<SymbolInfo>,
    pub data: Vec<u8>,
}

impl Addressed for SectionInfo {
    open spec fn addr_of(&self) -> u64 {
        self.address
    }

    fn address_key(&self) -> (r: u64) {
        self.address
    }
}

impl Addressed for SymbolInfo {
    open spec fn addr_of(&self) -> u64 {
        self.address
    }

    fn address_key(&self) -> (r: u64) {
        self.address
    }
}

impl SectionInfo {
    /// A field-by-field copy.
    pub fn duplicate(&self) -> (r: Self)
        ensures
            r == *self,
    {
        SectionInfo {
            name: self.name.clone(),
            address: self.address,
            size: self.size,
            entropy: self.entropy,
        }
    }
}

impl SymbolInfo {
    /// A field-by-field copy.
    pub fn duplicate(&self) -> (r: Self)
        ensures
            r == *self,
    {
        SymbolInfo { name: self.name.clone(), address: self.address, kind: self.kind.clone() }
    }
}

/// A copy of each section, in order.
fn copy_sections(v: &Vec<SectionInfo>) -> (r: Vec<SectionInfo>)
    ensures
        r@ == v@,
{
    let mut r: Vec<SectionInfo> = Vec::new();
    let mut i: usize = 0;
    while i < v.len()
        invariant
            i <= v@.len(),
            r@ == v@.take(i as int),
        decreases v.len() - i,
    {
        r.push(v[i].duplicate());
        i = i + 1;
        assert(r@ =~= v@.take(i as int));
    }
    assert(v@.take(v@.len() as int) =~= v@);
    r
}

/// A copy of each symbol, in order.
fn copy_symbols(v: &Vec<SymbolInfo>) -> (r: Vec<SymbolInfo>)
    ensures
        r@ == v@,
{
    let mut r: Vec<SymbolInfo> = Vec::new();
    let mut i: usize = 0;
    while i < v.len()
        invariant
            i <= v@.len(),
            r@ == v@.take(i as int),
        decreases v.len() - i,
    {
        r.push(v[i].duplicate());
        i = i + 1;
        assert(r@ =~= v@.take(i as int));
    }
    assert(v@.take(v@.len() as int) =~= v@);
    r
}

/// The message of a high-entropy finding on section `name`.
pub open spec fn high_entropy_message(name: Seq<char>, entropy: u64) -> Seq<char> {
    "Section "@ + name + " has high entropy ("@ + fixed2_of(entropy as nat)
        + ") - potentially packed or encrypted."@
}

/// The sections of `s` whose entropy is above the threshold, in order.
pub open spec fn high_entropy_sections(s: Seq<SectionInfo>) -> Seq<SectionInfo>
    decreases s.len(),
{
    if s.len() == 0 {
        s
    } else if s.last().entropy > HIGH_ENTROPY_THRESHOLD {
        high_entropy_sections(s.drop_last()).push(s.last())
    } else {
        high_entropy_sections(s.drop_last())
    }
}

/// `f` is the high-entropy finding on section `s`.
pub open spec fn is_entropy_finding(f: Finding, s: SectionInfo) -> bool {
    &&& f.id@ == "HIGH_ENTROPY"@
    &&& f.message@ == high_entropy_message(s.name@, s.entropy)
    &&& f.confidence == Confidence::High
    &&& f.offset == Some(s.address)
}

/// `f` is the finding on the NOP sled `run` (start, length).
pub open spec fn is_sled_finding(f: Finding, run: (usize, usize)) -> bool {
    &&& f.id@ == "SUSPICIOUS_SEQ"@
    &&& f.message@ == sled_message(run.1 as nat)
    &&& f.confidence == Confidence::Medium
    &&& f.offset == Some(run.0 as u64)
}

/// `f` is the finding list for the ordered sections `secs` and the whole file
/// `data`: one high-entropy finding per section above the threshold, in
/// section order, then one finding per NOP sled, in scan order.
pub open spec fn findings_for(secs: Seq<SectionInfo>, data: Seq<u8>, f: Seq<Finding>) -> bool {
    let hi = high_entropy_sections(secs);
    let runs = nop_sleds(data);
    &&& f.len() == hi.len() + runs.len()
    &&& forall|i: int| 0 <= i < hi.len() ==> is_entropy_finding(#[trigger] f[i], hi[i])
    &&& forall|k: int| 0 <= k < runs.len() ==> is_sled_finding(#[trigger] f[hi.len() + k], runs[k])
}

/// The high-entropy findings for `secs`, in section order.
fn entropy_findings(secs: &Vec<SectionInfo>) -> (r: Vec<Finding>)
    ensures
        r@.len() == high_entropy_sections(secs@).len(),
        forall|i: int|
            0 <= i < r@.len() ==> is_entropy_finding(#[trigger] r@[i], high_entropy_sections(secs@)[i]),
{
    let mut r: Vec<Finding> = Vec::new();
    let mut i: usize = 0;
    while i < secs.len()
        invariant
            i <= secs@.len(),
            r@.len() == high_entropy_sections(secs@.take(i as int)).len(),
            forall|j: int|
                0 <= j < r@.len() ==> is_entropy_finding(
                    #[trigger] r@[j],
                    high_entropy_sections(secs@.take(i as int))[j],
                ),
        decreases secs.len() - i,
    {
        let s = &secs[i];
        assert(secs@.take(i + 1).drop_last() =~= secs@.take(i as int));
        if s.entropy > HIGH_ENTROPY_THRESHOLD {
            let mut msg = String::from_str("Section ");
            msg.append(s.name.as_str());
            msg.append(" has high entropy (");
            push_fixed2(&mut msg, s.entropy);
            msg.append(") - potentially packed or encrypted.");
            r.push(
                Finding {
                    id: String::from_str("HIGH_ENTROPY"),
                    message: msg,
                    confidence: Confidence::High,
                    offset: Some(s.address),
                },
            );
        }
        i = i + 1;
    }
    assert(secs@.take(secs@.len() as int) =~= secs@);
    r
}

/// Runs the analysis pipeline over a binary's structural view.
pub struct Analyzer {
    pub binary: BinaryView,
}

impl Analyzer {
    pub fn new(binary: BinaryView) -> (r: Self)
        ensures
            r.binary == binary,
    {
        Analyzer { binary }
    }

    /// The analysis of the binary: its classification and entry point as
    /// given, sections and symbols stably sorted by address, and the findings
    /// that `findings_for` describes over the sorted sections and the whole
    /// file.
    pub fn analyze(&self) -> (r: AnalysisResult)
        ensures
            r.format == self.binary.format,
            r.architecture == self.binary.architecture,
            r.entry_point == self.binary.entry_point,
            r.sections@ == stable_sorted(self.binary.sections@),
            r.symbols@ == stable_sorted(self.binary.symbols@),
            findings_for(r.sections@, self.binary.data@, r.findings@),
            lists_runs(self.binary.data@, NOP, MIN_NOP_RUN as int, nop_sleds(self.binary.data@)),
    {
        let sections = sort_by_address(copy_sections(&self.binary.sections));
        let symbols = sort_by_address(copy_symbols(&self.binary.symbols));
        let mut findings = entropy_findings(&sections);
        let ghost hi = high_entropy_sections(sections@);
        let ghost f0 = findings@;
        let sleds = detect_suspicious_sequences(self.binary.data.as_slice());
        let ghost runs = nop_sleds(self.binary.data@);
        let mut k: usize = 0;
        while k < sleds.len()
            invariant
                k <= sleds@.len(),
                sleds@.len() == runs.len(),
                forall|j: int|
                    0 <= j < runs.len() ==> (#[trigger] sleds@[j]).0 == runs[j].0 && sleds@[j].1@
                        == sled_message(runs[j].1 as nat),
                findings@.len() == hi.len() + k,
                forall|i: int| 0 <= i < hi.len() ==> #[trigger] findings@[i] == f0[i],
                f0.len() == hi.len(),
                forall|i: int| 0 <= i < hi.len() ==> is_entropy_finding(#[trigger] f0[i], hi[i]),
                forall|j: int|
                    0 <= j < k ==> is_sled_finding(#[trigger] findings@[hi.len() + j], runs[j]),
            decreases sleds.len() - k,
        {
            let offset = sleds[k].0;
            let message = sleds[k].1.clone();
            findings.push(
                Finding {
                    id: String::from_str("SUSPICIOUS_SEQ"),
                    message,
                    confidence: Confidence::Medium,
                    offset: Some(offset as u64),
                },
            );
            k = k + 1;
        }
        assert(findings_for(sections@, self.binary.data@, findings@)) by {
            assert forall|i: int| 0 <= i < hi.len() implies is_entropy_finding(
                #[trigger] findings@[i],
                hi[i],
            ) by {
                assert(findings@[i] == f0[i]);
            }
        }
        AnalysisResult {
            format: self.binary.format.clone(),
            architecture: self.binary.architecture.clone(),
            entry_point: self.binary.entry_point,
            sections,
            symbols,
            findings,
        }
    }

    /// Every offset of the whole file at which the pattern written in hex
    /// occurs, ascending, overlapping matches included; an
    /// `InvalidArgument` error exactly when the text is not an even number of
    /// hex digits, whose message is "Invalid hex pattern: " followed by the
    /// decoder's reason.
    pub fn scan_patterns(&self, hex_pattern: &str) -> (r: Result<Vec<u64>, UnifyError>)
        ensures
            r is Ok <==> valid_hex(hex_pattern.spec_bytes()),
            r matches Ok(v) ==> v@ == match_offsets(
                self.binary.data@,
                hex_decoded(hex_pattern.spec_bytes()),
            ),
            r matches Err(e) ==> e is InvalidArgument,
            r matches Err(UnifyError::InvalidArgument(m)) ==> m@ == "Invalid hex pattern: "@ + m@.skip(
                "Invalid hex pattern: "@.len() as int,
            ),
    {
        match parse_hex(hex_pattern) {
            Ok(pattern) => Ok(find_pattern(self.binary.data.as_slice(), pattern.as_slice())),
            Err(e) => {
                let mut msg = String::from_str("Invalid hex pattern: ");
                let reason = e.to_string();
                msg.append(reason.as_str());
                assert(msg@.skip("Invalid hex pattern: "@.len() as int) =~= reason@);
                Err(UnifyError::InvalidArgument(msg))
            },
        }
    }
}

} // verus!
