//! The fixed catalog that explains each finding id in words.
use vstd::prelude::*;

verus! {

/// What a finding means, how it is detected and how much it matters.
#[derive(Debug)]
pub struct Explanation {
    pub title: String,
    pub description: String,
    pub detection_method: String,
    pub risk_level: String,
}

/// The four texts of an explanation: title, description, detection method,
/// risk level.
pub open spec fn explanation_texts(e: Explanation) -> (Seq<char>, Seq<char>, Seq<char>, Seq<char>) {
    (e.title@, e.description@, e.detection_method@, e.risk_level@)
}

/// The catalog: the texts explaining the finding id `id`, if it has any.
pub open spec fn catalog_entry(id: Seq<char>) -> Option<(Seq<char>, Seq<char>, Seq<char>, Seq<char>)> {
    if id == "HIGH_ENTROPY"@ {
        Some(
            (
                "High Entropy Section Detected"@,
                "This section has a high Shannon entropy value (above 7.0). Entropy is a measure of randomness in data. High entropy is typical for encrypted or compressed data, which is often used by malware packers to hide their actual code."@,
                "Calculated using the Shannon entropy formula on the raw byte content of the section."@,
                "High - Possible packed or obfuscated code."@,
            ),
        )
    } else if id == "SUSPICIOUS_SEQ"@ {
        Some(
            (
                "Suspicious Instruction Sequence"@,
                "A sequence of instructions commonly associated with shellcode or exploitation attempts (e.g., long NOP sleds) was detected."@,
                "Pattern scanning for known-bad or highly unusual opcode sequences."@,
                "Medium - Could be legitimate padding or part of a shellcode payload."@,
            ),
        )
    } else {
        None
    }
}

/// The catalog of explanations, built once and read thereafter.
pub struct ExplanationEngine {
    kb: Vec<(String, Explanation)>,
}

impl ExplanationEngine {
    /// Each entry holds a known id with its catalog texts.
    pub closed spec fn wf(&self) -> bool {
        &&& self.kb@.len() == 2
        &&& self.kb@[0].0@ == "HIGH_ENTROPY"@
        &&& self.kb@[1].0@ == "SUSPICIOUS_SEQ"@
        &&& forall|i: int|
            0 <= i < 2 ==> catalog_entry(self.kb@[i].0@) == Some(
                explanation_texts(#[trigger] self.kb@[i].1),
            )
    }

    pub fn new() -> (r: Self)
        ensures
            r.wf(),
    {
        proof {
            reveal_strlit("HIGH_ENTROPY");
            reveal_strlit("SUSPICIOUS_SEQ");
        }
        let mut kb: Vec<(String, Explanation)> = Vec::new();
        kb.push(
            (
                String::from_str("HIGH_ENTROPY"),
                Explanation {
                    title: String::from_str("High Entropy Section Detected"),
                    description: String::from_str(
                        "This section has a high Shannon entropy value (above 7.0). Entropy is a measure of randomness in data. High entropy is typical for encrypted or compressed data, which is often used by malware packers to hide their actual code.",
                    ),
                    detection_method: String::from_str(
                        "Calculated using the Shannon entropy formula on the raw byte content of the section.",
                    ),
                    risk_level: String::from_str("High - Possible packed or obfuscated code."),
                },
            ),
        );
        kb.push(
            (
                String::from_str("SUSPICIOUS_SEQ"),
                Explanation {
                    title: String::from_str("Suspicious Instruction Sequence"),
                    description: String::from_str(
                        "A sequence of instructions commonly associated with shellcode or exploitation attempts (e.g., long NOP sleds) was detected.",
                    ),
                    detection_method: String::from_str(
                        "Pattern scanning for known-bad or highly unusual opcode sequences.",
                    ),
                    risk_level: String::from_str(
                        "Medium - Could be legitimate padding or part of a shellcode payload.",
                    ),
                },
            ),
        );
        assert("SUSPICIOUS_SEQ"@ != "HIGH_ENTROPY"@) by {
            assert("SUSPICIOUS_SEQ"@.len() != "HIGH_ENTROPY"@.len());
        }
        assert(catalog_entry(kb@[0].0@) == Some(explanation_texts(kb@[0].1)));
        assert(catalog_entry(kb@[1].0@) == Some(explanation_texts(kb@[1].1)));
        ExplanationEngine { kb }
    }

    /// The explanation of the finding id `id`; `None` for an id the catalog
    /// does not know.
    pub fn explain(&self, id: &str) -> (r: Option<&Explanation>)
        requires
            self.wf(),
        ensures
            match r {
                Some(e) => catalog_entry(id@) == Some(explanation_texts(*e)),
                None => catalog_entry(id@) is None,
            },
    {
        proof {
            reveal_strlit("HIGH_ENTROPY");
            reveal_strlit("SUSPICIOUS_SEQ");
        }
        let key = String::from_str(id);
        let mut i: usize = 0;
        while i < self.kb.len()
            invariant
                self.wf(),
                key@ == id@,
                i <= 2,
                forall|j: int| 0 <= j < i ==> self.kb@[j].0@ != id@,
            decreases 2 - i,
        {
            if self.kb[i].0 == key {
                return Some(&self.kb[i].1);
            }
            i = i + 1;
        }
        None
    }
}

} // verus!
