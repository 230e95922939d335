//! The HTML rendering of an analysis.
use crate::analyzer::{AnalysisResult, Finding, SectionInfo};
use crate::entropy::HIGH_ENTROPY_THRESHOLD;
use crate::text::{fixed2_of, hex_of, push_fixed2, push_hex};
use vstd::prelude::*;

verus! {

/// The document head with its style sheet, up to the page title.
pub open spec fn html_head() -> Seq<char> {
    "<!DOCTYPE html>\n<html lang=\"en\">\n<head>\n<meta charset=\"UTF-8\">\n<meta name=\"viewport\" content=\"width=device-width, initial-scale=1.0\">\n<title>UnifyRE Analysis Report</title>\n<style>\nbody { font-family: 'Inter', system-ui, -apple-system, sans-serif; background-color: #0f172a; color: #e2e8f0; margin: 0; padding: 2rem; }\n.container { max-width: 1200px; margin: 0 auto; }\nh1 { color: #38bdf8; border-bottom: 2px solid #334155; padding-bottom: 0.5rem; }\nh2 { color: #7dd3fc; margin-top: 2rem; }\n.card { background: #1e293b; border-radius: 0.5rem; padding: 1.5rem; margin-bottom: 1rem; border: 1px solid #334155; }\ntable { width: 100%; border-collapse: collapse; margin-top: 1rem; }\nth, td { padding: 0.75rem; text-align: left; border-bottom: 1px solid #334155; }\nth { color: #94a3b8; font-weight: 600; }\n.finding { color: #f87171; background: #450a0a; padding: 0.5rem; border-radius: 0.25rem; margin-bottom: 0.5rem; border-left: 4px solid #ef4444; }\n.high-entropy { color: #fbbf24; }\n</style>\n</head>\n<body>\n<div class=\"container\">\n<h1>UnifyRE Analysis Report</h1>\n"@
}

/// The overview card: format, architecture and entry point.
pub open spec fn html_overview(r: AnalysisResult) -> Seq<char> {
    "<div class=\"card\">\n<h2>Overview</h2>\n<table>\n<tr><th>Format</th><td>"@ + r.format@
        + "</td></tr>\n<tr><th>Architecture</th><td>"@ + r.architecture@
        + "</td></tr>\n<tr><th>Entry Point</th><td>0x"@ + hex_of(r.entry_point as nat)
        + "</td></tr>\n</table>\n</div>\n"@
}

/// The block of one finding.
pub open spec fn html_finding(f: Finding) -> Seq<char> {
    "<div class=\"finding\"><strong>(!)</strong> "@ + f.message@ + "</div>\n"@
}

/// The blocks of the first `n` findings of `f`.
pub open spec fn html_finding_list(f: Seq<Finding>, n: int) -> Seq<char>
    decreases n,
{
    if n <= 0 {
        Seq::empty()
    } else {
        html_finding_list(f, n - 1) + html_finding(f[n - 1])
    }
}

/// The findings part: nothing when there are none.
pub open spec fn html_findings(f: Seq<Finding>) -> Seq<char> {
    if f.len() == 0 {
        Seq::empty()
    } else {
        "<h2>Suspicious Findings</h2>\n"@ + html_finding_list(f, f.len() as int)
    }
}

/// The table row of one section; its entropy cell is marked when the
/// entropy is above the threshold.
pub open spec fn html_section_row(s: SectionInfo) -> Seq<char> {
    "<tr><td>"@ + s.name@ + "</td><td>0x"@ + hex_of(s.address as nat) + "</td><td>0x"@ + hex_of(
        s.size as nat,
    ) + "</td><td class=\""@ + (if s.entropy > HIGH_ENTROPY_THRESHOLD {
        "high-entropy"@
    } else {
        Seq::empty()
    }) + "\">"@ + fixed2_of(s.entropy as nat) + "</td></tr>\n"@
}

/// The rows of the first `n` sections of `s`.
pub open spec fn html_section_rows(s: Seq<SectionInfo>, n: int) -> Seq<char>
    decreases n,
{
    if n <= 0 {
        Seq::empty()
    } else {
        html_section_rows(s, n - 1) + html_section_row(s[n - 1])
    }
}

/// The whole report page for `r`.
pub open spec fn html_of(r: AnalysisResult) -> Seq<char> {
    html_head() + html_overview(r) + html_findings(r.findings@)
        + "<h2>Sections</h2>\n<div class=\"card\">\n<table>\n<tr><th>Name</th><th>Address</th><th>Size</th><th>Entropy</th></tr>\n"@
        + html_section_rows(r.sections@, r.sections@.len() as int)
        + "</table>\n</div>\n</div>\n</body>\n</html>"@
}

/// Appends the row of section `s` to `out`.
fn push_section_row(out: &mut String, s: &SectionInfo)
    ensures
        final(out)@ == old(out)@ + html_section_row(*s),
{
    let ghost start = out@;
    out.append("<tr><td>");
    out.append(s.name.as_str());
    out.append("</td><td>0x");
    push_hex(out, s.address);
    out.append("</td><td>0x");
    push_hex(out, s.size);
    out.append("</td><td class=\"");
    let ghost before_class = out@;
    if s.entropy > HIGH_ENTROPY_THRESHOLD {
        out.append("high-entropy");
    }
    assert(out@ =~= before_class + (if s.entropy > HIGH_ENTROPY_THRESHOLD {
        "high-entropy"@
    } else {
        Seq::empty()
    }));
    out.append("\">");
    push_fixed2(out, s.entropy);
    out.append("</td></tr>\n");
    assert(out@ =~= start + html_section_row(*s));
}

/// The HTML report page for an analysis: overview, findings (when there are
/// any) and the section table.
pub fn render_html(r: &AnalysisResult) -> (html: String)
    ensures
        html@ == html_of(*r),
{
    let mut html = String::from_str(
        "<!DOCTYPE html>\n<html lang=\"en\">\n<head>\n<meta charset=\"UTF-8\">\n<meta name=\"viewport\" content=\"width=device-width, initial-scale=1.0\">\n<title>UnifyRE Analysis Report</title>\n<style>\nbody { font-family: 'Inter', system-ui, -apple-system, sans-serif; background-color: #0f172a; color: #e2e8f0; margin: 0; padding: 2rem; }\n.container { max-width: 1200px; margin: 0 auto; }\nh1 { color: #38bdf8; border-bottom: 2px solid #334155; padding-bottom: 0.5rem; }\nh2 { color: #7dd3fc; margin-top: 2rem; }\n.card { background: #1e293b; border-radius: 0.5rem; padding: 1.5rem; margin-bottom: 1rem; border: 1px solid #334155; }\ntable { width: 100%; border-collapse: collapse; margin-top: 1rem; }\nth, td { padding: 0.75rem; text-align: left; border-bottom: 1px solid #334155; }\nth { color: #94a3b8; font-weight: 600; }\n.finding { color: #f87171; background: #450a0a; padding: 0.5rem; border-radius: 0.25rem; margin-bottom: 0.5rem; border-left: 4px solid #ef4444; }\n.high-entropy { color: #fbbf24; }\n</style>\n</head>\n<body>\n<div class=\"container\">\n<h1>UnifyRE Analysis Report</h1>\n",
    );
    html.append("<div class=\"card\">\n<h2>Overview</h2>\n<table>\n<tr><th>Format</th><td>");
    html.append(r.format.as_str());
    html.append("</td></tr>\n<tr><th>Architecture</th><td>");
    html.append(r.architecture.as_str());
    html.append("</td></tr>\n<tr><th>Entry Point</th><td>0x");
    push_hex(&mut html, r.entry_point);
    html.append("</td></tr>\n</table>\n</div>\n");
    assert(html@ =~= html_head() + html_overview(*r));
    let ghost upto_overview = html@;
    let f = &r.findings;
    if f.len() > 0 {
        html.append("<h2>Suspicious Findings</h2>\n");
        let ghost upto_title = html@;
        let mut i: usize = 0;
        while i < f.len()
            invariant
                i <= f@.len(),
                html@ == upto_title + html_finding_list(f@, i as int),
            decreases f.len() - i,
        {
            html.append("<div class=\"finding\"><strong>(!)</strong> ");
            html.append(f[i].message.as_str());
            html.append("</div>\n");
            i = i + 1;
            assert(html@ =~= upto_title + html_finding_list(f@, i as int));
        }
    }
    assert(html@ =~= upto_overview + html_findings(f@));
    html.append(
        "<h2>Sections</h2>\n<div class=\"card\">\n<table>\n<tr><th>Name</th><th>Address</th><th>Size</th><th>Entropy</th></tr>\n",
    );
    let ghost upto_table = html@;
    let s = &r.sections;
    let mut j: usize = 0;
    while j < s.len()
        invariant
            j <= s@.len(),
            html@ == upto_table + html_section_rows(s@, j as int),
        decreases s.len() - j,
    {
        push_section_row(&mut html, &s[j]);
        j = j + 1;
        assert(html@ =~= upto_table + html_section_rows(s@, j as int));
    }
    html.append("</table>\n</div>\n</div>\n</body>\n</html>");
    assert(html@ =~= html_of(*r));
    html
}

} // verus!
