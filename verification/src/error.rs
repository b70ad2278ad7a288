//! Errors of the library, and the JSON text that reports a failed step.

use vstd::prelude::*;

verus! {

/// Why collecting the network state failed.
#[derive(Debug)]
pub enum AppError {
    Failed(String),
    ZBusError(zbus::Error),
    NmError(&'static str),
    Serialize(serde_json::Error),
}

/// The JSON object `{"error":"<stage> failed: <detail>"}` that reports a failed step.
pub open spec fn error_report(stage: Seq<char>, detail: Seq<char>) -> Seq<char> {
    "{\"error\":\""@ + stage + " failed: "@ + detail + "\"}"@
}

/// Builds the JSON object `{"error":"<stage> failed: <detail>"}`.
pub fn error_json(stage: &str, detail: &str) -> (report: String)
    ensures
        report@ == error_report(stage@, detail@),
{
    let mut report = String::from_str("{\"error\":\"");
    report.append(stage);
    report.append(" failed: ");
    report.append(detail);
    report.append("\"}");
    report
}

} // verus!

verus! {

/// The report of a failed step is, character for character,
/// `{"error":"` then the stage, ` failed: `, the detail, and `"}`.
pub proof fn lemma_error_report_text(stage: Seq<char>, detail: Seq<char>)
    ensures
        error_report(stage, detail) == seq!['{', '"', 'e', 'r', 'r', 'o', 'r', '"', ':', '"'] + stage + seq![
            ' ',
            'f',
            'a',
            'i',
            'l',
            'e',
            'd',
            ':',
            ' ',
        ] + detail + seq!['"', '}'],
{
    reveal_strlit("{\"error\":\"");
    reveal_strlit(" failed: ");
    reveal_strlit("\"}");
    assert("{\"error\":\""@ =~= seq!['{', '"', 'e', 'r', 'r', 'o', 'r', '"', ':', '"']);
    assert(" failed: "@ =~= seq![' ', 'f', 'a', 'i', 'l', 'e', 'd', ':', ' ']);
    assert("\"}"@ =~= seq!['"', '}']);
}

} // verus!
