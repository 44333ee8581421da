//! What to make of the status the driver reports after it compiled a shader
//! stage or linked a program.
//!
//! A failure is never fatal here. It yields a text for the console, and the
//! program goes on with whatever handle the driver gave it.

use vstd::prelude::*;
use vstd::utf8::encode_utf8;

verus! {

/// The status value with which the driver reports success.
pub const STATUS_OK: i32 = 1;

/// The thing whose status is asked for.
#[derive(Clone, Copy, Debug, PartialEq, Eq, Structural)]
pub enum Stage {
    /// The vertex shader.
    Vertex,
    /// The fragment shader.
    Fragment,
    /// The geometry shader.
    Geometry,
    /// The program that the shaders are linked into.
    Program,
}

/// Which of the driver's two status questions applies.
#[derive(Clone, Copy, Debug, PartialEq, Eq, Structural)]
pub enum Query {
    /// Did the shader compile?
    CompileStatus,
    /// Did the program link?
    LinkStatus,
}

impl Stage {
    /// The name of the stage as the reports print it.
    pub open spec fn label_text(self) -> Seq<char> {
        match self {
            Stage::Vertex => "VERTEX"@,
            Stage::Fragment => "FRAGMENT"@,
            Stage::Geometry => "GEOMETRY"@,
            Stage::Program => "PROGRAM"@,
        }
    }

    /// The question to ask the driver about this stage: the link status of
    /// the program, the compile status of anything else.
    pub open spec fn query_for(self) -> Query {
        if self == Stage::Program {
            Query::LinkStatus
        } else {
            Query::CompileStatus
        }
    }

    /// The name of the stage as the reports print it.
    pub fn label(self) -> (name: &'static str)
        ensures
            name@ == self.label_text(),
    {
        match self {
            Stage::Vertex => "VERTEX",
            Stage::Fragment => "FRAGMENT",
            Stage::Geometry => "GEOMETRY",
            Stage::Program => "PROGRAM",
        }
    }

    /// The question to ask the driver about this stage.
    pub fn query(self) -> (q: Query)
        ensures
            q == self.query_for(),
    {
        match self {
            Stage::Program => Query::LinkStatus,
            _ => Query::CompileStatus,
        }
    }
}

/// The words a report opens with: what failed.
pub open spec fn headline_text(stage: Stage) -> Seq<char> {
    if stage == Stage::Program {
        "ERROR::PROGRAM_LINKING_ERROR of type: "@
    } else {
        "ERROR::SHADER_COMPILATION_ERROR of type: "@
    }
}

/// The rule a report closes with.
pub open spec fn rule_text() -> Seq<char> {
    "\n -- --------------------------------------------------- -- "@
}

/// The report on a failed `stage` whose driver log reads `log`: a headline
/// that says what failed and names the stage, the log on a line of its own,
/// and a rule to close it off.
pub open spec fn failure_text(stage: Stage, log: Seq<char>) -> Seq<char> {
    headline_text(stage) + stage.label_text() + "\n"@ + log + rule_text()
}

/// The same report as bytes, around a log of any bytes: the words of the
/// report in UTF-8, and the log between them byte for byte.
pub open spec fn failure_bytes(stage: Stage, log: Seq<u8>) -> Seq<u8> {
    encode_utf8(headline_text(stage)) + encode_utf8(stage.label_text()) + encode_utf8("\n"@) + log
        + encode_utf8(rule_text())
}

/// The short report on a failed `stage`: one headline that names the stage,
/// then the driver log.
pub open spec fn brief_failure_text(stage: Stage, log: Seq<char>) -> Seq<char> {
    "ERROR::SHADER::"@ + stage.label_text() + "::COMPILATION_FAILED\n"@ + log
}

/// The short report as bytes, around a log of any bytes.
pub open spec fn brief_failure_bytes(stage: Stage, log: Seq<u8>) -> Seq<u8> {
    encode_utf8("ERROR::SHADER::"@) + encode_utf8(stage.label_text()) + encode_utf8(
        "::COMPILATION_FAILED\n"@,
    ) + log
}

/// Puts `bytes` behind what `out` holds.
fn append_bytes(out: &mut Vec<u8>, bytes: &[u8])
    ensures
        final(out)@ == old(out)@ + bytes@,
{
    let mut i: usize = 0;
    while i < bytes.len()
        invariant
            i <= bytes@.len(),
            out@ == old(out)@ + bytes@.take(i as int),
        decreases bytes@.len() - i,
    {
        out.push(bytes[i]);
        i += 1;
        assert(out@ =~= old(out)@ + bytes@.take(i as int));
    }
    assert(bytes@.take(i as int) =~= bytes@);
}

/// Whether `status` reports a failure, so that the driver's log is worth
/// fetching: any value but the one for success.
pub fn failed(status: i32) -> (failure: bool)
    ensures
        failure <==> status != STATUS_OK,
{
    status != STATUS_OK
}

/// Looks at the `status` the driver gave for `stage`. Success yields
/// nothing. Anything else yields the report to print, built from the
/// driver's `log`.
pub fn failure_report(stage: Stage, status: i32, log: &str) -> (report: Option<String>)
    ensures
        status == STATUS_OK ==> report.is_none(),
        status != STATUS_OK ==> report.is_some() && report.unwrap()@ == failure_text(stage, log@),
{
    if status == STATUS_OK {
        return None;
    }
    let mut text = match stage {
        Stage::Program => String::from_str("ERROR::PROGRAM_LINKING_ERROR of type: "),
        _ => String::from_str("ERROR::SHADER_COMPILATION_ERROR of type: "),
    };
    text.append(stage.label());
    text.append("\n");
    text.append(log);
    text.append("\n -- --------------------------------------------------- -- ");
    Some(text)
}

/// As [`failure_report`], with the short wording.
pub fn brief_failure_report(stage: Stage, status: i32, log: &str) -> (report: Option<String>)
    ensures
        status == STATUS_OK ==> report.is_none(),
        status != STATUS_OK ==> report.is_some() && report.unwrap()@ == brief_failure_text(stage, log@),
{
    if status == STATUS_OK {
        return None;
    }
    let mut text = String::from_str("ERROR::SHADER::");
    text.append(stage.label());
    text.append("::COMPILATION_FAILED\n");
    text.append(log);
    Some(text)
}

/// As [`failure_report`], for the log as the driver wrote it: any bytes,
/// text or not. The report holds them as they are.
pub fn failure_report_bytes(stage: Stage, status: i32, log: &[u8]) -> (report: Option<Vec<u8>>)
    ensures
        status == STATUS_OK ==> report.is_none(),
        status != STATUS_OK ==> report.is_some() && report.unwrap()@ == failure_bytes(stage, log@),
{
    if status == STATUS_OK {
        return None;
    }
    let mut out: Vec<u8> = Vec::new();
    match stage {
        Stage::Program => append_bytes(&mut out, "ERROR::PROGRAM_LINKING_ERROR of type: ".as_bytes()),
        _ => append_bytes(&mut out, "ERROR::SHADER_COMPILATION_ERROR of type: ".as_bytes()),
    }
    append_bytes(&mut out, stage.label().as_bytes());
    append_bytes(&mut out, "\n".as_bytes());
    append_bytes(&mut out, log);
    append_bytes(&mut out, "\n -- --------------------------------------------------- -- ".as_bytes());
    assert(out@ =~= failure_bytes(stage, log@));
    Some(out)
}

/// As [`brief_failure_report`], for the log as the driver wrote it.
pub fn brief_failure_report_bytes(stage: Stage, status: i32, log: &[u8]) -> (report: Option<Vec<u8>>)
    ensures
        status == STATUS_OK ==> report.is_none(),
        status != STATUS_OK ==> report.is_some() && report.unwrap()@ == brief_failure_bytes(
            stage,
            log@,
        ),
{
    if status == STATUS_OK {
        return None;
    }
    let mut out: Vec<u8> = Vec::new();
    append_bytes(&mut out, "ERROR::SHADER::".as_bytes());
    append_bytes(&mut out, stage.label().as_bytes());
    append_bytes(&mut out, "::COMPILATION_FAILED\n".as_bytes());
    append_bytes(&mut out, log);
    assert(out@ =~= brief_failure_bytes(stage, log@));
    Some(out)
}

/// The bytes of two texts, one behind the other, are the bytes of the texts
/// joined.
pub proof fn lemma_encode_joined(first: Seq<char>, second: Seq<char>)
    ensures
        encode_utf8(first + second) == encode_utf8(first) + encode_utf8(second),
    decreases first.len(),
{
    if first.len() == 0 {
        assert(first + second =~= second);
        assert(encode_utf8(first) + encode_utf8(second) =~= encode_utf8(second));
    } else {
        lemma_encode_joined(first.drop_first(), second);
        assert((first + second).drop_first() =~= first.drop_first() + second);
        assert((first + second)[0] == first[0]);
        assert(encode_utf8(first + second) =~= encode_utf8(first) + encode_utf8(second));
    }
}

/// Where the driver's log is text, the report in bytes is the report in
/// text, in UTF-8.
pub proof fn lemma_bytes_of_text_report(stage: Stage, log: Seq<char>)
    ensures
        failure_bytes(stage, encode_utf8(log)) == encode_utf8(failure_text(stage, log)),
        brief_failure_bytes(stage, encode_utf8(log)) == encode_utf8(brief_failure_text(stage, log)),
{
    let head = headline_text(stage);
    let label = stage.label_text();
    lemma_encode_joined(head, label);
    lemma_encode_joined(head + label, "\n"@);
    lemma_encode_joined(head + label + "\n"@, log);
    lemma_encode_joined(head + label + "\n"@ + log, rule_text());
    let start = "ERROR::SHADER::"@;
    let end = "::COMPILATION_FAILED\n"@;
    lemma_encode_joined(start, label);
    lemma_encode_joined(start + label, end);
    lemma_encode_joined(start + label + end, log);
}

} // verus!
