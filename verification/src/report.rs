//! The report emitter: the two JSON artifacts and the console tally.

use crate::opcode::{pairs, OpcodeVector};
use crate::outcome::{classified, log_of, ExecutionLog, ExecutionLogView};
use crate::text::{decimal, decimal_text, joined, views};
use serde_json::{Number, Value};
use vstd::prelude::*;
use vstd::string::StringExecFns;

verus! {

/// The name of the file that holds the execution log.
pub const EXECUTION_LOG_FILE: &'static str = "execution_log.json";

/// The name of the file that holds the opcode vector.
pub const OPCODE_VECTOR_FILE: &'static str = "opcode_vector.json";

/// A JSON value that is no array and no object.
#[derive(Debug, PartialEq, Eq)]
pub enum Scalar {
    Null,
    Bool(bool),
    Number(u128),
    Text(String),
}

/// The mathematical value of a `Scalar`.
pub enum ScalarView {
    Null,
    Bool(bool),
    Number(u128),
    Text(Seq<char>),
}

impl View for Scalar {
    type V = ScalarView;

    open spec fn view(&self) -> ScalarView {
        match self {
            Scalar::Null => ScalarView::Null,
            Scalar::Bool(flag) => ScalarView::Bool(*flag),
            Scalar::Number(number) => ScalarView::Number(*number),
            Scalar::Text(text) => ScalarView::Text(text@),
        }
    }
}

/// One member of a JSON object.
#[derive(Debug, PartialEq, Eq)]
pub struct Member {
    pub name: String,
    pub value: Scalar,
}

/// The values of a list of members: pairs of name and value, in order.
pub open spec fn member_views(members: Seq<Member>) -> Seq<(Seq<char>, ScalarView)> {
    members.map_values(|member: Member| (member.name@, member.value@))
}

/// The pretty-printed JSON text of the object with the given members, in
/// their order, or the message of the failure to render it.
pub uninterp spec fn pretty_json(members: Seq<(Seq<char>, ScalarView)>) -> Result<
    Seq<char>,
    Seq<char>,
>;

/// The value of a rendering.
pub open spec fn rendering_view(rendering: Result<String, String>) -> Result<Seq<char>, Seq<char>> {
    match rendering {
        Ok(text) => Ok(text@),
        Err(message) => Err(message@),
    }
}

/// Calls `serde_json::to_string_pretty` on a `serde_json::Map` that holds
/// each member as a `serde_json::Value` of the same kind, a number through
/// `Number::from_u128`; a failure as its text. The result is what
/// `pretty_json` names.
#[verifier::external_body]
fn render_object(members: &Vec<Member>) -> (rendering: Result<String, String>)
    ensures
        rendering_view(rendering) == pretty_json(member_views(members@)),
{
    let object: serde_json::Map<String, Value> = members.iter().map(|member| (
        member.name.clone(),
        match &member.value {
            Scalar::Null => Value::Null,
            Scalar::Bool(flag) => Value::Bool(*flag),
            Scalar::Number(number) => Value::from(Number::from_u128(*number)),
            Scalar::Text(text) => Value::String(text.clone()),
        },
    )).collect();
    serde_json::to_string_pretty(&object).map_err(|e| e.to_string())
}

/// An artifact could not be rendered: the renderer's message.
#[derive(Debug, PartialEq, Eq)]
pub struct ReportError {
    pub message: String,
}

/// The members of the execution log artifact: the file, the function, the
/// success flag, the duration in milliseconds and the error message, which is
/// null where there is none.
pub open spec fn log_members(log: ExecutionLogView) -> Seq<(Seq<char>, ScalarView)> {
    seq![
        ("file"@, ScalarView::Text(log.file)),
        ("function"@, ScalarView::Text(log.function)),
        ("success"@, ScalarView::Bool(log.success)),
        ("duration_ms"@, ScalarView::Number(log.duration_ms)),
        (
            "error_message"@,
            match log.error_message {
                Some(message) => ScalarView::Text(message),
                None => ScalarView::Null,
            },
        ),
    ]
}

/// The members of the opcode vector artifact: each label with its count.
pub open spec fn vector_members(listing: Seq<(Seq<char>, nat)>) -> Seq<(Seq<char>, ScalarView)> {
    listing.map_values(
        |entry: (Seq<char>, nat)| (entry.0, ScalarView::Number(entry.1 as u128)),
    )
}

/// The console tally of an opcode vector: a heading after an empty line, then
/// one line for each label with its count.
pub open spec fn tally_of(listing: Seq<(Seq<char>, nat)>) -> Seq<Seq<char>> {
    seq!["\nOpcode Frequency Vector:"@] + listing.map_values(
        |entry: (Seq<char>, nat)| "  "@ + entry.0 + ": "@ + decimal(entry.1),
    )
}

/// The members of the execution log artifact.
pub fn execution_log_members(log: &ExecutionLog) -> (members: Vec<Member>)
    ensures
        member_views(members@) == log_members(log@),
{
    let mut members: Vec<Member> = Vec::new();
    members.push(Member { name: "file".to_owned(), value: Scalar::Text(log.file.clone()) });
    members.push(
        Member { name: "function".to_owned(), value: Scalar::Text(log.function.clone()) },
    );
    members.push(Member { name: "success".to_owned(), value: Scalar::Bool(log.success) });
    members.push(
        Member { name: "duration_ms".to_owned(), value: Scalar::Number(log.duration_ms) },
    );
    let message = match &log.error_message {
        Some(message) => Scalar::Text(message.clone()),
        None => Scalar::Null,
    };
    members.push(Member { name: "error_message".to_owned(), value: message });
    assert(member_views(members@) =~= log_members(log@));
    members
}

/// The members of the opcode vector artifact.
pub fn opcode_vector_members(vector: &OpcodeVector) -> (members: Vec<Member>)
    requires
        vector.wf(),
    ensures
        member_views(members@) == vector_members(vector.listing()),
{
    let entries = vector.entries();
    let ghost listing = pairs(entries@);
    let mut members: Vec<Member> = Vec::new();
    let mut i: usize = 0;
    while i < entries.len()
        invariant
            i <= entries@.len(),
            listing == pairs(entries@),
            member_views(members@) == vector_members(listing.take(i as int)),
        decreases entries@.len() - i,
    {
        let entry = &entries[i];
        let ghost listed = member_views(members@);
        members.push(
            Member { name: entry.label.clone(), value: Scalar::Number(entry.count as u128) },
        );
        assert(listing[i as int] == (entry.label@, entry.count as nat));
        assert(listing.take(i + 1) =~= listing.take(i as int).push(listing[i as int]));
        assert(member_views(members@) =~= listed.push(
            (entry.label@, ScalarView::Number(entry.count as u128)),
        ));
        assert(member_views(members@) =~= vector_members(listing.take(i + 1)));
        i += 1;
    }
    assert(listing.take(i as int) =~= listing);
    members
}

/// Renders the members of an object as pretty-printed JSON.
pub fn render_members(members: &Vec<Member>) -> (result: Result<String, ReportError>)
    ensures
        match result {
            Ok(text) => pretty_json(member_views(members@)) == Ok::<Seq<char>, Seq<char>>(text@),
            Err(error) => pretty_json(member_views(members@)) == Err::<Seq<char>, Seq<char>>(
                error.message@,
            ),
        },
{
    match render_object(members) {
        Ok(text) => Ok(text),
        Err(message) => Err(ReportError { message }),
    }
}

/// The execution log artifact: the log as a pretty-printed JSON object.
pub fn execution_log_json(log: &ExecutionLog) -> (result: Result<String, ReportError>)
    ensures
        match result {
            Ok(text) => pretty_json(log_members(log@)) == Ok::<Seq<char>, Seq<char>>(text@),
            Err(error) => pretty_json(log_members(log@)) == Err::<Seq<char>, Seq<char>>(
                error.message@,
            ),
        },
{
    render_members(&execution_log_members(log))
}

/// The opcode vector artifact: a flat JSON object with one member for each
/// label, its count as the value.
pub fn opcode_vector_json(vector: &OpcodeVector) -> (result: Result<String, ReportError>)
    requires
        vector.wf(),
    ensures
        match result {
            Ok(text) => pretty_json(vector_members(vector.listing())) == Ok::<
                Seq<char>,
                Seq<char>,
            >(text@),
            Err(error) => pretty_json(vector_members(vector.listing())) == Err::<
                Seq<char>,
                Seq<char>,
            >(error.message@),
        },
{
    render_members(&opcode_vector_members(vector))
}

/// The console tally of an opcode vector.
pub fn tally_lines(vector: &OpcodeVector) -> (lines: Vec<String>)
    requires
        vector.wf(),
    ensures
        views(lines@) == tally_of(vector.listing()),
{
    let entries = vector.entries();
    let ghost listing = pairs(entries@);
    let mut lines: Vec<String> = Vec::new();
    lines.push("\nOpcode Frequency Vector:".to_owned());
    let mut i: usize = 0;
    assert(listing.take(0) =~= Seq::empty());
    assert(views(lines@) =~= tally_of(listing.take(0)));
    while i < entries.len()
        invariant
            i <= entries@.len(),
            listing == pairs(entries@),
            views(lines@) == tally_of(listing.take(i as int)),
        decreases entries@.len() - i,
    {
        let entry = &entries[i];
        let mut line = joined("  ", entry.label.as_str());
        line.append(": ");
        line.append(decimal_text(entry.count as u128).as_str());
        let ghost listed = views(lines@);
        lines.push(line);
        assert(listing[i as int] == (entry.label@, entry.count as nat));
        assert(listing.take(i + 1) =~= listing.take(i as int).push(listing[i as int]));
        assert(views(lines@) =~= listed.push(line@));
        assert(views(lines@) =~= tally_of(listing.take(i + 1)));
        i += 1;
    }
    assert(listing.take(i as int) =~= listing);
    lines
}

/// The artifact of a run whose call returned without fault says that the run
/// succeeded, and holds no error message.
pub proof fn lemma_success_is_reported(file: Seq<char>, function: Seq<char>, duration_ms: u128)
    ensures
        log_members(log_of(file, function, classified(Ok(())), duration_ms)) == seq![
            ("file"@, ScalarView::Text(file)),
            ("function"@, ScalarView::Text(function)),
            ("success"@, ScalarView::Bool(true)),
            ("duration_ms"@, ScalarView::Number(duration_ms)),
            ("error_message"@, ScalarView::Null),
        ],
{
}

/// The members of the execution log artifact hold the whole log: two logs with
/// the same members are the same log.
pub proof fn lemma_log_members_hold_the_log(first: ExecutionLogView, second: ExecutionLogView)
    requires
        log_members(first) == log_members(second),
    ensures
        first == second,
{
    let a = log_members(first);
    let b = log_members(second);
    assert(a[0] == b[0]);
    assert(a[1] == b[1]);
    assert(a[2] == b[2]);
    assert(a[3] == b[3]);
    assert(a[4] == b[4]);
}

/// The members of the opcode vector artifact hold the whole vector: two
/// lists of entries with the same members are the same list, as long as the
/// counts are such as a vector can hold.
pub proof fn lemma_vector_members_hold_the_vector(
    first: Seq<(Seq<char>, nat)>,
    second: Seq<(Seq<char>, nat)>,
)
    requires
        vector_members(first) == vector_members(second),
        forall|i: int| 0 <= i < first.len() ==> (#[trigger] first[i]).1 <= usize::MAX,
        forall|i: int| 0 <= i < second.len() ==> (#[trigger] second[i]).1 <= usize::MAX,
    ensures
        first == second,
{
    assert(first.len() == vector_members(first).len());
    assert(second.len() == vector_members(second).len());
    assert forall|i: int| 0 <= i < first.len() implies first[i] == second[i] by {
        assert(vector_members(first)[i] == vector_members(second)[i]);
        assert(first[i].1 as u128 == second[i].1 as u128);
    }
    assert(first =~= second);
}

} // verus!
