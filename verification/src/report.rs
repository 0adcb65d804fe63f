//! The wording of what is reported back to the caller: one message for
//! every invocation that ends, whichever front-end started it.

use vstd::prelude::*;
use vstd::string::*;
use crate::catalog::{fields_of, name_of, ActionKind, FieldType};
use crate::engine::{Notice, NoticeView, OutcomeView, RPCOutcome};
use crate::error::{ParseError, RpcError, Rule, Target};
use crate::text::{contains_text, occurs_at};

verus! {

/// `a`, `b` and `c` one after the other.
pub fn join(a: &str, b: &str, c: &str) -> (out: String)
    ensures
        out@ == a@ + b@ + c@,
{
    String::from_str(a).concat(b).concat(c)
}

/// What went wrong, without the name of the action. A field that did not
/// parse is told by the parser's own words.
pub open spec fn cause_text(e: RpcError) -> Seq<char> {
    match e {
        RpcError::Validation { cause, .. } => cause.message_text(),
        RpcError::Unauthorized => "Only staff may run administrative actions"@,
        RpcError::UnknownAction => "Matching variant not found"@,
        RpcError::NotFound(Target::Bot) => "No bot has this id"@,
        RpcError::NotFound(Target::Team) => "No team has this id"@,
        RpcError::ConsistencyFault => "Internal error: the action built is not the action requested"@,
        RpcError::Persistence => "The store failed and nothing was changed"@,
        RpcError::Rejected(Rule::ReasonRequired) => "A reason is required"@,
        RpcError::Rejected(Rule::AlreadyClaimed) =>
            "This bot is claimed already; force the claim to take it over"@,
        RpcError::Rejected(Rule::PremiumPeriod) =>
            "The premium period must be longer than zero hours and the window must stay countable"@,
    }
}

/// What went wrong, without the name of the action.
pub fn cause(e: RpcError) -> (out: String)
    ensures
        out@ == cause_text(e),
{
    match e {
        RpcError::Validation { cause, .. } => cause.message(),
        RpcError::Unauthorized => String::from_str("Only staff may run administrative actions"),
        RpcError::UnknownAction => String::from_str("Matching variant not found"),
        RpcError::NotFound(Target::Bot) => String::from_str("No bot has this id"),
        RpcError::NotFound(Target::Team) => String::from_str("No team has this id"),
        RpcError::ConsistencyFault => String::from_str(
            "Internal error: the action built is not the action requested",
        ),
        RpcError::Persistence => String::from_str("The store failed and nothing was changed"),
        RpcError::Rejected(Rule::ReasonRequired) => String::from_str("A reason is required"),
        RpcError::Rejected(Rule::AlreadyClaimed) => String::from_str(
            "This bot is claimed already; force the claim to take it over",
        ),
        RpcError::Rejected(Rule::PremiumPeriod) => String::from_str(
            "The premium period must be longer than zero hours and the window must stay countable",
        ),
    }
}

/// The message for an action that was carried out.
pub open spec fn success_text(name: Seq<char>, outcome: OutcomeView) -> Seq<char> {
    match outcome {
        OutcomeView::NoContent => "Successfully performed the operation required: `"@ + name
            + "`"@,
        OutcomeView::Content(msg) => "Successfully performed the operation required: `"@ + name
            + "`\n**"@ + msg + "**"@,
    }
}

/// The message for an action that the engine did not carry out. It names
/// the action and says why.
pub open spec fn failure_text(name: Seq<char>, e: RpcError) -> Seq<char> {
    "Error performing `"@ + name + "`: **"@ + cause_text(e) + "**"@
}

/// The message for a form with a field that did not parse. A duration is
/// told by the parser's words alone; any other field is named.
pub open spec fn refusal_text(kind: ActionKind, field: int, cause: ParseError) -> Seq<char> {
    if 0 <= field < fields_of(kind).len() && fields_of(kind)[field].ty != FieldType::Duration {
        "**Error parsing `"@ + fields_of(kind)[field].id@ + "`: "@ + cause.message_text() + "**"@
    } else {
        "**"@ + cause.message_text() + "**"@
    }
}

/// The message for a command that ended in an error before it reached the
/// engine.
pub open spec fn command_error_text(e: RpcError) -> Seq<char> {
    "There was an error running this command: "@ + cause_text(e)
}

/// What is said of an action that was built under another name than the
/// one asked for. Both names are given, the built one first.
pub open spec fn fault_text(built: Seq<char>, requested: Seq<char>) -> Seq<char> {
    "Internal error: method ("@ + built + ") != variant ("@ + requested + ")"@
}

/// The message for a command that ended in such a fault.
pub open spec fn fault_reply_text(built: Seq<char>, requested: Seq<char>) -> Seq<char> {
    "There was an error running this command: "@ + fault_text(built, requested)
}

/// The message for a caller who may not run the command.
pub open spec fn denied_text() -> Seq<char> {
    "Whoa there, do you have permission to do this?: "@ + cause_text(RpcError::Unauthorized)
}

/// The message for the answer of the engine to the action of the given
/// name.
pub open spec fn answer_text(name: Seq<char>, answer: Result<OutcomeView, RpcError>) -> Seq<char> {
    match answer {
        Ok(o) => success_text(name, o),
        Err(e) => failure_text(name, e),
    }
}

/// The message for an action that was carried out.
pub fn success(name: &str, outcome: &RPCOutcome) -> (out: String)
    ensures
        out@ == success_text(name@, outcome@),
{
    match outcome {
        RPCOutcome::NoContent => join("Successfully performed the operation required: `", name, "`"),
        RPCOutcome::Content(msg) => join(
            "Successfully performed the operation required: `",
            name,
            "`\n**",
        ).concat(msg.as_str()).concat("**"),
    }
}

/// The message for an action that the engine did not carry out.
pub fn failure(name: &str, e: RpcError) -> (out: String)
    ensures
        out@ == failure_text(name@, e),
{
    let why = cause(e);
    join("Error performing `", name, "`: **").concat(why.as_str()).concat("**")
}

/// The message for a form with a field that did not parse.
pub fn refusal(kind: ActionKind, field: usize, cause: ParseError) -> (out: String)
    ensures
        out@ == refusal_text(kind, field as int, cause),
{
    let fields = kind.fields();
    let why = cause.message();
    if field < fields.len() && fields[field].ty != FieldType::Duration {
        join("**Error parsing `", fields[field].id, "`: ").concat(why.as_str()).concat("**")
    } else {
        join("**", why.as_str(), "**")
    }
}

/// The message for a command that ended in an error before it reached the
/// engine.
pub fn command_error(e: RpcError) -> (out: String)
    ensures
        out@ == command_error_text(e),
{
    let why = cause(e);
    String::from_str("There was an error running this command: ").concat(why.as_str())
}

/// What is said of an action that was built under another name than the
/// one asked for.
pub fn fault(built: &str, requested: &str) -> (out: String)
    ensures
        out@ == fault_text(built@, requested@),
{
    join("Internal error: method (", built, ") != variant (").concat(requested).concat(")")
}

/// The message for a command that ended in such a fault.
pub fn fault_reply(built: &str, requested: &str) -> (out: String)
    ensures
        out@ == fault_reply_text(built@, requested@),
{
    let why = fault(built, requested);
    String::from_str("There was an error running this command: ").concat(why.as_str())
}

/// The message for a caller who may not run the command.
pub fn denied() -> (out: String)
    ensures
        out@ == denied_text(),
{
    let why = cause(RpcError::Unauthorized);
    String::from_str("Whoa there, do you have permission to do this?: ").concat(why.as_str())
}

/// The message for the answer of the engine to the action of the given
/// name.
pub fn answer(name: &str, result: &Result<RPCOutcome, RpcError>) -> (out: String)
    ensures
        out@ == answer_text(name@, crate::engine::answer_view(*result)),
{
    match result {
        Ok(o) => success(name, o),
        Err(e) => failure(name, *e),
    }
}

/// The message for a fault of consistency holds both names: the name of
/// the action that was built and the name that was asked for.
pub proof fn lemma_fault_names_both(built: Seq<char>, requested: Seq<char>)
    ensures
        contains_text(fault_text(built, requested), built),
        contains_text(fault_text(built, requested), requested),
        contains_text(fault_reply_text(built, requested), built),
        contains_text(fault_reply_text(built, requested), requested),
{
    let head = "Internal error: method ("@;
    let mid = ") != variant ("@;
    let lead = "There was an error running this command: "@;
    let text = fault_text(built, requested);
    let reply = fault_reply_text(built, requested);
    let a = head.len() as int;
    let b = a + built.len() + mid.len();
    assert(text.subrange(a, a + built.len()) =~= built);
    assert(occurs_at(text, built, a));
    assert(text.subrange(b, b + requested.len()) =~= requested);
    assert(occurs_at(text, requested, b));
    assert(reply.subrange(lead.len() + a, lead.len() + a + built.len()) =~= built);
    assert(occurs_at(reply, built, lead.len() + a));
    assert(reply.subrange(lead.len() + b, lead.len() + b + requested.len()) =~= requested);
    assert(occurs_at(reply, requested, lead.len() + b));
}

/// The words of a notice for the audit channel: the action, what it was
/// aimed at, who ran it, and why.
pub open spec fn notice_text(n: NoticeView) -> Seq<char> {
    "`"@ + name_of(n.kind) + "` on `"@ + n.target + "` by <@"@ + n.staff + ">: "@ + n.reason
}

/// Words a notice for the audit channel.
pub fn notice_words(n: &Notice) -> (out: String)
    ensures
        out@ == notice_text(n@),
{
    join("`", n.kind.name(), "` on `").concat(n.target.as_str()).concat("` by <@").concat(
        n.staff.as_str(),
    ).concat(">: ").concat(n.reason.as_str())
}

} // verus!
