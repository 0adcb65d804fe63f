//! The direct front-end: a request that names an action and gives the raw
//! text of each field by the field's name. The caller is the one that the
//! handle names; who that is was settled before the request came here.

use vstd::prelude::*;
use crate::action::{made, Action, Value};
use crate::catalog::{fields_of, kind_of, types_of, ActionKind};
use crate::dispatch::{authorize, is_staff};
use crate::engine::{
    answer_view, clash, clashes, execute, executed, has_bot, lemma_effect_by_values,
    lemma_rows_stay_in_place, notice_of, notice_rows, rows_written, writes_row, OutcomeView,
    RPCHandle, RPCOutcome,
};
use crate::models::{APIResponse, ResponseView};
use crate::report::{cause, cause_text};
use crate::error::{ParseError, RpcError, Rule};
use crate::fields::{assemble, fails_first_at, field_result, read_all, read_form};
use crate::flow::{next, EventView, Phase};
use crate::parse::lemma_two_weeks;
use crate::store::{BotView, StoreView};
use crate::text::{chars_of, given, opt_texts, same_chars};

verus! {

/// A structured request for one action.
#[derive(Clone, Debug, PartialEq, Eq)]
pub struct Request {
    /// The name of the action.
    pub action: String,
    /// The raw text of each field, by the field's name.
    pub fields: Vec<(String, String)>,
}

pub struct RequestView {
    pub action: Seq<char>,
    pub fields: Seq<(Seq<char>, Seq<char>)>,
}

/// The pairs of texts that a list of pairs of strings holds.
pub open spec fn pairs(v: Seq<(String, String)>) -> Seq<(Seq<char>, Seq<char>)> {
    v.map_values(|p: (String, String)| (p.0@, p.1@))
}

impl View for Request {
    type V = RequestView;

    open spec fn view(&self) -> RequestView {
        RequestView { action: self.action@, fields: pairs(self.fields@) }
    }
}

/// The text given under a name: that of the first pair with the name.
pub open spec fn lookup(fields: Seq<(Seq<char>, Seq<char>)>, key: Seq<char>) -> Option<Seq<char>>
    decreases fields.len(),
{
    if fields.len() == 0 {
        None
    } else if fields[0].0 == key {
        Some(fields[0].1)
    } else {
        lookup(fields.skip(1), key)
    }
}

/// The texts that a request gives for the fields of a form, in the order of
/// the form; none for a field that the request does not name.
pub open spec fn wired(kind: ActionKind, fields: Seq<(Seq<char>, Seq<char>)>) -> Seq<
    Option<Seq<char>>,
> {
    Seq::new(fields_of(kind).len(), |i: int| lookup(fields, fields_of(kind)[i].id@))
}

/// The text that the request gives under a name.
pub fn find(fields: &Vec<(String, String)>, key: &str) -> (out: Option<String>)
    ensures
        crate::text::opt_text(out) == lookup(pairs(fields@), key@),
{
    let wanted = chars_of(key);
    let ghost all = pairs(fields@);
    let mut i: usize = 0;
    assert(all.skip(0) == all);
    while i < fields.len()
        invariant
            i <= fields.len(),
            all == pairs(fields@),
            wanted@ == key@,
            lookup(all, key@) == lookup(all.skip(i as int), key@),
        decreases fields.len() - i,
    {
        let name = chars_of(fields[i].0.as_str());
        assert(all.skip(i as int)[0] == all[i as int]);
        assert(all.skip(i as int).skip(1) == all.skip(i + 1));
        if same_chars(&name, &wanted) {
            return Some(fields[i].1.clone());
        }
        i += 1;
    }
    None
}

/// The texts that a request gives for the fields of a form, in the order of
/// the form.
pub fn wire(kind: ActionKind, fields: &Vec<(String, String)>) -> (out: Vec<Option<String>>)
    ensures
        opt_texts(out@) == wired(kind, pairs(fields@)),
{
    let form = kind.fields();
    let mut out: Vec<Option<String>> = Vec::new();
    let mut i: usize = 0;
    while i < form.len()
        invariant
            i <= form.len(),
            form@ == fields_of(kind),
            opt_texts(out@) == wired(kind, pairs(fields@)).take(i as int),
        decreases form.len() - i,
    {
        let ghost before = out@;
        let text = find(fields, form[i].id);
        out.push(text);
        assert(opt_texts(out@) == opt_texts(before).push(crate::text::opt_text(text)));
        assert(wired(kind, pairs(fields@)).take(i + 1) == wired(kind, pairs(fields@)).take(
            i as int,
        ).push(lookup(pairs(fields@), form@[i as int].id@)));
        i += 1;
    }
    assert(wired(kind, pairs(fields@)).take(form.len() as int) == wired(kind, pairs(fields@)));
    out
}

/// What a request is let through as: the kind and the values of the action
/// to run, or the error that ends the request before anything runs. The
/// name is looked up first, then the fields are read, then the caller is
/// held against the roster.
pub open spec fn admitted(req: RequestView, caller: Seq<char>, s: StoreView) -> Result<
    (ActionKind, Seq<Value>),
    RpcError,
> {
    match kind_of(req.action) {
        Err(e) => Err(e),
        Ok(kind) => match read_form(kind, wired(kind, req.fields)) {
            Err(e) => Err(e),
            Ok(vals) => if is_staff(s.staff, caller) {
                Ok((kind, vals))
            } else {
                Err(RpcError::Unauthorized)
            },
        },
    }
}

/// Checks a request and makes its action. No action is made for a caller
/// who is not staff, for a name that is not in the catalog, or for fields
/// that do not parse.
pub fn prepare(req: &Request, handle: &RPCHandle) -> (out: Result<Action, RpcError>)
    ensures
        match admitted(req@, handle.user_id@, handle.store@) {
            Ok((kind, vals)) => out is Ok && out->Ok_0.kind_of() == kind && out->Ok_0.values()
                == vals,
            Err(e) => out == Err::<Action, RpcError>(e),
        },
{
    let kind = match ActionKind::from_name(req.action.as_str()) {
        Ok(kind) => kind,
        Err(e) => {
            return Err(e);
        },
    };
    let raw = wire(kind, &req.fields);
    let vals = match read_all(kind, &raw) {
        Ok(vals) => vals,
        Err(e) => {
            return Err(e);
        },
    };
    if !authorize(handle.user_id.as_str(), &handle.store) {
        return Err(RpcError::Unauthorized);
    }
    Ok(assemble(kind, vals))
}

/// Runs a structured request: checks it, makes its action and hands the
/// action to the engine. A request that is not let through changes nothing.
/// The answer has the shape that the interactive front-end gets.
pub fn invoke(req: &Request, handle: &mut RPCHandle) -> (out: Result<RPCOutcome, RpcError>)
    ensures
        final(handle).user_id@ == old(handle).user_id@,
        match admitted(req@, old(handle).user_id@, old(handle).store@) {
            Err(e) => {
                &&& out == Err::<RPCOutcome, RpcError>(e)
                &&& final(handle).store@ == old(handle).store@
                &&& notice_rows(final(handle).outbox@) == notice_rows(old(handle).outbox@)
            },
            Ok((kind, vals)) => {
                let a = made(kind, vals);
                &&& final(handle).store@ == executed(a, old(handle).user_id@, old(handle).store@).0
                &&& answer_view(out) == executed(a, old(handle).user_id@, old(handle).store@).1
                &&& notice_rows(final(handle).outbox@) == if out is Ok {
                    notice_rows(old(handle).outbox@).push(notice_of(a, old(handle).user_id@))
                } else {
                    notice_rows(old(handle).outbox@)
                }
            },
        },
{
    let action = match prepare(req, handle) {
        Ok(action) => action,
        Err(e) => {
            return Err(e);
        },
    };
    proof {
        lemma_effect_by_values(
            action,
            made(action.kind_of(), action.values()),
            handle.user_id@,
            handle.store@,
        );
    }
    execute(&action, handle)
}

/// The answer to a request as it goes back over the wire: whether the
/// action was carried out, why not where it was not, and what there is to
/// show where it was.
pub open spec fn response_of(answer: Result<OutcomeView, RpcError>) -> ResponseView {
    match answer {
        Ok(OutcomeView::NoContent) => ResponseView {
            done: true,
            reason: Seq::<char>::empty(),
            context: None,
        },
        Ok(OutcomeView::Content(msg)) => ResponseView {
            done: true,
            reason: Seq::<char>::empty(),
            context: Some(msg),
        },
        Err(e) => ResponseView { done: false, reason: cause_text(e), context: None },
    }
}

/// Puts the answer to a request in the form that goes back over the wire.
pub fn respond(answer: Result<RPCOutcome, RpcError>) -> (out: APIResponse)
    ensures
        out@ == response_of(answer_view(answer)),
{
    match answer {
        Ok(RPCOutcome::NoContent) => APIResponse {
            done: true,
            reason: String::new(),
            context: None,
        },
        Ok(RPCOutcome::Content(msg)) => APIResponse {
            done: true,
            reason: String::new(),
            context: Some(msg),
        },
        Err(e) => APIResponse { done: false, reason: cause(e), context: None },
    }
}

/// A request from a caller who is not staff is never let through, whatever
/// action it names: no action is made for it and nothing is run.
pub proof fn lemma_stranger_is_turned_away(req: RequestView, caller: Seq<char>, s: StoreView)
    requires
        !is_staff(s.staff, caller),
    ensures
        admitted(req, caller, s) is Err,
        kind_of(req.action) is Ok && read_form(
            kind_of(req.action)->Ok_0,
            wired(kind_of(req.action)->Ok_0, req.fields),
        ) is Ok ==> admitted(req, caller, s) == Err::<(ActionKind, Seq<Value>), RpcError>(
            RpcError::Unauthorized,
        ),
{
}

/// The two front-ends agree. Where a request names the action that a flow
/// was started for and gives the texts that the flow's form was sent with,
/// a caller who is staff gets from both the same action, or from both the
/// same refusal of the same field.
pub proof fn lemma_front_ends_agree(
    kind: ActionKind,
    inputs: Seq<Seq<char>>,
    req: RequestView,
    caller: Seq<char>,
    s: StoreView,
)
    requires
        kind_of(req.action) == Ok::<ActionKind, RpcError>(kind),
        wired(kind, req.fields) == given(inputs),
        is_staff(s.staff, caller),
    ensures
        match read_form(kind, given(inputs)) {
            Ok(vals) => {
                &&& admitted(req, caller, s) == Ok::<(ActionKind, Seq<Value>), RpcError>(
                    (kind, vals),
                )
                &&& next(req.action, Phase::AwaitingFields(kind), EventView::Submit(inputs)).0
                    == Phase::Validated(kind, vals)
            },
            Err(e) => {
                &&& admitted(req, caller, s) == Err::<(ActionKind, Seq<Value>), RpcError>(e)
                &&& next(req.action, Phase::AwaitingFields(kind), EventView::Submit(inputs)).0
                    == Phase::Failed(e)
            },
        },
{
}

/// Premium for two weeks by request. A caller who is staff sends a request
/// for `PremiumAdd` that gives the id of a bot that is there, a reason, and
/// the duration `2 weeks`; the store takes the rows and the window of no
/// bot with the id is within 336 hours of what can be counted. Then the
/// request is let through with a duration of 336 hours, the engine answers
/// that it is done, the window of every bot with the id is 336 hours longer
/// than it was, and nothing else about any bot has changed.
pub proof fn lemma_premium_two_weeks(
    x: Seq<char>,
    r: Seq<char>,
    a: Action,
    req: RequestView,
    caller: Seq<char>,
    s: StoreView,
)
    requires
        is_staff(s.staff, caller),
        r.len() > 0,
        has_bot(s.bots, x),
        kind_of(req.action) == Ok::<ActionKind, RpcError>(ActionKind::PremiumAdd),
        wired(ActionKind::PremiumAdd, req.fields) == given(seq![x, r, "2 weeks"@]),
        a.kind_of() == ActionKind::PremiumAdd,
        a.values() == seq![Value::Text(x), Value::Text(r), Value::Number(336)],
        forall|j: int|
            0 <= j < s.bots.len() && (#[trigger] s.bots[j]).bot_id == x ==> s.bots[j].premium_hours
                + 336 <= u64::MAX,
        s.write_limit is Some ==> rows_written(a, s) <= s.write_limit->Some_0,
    ensures
        admitted(req, caller, s) == Ok::<(ActionKind, Seq<Value>), RpcError>(
            (ActionKind::PremiumAdd, a.values()),
        ),
        executed(made(ActionKind::PremiumAdd, a.values()), caller, s) == executed(a, caller, s),
        executed(a, caller, s).1 == Ok::<OutcomeView, RpcError>(OutcomeView::NoContent),
        executed(a, caller, s).0.bots.len() == s.bots.len(),
        forall|j: int|
            0 <= j < s.bots.len() ==> #[trigger] executed(a, caller, s).0.bots[j] == if s.bots[j]
                .bot_id == x {
                BotView { premium_hours: s.bots[j].premium_hours + 336, ..s.bots[j] }
            } else {
                s.bots[j]
            },
{
    let kind = ActionKind::PremiumAdd;
    let inputs = given(seq![x, r, "2 weeks"@]);
    lemma_two_weeks();
    assert(a.values()[0] == Value::Text(a->PremiumAdd_bot_id@));
    assert(a.values()[1] == Value::Text(a->PremiumAdd_reason@));
    assert(a.values()[2] == Value::Number(a->PremiumAdd_duration as int));
    assert(a->PremiumAdd_bot_id@ == x && a->PremiumAdd_reason@ == r && a->PremiumAdd_duration
        == 336);
    assert(types_of(kind).len() == 3);
    assert(inputs[0] == Some(x) && inputs[1] == Some(r) && inputs[2] == Some("2 weeks"@));
    assert(field_result(kind, inputs, 0) == Ok::<Value, ParseError>(Value::Text(x)));
    assert(field_result(kind, inputs, 1) == Ok::<Value, ParseError>(Value::Text(r)));
    assert(field_result(kind, inputs, 2) == Ok::<Value, ParseError>(Value::Number(336)));
    assert forall|i: int| !fails_first_at(kind, inputs, i) by {
        if 0 <= i < 3 {
            assert(field_result(kind, inputs, i) is Ok);
        }
    }
    assert(read_form(kind, inputs)->Ok_0 =~= a.values());
    lemma_effect_by_values(a, made(kind, a.values()), caller, s);
    assert(r != Seq::<char>::empty());
    assert(!clashes(a, s.bots, Rule::PremiumPeriod)) by {
        assert forall|j: int|
            0 <= j < s.bots.len() && writes_row(a, #[trigger] s.bots[j]) implies clash(
            a,
            s.bots[j],
        ) is None by {}
    }
    lemma_rows_stay_in_place(a, caller, s.bots);
}

} // verus!
