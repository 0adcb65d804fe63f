//! From the raw texts of a submitted form to an action: each text is read
//! by the rule of its field's type, the first text that is refused ends the
//! attempt, and an action is only made once every field has a value.

use vstd::prelude::*;
use crate::action::{fits, Action, Value};
use crate::catalog::{fields_of, types_of, ActionKind, FieldSpec, FieldType};
use crate::error::{ParseError, RpcError};
use crate::parse::{bool_of, hours_of, int_of, parse_bool, parse_hrs, parse_i32};
use crate::text::{given, opt_text, opt_texts, texts};

verus! {

/// The value of one field.
#[derive(Clone, Debug, PartialEq, Eq)]
pub enum FieldValue {
    Text(String),
    Flag(bool),
    Number(i32),
}

impl View for FieldValue {
    type V = Value;

    open spec fn view(&self) -> Value {
        match self {
            FieldValue::Text(s) => Value::Text(s@),
            FieldValue::Flag(b) => Value::Flag(*b),
            FieldValue::Number(n) => Value::Number(*n as int),
        }
    }
}

/// What a raw text is read as under a field type. Ids and free text are
/// taken as they stand.
pub open spec fn read_as(ty: FieldType, raw: Seq<char>) -> Result<Value, ParseError> {
    match ty {
        FieldType::Id | FieldType::Text => Ok(Value::Text(raw)),
        FieldType::Flag => match bool_of(raw) {
            Ok(b) => Ok(Value::Flag(b)),
            Err(e) => Err(e),
        },
        FieldType::Integer => match int_of(raw) {
            Ok(n) => Ok(Value::Number(n as int)),
            Err(e) => Err(ParseError::Integer(e)),
        },
        FieldType::Duration => match hours_of(raw) {
            Ok(n) => Ok(Value::Number(n as int)),
            Err(e) => Err(e),
        },
    }
}

/// Reads one raw text by the rule of its field's type.
pub fn read_field(ty: FieldType, raw: &str) -> (out: Result<FieldValue, ParseError>)
    ensures
        match read_as(ty, raw@) {
            Ok(v) => out is Ok && out->Ok_0@ == v && fits(ty, v),
            Err(e) => out == Err::<FieldValue, ParseError>(e),
        },
{
    match ty {
        FieldType::Id | FieldType::Text => Ok(FieldValue::Text(raw.to_string())),
        FieldType::Flag => match parse_bool(raw) {
            Ok(b) => Ok(FieldValue::Flag(b)),
            Err(e) => Err(e),
        },
        FieldType::Integer => match parse_i32(raw) {
            Ok(n) => Ok(FieldValue::Number(n)),
            Err(e) => Err(e),
        },
        FieldType::Duration => match parse_hrs(raw) {
            Ok(n) => Ok(FieldValue::Number(n)),
            Err(e) => Err(e),
        },
    }
}

impl FieldSpec {
    /// Reads a raw text as a value of this field.
    pub fn read(&self, raw: &str) -> (out: Result<FieldValue, ParseError>)
        ensures
            match read_as(self.ty, raw@) {
                Ok(v) => out is Ok && out->Ok_0@ == v && fits(self.ty, v),
                Err(e) => out == Err::<FieldValue, ParseError>(e),
            },
    {
        read_field(self.ty, raw)
    }
}

/// The values that a list of field values stands for.
pub open spec fn values_view(v: Seq<FieldValue>) -> Seq<Value> {
    v.map_values(|f: FieldValue| f@)
}

/// What the field at position `i` of the form is read as. A field for which
/// no text was submitted is missing.
pub open spec fn field_result(kind: ActionKind, inputs: Seq<Option<Seq<char>>>, i: int) -> Result<
    Value,
    ParseError,
> {
    if i < inputs.len() && inputs[i] is Some {
        read_as(types_of(kind)[i], inputs[i]->Some_0)
    } else {
        Err(ParseError::Missing)
    }
}

/// The field at position `i` is refused and every field before it is read.
pub open spec fn fails_first_at(kind: ActionKind, inputs: Seq<Option<Seq<char>>>, i: int) -> bool {
    &&& 0 <= i < types_of(kind).len()
    &&& field_result(kind, inputs, i) is Err
    &&& forall|j: int| 0 <= j < i ==> (#[trigger] field_result(kind, inputs, j)) is Ok
}

/// What a submitted form is read as: the values of all its fields, or the
/// first field that is refused, with the reason. Texts beyond the last
/// field are not looked at.
pub open spec fn read_form(kind: ActionKind, inputs: Seq<Option<Seq<char>>>) -> Result<
    Seq<Value>,
    RpcError,
> {
    if exists|i: int| fails_first_at(kind, inputs, i) {
        let i = choose|i: int| fails_first_at(kind, inputs, i);
        Err(RpcError::Validation { field: i as usize, cause: field_result(kind, inputs, i)->Err_0 })
    } else {
        Ok(Seq::new(types_of(kind).len(), |i: int| field_result(kind, inputs, i)->Ok_0))
    }
}

/// Reads the fields of a form from the left and stops at the first one that
/// is refused.
pub fn read_all(kind: ActionKind, inputs: &Vec<Option<String>>) -> (out: Result<
    Vec<FieldValue>,
    RpcError,
>)
    ensures
        match read_form(kind, opt_texts(inputs@)) {
            Ok(vals) => out is Ok && values_view(out->Ok_0@) == vals && out->Ok_0.len()
                == types_of(kind).len() && forall|i: int|
                0 <= i < vals.len() ==> fits(#[trigger] types_of(kind)[i], vals[i]),
            Err(e) => out == Err::<Vec<FieldValue>, RpcError>(e),
        },
{
    let fields = kind.fields();
    let ghost raw = opt_texts(inputs@);
    let mut vals: Vec<FieldValue> = Vec::new();
    let mut i: usize = 0;
    while i < fields.len()
        invariant
            i <= fields.len(),
            fields@ == fields_of(kind),
            raw == opt_texts(inputs@),
            vals.len() == i,
            forall|j: int|
                0 <= j < i ==> #[trigger] field_result(kind, raw, j) == Ok::<Value, ParseError>(
                    vals@[j]@,
                ),
            forall|j: int| 0 <= j < i ==> fits(#[trigger] types_of(kind)[j], vals@[j]@),
        decreases fields.len() - i,
    {
        let ty = fields[i].ty;
        assert(ty == types_of(kind)[i as int]);
        if i >= inputs.len() {
            assert(fails_first_at(kind, raw, i as int));
            return Err(RpcError::Validation { field: i, cause: ParseError::Missing });
        }
        assert(raw[i as int] == opt_text(inputs@[i as int]));
        let read = match &inputs[i] {
            Some(text) => read_field(ty, text.as_str()),
            None => Err(ParseError::Missing),
        };
        match read {
            Ok(v) => {
                vals.push(v);
            },
            Err(e) => {
                assert(fails_first_at(kind, raw, i as int));
                return Err(RpcError::Validation { field: i, cause: e });
            },
        }
        i += 1;
    }
    proof {
        assert forall|k: int| !fails_first_at(kind, raw, k) by {
            if 0 <= k < types_of(kind).len() {
                assert(field_result(kind, raw, k) is Ok);
            }
        }
        assert(values_view(vals@) =~= Seq::new(
            types_of(kind).len(),
            |i: int| field_result(kind, raw, i)->Ok_0,
        ));
    }
    Ok(vals)
}

fn take_text(vals: &mut Vec<FieldValue>) -> (out: String)
    requires
        old(vals).len() > 0,
        old(vals)@.last() is Text,
    ensures
        final(vals)@ == old(vals)@.drop_last(),
        old(vals)@.last()@ == Value::Text(out@),
{
    match vals.pop() {
        Some(FieldValue::Text(s)) => s,
        _ => vstd::pervasive::unreached(),
    }
}

fn take_flag(vals: &mut Vec<FieldValue>) -> (out: bool)
    requires
        old(vals).len() > 0,
        old(vals)@.last() is Flag,
    ensures
        final(vals)@ == old(vals)@.drop_last(),
        old(vals)@.last()@ == Value::Flag(out),
{
    match vals.pop() {
        Some(FieldValue::Flag(b)) => b,
        _ => vstd::pervasive::unreached(),
    }
}

fn take_number(vals: &mut Vec<FieldValue>) -> (out: i32)
    requires
        old(vals).len() > 0,
        old(vals)@.last() is Number,
    ensures
        final(vals)@ == old(vals)@.drop_last(),
        old(vals)@.last()@ == Value::Number(out as int),
{
    match vals.pop() {
        Some(FieldValue::Number(n)) => n,
        _ => vstd::pervasive::unreached(),
    }
}

/// Makes the action of the given kind from the values of its fields.
pub(crate) fn assemble(kind: ActionKind, vals: Vec<FieldValue>) -> (out: Action)
    requires
        vals.len() == types_of(kind).len(),
        forall|i: int| 0 <= i < vals.len() ==> fits(#[trigger] types_of(kind)[i], vals@[i]@),
    ensures
        out.kind_of() == kind,
        out.values() == values_view(vals@),
{
    let mut vals = vals;
    let ghost all = vals@;
    match kind {
        ActionKind::ClaimBot => {
            assert(fits(types_of(kind)[1], all[1]@));
            let force = take_flag(&mut vals);
            assert(fits(types_of(kind)[0], all[0]@));
            let bot_id = take_text(&mut vals);
            let out = Action::ClaimBot { bot_id, force };
            assert(out.values() =~= values_view(all));
            out
        },
        ActionKind::UnclaimBot => {
            assert(fits(types_of(kind)[1], all[1]@));
            let reason = take_text(&mut vals);
            assert(fits(types_of(kind)[0], all[0]@));
            let bot_id = take_text(&mut vals);
            let out = Action::UnclaimBot { bot_id, reason };
            assert(out.values() =~= values_view(all));
            out
        },
        ActionKind::ApproveBot => {
            assert(fits(types_of(kind)[1], all[1]@));
            let reason = take_text(&mut vals);
            assert(fits(types_of(kind)[0], all[0]@));
            let bot_id = take_text(&mut vals);
            let out = Action::ApproveBot { bot_id, reason };
            assert(out.values() =~= values_view(all));
            out
        },
        ActionKind::DenyBot => {
            assert(fits(types_of(kind)[1], all[1]@));
            let reason = take_text(&mut vals);
            assert(fits(types_of(kind)[0], all[0]@));
            let bot_id = take_text(&mut vals);
            let out = Action::DenyBot { bot_id, reason };
            assert(out.values() =~= values_view(all));
            out
        },
        ActionKind::VoteReset => {
            assert(fits(types_of(kind)[1], all[1]@));
            let reason = take_text(&mut vals);
            assert(fits(types_of(kind)[0], all[0]@));
            let bot_id = take_text(&mut vals);
            let out = Action::VoteReset { bot_id, reason };
            assert(out.values() =~= values_view(all));
            out
        },
        ActionKind::VoteResetAll => {
            assert(fits(types_of(kind)[0], all[0]@));
            let reason = take_text(&mut vals);
            let out = Action::VoteResetAll { reason };
            assert(out.values() =~= values_view(all));
            out
        },
        ActionKind::Unverify => {
            assert(fits(types_of(kind)[1], all[1]@));
            let reason = take_text(&mut vals);
            assert(fits(types_of(kind)[0], all[0]@));
            let bot_id = take_text(&mut vals);
            let out = Action::Unverify { bot_id, reason };
            assert(out.values() =~= values_view(all));
            out
        },
        ActionKind::PremiumAdd => {
            assert(fits(types_of(kind)[2], all[2]@));
            let duration = take_number(&mut vals);
            assert(fits(types_of(kind)[1], all[1]@));
            let reason = take_text(&mut vals);
            assert(fits(types_of(kind)[0], all[0]@));
            let bot_id = take_text(&mut vals);
            let out = Action::PremiumAdd { bot_id, reason, duration };
            assert(out.values() =~= values_view(all));
            out
        },
        ActionKind::PremiumRemove => {
            assert(fits(types_of(kind)[1], all[1]@));
            let reason = take_text(&mut vals);
            assert(fits(types_of(kind)[0], all[0]@));
            let bot_id = take_text(&mut vals);
            let out = Action::PremiumRemove { bot_id, reason };
            assert(out.values() =~= values_view(all));
            out
        },
        ActionKind::VoteBanAdd => {
            assert(fits(types_of(kind)[1], all[1]@));
            let reason = take_text(&mut vals);
            assert(fits(types_of(kind)[0], all[0]@));
            let bot_id = take_text(&mut vals);
            let out = Action::VoteBanAdd { bot_id, reason };
            assert(out.values() =~= values_view(all));
            out
        },
        ActionKind::VoteBanRemove => {
            assert(fits(types_of(kind)[1], all[1]@));
            let reason = take_text(&mut vals);
            assert(fits(types_of(kind)[0], all[0]@));
            let bot_id = take_text(&mut vals);
            let out = Action::VoteBanRemove { bot_id, reason };
            assert(out.values() =~= values_view(all));
            out
        },
        ActionKind::ForceRemove => {
            assert(fits(types_of(kind)[2], all[2]@));
            let kick = take_flag(&mut vals);
            assert(fits(types_of(kind)[1], all[1]@));
            let reason = take_text(&mut vals);
            assert(fits(types_of(kind)[0], all[0]@));
            let bot_id = take_text(&mut vals);
            let out = Action::ForceRemove { bot_id, reason, kick };
            assert(out.values() =~= values_view(all));
            out
        },
        ActionKind::CertifyAdd => {
            assert(fits(types_of(kind)[1], all[1]@));
            let reason = take_text(&mut vals);
            assert(fits(types_of(kind)[0], all[0]@));
            let bot_id = take_text(&mut vals);
            let out = Action::CertifyAdd { bot_id, reason };
            assert(out.values() =~= values_view(all));
            out
        },
        ActionKind::CertifyRemove => {
            assert(fits(types_of(kind)[1], all[1]@));
            let reason = take_text(&mut vals);
            assert(fits(types_of(kind)[0], all[0]@));
            let bot_id = take_text(&mut vals);
            let out = Action::CertifyRemove { bot_id, reason };
            assert(out.values() =~= values_view(all));
            out
        },
        ActionKind::VoteCountSet => {
            assert(fits(types_of(kind)[2], all[2]@));
            let count = take_number(&mut vals);
            assert(fits(types_of(kind)[1], all[1]@));
            let reason = take_text(&mut vals);
            assert(fits(types_of(kind)[0], all[0]@));
            let bot_id = take_text(&mut vals);
            let out = Action::VoteCountSet { bot_id, reason, count };
            assert(out.values() =~= values_view(all));
            out
        },
        ActionKind::TransferOwnershipToUser => {
            assert(fits(types_of(kind)[2], all[2]@));
            let new_owner = take_text(&mut vals);
            assert(fits(types_of(kind)[1], all[1]@));
            let reason = take_text(&mut vals);
            assert(fits(types_of(kind)[0], all[0]@));
            let bot_id = take_text(&mut vals);
            let out = Action::TransferOwnershipToUser { bot_id, reason, new_owner };
            assert(out.values() =~= values_view(all));
            out
        },
        ActionKind::TransferOwnershipToTeam => {
            assert(fits(types_of(kind)[2], all[2]@));
            let new_team = take_text(&mut vals);
            assert(fits(types_of(kind)[1], all[1]@));
            let reason = take_text(&mut vals);
            assert(fits(types_of(kind)[0], all[0]@));
            let bot_id = take_text(&mut vals);
            let out = Action::TransferOwnershipToTeam { bot_id, reason, new_team };
            assert(out.values() =~= values_view(all));
            out
        },
        ActionKind::TeamNameEdit => {
            assert(fits(types_of(kind)[2], all[2]@));
            let reason = take_text(&mut vals);
            assert(fits(types_of(kind)[1], all[1]@));
            let new_name = take_text(&mut vals);
            assert(fits(types_of(kind)[0], all[0]@));
            let team_id = take_text(&mut vals);
            let out = Action::TeamNameEdit { team_id, new_name, reason };
            assert(out.values() =~= values_view(all));
            out
        },
    }
}

/// The texts of a submitted form, each as one that is there.
pub fn submitted(inputs: &Vec<String>) -> (out: Vec<Option<String>>)
    ensures
        opt_texts(out@) == given(texts(inputs@)),
{
    let mut out: Vec<Option<String>> = Vec::new();
    let mut i: usize = 0;
    while i < inputs.len()
        invariant
            i <= inputs.len(),
            opt_texts(out@) == given(texts(inputs@)).take(i as int),
        decreases inputs.len() - i,
    {
        let ghost before = out@;
        let text = inputs[i].clone();
        out.push(Some(text));
        assert(opt_texts(out@) == opt_texts(before).push(Some(inputs@[i as int]@)));
        assert(given(texts(inputs@)).take(i + 1) == given(texts(inputs@)).take(i as int).push(
            Some(inputs@[i as int]@),
        ));
        i += 1;
    }
    assert(given(texts(inputs@)).take(inputs.len() as int) == given(texts(inputs@)));
    out
}

/// Builds the action of the given kind from the texts of a submitted form,
/// which come in the order of the form's fields.
pub fn build(kind: ActionKind, inputs: &Vec<String>) -> (out: Result<Action, RpcError>)
    ensures
        match read_form(kind, given(texts(inputs@))) {
            Ok(vals) => out is Ok && out->Ok_0.kind_of() == kind && out->Ok_0.values() == vals,
            Err(e) => out == Err::<Action, RpcError>(e),
        },
{
    let raw = submitted(inputs);
    match read_all(kind, &raw) {
        Ok(vals) => Ok(assemble(kind, vals)),
        Err(e) => Err(e),
    }
}

} // verus!
