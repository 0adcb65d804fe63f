//! The interactive front-end as a state machine. One flow serves one
//! invocation: it asks the caller to confirm, asks for the fields of the
//! action, builds the action and hands it on, and reports the answer. The
//! surface that talks to the caller feeds it events and carries out the
//! command that each step gives back.

use vstd::prelude::*;
use crate::action::{Action, Value};
use crate::catalog::{kind_of, lemma_kind_of_name, name_of, types_of, ActionKind};
use crate::dispatch::{authorize, dispatch, dispatched, is_staff};
use crate::engine::{
    answer_view, has_bot, lemma_rows_stay_in_place, notice_of, notice_rows, rows_written,
    teams_after, OutcomeView, RPCHandle, RPCOutcome,
};
use crate::error::{ParseError, RpcError};
use crate::fields::{build, fails_first_at, field_result, read_form};
use crate::report::{
    command_error, command_error_text, denied, denied_text, failure, failure_text, fault_reply,
    fault_reply_text, refusal, refusal_text, success, success_text,
};
use crate::store::{BotState, BotView, Store, StoreView};
use crate::text::{given, texts};

verus! {

/// How long the caller has to answer the prompt or the form, in seconds.
/// The surface reports a `Timeout` when that time has passed.
pub const RESPONSE_TIMEOUT_SECS: u64 = 120;

/// Where a flow stands.
#[derive(Clone, Debug, PartialEq, Eq)]
pub enum FlowState {
    /// Nothing has happened yet.
    Idle,
    /// The caller has been asked to go on or to cancel.
    AwaitingConfirmation(ActionKind),
    /// The caller has been shown the form.
    AwaitingFields(ActionKind),
    /// The form was read and the action is built.
    Validated(Action),
    /// The action was carried out.
    Completed,
    /// The invocation ended in an error.
    Failed(RpcError),
    /// The caller cancelled or did not answer in time.
    Cancelled,
}

pub enum Phase {
    Idle,
    AwaitingConfirmation(ActionKind),
    AwaitingFields(ActionKind),
    Validated(ActionKind, Seq<Value>),
    Completed,
    Failed(RpcError),
    Cancelled,
}

impl View for FlowState {
    type V = Phase;

    open spec fn view(&self) -> Phase {
        match self {
            FlowState::Idle => Phase::Idle,
            FlowState::AwaitingConfirmation(k) => Phase::AwaitingConfirmation(*k),
            FlowState::AwaitingFields(k) => Phase::AwaitingFields(*k),
            FlowState::Validated(a) => Phase::Validated(a.kind_of(), a.values()),
            FlowState::Completed => Phase::Completed,
            FlowState::Failed(e) => Phase::Failed(*e),
            FlowState::Cancelled => Phase::Cancelled,
        }
    }
}

/// What the surface tells a flow.
#[derive(Debug, PartialEq, Eq)]
pub enum FlowEvent {
    /// The caller has invoked the command; the guard has said whether the
    /// caller may.
    Start { authorized: bool },
    /// The caller chose to go on.
    Confirm,
    /// The caller chose to cancel.
    Cancel,
    /// The caller did not answer in time.
    Timeout,
    /// The caller sent the form, with the texts in the order of its fields.
    Submit(Vec<String>),
    /// The action was handed on and this is the answer.
    Finished(Result<RPCOutcome, RpcError>),
}

pub enum EventView {
    Start { authorized: bool },
    Confirm,
    Cancel,
    Timeout,
    Submit(Seq<Seq<char>>),
    Finished(Result<OutcomeView, RpcError>),
}

impl View for FlowEvent {
    type V = EventView;

    open spec fn view(&self) -> EventView {
        match self {
            FlowEvent::Start { authorized } => EventView::Start { authorized: *authorized },
            FlowEvent::Confirm => EventView::Confirm,
            FlowEvent::Cancel => EventView::Cancel,
            FlowEvent::Timeout => EventView::Timeout,
            FlowEvent::Submit(inputs) => EventView::Submit(texts(inputs@)),
            FlowEvent::Finished(r) => EventView::Finished(answer_view(*r)),
        }
    }
}

/// What a flow asks the surface to do.
#[derive(Clone, Debug, PartialEq, Eq)]
pub enum Command {
    /// Nothing.
    Nothing,
    /// Ask the caller to go on or to cancel, and wait for the answer.
    Prompt,
    /// Take the prompt away.
    ClosePrompt,
    /// Take the prompt away, show the form for the action, and wait for it.
    Form(ActionKind),
    /// Hand the action that the flow holds on, and come back with the
    /// answer.
    Dispatch,
    /// Show the caller this message.
    Reply(String),
}

pub enum CommandView {
    Nothing,
    Prompt,
    ClosePrompt,
    Form(ActionKind),
    Dispatch,
    Reply(Seq<char>),
}

impl View for Command {
    type V = CommandView;

    open spec fn view(&self) -> CommandView {
        match self {
            Command::Nothing => CommandView::Nothing,
            Command::Prompt => CommandView::Prompt,
            Command::ClosePrompt => CommandView::ClosePrompt,
            Command::Form(k) => CommandView::Form(*k),
            Command::Dispatch => CommandView::Dispatch,
            Command::Reply(s) => CommandView::Reply(s@),
        }
    }
}

/// One invocation of the interactive front-end.
#[derive(Clone, Debug, PartialEq, Eq)]
pub struct Flow {
    /// The name of the action that the caller asked for.
    pub requested: String,
    pub state: FlowState,
}

/// The message for the answer that ends a flow. A fault of consistency is
/// told as an error of the command, with the name of the action that was
/// built and the name that was asked for; every other answer names the
/// action.
pub open spec fn closing_text(
    kind: ActionKind,
    requested: Seq<char>,
    answer: Result<OutcomeView, RpcError>,
) -> Seq<char> {
    match answer {
        Ok(o) => success_text(name_of(kind), o),
        Err(RpcError::ConsistencyFault) => fault_reply_text(name_of(kind), requested),
        Err(e) => failure_text(name_of(kind), e),
    }
}

/// The step that a flow takes on an event: where it stands afterwards and
/// what it asks of the surface. An event that does not fit the state is
/// passed over.
pub open spec fn next(requested: Seq<char>, phase: Phase, event: EventView) -> (
    Phase,
    CommandView,
) {
    match (phase, event) {
        (Phase::Idle, EventView::Start { authorized }) => if !authorized {
            (Phase::Failed(RpcError::Unauthorized), CommandView::Reply(denied_text()))
        } else {
            match kind_of(requested) {
                Ok(kind) => (Phase::AwaitingConfirmation(kind), CommandView::Prompt),
                Err(e) => (Phase::Failed(e), CommandView::Reply(command_error_text(e))),
            }
        },
        (Phase::AwaitingConfirmation(kind), EventView::Confirm) => (
            Phase::AwaitingFields(kind),
            CommandView::Form(kind),
        ),
        (Phase::AwaitingConfirmation(_), EventView::Cancel) => (
            Phase::Cancelled,
            CommandView::ClosePrompt,
        ),
        (Phase::AwaitingConfirmation(_), EventView::Timeout) => (
            Phase::Cancelled,
            CommandView::ClosePrompt,
        ),
        (Phase::AwaitingFields(kind), EventView::Submit(inputs)) => match read_form(
            kind,
            given(inputs),
        ) {
            Ok(vals) => (Phase::Validated(kind, vals), CommandView::Dispatch),
            Err(e) => (
                Phase::Failed(e),
                CommandView::Reply(
                    match e {
                        RpcError::Validation { field, cause } => refusal_text(
                            kind,
                            field as int,
                            cause,
                        ),
                        _ => command_error_text(e),
                    },
                ),
            ),
        },
        (Phase::AwaitingFields(_), EventView::Cancel) => (Phase::Cancelled, CommandView::Nothing),
        (Phase::AwaitingFields(_), EventView::Timeout) => (Phase::Cancelled, CommandView::Nothing),
        (Phase::Validated(kind, _), EventView::Finished(answer)) => (
            match answer {
                Ok(_) => Phase::Completed,
                Err(e) => Phase::Failed(e),
            },
            CommandView::Reply(closing_text(kind, requested, answer)),
        ),
        _ => (phase, CommandView::Nothing),
    }
}

impl Flow {
    /// A flow for the action of the given name, with nothing done yet.
    pub fn new(requested: String) -> (out: Flow)
        ensures
            out.requested@ == requested@,
            out.state@ == Phase::Idle,
    {
        Flow { requested, state: FlowState::Idle }
    }

    /// Starts a flow for a caller: asks the guard about the caller and takes
    /// the first step with the guard's answer.
    pub fn begin(requested: String, caller: &str, store: &Store) -> (out: (Flow, Command))
        ensures
            out.0.requested@ == requested@,
            (out.0.state@, out.1@) == next(
                requested@,
                Phase::Idle,
                EventView::Start { authorized: is_staff(store@.staff, caller@) },
            ),
    {
        let authorized = authorize(caller, store);
        Flow::new(requested).step(FlowEvent::Start { authorized })
    }

    /// Hands the action that the flow holds to the engine, under the name
    /// that the caller asked for, and takes the step for the answer. A flow
    /// that holds no action stays as it is, and so does the handle.
    pub fn run(self, handle: &mut RPCHandle) -> (out: (Flow, Command))
        ensures
            out.0.requested@ == self.requested@,
            final(handle).user_id@ == old(handle).user_id@,
            match self.state {
                FlowState::Validated(action) => {
                    let (store, answer) = dispatched(
                        self.requested@,
                        action,
                        old(handle).user_id@,
                        old(handle).store@,
                    );
                    &&& final(handle).store@ == store
                    &&& (out.0.state@, out.1@) == next(
                        self.requested@,
                        self.state@,
                        EventView::Finished(answer),
                    )
                    &&& notice_rows(final(handle).outbox@) == if answer is Ok {
                        notice_rows(old(handle).outbox@).push(
                            notice_of(action, old(handle).user_id@),
                        )
                    } else {
                        notice_rows(old(handle).outbox@)
                    }
                },
                _ => {
                    &&& final(handle).store@ == old(handle).store@
                    &&& notice_rows(final(handle).outbox@) == notice_rows(old(handle).outbox@)
                    &&& out.0.state@ == self.state@
                    &&& out.1@ == CommandView::Nothing
                },
            },
    {
        let Flow { requested, state } = self;
        match state {
            FlowState::Validated(action) => {
                let answer = dispatch(requested.as_str(), &action, handle);
                Flow { requested, state: FlowState::Validated(action) }.step(
                    FlowEvent::Finished(answer),
                )
            },
            other => (Flow { requested, state: other }, Command::Nothing),
        }
    }

    /// Takes one step on an event.
    pub fn step(self, event: FlowEvent) -> (out: (Flow, Command))
        ensures
            out.0.requested@ == self.requested@,
            (out.0.state@, out.1@) == next(self.requested@, self.state@, event@),
    {
        let Flow { requested, state } = self;
        match (state, event) {
            (FlowState::Idle, FlowEvent::Start { authorized }) => {
                if !authorized {
                    let text = denied();
                    (
                        Flow { requested, state: FlowState::Failed(RpcError::Unauthorized) },
                        Command::Reply(text),
                    )
                } else {
                    match ActionKind::from_name(requested.as_str()) {
                        Ok(kind) => (
                            Flow { requested, state: FlowState::AwaitingConfirmation(kind) },
                            Command::Prompt,
                        ),
                        Err(e) => {
                            let text = command_error(e);
                            (Flow { requested, state: FlowState::Failed(e) }, Command::Reply(text))
                        },
                    }
                }
            },
            (FlowState::AwaitingConfirmation(kind), FlowEvent::Confirm) => (
                Flow { requested, state: FlowState::AwaitingFields(kind) },
                Command::Form(kind),
            ),
            (FlowState::AwaitingConfirmation(_), FlowEvent::Cancel) => (
                Flow { requested, state: FlowState::Cancelled },
                Command::ClosePrompt,
            ),
            (FlowState::AwaitingConfirmation(_), FlowEvent::Timeout) => (
                Flow { requested, state: FlowState::Cancelled },
                Command::ClosePrompt,
            ),
            (FlowState::AwaitingFields(kind), FlowEvent::Submit(inputs)) => {
                match build(kind, &inputs) {
                    Ok(action) => (
                        Flow { requested, state: FlowState::Validated(action) },
                        Command::Dispatch,
                    ),
                    Err(e) => {
                        let text = match e {
                            RpcError::Validation { field, cause } => refusal(kind, field, cause),
                            _ => command_error(e),
                        };
                        (Flow { requested, state: FlowState::Failed(e) }, Command::Reply(text))
                    },
                }
            },
            (FlowState::AwaitingFields(_), FlowEvent::Cancel) => (
                Flow { requested, state: FlowState::Cancelled },
                Command::Nothing,
            ),
            (FlowState::AwaitingFields(_), FlowEvent::Timeout) => (
                Flow { requested, state: FlowState::Cancelled },
                Command::Nothing,
            ),
            (FlowState::Validated(action), FlowEvent::Finished(answer)) => {
                let kind = action.kind();
                match answer {
                    Ok(o) => {
                        let text = success(kind.name(), &o);
                        (Flow { requested, state: FlowState::Completed }, Command::Reply(text))
                    },
                    Err(e) => {
                        let text = match e {
                            RpcError::ConsistencyFault => fault_reply(
                                kind.name(),
                                requested.as_str(),
                            ),
                            _ => failure(kind.name(), e),
                        };
                        (Flow { requested, state: FlowState::Failed(e) }, Command::Reply(text))
                    },
                }
            },
            (state, _) => (Flow { requested, state }, Command::Nothing),
        }
    }
}

/// The flow has ended: no event moves it any more.
pub open spec fn is_final(phase: Phase) -> bool {
    phase is Completed || phase is Failed || phase is Cancelled
}

/// Where a flow stands after a run of events, one step for each.
pub open spec fn run(requested: Seq<char>, phase: Phase, events: Seq<EventView>) -> Phase
    decreases events.len(),
{
    if events.len() == 0 {
        phase
    } else {
        next(requested, run(requested, phase, events.drop_last()), events.last()).0
    }
}

/// A flow that has ended passes every event over and asks for nothing.
pub proof fn lemma_final_stays(requested: Seq<char>, phase: Phase, event: EventView)
    requires
        is_final(phase),
    ensures
        next(requested, phase, event) == (phase, CommandView::Nothing),
{
}

/// A flow shows the caller a message exactly when a step ends it in
/// `Completed` or `Failed`: one message for each such end, and none for a
/// flow that is cancelled or that goes on.
pub proof fn lemma_one_message_per_end(requested: Seq<char>, phase: Phase, event: EventView)
    ensures
        next(requested, phase, event).1 is Reply <==> !is_final(phase) && (next(
            requested,
            phase,
            event,
        ).0 is Completed || next(requested, phase, event).0 is Failed),
{
}

/// Once the action is built, the caller can no longer cancel: a `Cancel` or
/// a `Timeout` is passed over.
pub proof fn lemma_no_cancel_after_validation(requested: Seq<char>, phase: Phase)
    requires
        phase is Validated,
    ensures
        next(requested, phase, EventView::Cancel) == (phase, CommandView::Nothing),
        next(requested, phase, EventView::Timeout) == (phase, CommandView::Nothing),
{
}

/// A caller whom the guard has turned away gets `Unauthorized`, whatever
/// action was asked for.
pub proof fn lemma_unauthorized_start_fails(requested: Seq<char>)
    ensures
        next(requested, Phase::Idle, EventView::Start { authorized: false }).0 == Phase::Failed(
            RpcError::Unauthorized,
        ),
{
}

/// Without a start that the guard has let through, a flow never builds an
/// action and never asks for one to be handed on, whatever events it is
/// fed and whatever action was asked for: after each of them it has not
/// started or has ended.
pub proof fn lemma_no_action_without_authorization(
    requested: Seq<char>,
    events: Seq<EventView>,
    n: int,
)
    requires
        0 <= n <= events.len(),
        forall|i: int|
            0 <= i < events.len() ==> events[i] != (EventView::Start { authorized: true }),
    ensures
        run(requested, Phase::Idle, events.take(n)) is Idle || is_final(
            run(requested, Phase::Idle, events.take(n)),
        ),
        !(run(requested, Phase::Idle, events.take(n)) is Validated),
        n < events.len() ==> !(next(
            requested,
            run(requested, Phase::Idle, events.take(n)),
            events[n],
        ).1 is Dispatch),
    decreases n,
{
    if n > 0 {
        lemma_no_action_without_authorization(requested, events, n - 1);
        assert(events.take(n).drop_last() == events.take(n - 1));
        assert(events.take(n).last() == events[n - 1]);
    }
}

/// A flow whose caller does not answer the prompt in time is cancelled
/// without an action ever having been built.
pub proof fn lemma_timeout_cancels(requested: Seq<char>, kind: ActionKind)
    ensures
        next(requested, Phase::AwaitingConfirmation(kind), EventView::Timeout) == (
            Phase::Cancelled,
            CommandView::ClosePrompt,
        ),
        next(requested, Phase::AwaitingFields(kind), EventView::Timeout) == (
            Phase::Cancelled,
            CommandView::Nothing,
        ),
{
}

/// The kind that a flow works with is the kind that the requested name
/// stands for.
pub open spec fn coherent(requested: Seq<char>, phase: Phase) -> bool {
    match phase {
        Phase::AwaitingConfirmation(kind) => name_of(kind) == requested,
        Phase::AwaitingFields(kind) => name_of(kind) == requested,
        Phase::Validated(kind, _) => name_of(kind) == requested,
        _ => true,
    }
}

/// A step keeps a flow on the action that was asked for.
pub proof fn lemma_step_keeps_the_name(requested: Seq<char>, phase: Phase, event: EventView)
    requires
        coherent(requested, phase),
    ensures
        coherent(requested, next(requested, phase, event).0),
{
    if phase is Idle && kind_of(requested) is Ok {
        let kind = choose|k: ActionKind| name_of(k) == requested;
        assert(name_of(kind) == requested);
    }
}

/// Whatever events a flow is fed from its start, an action that it builds
/// carries the name that the caller asked for. Handing that action on never
/// ends in a fault of consistency.
pub proof fn lemma_flow_builds_what_was_asked(requested: Seq<char>, events: Seq<EventView>)
    ensures
        coherent(requested, run(requested, Phase::Idle, events)),
    decreases events.len(),
{
    if events.len() > 0 {
        lemma_flow_builds_what_was_asked(requested, events.drop_last());
        lemma_step_keeps_the_name(
            requested,
            run(requested, Phase::Idle, events.drop_last()),
            events.last(),
        );
    }
}

/// Approving a bot from end to end. A caller who is staff asks for
/// `ApproveBot`, confirms, and sends the form with the id of a bot that is
/// there and with a reason; the store takes the rows. Then the flow asks for
/// the prompt, the form and the hand-over in turn; every bot with the id is
/// approved and loses its claim, and nothing else in the store has changed;
/// and the flow ends in `Completed` with one message, which confirms the
/// approval by the bot's id.
pub proof fn lemma_approval_end_to_end(
    x: Seq<char>,
    r: Seq<char>,
    a: Action,
    caller: Seq<char>,
    s: StoreView,
)
    requires
        is_staff(s.staff, caller),
        r.len() > 0,
        has_bot(s.bots, x),
        a.kind_of() == ActionKind::ApproveBot,
        a.values() == seq![Value::Text(x), Value::Text(r)],
        s.write_limit is Some ==> rows_written(a, s) <= s.write_limit->Some_0,
    ensures
        next(
            "ApproveBot"@,
            Phase::Idle,
            EventView::Start { authorized: is_staff(s.staff, caller) },
        ) == (Phase::AwaitingConfirmation(ActionKind::ApproveBot), CommandView::Prompt),
        next(
            "ApproveBot"@,
            Phase::AwaitingConfirmation(ActionKind::ApproveBot),
            EventView::Confirm,
        ) == (
            Phase::AwaitingFields(ActionKind::ApproveBot),
            CommandView::Form(ActionKind::ApproveBot),
        ),
        next(
            "ApproveBot"@,
            Phase::AwaitingFields(ActionKind::ApproveBot),
            EventView::Submit(seq![x, r]),
        ) == (Phase::Validated(ActionKind::ApproveBot, a.values()), CommandView::Dispatch),
        dispatched("ApproveBot"@, a, caller, s).1 == Ok::<OutcomeView, RpcError>(
            OutcomeView::Content("Approved bot "@ + x),
        ),
        dispatched("ApproveBot"@, a, caller, s).0.bots.len() == s.bots.len(),
        forall|i: int|
            0 <= i < s.bots.len() ==> #[trigger] dispatched("ApproveBot"@, a, caller, s).0.bots[i]
                == if s.bots[i].bot_id == x {
                BotView { state: BotState::Approved, claimed_by: None, ..s.bots[i] }
            } else {
                s.bots[i]
            },
        dispatched("ApproveBot"@, a, caller, s).0.teams == s.teams,
        dispatched("ApproveBot"@, a, caller, s).0.staff == s.staff,
        next(
            "ApproveBot"@,
            Phase::Validated(ActionKind::ApproveBot, a.values()),
            EventView::Finished(dispatched("ApproveBot"@, a, caller, s).1),
        ) == (
            Phase::Completed,
            CommandView::Reply(
                success_text("ApproveBot"@, OutcomeView::Content("Approved bot "@ + x)),
            ),
        ),
{
    let kind = ActionKind::ApproveBot;
    let inputs = given(seq![x, r]);
    lemma_kind_of_name(kind);
    assert(a.values()[0] == Value::Text(a->ApproveBot_bot_id@));
    assert(a.values()[1] == Value::Text(a->ApproveBot_reason@));
    assert(a->ApproveBot_bot_id@ == x && a->ApproveBot_reason@ == r);
    assert(types_of(kind).len() == 2);
    assert(inputs[0] == Some(x) && inputs[1] == Some(r));
    assert(field_result(kind, inputs, 0) == Ok::<Value, ParseError>(Value::Text(x)));
    assert(field_result(kind, inputs, 1) == Ok::<Value, ParseError>(Value::Text(r)));
    assert forall|i: int| !fails_first_at(kind, inputs, i) by {
        if 0 <= i < 2 {
            assert(field_result(kind, inputs, i) is Ok);
        }
    }
    assert(read_form(kind, inputs)->Ok_0 =~= a.values());
    assert(r != Seq::<char>::empty());
    lemma_rows_stay_in_place(a, caller, s.bots);
    assert(teams_after(a, s.teams) =~= s.teams);
}

} // verus!
