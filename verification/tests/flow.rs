use staff_rpc::action::Action;
use staff_rpc::catalog::ActionKind;
use staff_rpc::dispatch::{authorize, dispatch};
use staff_rpc::engine::{RPCHandle, RPCOutcome};
use staff_rpc::error::{IntegerError, ParseError, RpcError, Rule, Target};
use staff_rpc::flow::{Command, Flow, FlowEvent, FlowState, RESPONSE_TIMEOUT_SECS};
use staff_rpc::store::{Bot, BotState, Owner, Store};

fn started(name: &str) -> Flow {
    let (flow, command) = Flow::new(name.to_string()).step(FlowEvent::Start { authorized: true });
    assert_eq!(command, Command::Prompt);
    flow
}

fn at_form(name: &str) -> Flow {
    let (flow, _) = started(name).step(FlowEvent::Confirm);
    flow
}

fn texts(v: &[&str]) -> Vec<String> {
    v.iter().map(|s| s.to_string()).collect()
}

fn handle(caller: &str) -> RPCHandle {
    RPCHandle {
        store: Store {
            bots: vec![Bot {
                bot_id: "X".to_string(),
                state: BotState::Pending,
                claimed_by: Some("staff".to_string()),
                votes: 3,
                vote_banned: false,
                premium_hours: 10,
                owner: Owner::User("owner".to_string()),
                owner_cache: None,
            }],
            teams: Vec::new(),
            staff: vec!["staff".to_string()],
            write_limit: None,
        },
        user_id: caller.to_string(),
        outbox: Vec::new(),
    }
}

#[test]
fn the_window_is_two_minutes() {
    assert_eq!(RESPONSE_TIMEOUT_SECS, 120);
}

#[test]
fn a_new_flow_is_idle() {
    let flow = Flow::new("ClaimBot".to_string());
    assert_eq!(flow.state, FlowState::Idle);
    assert_eq!(flow.requested, "ClaimBot");
}

#[test]
fn start_prompts_for_confirmation() {
    let flow = started("ApproveBot");
    assert_eq!(flow.state, FlowState::AwaitingConfirmation(ActionKind::ApproveBot));
    assert_eq!(flow.requested, "ApproveBot");
}

#[test]
fn start_refuses_callers_who_are_not_staff() {
    for kind in ActionKind::all() {
        let flow = Flow::new(kind.name().to_string());
        let (flow, command) = flow.step(FlowEvent::Start { authorized: false });
        assert_eq!(flow.state, FlowState::Failed(RpcError::Unauthorized));
        assert_eq!(
            command,
            Command::Reply(
                "Whoa there, do you have permission to do this?: Only staff may run administrative actions"
                    .to_string()
            )
        );
        let (flow, command) = flow.step(FlowEvent::Confirm);
        assert_eq!(command, Command::Nothing);
        let (flow, command) = flow.step(FlowEvent::Submit(texts(&["X", "y", "z"])));
        assert_eq!(command, Command::Nothing);
        assert_eq!(flow.state, FlowState::Failed(RpcError::Unauthorized));
    }
}

#[test]
fn start_refuses_unknown_names() {
    let (flow, command) =
        Flow::new("Approve".to_string()).step(FlowEvent::Start { authorized: true });
    assert_eq!(flow.state, FlowState::Failed(RpcError::UnknownAction));
    assert_eq!(
        command,
        Command::Reply(
            "There was an error running this command: Matching variant not found".to_string()
        )
    );
}

#[test]
fn cancel_and_timeout_end_the_flow_quietly() {
    let (flow, command) = started("ClaimBot").step(FlowEvent::Cancel);
    assert_eq!((flow.state, command), (FlowState::Cancelled, Command::ClosePrompt));
    let (flow, command) = started("ClaimBot").step(FlowEvent::Timeout);
    assert_eq!((flow.state, command), (FlowState::Cancelled, Command::ClosePrompt));
    let (flow, command) = at_form("ClaimBot").step(FlowEvent::Timeout);
    assert_eq!((flow.state, command), (FlowState::Cancelled, Command::Nothing));
    let (flow, command) = at_form("ClaimBot").step(FlowEvent::Cancel);
    assert_eq!((flow.state.clone(), command), (FlowState::Cancelled, Command::Nothing));
    let (flow, command) = flow.step(FlowEvent::Submit(texts(&["X", "y"])));
    assert_eq!((flow.state, command), (FlowState::Cancelled, Command::Nothing));
}

#[test]
fn confirm_shows_the_form() {
    let (flow, command) = started("PremiumAdd").step(FlowEvent::Confirm);
    assert_eq!(flow.state, FlowState::AwaitingFields(ActionKind::PremiumAdd));
    assert_eq!(command, Command::Form(ActionKind::PremiumAdd));
}

#[test]
fn submit_builds_the_action() {
    let (flow, command) =
        at_form("PremiumAdd").step(FlowEvent::Submit(texts(&["X", "paid", "2 weeks"])));
    assert_eq!(command, Command::Dispatch);
    assert_eq!(
        flow.state,
        FlowState::Validated(Action::PremiumAdd {
            bot_id: "X".to_string(),
            reason: "paid".to_string(),
            duration: 336
        })
    );
}

#[test]
fn submit_reports_the_first_bad_field() {
    let (flow, command) =
        at_form("ForceRemove").step(FlowEvent::Submit(texts(&["X", "spam", "maybe"])));
    assert_eq!(
        flow.state,
        FlowState::Failed(RpcError::Validation { field: 2, cause: ParseError::InvalidBoolean })
    );
    assert_eq!(command, Command::Reply("**Error parsing `kick`: Invalid boolean**".to_string()));

    let (flow, command) =
        at_form("VoteCountSet").step(FlowEvent::Submit(texts(&["X", "fix", "ten"])));
    assert_eq!(
        flow.state,
        FlowState::Failed(RpcError::Validation {
            field: 2,
            cause: ParseError::Integer(IntegerError::InvalidDigit)
        })
    );
    assert_eq!(
        command,
        Command::Reply("**Error parsing `count`: invalid digit found in string**".to_string())
    );

    let (_, command) = at_form("PremiumAdd").step(FlowEvent::Submit(texts(&["X", "paid", "5"])));
    assert_eq!(
        command,
        Command::Reply(
            "**Invalid time format. Format must be WITH A SPACE BETWEEN THE NUMBER AND THE UNIT**"
                .to_string()
        )
    );

    let (_, command) = at_form("ClaimBot").step(FlowEvent::Submit(texts(&["X", "perhaps"])));
    assert_eq!(command, Command::Reply("**Error parsing `force`: Invalid boolean**".to_string()));

    let (_, command) = at_form("ClaimBot").step(FlowEvent::Submit(texts(&["X"])));
    assert_eq!(command, Command::Reply("**Error parsing `force`: No value given**".to_string()));
}

#[test]
fn the_answer_ends_the_flow_with_one_message() {
    let validated = || {
        at_form("ApproveBot").step(FlowEvent::Submit(texts(&["X", "fine"]))).0
    };
    let (flow, command) = validated().step(FlowEvent::Finished(Ok(RPCOutcome::NoContent)));
    assert_eq!(flow.state, FlowState::Completed);
    assert_eq!(
        command,
        Command::Reply("Successfully performed the operation required: `ApproveBot`".to_string())
    );
    let (flow, command) = flow.step(FlowEvent::Finished(Ok(RPCOutcome::NoContent)));
    assert_eq!((flow.state, command), (FlowState::Completed, Command::Nothing));

    let (flow, command) =
        validated().step(FlowEvent::Finished(Ok(RPCOutcome::Content("Approved bot X".into()))));
    assert_eq!(flow.state, FlowState::Completed);
    assert_eq!(
        command,
        Command::Reply(
            "Successfully performed the operation required: `ApproveBot`\n**Approved bot X**"
                .to_string()
        )
    );

    let (flow, command) =
        validated().step(FlowEvent::Finished(Err(RpcError::NotFound(Target::Bot))));
    assert_eq!(flow.state, FlowState::Failed(RpcError::NotFound(Target::Bot)));
    assert_eq!(
        command,
        Command::Reply("Error performing `ApproveBot`: **No bot has this id**".to_string())
    );

    let (flow, command) = validated().step(FlowEvent::Finished(Err(RpcError::ConsistencyFault)));
    assert_eq!(flow.state, FlowState::Failed(RpcError::ConsistencyFault));
    assert_eq!(
        command,
        Command::Reply(
            "There was an error running this command: Internal error: method (ApproveBot) != variant (ApproveBot)"
                .to_string()
        )
    );
}

#[test]
fn a_validated_flow_cannot_be_cancelled() {
    let (flow, _) = at_form("ApproveBot").step(FlowEvent::Submit(texts(&["X", "fine"])));
    let before = flow.clone();
    let (flow, command) = flow.step(FlowEvent::Cancel);
    assert_eq!((&flow, command), (&before, Command::Nothing));
    let (flow, command) = flow.step(FlowEvent::Timeout);
    assert_eq!((&flow, command), (&before, Command::Nothing));
}

#[test]
fn events_out_of_turn_are_passed_over() {
    let idle = Flow::new("ClaimBot".to_string());
    let (flow, command) = idle.step(FlowEvent::Submit(texts(&["X", "y"])));
    assert_eq!((flow.state.clone(), command), (FlowState::Idle, Command::Nothing));
    let (flow, command) = flow.step(FlowEvent::Confirm);
    assert_eq!((flow.state, command), (FlowState::Idle, Command::Nothing));
    let (flow, command) = started("ClaimBot").step(FlowEvent::Submit(texts(&["X", "y"])));
    assert_eq!(flow.state, FlowState::AwaitingConfirmation(ActionKind::ClaimBot));
    assert_eq!(command, Command::Nothing);
    let (flow, command) = started("ClaimBot").step(FlowEvent::Start { authorized: true });
    assert_eq!(flow.state, FlowState::AwaitingConfirmation(ActionKind::ClaimBot));
    assert_eq!(command, Command::Nothing);
}

fn drive(name: &str, caller: &str, inputs: &[&str], h: &mut RPCHandle) -> (Flow, Vec<Command>) {
    let mut commands = Vec::new();
    let (mut flow, command) = Flow::begin(name.to_string(), caller, &h.store);
    commands.push(command);
    if commands.last() == Some(&Command::Prompt) {
        let (next, command) = flow.step(FlowEvent::Confirm);
        flow = next;
        commands.push(command);
        let (next, command) = flow.step(FlowEvent::Submit(texts(inputs)));
        flow = next;
        commands.push(command);
    }
    if commands.last() == Some(&Command::Dispatch) {
        let (next, command) = flow.run(h);
        flow = next;
        commands.push(command);
    }
    (flow, commands)
}

#[test]
fn run_is_dispatch_and_the_step_for_its_answer() {
    let (flow, _) = at_form("VoteReset").step(FlowEvent::Submit(texts(&["X", "why"])));
    let action = match &flow.state {
        FlowState::Validated(action) => action.clone(),
        other => panic!("no action in {other:?}"),
    };
    let mut by_hand = handle("staff");
    let answer = dispatch(&flow.requested, &action, &mut by_hand);
    let expected = flow.clone().step(FlowEvent::Finished(answer));
    let mut h = handle("staff");
    assert_eq!(flow.run(&mut h), expected);
    assert_eq!(h, by_hand);
    assert_eq!(h.store.bots[0].votes, 0);
}

#[test]
fn run_without_an_action_does_nothing() {
    let mut h = handle("staff");
    let flow = started("VoteReset");
    let before = flow.clone();
    assert_eq!(flow.run(&mut h), (before, Command::Nothing));
    assert_eq!(h, handle("staff"));
}

#[test]
fn a_flow_with_another_name_than_its_action_faults() {
    let flow = Flow {
        requested: "ApproveBot".to_string(),
        state: FlowState::Validated(Action::DenyBot {
            bot_id: "X".to_string(),
            reason: "r".to_string(),
        }),
    };
    let mut h = handle("staff");
    let (flow, command) = flow.run(&mut h);
    assert_eq!(flow.state, FlowState::Failed(RpcError::ConsistencyFault));
    assert_eq!(
        command,
        Command::Reply(
            "There was an error running this command: Internal error: method (DenyBot) != variant (ApproveBot)"
                .to_string()
        )
    );
    assert_eq!(h, handle("staff"));
}

#[test]
fn staff_approves_a_bot_end_to_end() {
    let mut h = handle("staff");
    let (flow, commands) = drive("ApproveBot", "staff", &["X", "fine bot"], &mut h);
    assert_eq!(flow.state, FlowState::Completed);
    assert_eq!(h.store.bots[0].state, BotState::Approved);
    assert_eq!(
        commands,
        vec![
            Command::Prompt,
            Command::Form(ActionKind::ApproveBot),
            Command::Dispatch,
            Command::Reply(
                "Successfully performed the operation required: `ApproveBot`\n**Approved bot X**"
                    .to_string()
            ),
        ]
    );
    assert_eq!(h.outbox.len(), 1);
}

#[test]
fn a_stranger_changes_nothing_end_to_end() {
    for kind in ActionKind::all() {
        let mut h = handle("stranger");
        let (flow, commands) = drive(kind.name(), "stranger", &["X", "y", "2 weeks"], &mut h);
        assert_eq!(flow.state, FlowState::Failed(RpcError::Unauthorized));
        assert_eq!(commands.len(), 1);
        assert_eq!(h, handle("stranger"));
    }
}

#[test]
fn silence_cancels_end_to_end() {
    let h = handle("staff");
    let (flow, _) = Flow::new("ApproveBot".to_string())
        .step(FlowEvent::Start { authorized: authorize("staff", &h.store) });
    let (flow, command) = flow.step(FlowEvent::Timeout);
    assert_eq!(flow.state, FlowState::Cancelled);
    assert_eq!(command, Command::ClosePrompt);
    assert_eq!(h, handle("staff"));
}

#[test]
fn a_bad_kick_removes_nothing_end_to_end() {
    let mut h = handle("staff");
    let (flow, commands) = drive("ForceRemove", "staff", &["X", "spam", "maybe"], &mut h);
    assert_eq!(
        flow.state,
        FlowState::Failed(RpcError::Validation { field: 2, cause: ParseError::InvalidBoolean })
    );
    assert_eq!(commands.len(), 3);
    assert_eq!(h, handle("staff"));
}

#[test]
fn an_engine_refusal_is_reported_end_to_end() {
    let mut h = handle("staff");
    let (flow, commands) = drive("ClaimBot", "staff", &["X", "n"], &mut h);
    assert_eq!(flow.state, FlowState::Failed(RpcError::Rejected(Rule::AlreadyClaimed)));
    assert_eq!(
        commands.last(),
        Some(&Command::Reply(
            "Error performing `ClaimBot`: **This bot is claimed already; force the claim to take it over**"
                .to_string()
        ))
    );
    assert_eq!(h, handle("staff"));
}
