use staff_rpc::action::Action;
use staff_rpc::direct::{find, invoke, prepare, respond, wire, Request};
use staff_rpc::models::APIResponse;
use staff_rpc::catalog::ActionKind;
use staff_rpc::engine::{RPCHandle, RPCOutcome};
use staff_rpc::error::{ParseError, RpcError, Target};
use staff_rpc::store::{Bot, BotState, Owner, Store};

fn handle(caller: &str) -> RPCHandle {
    RPCHandle {
        store: Store {
            bots: vec![Bot {
                bot_id: "X".to_string(),
                state: BotState::Approved,
                claimed_by: None,
                votes: 3,
                vote_banned: false,
                premium_hours: 10,
                owner: Owner::User("owner".to_string()),
                owner_cache: None,
            }],
            teams: Vec::new(),
            staff: vec!["staff".to_string()],
            write_limit: None,
        },
        user_id: caller.to_string(),
        outbox: Vec::new(),
    }
}

fn request(action: &str, fields: &[(&str, &str)]) -> Request {
    Request {
        action: action.to_string(),
        fields: fields.iter().map(|(k, v)| (k.to_string(), v.to_string())).collect(),
    }
}

#[test]
fn premium_by_request_extends_the_window() {
    let mut h = handle("staff");
    let req = request("PremiumAdd", &[("duration", "2 weeks"), ("bot_id", "X"), ("reason", "paid")]);
    assert_eq!(invoke(&req, &mut h), Ok(RPCOutcome::NoContent));
    assert_eq!(h.store.bots[0].premium_hours, 10 + 336);
    assert_eq!(h.outbox.len(), 1);
}

#[test]
fn a_request_gets_the_answer_of_the_engine() {
    let mut h = handle("staff");
    let req = request("ApproveBot", &[("bot_id", "X"), ("reason", "fine")]);
    assert_eq!(invoke(&req, &mut h), Ok(RPCOutcome::Content("Approved bot X".to_string())));
    let req = request("ApproveBot", &[("bot_id", "Y"), ("reason", "fine")]);
    assert_eq!(invoke(&req, &mut h), Err(RpcError::NotFound(Target::Bot)));
}

#[test]
fn a_request_from_a_stranger_changes_nothing() {
    for kind in ActionKind::all() {
        let mut h = handle("stranger");
        let fields = [
            ("bot_id", "X"),
            ("team_id", "t"),
            ("reason", "r"),
            ("force", "y"),
            ("kick", "y"),
            ("count", "1"),
            ("duration", "1 day"),
            ("new_owner", "u"),
            ("new_team", "t"),
            ("new_name", "n"),
        ];
        let req = request(kind.name(), &fields);
        assert_eq!(prepare(&req, &h), Err(RpcError::Unauthorized));
        assert_eq!(invoke(&req, &mut h), Err(RpcError::Unauthorized), "{kind:?}");
        assert_eq!(h, handle("stranger"));
    }
}

#[test]
fn a_request_with_a_bad_field_changes_nothing() {
    let mut h = handle("staff");
    let req = request("ForceRemove", &[("bot_id", "X"), ("reason", "spam"), ("kick", "maybe")]);
    assert_eq!(
        invoke(&req, &mut h),
        Err(RpcError::Validation { field: 2, cause: ParseError::InvalidBoolean })
    );
    assert_eq!(h, handle("staff"));
    let req = request("ForceRemove", &[("bot_id", "X"), ("kick", "y")]);
    assert_eq!(
        invoke(&req, &mut h),
        Err(RpcError::Validation { field: 1, cause: ParseError::Missing })
    );
    let req = request("PremiumAdd", &[("bot_id", "X"), ("reason", "r"), ("duration", "5 fortnights")]);
    assert_eq!(
        invoke(&req, &mut h),
        Err(RpcError::Validation { field: 2, cause: ParseError::DurationUnit })
    );
    assert_eq!(h, handle("staff"));
}

#[test]
fn a_request_for_an_unknown_action_is_refused() {
    let mut h = handle("staff");
    let req = request("Promote", &[("bot_id", "X")]);
    assert_eq!(invoke(&req, &mut h), Err(RpcError::UnknownAction));
    let mut h = handle("stranger");
    assert_eq!(invoke(&req, &mut h), Err(RpcError::UnknownAction));
    assert_eq!(h, handle("stranger"));
}

#[test]
fn prepare_makes_the_action() {
    let h = handle("staff");
    let req = request("ClaimBot", &[("force", "T"), ("bot_id", "X"), ("extra", "1")]);
    assert_eq!(prepare(&req, &h), Ok(Action::ClaimBot { bot_id: "X".to_string(), force: true }));
}

#[test]
fn the_first_text_under_a_name_counts() {
    let req = request("ClaimBot", &[("bot_id", "X"), ("bot_id", "Y"), ("force", "n")]);
    assert_eq!(find(&req.fields, "bot_id"), Some("X".to_string()));
    assert_eq!(find(&req.fields, "force"), Some("n".to_string()));
    assert_eq!(find(&req.fields, "kick"), None);
    assert_eq!(find(&req.fields, "Bot_id"), None);
    assert_eq!(
        wire(ActionKind::ClaimBot, &req.fields),
        vec![Some("X".to_string()), Some("n".to_string())]
    );
    assert_eq!(
        wire(ActionKind::ForceRemove, &req.fields),
        vec![Some("X".to_string()), None, None]
    );
}

#[test]
fn answers_go_back_over_the_wire() {
    assert_eq!(
        respond(Ok(RPCOutcome::NoContent)),
        APIResponse { done: true, reason: String::new(), context: None }
    );
    assert_eq!(
        respond(Ok(RPCOutcome::Content("Approved bot X".to_string()))),
        APIResponse { done: true, reason: String::new(), context: Some("Approved bot X".to_string()) }
    );
    assert_eq!(
        respond(Err(RpcError::Unauthorized)),
        APIResponse {
            done: false,
            reason: "Only staff may run administrative actions".to_string(),
            context: None
        }
    );
    let mut h = handle("staff");
    let req = request("ForceRemove", &[("bot_id", "X"), ("reason", "spam"), ("kick", "maybe")]);
    assert_eq!(
        respond(invoke(&req, &mut h)),
        APIResponse { done: false, reason: "Invalid boolean".to_string(), context: None }
    );
}
