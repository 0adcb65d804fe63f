use staff_rpc::action::Action;
use staff_rpc::catalog::ActionKind;
use staff_rpc::dispatch::{authorize, dispatch};
use staff_rpc::engine::{execute, kick_of, Notice, RPCHandle, RPCOutcome};
use staff_rpc::report::notice_words;
use staff_rpc::error::{RpcError, Rule, Target};
use staff_rpc::store::{changes, same_opt, Bot, BotState, Owner, Store, Team, Write};

fn bot(id: &str) -> Bot {
    Bot {
        bot_id: id.to_string(),
        state: BotState::Pending,
        claimed_by: None,
        votes: 5,
        vote_banned: false,
        premium_hours: 0,
        owner: Owner::User("owner".to_string()),
        owner_cache: Some("Owner Name".to_string()),
    }
}

fn handle() -> RPCHandle {
    let mut b = bot("b");
    b.votes = 11;
    let mut c = bot("c");
    c.votes = 22;
    c.claimed_by = Some("other".to_string());
    RPCHandle {
        store: Store {
            bots: vec![bot("a"), b, c],
            teams: vec![
                Team { team_id: "t1".to_string(), name: "One".to_string() },
                Team { team_id: "t2".to_string(), name: "Two".to_string() },
            ],
            staff: vec!["staff".to_string(), "lead".to_string()],
            write_limit: None,
        },
        user_id: "staff".to_string(),
        outbox: Vec::new(),
    }
}

fn s(v: &str) -> String {
    v.to_string()
}

#[test]
fn approve_sets_the_state_and_confirms() {
    let mut h = handle();
    h.store.bots[0].claimed_by = Some(s("staff"));
    let action = Action::ApproveBot { bot_id: s("a"), reason: s("works well") };
    let out = execute(&action, &mut h);
    assert_eq!(out, Ok(RPCOutcome::Content(s("Approved bot a"))));
    assert_eq!(h.store.bots[0].state, BotState::Approved);
    assert_eq!(h.store.bots[0].claimed_by, None);
    assert_eq!(h.store.bots[1], handle().store.bots[1]);
    assert_eq!(h.store.bots[2], handle().store.bots[2]);
    assert_eq!(
        h.outbox,
        vec![Notice {
            kind: ActionKind::ApproveBot,
            target: s("a"),
            staff: s("staff"),
            reason: s("works well"),
            kick: false
        }]
    );
}

#[test]
fn deny_sets_the_state_and_confirms() {
    let mut h = handle();
    let out = execute(&Action::DenyBot { bot_id: s("b"), reason: s("crashes") }, &mut h);
    assert_eq!(out, Ok(RPCOutcome::Content(s("Denied bot b"))));
    assert_eq!(h.store.bots[1].state, BotState::Denied);
}

#[test]
fn claim_takes_an_unclaimed_bot() {
    let mut h = handle();
    let out = execute(&Action::ClaimBot { bot_id: s("a"), force: false }, &mut h);
    assert_eq!(out, Ok(RPCOutcome::NoContent));
    assert_eq!(h.store.bots[0].claimed_by, Some(s("staff")));
    assert_eq!(h.outbox[0].reason, "");
}

#[test]
fn claim_of_a_claimed_bot_needs_force() {
    let mut h = handle();
    let out = execute(&Action::ClaimBot { bot_id: s("c"), force: false }, &mut h);
    assert_eq!(out, Err(RpcError::Rejected(Rule::AlreadyClaimed)));
    assert_eq!(h, handle());
    let out = execute(&Action::ClaimBot { bot_id: s("c"), force: true }, &mut h);
    assert_eq!(out, Ok(RPCOutcome::NoContent));
    assert_eq!(h.store.bots[2].claimed_by, Some(s("staff")));
}

#[test]
fn unclaim_and_unverify() {
    let mut h = handle();
    assert_eq!(
        execute(&Action::UnclaimBot { bot_id: s("c"), reason: s("busy") }, &mut h),
        Ok(RPCOutcome::NoContent)
    );
    assert_eq!(h.store.bots[2].claimed_by, None);
    h.store.bots[0].state = BotState::Approved;
    h.store.bots[0].claimed_by = Some(s("x"));
    assert_eq!(
        execute(&Action::Unverify { bot_id: s("a"), reason: s("proof") }, &mut h),
        Ok(RPCOutcome::NoContent)
    );
    assert_eq!(h.store.bots[0].state, BotState::Pending);
    assert_eq!(h.store.bots[0].claimed_by, None);
}

#[test]
fn votes_reset_set_and_ban() {
    let mut h = handle();
    execute(&Action::VoteReset { bot_id: s("b"), reason: s("r") }, &mut h).unwrap();
    assert_eq!(h.store.bots.iter().map(|b| b.votes).collect::<Vec<_>>(), vec![5, 0, 22]);
    execute(&Action::VoteCountSet { bot_id: s("a"), reason: s("r"), count: 77 }, &mut h).unwrap();
    assert_eq!(h.store.bots[0].votes, 77);
    execute(&Action::VoteBanAdd { bot_id: s("a"), reason: s("r") }, &mut h).unwrap();
    assert!(h.store.bots[0].vote_banned);
    execute(&Action::VoteBanRemove { bot_id: s("a"), reason: s("r") }, &mut h).unwrap();
    assert!(!h.store.bots[0].vote_banned);
}

#[test]
fn vote_reset_all_resets_every_bot() {
    let mut h = handle();
    let out = execute(&Action::VoteResetAll { reason: s("new season") }, &mut h);
    assert_eq!(out, Ok(RPCOutcome::NoContent));
    assert!(h.store.bots.iter().all(|b| b.votes == 0));
    assert_eq!(h.outbox[0].target, "");
    let mut expected = handle().store.bots;
    for b in expected.iter_mut() {
        b.votes = 0;
    }
    assert_eq!(h.store.bots, expected);
}

#[test]
fn vote_reset_all_is_all_or_nothing() {
    for limit in 0..3 {
        let mut h = handle();
        h.store.write_limit = Some(limit);
        let before = h.clone();
        let out = execute(&Action::VoteResetAll { reason: s("new season") }, &mut h);
        assert_eq!(out, Err(RpcError::Persistence), "limit {limit}");
        assert_eq!(h, before);
        assert_eq!(h.store.bots.iter().map(|b| b.votes).collect::<Vec<_>>(), vec![5, 11, 22]);
    }
    let mut h = handle();
    h.store.write_limit = Some(3);
    let out = execute(&Action::VoteResetAll { reason: s("new season") }, &mut h);
    assert_eq!(out, Ok(RPCOutcome::NoContent));
    assert!(h.store.bots.iter().all(|b| b.votes == 0));
}

#[test]
fn vote_reset_all_on_an_empty_list() {
    let mut h = handle();
    h.store.bots.clear();
    h.store.write_limit = Some(0);
    assert_eq!(
        execute(&Action::VoteResetAll { reason: s("r") }, &mut h),
        Ok(RPCOutcome::NoContent)
    );
}

#[test]
fn a_failing_store_fails_single_rows_too() {
    let mut h = handle();
    h.store.write_limit = Some(0);
    let before = h.clone();
    let out = execute(&Action::ApproveBot { bot_id: s("a"), reason: s("ok") }, &mut h);
    assert_eq!(out, Err(RpcError::Persistence));
    assert_eq!(h, before);
    let out = execute(
        &Action::TeamNameEdit { team_id: s("t1"), new_name: s("N"), reason: s("r") },
        &mut h,
    );
    assert_eq!(out, Err(RpcError::Persistence));
    assert_eq!(h, before);
}

#[test]
fn premium_extends_the_window() {
    let mut h = handle();
    let add = Action::PremiumAdd { bot_id: s("a"), reason: s("paid"), duration: 336 };
    assert_eq!(execute(&add, &mut h), Ok(RPCOutcome::NoContent));
    assert_eq!(h.store.bots[0].premium_hours, 336);
    assert_eq!(execute(&add, &mut h), Ok(RPCOutcome::NoContent));
    assert_eq!(h.store.bots[0].premium_hours, 672);
    let remove = Action::PremiumRemove { bot_id: s("a"), reason: s("refund") };
    assert_eq!(execute(&remove, &mut h), Ok(RPCOutcome::NoContent));
    assert_eq!(h.store.bots[0].premium_hours, 0);
}

#[test]
fn premium_period_must_be_positive_and_countable() {
    for duration in [0, -24, i32::MIN] {
        let mut h = handle();
        let add = Action::PremiumAdd { bot_id: s("a"), reason: s("paid"), duration };
        assert_eq!(execute(&add, &mut h), Err(RpcError::Rejected(Rule::PremiumPeriod)));
        assert_eq!(h, handle());
    }
    let mut h = handle();
    h.store.bots[0].premium_hours = u64::MAX - 10;
    let before = h.clone();
    let add = Action::PremiumAdd { bot_id: s("a"), reason: s("paid"), duration: 11 };
    assert_eq!(execute(&add, &mut h), Err(RpcError::Rejected(Rule::PremiumPeriod)));
    assert_eq!(h, before);
    let add = Action::PremiumAdd { bot_id: s("a"), reason: s("paid"), duration: 10 };
    assert_eq!(execute(&add, &mut h), Ok(RPCOutcome::NoContent));
    assert_eq!(h.store.bots[0].premium_hours, u64::MAX);
}

#[test]
fn certify_and_uncertify() {
    let mut h = handle();
    execute(&Action::CertifyAdd { bot_id: s("a"), reason: s("r") }, &mut h).unwrap();
    assert_eq!(h.store.bots[0].state, BotState::Certified);
    execute(&Action::CertifyRemove { bot_id: s("a"), reason: s("r") }, &mut h).unwrap();
    assert_eq!(h.store.bots[0].state, BotState::Approved);
}

#[test]
fn force_remove_drops_the_row() {
    let mut h = handle();
    let out = execute(&Action::ForceRemove { bot_id: s("b"), reason: s("spam"), kick: true }, &mut h);
    assert_eq!(out, Ok(RPCOutcome::NoContent));
    let ids: Vec<&str> = h.store.bots.iter().map(|b| b.bot_id.as_str()).collect();
    assert_eq!(ids, vec!["a", "c"]);
    assert!(h.outbox[0].kick);
    assert_eq!(h.outbox[0].kind, ActionKind::ForceRemove);
    let out =
        execute(&Action::ForceRemove { bot_id: s("a"), reason: s("spam"), kick: false }, &mut h);
    assert_eq!(out, Ok(RPCOutcome::NoContent));
    assert!(!h.outbox[1].kick);
    assert_eq!(h.store.bots.len(), 1);
}

#[test]
fn transfer_changes_the_owner_and_clears_the_cache() {
    let mut h = handle();
    let to_user =
        Action::TransferOwnershipToUser { bot_id: s("a"), reason: s("sold"), new_owner: s("u2") };
    assert_eq!(execute(&to_user, &mut h), Ok(RPCOutcome::NoContent));
    assert_eq!(h.store.bots[0].owner, Owner::User(s("u2")));
    assert_eq!(h.store.bots[0].owner_cache, None);
    assert_eq!(h.store.bots[1].owner_cache, Some(s("Owner Name")));
    let to_team =
        Action::TransferOwnershipToTeam { bot_id: s("b"), reason: s("sold"), new_team: s("t2") };
    assert_eq!(execute(&to_team, &mut h), Ok(RPCOutcome::NoContent));
    assert_eq!(h.store.bots[1].owner, Owner::Team(s("t2")));
    assert_eq!(h.store.bots[1].owner_cache, None);
}

#[test]
fn team_name_edit_renames_the_team() {
    let mut h = handle();
    let edit = Action::TeamNameEdit { team_id: s("t2"), new_name: s("Deux"), reason: s("typo") };
    assert_eq!(execute(&edit, &mut h), Ok(RPCOutcome::NoContent));
    assert_eq!(h.store.teams[1].name, "Deux");
    assert_eq!(h.store.teams[0].name, "One");
    assert_eq!(h.store.bots, handle().store.bots);
    assert_eq!(h.outbox[0].target, "t2");
}

#[test]
fn missing_targets_are_not_found() {
    let actions = vec![
        Action::ClaimBot { bot_id: s("zz"), force: true },
        Action::UnclaimBot { bot_id: s("zz"), reason: s("r") },
        Action::ApproveBot { bot_id: s("zz"), reason: s("r") },
        Action::DenyBot { bot_id: s("zz"), reason: s("r") },
        Action::VoteReset { bot_id: s("zz"), reason: s("r") },
        Action::Unverify { bot_id: s("zz"), reason: s("r") },
        Action::PremiumAdd { bot_id: s("zz"), reason: s("r"), duration: 1 },
        Action::PremiumRemove { bot_id: s("zz"), reason: s("r") },
        Action::VoteBanAdd { bot_id: s("zz"), reason: s("r") },
        Action::VoteBanRemove { bot_id: s("zz"), reason: s("r") },
        Action::ForceRemove { bot_id: s("zz"), reason: s("r"), kick: true },
        Action::CertifyAdd { bot_id: s("zz"), reason: s("r") },
        Action::CertifyRemove { bot_id: s("zz"), reason: s("r") },
        Action::VoteCountSet { bot_id: s("zz"), reason: s("r"), count: 1 },
        Action::TransferOwnershipToUser { bot_id: s("zz"), reason: s("r"), new_owner: s("u") },
        Action::TransferOwnershipToTeam { bot_id: s("zz"), reason: s("r"), new_team: s("t1") },
    ];
    for action in actions {
        let mut h = handle();
        assert_eq!(execute(&action, &mut h), Err(RpcError::NotFound(Target::Bot)), "{action:?}");
        assert_eq!(h, handle());
    }
    let mut h = handle();
    let edit = Action::TeamNameEdit { team_id: s("zz"), new_name: s("N"), reason: s("r") };
    assert_eq!(execute(&edit, &mut h), Err(RpcError::NotFound(Target::Team)));
    let to_team =
        Action::TransferOwnershipToTeam { bot_id: s("a"), reason: s("r"), new_team: s("zz") };
    assert_eq!(execute(&to_team, &mut h), Err(RpcError::NotFound(Target::Team)));
    assert_eq!(h, handle());
}

#[test]
fn a_reason_is_required() {
    let mut h = handle();
    let out = execute(&Action::ApproveBot { bot_id: s("a"), reason: s("") }, &mut h);
    assert_eq!(out, Err(RpcError::Rejected(Rule::ReasonRequired)));
    let out = execute(&Action::VoteResetAll { reason: s("") }, &mut h);
    assert_eq!(out, Err(RpcError::Rejected(Rule::ReasonRequired)));
    let out = execute(&Action::ApproveBot { bot_id: s("zz"), reason: s("") }, &mut h);
    assert_eq!(out, Err(RpcError::Rejected(Rule::ReasonRequired)));
    assert_eq!(h, handle());
}

#[test]
fn every_row_with_the_id_is_written() {
    let mut h = handle();
    h.store.bots.push(bot("a"));
    execute(&Action::VoteCountSet { bot_id: s("a"), reason: s("r"), count: 9 }, &mut h).unwrap();
    assert_eq!(h.store.bots.iter().map(|b| b.votes).collect::<Vec<_>>(), vec![9, 11, 22, 9]);
    h.store.write_limit = Some(1);
    let before = h.clone();
    let out = execute(&Action::VoteReset { bot_id: s("a"), reason: s("r") }, &mut h);
    assert_eq!(out, Err(RpcError::Persistence));
    assert_eq!(h, before);
}

#[test]
fn guard_reads_the_roster() {
    let h = handle();
    assert!(authorize("staff", &h.store));
    assert!(authorize("lead", &h.store));
    assert!(!authorize("owner", &h.store));
    assert!(!authorize("", &h.store));
    assert!(!authorize("Staff", &h.store));
}

#[test]
fn dispatch_runs_an_action_of_the_right_name() {
    let mut h = handle();
    let action = Action::VoteReset { bot_id: s("c"), reason: s("r") };
    assert_eq!(dispatch("VoteReset", &action, &mut h), Ok(RPCOutcome::NoContent));
    assert_eq!(h.store.bots[2].votes, 0);
}

#[test]
fn dispatch_refuses_an_action_of_another_name() {
    let action = Action::VoteReset { bot_id: s("c"), reason: s("r") };
    for requested in ["VoteResetAll", "votereset", "", "ApproveBot"] {
        let mut h = handle();
        assert_eq!(dispatch(requested, &action, &mut h), Err(RpcError::ConsistencyFault));
        assert_eq!(h, handle());
    }
}

fn note(target: &str, kick: bool) -> Notice {
    Notice {
        kind: ActionKind::ForceRemove,
        target: s(target),
        staff: s("42"),
        reason: s("spam"),
        kick,
    }
}

#[test]
fn notices_are_worded_in_four_parts() {
    assert_eq!(notice_words(&note("815", true)), "`ForceRemove` on `815` by <@42>: spam");
    let all = Notice {
        kind: ActionKind::VoteResetAll,
        target: s(""),
        staff: s("7"),
        reason: s(""),
        kick: false,
    };
    assert_eq!(notice_words(&all), "`VoteResetAll` on `` by <@7>: ");
}

#[test]
fn a_kick_needs_the_flag_and_a_numeric_id() {
    assert_eq!(kick_of(&note("815553000470478850", true)), Some(815553000470478850));
    assert_eq!(kick_of(&note("815553000470478850", false)), None);
    assert_eq!(kick_of(&note("007", true)), Some(7));
    assert_eq!(kick_of(&note("18446744073709551615", true)), Some(u64::MAX));
    for target in ["", "0", "000", "b", "12a", "+12", "-12", " 12", "18446744073709551616", "99999999999999999999x"] {
        assert_eq!(kick_of(&note(target, true)), None, "{target:?}");
    }
}

#[test]
fn a_forced_removal_with_kick_names_whom_to_kick() {
    let mut h = handle();
    h.store.bots[1].bot_id = s("123");
    execute(&Action::ForceRemove { bot_id: s("123"), reason: s("spam"), kick: true }, &mut h)
        .unwrap();
    assert_eq!(kick_of(&h.outbox[0]), Some(123));
    assert_eq!(notice_words(&h.outbox[0]), "`ForceRemove` on `123` by <@staff>: spam");
}

#[test]
fn rows_compare_by_their_values() {
    let a = bot("a");
    assert!(a.same(&bot("a")));
    assert!(!a.same(&bot("b")));
    let mut b = bot("a");
    b.votes = 6;
    assert!(!a.same(&b));
    let mut b = bot("a");
    b.owner = Owner::Team(s("owner"));
    assert!(!a.same(&b));
    let mut b = bot("a");
    b.owner_cache = None;
    assert!(!a.same(&b));
    let mut b = bot("a");
    b.claimed_by = Some(s(""));
    assert!(!a.same(&b));
    let mut b = bot("a");
    b.state = BotState::Denied;
    assert!(!a.same(&b));
    let mut b = bot("a");
    b.premium_hours = 1;
    assert!(!a.same(&b));
    let mut b = bot("a");
    b.vote_banned = true;
    assert!(!a.same(&b));
    assert!(same_opt(&None, &None));
    assert!(same_opt(&Some(s("x")), &Some(s("x"))));
    assert!(!same_opt(&Some(s("x")), &None));
    assert!(!same_opt(&Some(s("x")), &Some(s("y"))));
    assert!(Owner::User(s("u")).same(&Owner::User(s("u"))));
    assert!(!Owner::User(s("u")).same(&Owner::Team(s("u"))));
    let t = Team { team_id: s("t"), name: s("n") };
    assert!(t.same(&t.copy()));
    assert!(!t.same(&Team { team_id: s("t"), name: s("m") }));
}

#[test]
fn nothing_changed_means_nothing_to_write() {
    let h = handle();
    assert_eq!(changes(&h.store, &h.store), Vec::new());
    let mut refused = handle();
    let out = execute(&Action::ApproveBot { bot_id: s("zz"), reason: s("r") }, &mut refused);
    assert!(out.is_err());
    assert_eq!(changes(&h.store, &refused.store), Vec::new());
}

#[test]
fn changes_list_removals_then_puts() {
    let before = handle().store;
    let mut h = handle();
    execute(&Action::ForceRemove { bot_id: s("b"), reason: s("spam"), kick: false }, &mut h)
        .unwrap();
    assert_eq!(changes(&before, &h.store), vec![Write::RemoveBot(s("b"))]);

    let mut h = handle();
    execute(&Action::VoteResetAll { reason: s("r") }, &mut h).unwrap();
    let puts: Vec<Write> = h.store.bots.iter().map(|b| Write::PutBot(b.clone())).collect();
    assert_eq!(changes(&before, &h.store), puts);

    let mut h = handle();
    execute(&Action::VoteReset { bot_id: s("c"), reason: s("r") }, &mut h).unwrap();
    assert_eq!(changes(&before, &h.store), vec![Write::PutBot(h.store.bots[2].clone())]);

    let mut h = handle();
    execute(
        &Action::TeamNameEdit { team_id: s("t1"), new_name: s("Uno"), reason: s("r") },
        &mut h,
    )
    .unwrap();
    assert_eq!(
        changes(&before, &h.store),
        vec![Write::PutTeam(Team { team_id: s("t1"), name: s("Uno") })]
    );

    let mut after = handle().store;
    after.bots.remove(0);
    after.bots[0].votes = 99;
    after.teams[1].name = s("Deux");
    assert_eq!(
        changes(&before, &after),
        vec![
            Write::RemoveBot(s("a")),
            Write::PutBot(after.bots[0].clone()),
            Write::PutTeam(after.teams[1].clone()),
        ]
    );
}
