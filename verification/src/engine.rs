//! The execution engine: what each action does to the rows of the store,
//! when it is refused, and what it reports.
//!
//! An action is checked in full before anything is written, and the rows it
//! changes are written together or not at all. Adding premium to a bot that
//! has premium left makes the window longer by the new period; it does not
//! start the window anew.

use vstd::prelude::*;
use vstd::string::*;
use crate::action::{Action, Value};
use crate::catalog::ActionKind;
use crate::error::{RpcError, Rule, Target};
use crate::parse::{id_of, parse_id};
use crate::store::{
    bot_rows, team_rows, Bot, BotState, BotView, Owner, OwnerView, Store, StoreView, Team,
    TeamView,
};

verus! {

/// What a successful action reports.
#[derive(Clone, Debug, PartialEq, Eq)]
pub enum RPCOutcome {
    /// Done; there is nothing more to show.
    NoContent,
    /// Done, with a message to show.
    Content(String),
}

pub enum OutcomeView {
    NoContent,
    Content(Seq<char>),
}

impl View for RPCOutcome {
    type V = OutcomeView;

    open spec fn view(&self) -> OutcomeView {
        match self {
            RPCOutcome::NoContent => OutcomeView::NoContent,
            RPCOutcome::Content(s) => OutcomeView::Content(s@),
        }
    }
}

/// A notice for the audit channel, sent once the action has been written.
/// Whether it arrives has no bearing on the action.
#[derive(Clone, Debug, PartialEq, Eq)]
pub struct Notice {
    pub kind: ActionKind,
    /// The id of the bot or team that the action was aimed at; empty for an
    /// action aimed at every bot.
    pub target: String,
    /// The id of the staff member who ran the action.
    pub staff: String,
    pub reason: String,
    /// Whether the bot is to be removed from the server as well.
    pub kick: bool,
}

pub struct NoticeView {
    pub kind: ActionKind,
    pub target: Seq<char>,
    pub staff: Seq<char>,
    pub reason: Seq<char>,
    pub kick: bool,
}

impl View for Notice {
    type V = NoticeView;

    open spec fn view(&self) -> NoticeView {
        NoticeView {
            kind: self.kind,
            target: self.target@,
            staff: self.staff@,
            reason: self.reason@,
            kick: self.kick,
        }
    }
}

/// The notices that a list of notices stands for.
pub open spec fn notice_rows(v: Seq<Notice>) -> Seq<NoticeView> {
    v.map_values(|n: Notice| n@)
}

/// What one run of the engine works with: the rows of its transaction, the
/// caller, and the notices to send afterwards.
#[derive(Clone, Debug, PartialEq, Eq)]
pub struct RPCHandle {
    pub store: Store,
    /// The id of the caller.
    pub user_id: String,
    /// The notices of the actions that this handle has run.
    pub outbox: Vec<Notice>,
}

/// The id of the bot or team that an action is aimed at; empty for an
/// action aimed at every bot.
pub open spec fn target_of(a: Action) -> Seq<char> {
    match a {
        Action::VoteResetAll { .. } => Seq::<char>::empty(),
        Action::TeamNameEdit { team_id, .. } => team_id@,
        Action::ClaimBot { bot_id, .. } => bot_id@,
        Action::UnclaimBot { bot_id, .. } => bot_id@,
        Action::ApproveBot { bot_id, .. } => bot_id@,
        Action::DenyBot { bot_id, .. } => bot_id@,
        Action::VoteReset { bot_id, .. } => bot_id@,
        Action::Unverify { bot_id, .. } => bot_id@,
        Action::PremiumAdd { bot_id, .. } => bot_id@,
        Action::PremiumRemove { bot_id, .. } => bot_id@,
        Action::VoteBanAdd { bot_id, .. } => bot_id@,
        Action::VoteBanRemove { bot_id, .. } => bot_id@,
        Action::ForceRemove { bot_id, .. } => bot_id@,
        Action::CertifyAdd { bot_id, .. } => bot_id@,
        Action::CertifyRemove { bot_id, .. } => bot_id@,
        Action::VoteCountSet { bot_id, .. } => bot_id@,
        Action::TransferOwnershipToUser { bot_id, .. } => bot_id@,
        Action::TransferOwnershipToTeam { bot_id, .. } => bot_id@,
    }
}

/// The reason given for an action. Claiming a bot takes none.
pub open spec fn reason_of(a: Action) -> Option<Seq<char>> {
    match a {
        Action::ClaimBot { .. } => None,
        Action::UnclaimBot { reason, .. } => Some(reason@),
        Action::ApproveBot { reason, .. } => Some(reason@),
        Action::DenyBot { reason, .. } => Some(reason@),
        Action::VoteReset { reason, .. } => Some(reason@),
        Action::VoteResetAll { reason, .. } => Some(reason@),
        Action::Unverify { reason, .. } => Some(reason@),
        Action::PremiumAdd { reason, .. } => Some(reason@),
        Action::PremiumRemove { reason, .. } => Some(reason@),
        Action::VoteBanAdd { reason, .. } => Some(reason@),
        Action::VoteBanRemove { reason, .. } => Some(reason@),
        Action::ForceRemove { reason, .. } => Some(reason@),
        Action::CertifyAdd { reason, .. } => Some(reason@),
        Action::CertifyRemove { reason, .. } => Some(reason@),
        Action::VoteCountSet { reason, .. } => Some(reason@),
        Action::TransferOwnershipToUser { reason, .. } => Some(reason@),
        Action::TransferOwnershipToTeam { reason, .. } => Some(reason@),
        Action::TeamNameEdit { reason, .. } => Some(reason@),
    }
}

/// Whether the action writes the given bot's row: every row for a reset of
/// all votes, no bot's row for a team's action, else the rows with the id
/// that the action names.
pub open spec fn writes_row(a: Action, b: BotView) -> bool {
    match a {
        Action::VoteResetAll { .. } => true,
        Action::TeamNameEdit { .. } => false,
        _ => b.bot_id == target_of(a),
    }
}

/// Whether the action writes the given team's row.
pub open spec fn writes_team(a: Action, t: TeamView) -> bool {
    a is TeamNameEdit && t.team_id == target_of(a)
}

/// The row of a bot after the action, where the action writes that row. A
/// removal leaves no row; for it, and for a team's action, this is the row
/// as it was.
pub open spec fn rewritten(a: Action, caller: Seq<char>, b: BotView) -> BotView {
    match a {
        Action::ClaimBot { .. } => BotView { claimed_by: Some(caller), ..b },
        Action::UnclaimBot { .. } => BotView { claimed_by: None, ..b },
        Action::ApproveBot { .. } => BotView { state: BotState::Approved, claimed_by: None, ..b },
        Action::DenyBot { .. } => BotView { state: BotState::Denied, claimed_by: None, ..b },
        Action::VoteReset { .. } | Action::VoteResetAll { .. } => BotView { votes: 0, ..b },
        Action::Unverify { .. } => BotView { state: BotState::Pending, claimed_by: None, ..b },
        Action::PremiumAdd { duration, .. } => BotView {
            premium_hours: b.premium_hours + duration,
            ..b
        },
        Action::PremiumRemove { .. } => BotView { premium_hours: 0, ..b },
        Action::VoteBanAdd { .. } => BotView { vote_banned: true, ..b },
        Action::VoteBanRemove { .. } => BotView { vote_banned: false, ..b },
        Action::ForceRemove { .. } => b,
        Action::CertifyAdd { .. } => BotView { state: BotState::Certified, ..b },
        Action::CertifyRemove { .. } => BotView { state: BotState::Approved, ..b },
        Action::VoteCountSet { count, .. } => BotView { votes: count as int, ..b },
        Action::TransferOwnershipToUser { new_owner, .. } => BotView {
            owner: OwnerView::User(new_owner@),
            owner_cache: None,
            ..b
        },
        Action::TransferOwnershipToTeam { new_team, .. } => BotView {
            owner: OwnerView::Team(new_team@),
            owner_cache: None,
            ..b
        },
        Action::TeamNameEdit { .. } => b,
    }
}

/// The rule that the given row breaks under the action, if it breaks one:
/// a claim that is not forced on a bot that is claimed, or a premium period
/// that takes the window past what can be counted.
pub open spec fn clash(a: Action, b: BotView) -> Option<Rule> {
    match a {
        Action::ClaimBot { force, .. } => if !force && b.claimed_by is Some {
            Some(Rule::AlreadyClaimed)
        } else {
            None
        },
        Action::PremiumAdd { duration, .. } => if b.premium_hours + duration > u64::MAX {
            Some(Rule::PremiumPeriod)
        } else {
            None
        },
        _ => None,
    }
}

/// The row of a bot that the action does not write, or writes and keeps.
pub open spec fn row_after(a: Action, caller: Seq<char>, b: BotView) -> BotView {
    if writes_row(a, b) {
        rewritten(a, caller, b)
    } else {
        b
    }
}

/// The bots after the action: a removal drops the rows it writes, every
/// other action rewrites them in place. The order of the rows stays.
pub open spec fn bots_after(a: Action, caller: Seq<char>, bots: Seq<BotView>) -> Seq<BotView> {
    bots.filter(|b: BotView| !(a is ForceRemove && writes_row(a, b))).map_values(
        |b: BotView| row_after(a, caller, b),
    )
}

/// The row of a team after the action.
pub open spec fn team_after(a: Action, t: TeamView) -> TeamView {
    match a {
        Action::TeamNameEdit { new_name, .. } => if writes_team(a, t) {
            TeamView { name: new_name@, ..t }
        } else {
            t
        },
        _ => t,
    }
}

/// The teams after the action.
pub open spec fn teams_after(a: Action, teams: Seq<TeamView>) -> Seq<TeamView> {
    teams.map_values(|t: TeamView| team_after(a, t))
}

/// How many rows the action writes.
pub open spec fn rows_written(a: Action, s: StoreView) -> int {
    if a is TeamNameEdit {
        s.teams.filter(|t: TeamView| writes_team(a, t)).len() as int
    } else {
        s.bots.filter(|b: BotView| writes_row(a, b)).len() as int
    }
}

/// Some bot has the given id.
pub open spec fn has_bot(bots: Seq<BotView>, id: Seq<char>) -> bool {
    exists|i: int| 0 <= i < bots.len() && (#[trigger] bots[i]).bot_id == id
}

/// Some team has the given id.
pub open spec fn has_team(teams: Seq<TeamView>, id: Seq<char>) -> bool {
    exists|i: int| 0 <= i < teams.len() && (#[trigger] teams[i]).team_id == id
}

/// Some row that the action writes breaks the given rule.
pub open spec fn clashes(a: Action, bots: Seq<BotView>, rule: Rule) -> bool {
    exists|i: int|
        0 <= i < bots.len() && writes_row(a, #[trigger] bots[i]) && clash(a, bots[i]) == Some(rule)
}

/// Why the engine does not run the action on the store, if it does not.
/// The checks are made in this order, and the first that fails decides: a
/// reason is there where one is asked for; a premium period is longer than
/// zero; the bot exists; the team exists; no row breaks a rule; the store
/// takes as many rows as the action writes.
pub open spec fn refusal(a: Action, s: StoreView) -> Option<RpcError> {
    if reason_of(a) == Some(Seq::<char>::empty()) {
        Some(RpcError::Rejected(Rule::ReasonRequired))
    } else if a matches Action::PremiumAdd { duration, .. } && duration <= 0 {
        Some(RpcError::Rejected(Rule::PremiumPeriod))
    } else if !(a is VoteResetAll) && !(a is TeamNameEdit) && !has_bot(s.bots, target_of(a)) {
        Some(RpcError::NotFound(Target::Bot))
    } else if a is TeamNameEdit && !has_team(s.teams, target_of(a)) {
        Some(RpcError::NotFound(Target::Team))
    } else if a matches Action::TransferOwnershipToTeam { new_team, .. } && !has_team(
        s.teams,
        new_team@,
    ) {
        Some(RpcError::NotFound(Target::Team))
    } else if clashes(a, s.bots, Rule::AlreadyClaimed) {
        Some(RpcError::Rejected(Rule::AlreadyClaimed))
    } else if clashes(a, s.bots, Rule::PremiumPeriod) {
        Some(RpcError::Rejected(Rule::PremiumPeriod))
    } else if s.write_limit is Some && rows_written(a, s) > s.write_limit->Some_0 {
        Some(RpcError::Persistence)
    } else {
        None
    }
}

/// What a successful action reports: approving and denying a bot confirm
/// with a message that names the bot, every other action has nothing to
/// show.
pub open spec fn outcome_of(a: Action) -> OutcomeView {
    match a {
        Action::ApproveBot { bot_id, .. } => OutcomeView::Content("Approved bot "@ + bot_id@),
        Action::DenyBot { bot_id, .. } => OutcomeView::Content("Denied bot "@ + bot_id@),
        _ => OutcomeView::NoContent,
    }
}

/// The notice that a successful action leaves for the audit channel.
pub open spec fn notice_of(a: Action, caller: Seq<char>) -> NoticeView {
    NoticeView {
        kind: a.kind_of(),
        target: target_of(a),
        staff: caller,
        reason: match reason_of(a) {
            Some(r) => r,
            None => Seq::<char>::empty(),
        },
        kick: a matches Action::ForceRemove { kick, .. } && kick,
    }
}

/// The store after the engine has been asked to run the action, and what
/// the engine answers. A refused action leaves the store as it was.
pub open spec fn executed(a: Action, caller: Seq<char>, s: StoreView) -> (
    StoreView,
    Result<OutcomeView, RpcError>,
) {
    match refusal(a, s) {
        Some(e) => (s, Err(e)),
        None => (
            StoreView {
                bots: bots_after(a, caller, s.bots),
                teams: teams_after(a, s.teams),
                ..s
            },
            Ok(outcome_of(a)),
        ),
    }
}

/// The id of the bot that an action is aimed at, where it is aimed at one.
fn bot_target(a: &Action) -> (out: Option<&String>)
    ensures
        match out {
            Some(id) => !(a is VoteResetAll) && !(a is TeamNameEdit) && id@ == target_of(*a),
            None => a is VoteResetAll || a is TeamNameEdit,
        },
{
    match a {
        Action::VoteResetAll { .. } => None,
        Action::TeamNameEdit { .. } => None,
        Action::ClaimBot { bot_id, .. } => Some(bot_id),
        Action::UnclaimBot { bot_id, .. } => Some(bot_id),
        Action::ApproveBot { bot_id, .. } => Some(bot_id),
        Action::DenyBot { bot_id, .. } => Some(bot_id),
        Action::VoteReset { bot_id, .. } => Some(bot_id),
        Action::Unverify { bot_id, .. } => Some(bot_id),
        Action::PremiumAdd { bot_id, .. } => Some(bot_id),
        Action::PremiumRemove { bot_id, .. } => Some(bot_id),
        Action::VoteBanAdd { bot_id, .. } => Some(bot_id),
        Action::VoteBanRemove { bot_id, .. } => Some(bot_id),
        Action::ForceRemove { bot_id, .. } => Some(bot_id),
        Action::CertifyAdd { bot_id, .. } => Some(bot_id),
        Action::CertifyRemove { bot_id, .. } => Some(bot_id),
        Action::VoteCountSet { bot_id, .. } => Some(bot_id),
        Action::TransferOwnershipToUser { bot_id, .. } => Some(bot_id),
        Action::TransferOwnershipToTeam { bot_id, .. } => Some(bot_id),
    }
}

/// The reason given for an action, where it takes one.
fn reason(a: &Action) -> (out: Option<&String>)
    ensures
        match out {
            Some(r) => reason_of(*a) == Some(r@),
            None => reason_of(*a) is None,
        },
{
    match a {
        Action::ClaimBot { .. } => None,
        Action::UnclaimBot { reason, .. } => Some(reason),
        Action::ApproveBot { reason, .. } => Some(reason),
        Action::DenyBot { reason, .. } => Some(reason),
        Action::VoteReset { reason, .. } => Some(reason),
        Action::VoteResetAll { reason, .. } => Some(reason),
        Action::Unverify { reason, .. } => Some(reason),
        Action::PremiumAdd { reason, .. } => Some(reason),
        Action::PremiumRemove { reason, .. } => Some(reason),
        Action::VoteBanAdd { reason, .. } => Some(reason),
        Action::VoteBanRemove { reason, .. } => Some(reason),
        Action::ForceRemove { reason, .. } => Some(reason),
        Action::CertifyAdd { reason, .. } => Some(reason),
        Action::CertifyRemove { reason, .. } => Some(reason),
        Action::VoteCountSet { reason, .. } => Some(reason),
        Action::TransferOwnershipToUser { reason, .. } => Some(reason),
        Action::TransferOwnershipToTeam { reason, .. } => Some(reason),
        Action::TeamNameEdit { reason, .. } => Some(reason),
    }
}

/// Whether the action writes the given bot's row.
fn matches_row(a: &Action, b: &Bot) -> (out: bool)
    ensures
        out == writes_row(*a, b@),
{
    match bot_target(a) {
        Some(id) => b.bot_id == *id,
        None => match a {
            Action::VoteResetAll { .. } => true,
            _ => false,
        },
    }
}

/// The rule that the given row breaks under the action, if it breaks one.
fn find_clash(a: &Action, b: &Bot) -> (out: Option<Rule>)
    ensures
        out == clash(*a, b@),
{
    match a {
        Action::ClaimBot { force, .. } => if !*force && b.claimed_by.is_some() {
            Some(Rule::AlreadyClaimed)
        } else {
            None
        },
        Action::PremiumAdd { duration, .. } => {
            let fits = *duration <= 0 || b.premium_hours <= u64::MAX - (*duration as u64);
            if fits {
                None
            } else {
                Some(Rule::PremiumPeriod)
            }
        },
        _ => None,
    }
}

/// The row of a bot after an action that writes it.
fn rewrite(a: &Action, caller: &String, b: &Bot) -> (out: Bot)
    requires
        clash(*a, b@) is None,
        a matches Action::PremiumAdd { duration, .. } ==> duration > 0,
    ensures
        out@ == rewritten(*a, caller@, b@),
{
    let mut out = b.copy();
    match a {
        Action::ClaimBot { .. } => {
            out.claimed_by = Some(caller.clone());
        },
        Action::UnclaimBot { .. } => {
            out.claimed_by = None;
        },
        Action::ApproveBot { .. } => {
            out.state = BotState::Approved;
            out.claimed_by = None;
        },
        Action::DenyBot { .. } => {
            out.state = BotState::Denied;
            out.claimed_by = None;
        },
        Action::VoteReset { .. } | Action::VoteResetAll { .. } => {
            out.votes = 0;
        },
        Action::Unverify { .. } => {
            out.state = BotState::Pending;
            out.claimed_by = None;
        },
        Action::PremiumAdd { duration, .. } => {
            out.premium_hours = out.premium_hours + (*duration as u64);
        },
        Action::PremiumRemove { .. } => {
            out.premium_hours = 0;
        },
        Action::VoteBanAdd { .. } => {
            out.vote_banned = true;
        },
        Action::VoteBanRemove { .. } => {
            out.vote_banned = false;
        },
        Action::ForceRemove { .. } => {},
        Action::CertifyAdd { .. } => {
            out.state = BotState::Certified;
        },
        Action::CertifyRemove { .. } => {
            out.state = BotState::Approved;
        },
        Action::VoteCountSet { count, .. } => {
            out.votes = *count;
        },
        Action::TransferOwnershipToUser { new_owner, .. } => {
            out.owner = Owner::User(new_owner.clone());
            out.owner_cache = None;
        },
        Action::TransferOwnershipToTeam { new_team, .. } => {
            out.owner = Owner::Team(new_team.clone());
            out.owner_cache = None;
        },
        Action::TeamNameEdit { .. } => {},
    }
    out
}

/// The bots after the action, with the number of rows written; or the
/// rule that one of the rows breaks.
fn write_bots(a: &Action, caller: &String, bots: &Vec<Bot>) -> (out: Result<(Vec<Bot>, usize), Rule>)
    requires
        a matches Action::PremiumAdd { duration, .. } ==> duration > 0,
    ensures
        match out {
            Ok((rows, n)) => {
                &&& bot_rows(rows@) == bots_after(*a, caller@, bot_rows(bots@))
                &&& n == bot_rows(bots@).filter(|b: BotView| writes_row(*a, b)).len()
                &&& n > 0 <==> exists|i: int|
                    0 <= i < bots.len() && writes_row(*a, #[trigger] bot_rows(bots@)[i])
                &&& forall|rule: Rule| !clashes(*a, bot_rows(bots@), rule)
            },
            Err(rule) => clashes(*a, bot_rows(bots@), rule),
        },
{
    let ghost all = bot_rows(bots@);
    let ghost keep = |b: BotView| !(*a is ForceRemove && writes_row(*a, b));
    let ghost change = |b: BotView| row_after(*a, caller@, b);
    let ghost hit = |b: BotView| writes_row(*a, b);
    let mut rows: Vec<Bot> = Vec::new();
    let mut n: usize = 0;
    let mut i: usize = 0;
    assert(all.take(0) == Seq::<BotView>::empty());
    assert(bot_rows(rows@) == Seq::<BotView>::empty());
    while i < bots.len()
        invariant
            i <= bots.len(),
            all == bot_rows(bots@),
            keep == (|b: BotView| !(*a is ForceRemove && writes_row(*a, b))),
            change == (|b: BotView| row_after(*a, caller@, b)),
            hit == (|b: BotView| writes_row(*a, b)),
            a matches Action::PremiumAdd { duration, .. } ==> duration > 0,
            bot_rows(rows@) == all.take(i as int).filter(keep).map_values(change),
            n == all.take(i as int).filter(hit).len(),
            n <= i,
            n > 0 <==> exists|j: int| 0 <= j < i && writes_row(*a, #[trigger] all[j]),
            forall|j: int| 0 <= j < i && writes_row(*a, #[trigger] all[j]) ==> clash(*a, all[j]) is None,
        decreases bots.len() - i,
    {
        let bot = &bots[i];
        let ghost before = rows@;
        proof {
            assert(all[i as int] == bot@);
            assert(all.take(i + 1) == all.take(i as int).push(bot@));
            all.take(i as int).lemma_filter_push(bot@, keep);
            all.take(i as int).lemma_filter_push(bot@, hit);
        }
        if matches_row(a, bot) {
            match find_clash(a, bot) {
                Some(rule) => {
                    return Err(rule);
                },
                None => {},
            }
            n += 1;
            match a {
                Action::ForceRemove { .. } => {},
                _ => {
                    let row = rewrite(a, caller, bot);
                    rows.push(row);
                    assert(bot_rows(rows@) == bot_rows(before).push(change(bot@)));
                    assert(all.take(i as int).filter(keep).push(bot@).map_values(change)
                        == all.take(i as int).filter(keep).map_values(change).push(change(bot@)));
                },
            }
        } else {
            let row = bot.copy();
            rows.push(row);
            assert(bot_rows(rows@) == bot_rows(before).push(change(bot@)));
            assert(all.take(i as int).filter(keep).push(bot@).map_values(change) == all.take(
                i as int,
            ).filter(keep).map_values(change).push(change(bot@)));
        }
        i += 1;
    }
    assert(all.take(bots.len() as int) == all);
    Ok((rows, n))
}

/// The teams after the action, with the number of rows written.
fn write_teams(a: &Action, teams: &Vec<Team>) -> (out: (Vec<Team>, usize))
    ensures
        team_rows(out.0@) == teams_after(*a, team_rows(teams@)),
        out.1 == team_rows(teams@).filter(|t: TeamView| writes_team(*a, t)).len(),
        out.1 > 0 <==> exists|i: int|
            0 <= i < teams.len() && writes_team(*a, #[trigger] team_rows(teams@)[i]),
{
    let ghost all = team_rows(teams@);
    let ghost hit = |t: TeamView| writes_team(*a, t);
    let mut rows: Vec<Team> = Vec::new();
    let mut n: usize = 0;
    let mut i: usize = 0;
    assert(all.take(0) == Seq::<TeamView>::empty());
    while i < teams.len()
        invariant
            i <= teams.len(),
            all == team_rows(teams@),
            hit == (|t: TeamView| writes_team(*a, t)),
            team_rows(rows@) == teams_after(*a, all.take(i as int)),
            n == all.take(i as int).filter(hit).len(),
            n <= i,
            n > 0 <==> exists|j: int| 0 <= j < i && writes_team(*a, #[trigger] all[j]),
        decreases teams.len() - i,
    {
        let team = &teams[i];
        let ghost before = rows@;
        proof {
            assert(all[i as int] == team@);
            assert(all.take(i + 1) == all.take(i as int).push(team@));
            all.take(i as int).lemma_filter_push(team@, hit);
        }
        let mut row = team.copy();
        match a {
            Action::TeamNameEdit { team_id, new_name, .. } => {
                if team.team_id == *team_id {
                    row.name = new_name.clone();
                    n += 1;
                }
            },
            _ => {},
        }
        rows.push(row);
        assert(team_rows(rows@) == team_rows(before).push(team_after(*a, team@)));
        i += 1;
    }
    assert(all.take(teams.len() as int) == all);
    (rows, n)
}

/// Whether some team has the given id.
fn team_exists(teams: &Vec<Team>, id: &String) -> (out: bool)
    ensures
        out == has_team(team_rows(teams@), id@),
{
    let mut i: usize = 0;
    while i < teams.len()
        invariant
            i <= teams.len(),
            forall|j: int| 0 <= j < i ==> (#[trigger] team_rows(teams@)[j]).team_id != id@,
        decreases teams.len() - i,
    {
        if teams[i].team_id == *id {
            assert(team_rows(teams@)[i as int].team_id == id@);
            return true;
        }
        i += 1;
    }
    false
}

/// What a successful action reports.
fn report(a: &Action) -> (out: RPCOutcome)
    ensures
        out@ == outcome_of(*a),
{
    match a {
        Action::ApproveBot { bot_id, .. } => RPCOutcome::Content(
            String::from_str("Approved bot ").concat(bot_id.as_str()),
        ),
        Action::DenyBot { bot_id, .. } => RPCOutcome::Content(
            String::from_str("Denied bot ").concat(bot_id.as_str()),
        ),
        _ => RPCOutcome::NoContent,
    }
}

/// The notice that a successful action leaves for the audit channel.
fn notice(a: &Action, caller: &String) -> (out: Notice)
    ensures
        out@ == notice_of(*a, caller@),
{
    let target = match bot_target(a) {
        Some(id) => id.clone(),
        None => match a {
            Action::TeamNameEdit { team_id, .. } => team_id.clone(),
            _ => String::new(),
        },
    };
    let why = match reason(a) {
        Some(r) => r.clone(),
        None => String::new(),
    };
    let kick = match a {
        Action::ForceRemove { kick, .. } => *kick,
        _ => false,
    };
    Notice { kind: a.kind(), target, staff: caller.clone(), reason: why, kick }
}

/// What the engine answers, as the contracts see it.
pub open spec fn answer_view(r: Result<RPCOutcome, RpcError>) -> Result<OutcomeView, RpcError> {
    match r {
        Ok(o) => Ok(o@),
        Err(e) => Err(e),
    }
}

/// Runs one action against the rows of the handle's transaction.
///
/// The action is checked before anything is written. Where it is refused,
/// the error says why and the handle is as it was. Where it runs, every row
/// that it writes is written, the answer says what there is to show, and a
/// notice for the audit channel is added to the outbox.
pub fn execute(action: &Action, handle: &mut RPCHandle) -> (out: Result<RPCOutcome, RpcError>)
    ensures
        final(handle).store@ == executed(*action, old(handle).user_id@, old(handle).store@).0,
        answer_view(out) == executed(*action, old(handle).user_id@, old(handle).store@).1,
        final(handle).user_id@ == old(handle).user_id@,
        notice_rows(final(handle).outbox@) == if out is Ok {
            notice_rows(old(handle).outbox@).push(notice_of(*action, old(handle).user_id@))
        } else {
            notice_rows(old(handle).outbox@)
        },
{
    let ghost before = handle.store@;
    match reason(action) {
        Some(r) => {
            if r.as_str().is_empty() {
                assert(r@ =~= Seq::<char>::empty());
                return Err(RpcError::Rejected(Rule::ReasonRequired));
            }
        },
        None => {},
    }
    match action {
        Action::PremiumAdd { duration, .. } => {
            if *duration <= 0 {
                return Err(RpcError::Rejected(Rule::PremiumPeriod));
            }
        },
        _ => {},
    }
    let (bots, bot_writes) = match write_bots(action, &handle.user_id, &handle.store.bots) {
        Ok(done) => done,
        Err(rule) => {
            proof {
                let i = choose|i: int|
                    0 <= i < before.bots.len() && writes_row(*action, #[trigger] before.bots[i])
                        && clash(*action, before.bots[i]) == Some(rule);
                assert(before.bots[i].bot_id == target_of(*action));
                assert(has_bot(before.bots, target_of(*action)));
            }
            return Err(RpcError::Rejected(rule));
        },
    };
    if bot_target(action).is_some() && bot_writes == 0 {
        return Err(RpcError::NotFound(Target::Bot));
    }
    let (teams, team_writes) = write_teams(action, &handle.store.teams);
    match action {
        Action::TeamNameEdit { .. } => {
            if team_writes == 0 {
                return Err(RpcError::NotFound(Target::Team));
            }
        },
        Action::TransferOwnershipToTeam { new_team, .. } => {
            if !team_exists(&handle.store.teams, new_team) {
                return Err(RpcError::NotFound(Target::Team));
            }
        },
        _ => {},
    }
    let writes = match action {
        Action::TeamNameEdit { .. } => team_writes,
        _ => bot_writes,
    };
    match handle.store.write_limit {
        Some(limit) => {
            if writes > limit {
                return Err(RpcError::Persistence);
            }
        },
        None => {},
    }
    let ghost sent = handle.outbox@;
    let note = notice(action, &handle.user_id);
    handle.store.bots = bots;
    handle.store.teams = teams;
    handle.outbox.push(note);
    assert(notice_rows(handle.outbox@) == notice_rows(sent).push(note@));
    Ok(report(action))
}

/// Filtering by a test that every item passes leaves the list as it is.
pub proof fn lemma_filter_keeps_all<A>(s: Seq<A>, pred: spec_fn(A) -> bool)
    requires
        forall|i: int| 0 <= i < s.len() ==> pred(#[trigger] s[i]),
    ensures
        s.filter(pred) == s,
    decreases s.len(),
{
    if s.len() == 0 {
        assert(s.filter(pred) == Seq::<A>::empty()) by {
            reveal(Seq::filter);
        }
        assert(s == Seq::<A>::empty());
    } else {
        lemma_filter_keeps_all(s.drop_last(), pred);
        s.drop_last().lemma_filter_push(s.last(), pred);
        assert(s.drop_last().push(s.last()) == s);
    }
}

/// An action that the engine refuses leaves the store as it was: nothing
/// is written in part.
pub proof fn lemma_refused_changes_nothing(a: Action, caller: Seq<char>, s: StoreView)
    requires
        executed(a, caller, s).1 is Err,
    ensures
        executed(a, caller, s).0 == s,
{
}

/// Every action but a removal keeps every row in its place: the row at
/// each position is the old row, rewritten where the action writes it.
pub proof fn lemma_rows_stay_in_place(a: Action, caller: Seq<char>, bots: Seq<BotView>)
    requires
        !(a is ForceRemove),
    ensures
        bots_after(a, caller, bots).len() == bots.len(),
        forall|i: int|
            0 <= i < bots.len() ==> #[trigger] bots_after(a, caller, bots)[i] == row_after(
                a,
                caller,
                bots[i],
            ),
{
    lemma_filter_keeps_all(bots, |b: BotView| !(a is ForceRemove && writes_row(a, b)));
}

/// A reset of all votes is all or nothing. Where the engine answers with
/// an error, no bot's votes have changed; where it answers that the reset
/// is done, every bot's votes are zero and nothing else about any bot has
/// changed. A store that takes fewer rows than there are bots makes the
/// reset fail with a persistence error.
pub proof fn lemma_vote_reset_all_is_atomic(a: Action, caller: Seq<char>, s: StoreView)
    requires
        a is VoteResetAll,
    ensures
        executed(a, caller, s).1 is Err ==> executed(a, caller, s).0 == s,
        executed(a, caller, s).1 is Ok ==> {
            &&& executed(a, caller, s).0.bots.len() == s.bots.len()
            &&& forall|i: int|
                0 <= i < s.bots.len() ==> #[trigger] executed(a, caller, s).0.bots[i] == (BotView {
                    votes: 0,
                    ..s.bots[i]
                })
        },
        s.write_limit is Some && s.write_limit->Some_0 < s.bots.len() ==> executed(
            a,
            caller,
            s,
        ).1 is Err,
        s.write_limit is Some && s.write_limit->Some_0 < s.bots.len() && reason_of(a) != Some(
            Seq::<char>::empty(),
        ) ==> executed(a, caller, s).1 == Err::<OutcomeView, RpcError>(RpcError::Persistence),
{
    lemma_filter_keeps_all(s.bots, |b: BotView| writes_row(a, b));
    lemma_rows_stay_in_place(a, caller, s.bots);
    assert(!clashes(a, s.bots, Rule::AlreadyClaimed));
    assert(!clashes(a, s.bots, Rule::PremiumPeriod));
}

/// Adding premium makes the window of every bot with the id longer by the
/// period; what was left of the window is kept.
pub proof fn lemma_premium_extends(a: Action, caller: Seq<char>, s: StoreView, i: int)
    requires
        a is PremiumAdd,
        executed(a, caller, s).1 is Ok,
        0 <= i < s.bots.len(),
        s.bots[i].bot_id == target_of(a),
    ensures
        executed(a, caller, s).0.bots[i].premium_hours == s.bots[i].premium_hours
            + a->PremiumAdd_duration,
        a->PremiumAdd_duration > 0,
{
    lemma_rows_stay_in_place(a, caller, s.bots);
}

/// After a removal no bot has the id that was named, and every other bot is
/// still there.
pub proof fn lemma_removed_rows_are_gone(a: Action, caller: Seq<char>, bots: Seq<BotView>, b: BotView)
    requires
        a is ForceRemove,
    ensures
        bots_after(a, caller, bots).contains(b) <==> bots.contains(b) && b.bot_id != target_of(a),
{
    let keep = |b: BotView| !(a is ForceRemove && writes_row(a, b));
    let kept = bots.filter(keep);
    let after = bots_after(a, caller, bots);
    assert forall|i: int| 0 <= i < kept.len() implies #[trigger] after[i] == kept[i] by {
        bots.lemma_filter_pred(keep, i);
    }
    assert(after =~= kept);
    if bots.contains(b) && b.bot_id != target_of(a) {
        let i = choose|i: int| 0 <= i < bots.len() && bots[i] == b;
        bots.lemma_filter_contains(keep, i);
    }
    if kept.contains(b) {
        let i = choose|i: int| 0 <= i < kept.len() && kept[i] == b;
        bots.lemma_filter_pred(keep, i);
        bots.lemma_filter_contains_rev(keep, b);
    }
}

/// Two actions of one kind with the same values are one action to the
/// engine: what it does and what it reports depend on nothing else.
pub proof fn lemma_effect_by_values(a: Action, b: Action, caller: Seq<char>, s: StoreView)
    requires
        a.kind_of() == b.kind_of(),
        a.values() == b.values(),
    ensures
        executed(a, caller, s) == executed(b, caller, s),
        notice_of(a, caller) == notice_of(b, caller),
{
    if a is ClaimBot {
        assert(b is ClaimBot);
        assert(a->ClaimBot_bot_id@ == b->ClaimBot_bot_id@);
        assert(a->ClaimBot_force == b->ClaimBot_force);
    }
    if a is UnclaimBot {
        assert(b is UnclaimBot);
        assert(a->UnclaimBot_bot_id@ == b->UnclaimBot_bot_id@);
        assert(a->UnclaimBot_reason@ == b->UnclaimBot_reason@);
    }
    if a is ApproveBot {
        assert(b is ApproveBot);
        assert(a->ApproveBot_bot_id@ == b->ApproveBot_bot_id@);
        assert(a->ApproveBot_reason@ == b->ApproveBot_reason@);
    }
    if a is DenyBot {
        assert(b is DenyBot);
        assert(a->DenyBot_bot_id@ == b->DenyBot_bot_id@);
        assert(a->DenyBot_reason@ == b->DenyBot_reason@);
    }
    if a is VoteReset {
        assert(b is VoteReset);
        assert(a->VoteReset_bot_id@ == b->VoteReset_bot_id@);
        assert(a->VoteReset_reason@ == b->VoteReset_reason@);
    }
    if a is VoteResetAll {
        assert(b is VoteResetAll);
        assert(a.values()[0] == Value::Text(a->VoteResetAll_reason@));
        assert(b.values()[0] == Value::Text(b->VoteResetAll_reason@));
        assert(a->VoteResetAll_reason@ == b->VoteResetAll_reason@);
    }
    if a is Unverify {
        assert(b is Unverify);
        assert(a->Unverify_bot_id@ == b->Unverify_bot_id@);
        assert(a->Unverify_reason@ == b->Unverify_reason@);
    }
    if a is PremiumAdd {
        assert(b is PremiumAdd);
        assert(a->PremiumAdd_bot_id@ == b->PremiumAdd_bot_id@);
        assert(a->PremiumAdd_reason@ == b->PremiumAdd_reason@);
        assert(a->PremiumAdd_duration == b->PremiumAdd_duration);
    }
    if a is PremiumRemove {
        assert(b is PremiumRemove);
        assert(a->PremiumRemove_bot_id@ == b->PremiumRemove_bot_id@);
        assert(a->PremiumRemove_reason@ == b->PremiumRemove_reason@);
    }
    if a is VoteBanAdd {
        assert(b is VoteBanAdd);
        assert(a->VoteBanAdd_bot_id@ == b->VoteBanAdd_bot_id@);
        assert(a->VoteBanAdd_reason@ == b->VoteBanAdd_reason@);
    }
    if a is VoteBanRemove {
        assert(b is VoteBanRemove);
        assert(a->VoteBanRemove_bot_id@ == b->VoteBanRemove_bot_id@);
        assert(a->VoteBanRemove_reason@ == b->VoteBanRemove_reason@);
    }
    if a is ForceRemove {
        assert(b is ForceRemove);
        assert(a->ForceRemove_bot_id@ == b->ForceRemove_bot_id@);
        assert(a->ForceRemove_reason@ == b->ForceRemove_reason@);
        assert(a->ForceRemove_kick == b->ForceRemove_kick);
    }
    if a is CertifyAdd {
        assert(b is CertifyAdd);
        assert(a->CertifyAdd_bot_id@ == b->CertifyAdd_bot_id@);
        assert(a->CertifyAdd_reason@ == b->CertifyAdd_reason@);
    }
    if a is CertifyRemove {
        assert(b is CertifyRemove);
        assert(a->CertifyRemove_bot_id@ == b->CertifyRemove_bot_id@);
        assert(a->CertifyRemove_reason@ == b->CertifyRemove_reason@);
    }
    if a is VoteCountSet {
        assert(b is VoteCountSet);
        assert(a->VoteCountSet_bot_id@ == b->VoteCountSet_bot_id@);
        assert(a->VoteCountSet_reason@ == b->VoteCountSet_reason@);
        assert(a->VoteCountSet_count == b->VoteCountSet_count);
    }
    if a is TransferOwnershipToUser {
        assert(b is TransferOwnershipToUser);
        assert(a->TransferOwnershipToUser_bot_id@ == b->TransferOwnershipToUser_bot_id@);
        assert(a->TransferOwnershipToUser_reason@ == b->TransferOwnershipToUser_reason@);
        assert(a->TransferOwnershipToUser_new_owner@ == b->TransferOwnershipToUser_new_owner@);
    }
    if a is TransferOwnershipToTeam {
        assert(b is TransferOwnershipToTeam);
        assert(a->TransferOwnershipToTeam_bot_id@ == b->TransferOwnershipToTeam_bot_id@);
        assert(a->TransferOwnershipToTeam_reason@ == b->TransferOwnershipToTeam_reason@);
        assert(a->TransferOwnershipToTeam_new_team@ == b->TransferOwnershipToTeam_new_team@);
    }
    if a is TeamNameEdit {
        assert(b is TeamNameEdit);
        assert(a->TeamNameEdit_team_id@ == b->TeamNameEdit_team_id@);
        assert(a->TeamNameEdit_new_name@ == b->TeamNameEdit_new_name@);
        assert(a->TeamNameEdit_reason@ == b->TeamNameEdit_reason@);
    }
    assert(target_of(a) == target_of(b));
    assert(reason_of(a) == reason_of(b));
    assert((|x: BotView| writes_row(a, x)) =~= (|x: BotView| writes_row(b, x)));
    assert((|x: BotView| !(a is ForceRemove && writes_row(a, x))) =~= (|x: BotView|
        !(b is ForceRemove && writes_row(b, x))));
    assert((|x: BotView| row_after(a, caller, x)) =~= (|x: BotView| row_after(b, caller, x)));
    assert((|t: TeamView| writes_team(a, t)) =~= (|t: TeamView| writes_team(b, t)));
    assert((|t: TeamView| team_after(a, t)) =~= (|t: TeamView| team_after(b, t)));
}

/// The user to remove from the server for a notice: the bot that the
/// notice names, where the notice asks for it and the bot's id is a number
/// other than zero.
pub open spec fn kick_target(n: NoticeView) -> Option<u64> {
    if n.kick && id_of(n.target) is Some && id_of(n.target) != Some(0u64) {
        id_of(n.target)
    } else {
        None
    }
}

/// Whom to remove from the server for a notice, if anyone.
pub fn kick_of(n: &Notice) -> (out: Option<u64>)
    ensures
        out == kick_target(n@),
{
    if !n.kick {
        return None;
    }
    match parse_id(n.target.as_str()) {
        Some(id) => if id != 0 {
            Some(id)
        } else {
            None
        },
        None => None,
    }
}

} // verus!
