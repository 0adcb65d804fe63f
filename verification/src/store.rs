//! The rows that the engine reads and writes, as they stand inside one
//! transaction: bots, teams and the staff roster.

use vstd::prelude::*;
use crate::text::{opt_text, texts};

verus! {

/// Where a bot stands on its way onto the list.
#[derive(Clone, Copy, Debug, PartialEq, Eq, Structural)]
pub enum BotState {
    Pending,
    Approved,
    Denied,
    Certified,
}

/// Who a bot belongs to.
#[derive(Clone, Debug, PartialEq, Eq)]
pub enum Owner {
    User(String),
    Team(String),
}

/// One bot of the list.
#[derive(Clone, Debug, PartialEq, Eq)]
pub struct Bot {
    pub bot_id: String,
    pub state: BotState,
    /// The staff member who reviews the bot, if any.
    pub claimed_by: Option<String>,
    pub votes: i32,
    pub vote_banned: bool,
    /// The hours of premium that the bot still has; zero for none.
    pub premium_hours: u64,
    pub owner: Owner,
    /// What was last looked up about the owner. It goes stale when the
    /// owner changes.
    pub owner_cache: Option<String>,
}

/// One team.
#[derive(Clone, Debug, PartialEq, Eq)]
pub struct Team {
    pub team_id: String,
    pub name: String,
}

/// The rows of one transaction.
#[derive(Clone, Debug, PartialEq, Eq)]
pub struct Store {
    pub bots: Vec<Bot>,
    pub teams: Vec<Team>,
    /// The ids of the callers who are staff.
    pub staff: Vec<String>,
    /// How many rows the backing store will take in this transaction before
    /// it fails; `None` where it takes any number.
    pub write_limit: Option<usize>,
}

pub enum OwnerView {
    User(Seq<char>),
    Team(Seq<char>),
}

pub struct BotView {
    pub bot_id: Seq<char>,
    pub state: BotState,
    pub claimed_by: Option<Seq<char>>,
    pub votes: int,
    pub vote_banned: bool,
    pub premium_hours: int,
    pub owner: OwnerView,
    pub owner_cache: Option<Seq<char>>,
}

pub struct TeamView {
    pub team_id: Seq<char>,
    pub name: Seq<char>,
}

pub struct StoreView {
    pub bots: Seq<BotView>,
    pub teams: Seq<TeamView>,
    pub staff: Seq<Seq<char>>,
    pub write_limit: Option<int>,
}

impl View for Owner {
    type V = OwnerView;

    open spec fn view(&self) -> OwnerView {
        match self {
            Owner::User(id) => OwnerView::User(id@),
            Owner::Team(id) => OwnerView::Team(id@),
        }
    }
}

impl View for Bot {
    type V = BotView;

    open spec fn view(&self) -> BotView {
        BotView {
            bot_id: self.bot_id@,
            state: self.state,
            claimed_by: opt_text(self.claimed_by),
            votes: self.votes as int,
            vote_banned: self.vote_banned,
            premium_hours: self.premium_hours as int,
            owner: self.owner@,
            owner_cache: opt_text(self.owner_cache),
        }
    }
}

impl View for Team {
    type V = TeamView;

    open spec fn view(&self) -> TeamView {
        TeamView { team_id: self.team_id@, name: self.name@ }
    }
}

/// The rows that a list of bots stands for.
pub open spec fn bot_rows(v: Seq<Bot>) -> Seq<BotView> {
    v.map_values(|b: Bot| b@)
}

/// The rows that a list of teams stands for.
pub open spec fn team_rows(v: Seq<Team>) -> Seq<TeamView> {
    v.map_values(|t: Team| t@)
}

impl View for Store {
    type V = StoreView;

    open spec fn view(&self) -> StoreView {
        StoreView {
            bots: bot_rows(self.bots@),
            teams: team_rows(self.teams@),
            staff: texts(self.staff@),
            write_limit: match self.write_limit {
                Some(n) => Some(n as int),
                None => None,
            },
        }
    }
}

/// A copy of an optional string.
pub fn copy_opt(s: &Option<String>) -> (out: Option<String>)
    ensures
        opt_text(out) == opt_text(*s),
{
    match s {
        Some(t) => Some(t.clone()),
        None => None,
    }
}

impl Owner {
    /// A copy of this owner.
    pub fn copy(&self) -> (out: Owner)
        ensures
            out@ == self@,
    {
        match self {
            Owner::User(id) => Owner::User(id.clone()),
            Owner::Team(id) => Owner::Team(id.clone()),
        }
    }
}

impl Bot {
    /// A copy of this row.
    pub fn copy(&self) -> (out: Bot)
        ensures
            out@ == self@,
    {
        Bot {
            bot_id: self.bot_id.clone(),
            state: self.state,
            claimed_by: copy_opt(&self.claimed_by),
            votes: self.votes,
            vote_banned: self.vote_banned,
            premium_hours: self.premium_hours,
            owner: self.owner.copy(),
            owner_cache: copy_opt(&self.owner_cache),
        }
    }
}

impl Team {
    /// A copy of this row.
    pub fn copy(&self) -> (out: Team)
        ensures
            out@ == self@,
    {
        Team { team_id: self.team_id.clone(), name: self.name.clone() }
    }
}

/// Whether two optional strings hold the same text, or both none.
pub fn same_opt(a: &Option<String>, b: &Option<String>) -> (out: bool)
    ensures
        out == (opt_text(*a) == opt_text(*b)),
{
    match (a, b) {
        (Some(x), Some(y)) => *x == *y,
        (None, None) => true,
        _ => false,
    }
}

impl Owner {
    /// Whether this is the same owner.
    pub fn same(&self, other: &Owner) -> (out: bool)
        ensures
            out == (self@ == other@),
    {
        match (self, other) {
            (Owner::User(x), Owner::User(y)) => *x == *y,
            (Owner::Team(x), Owner::Team(y)) => *x == *y,
            _ => false,
        }
    }
}

impl Bot {
    /// Whether the two rows hold the same values.
    pub fn same(&self, other: &Bot) -> (out: bool)
        ensures
            out == (self@ == other@),
    {
        self.bot_id == other.bot_id && self.state == other.state && same_opt(
            &self.claimed_by,
            &other.claimed_by,
        ) && self.votes == other.votes && self.vote_banned == other.vote_banned
            && self.premium_hours == other.premium_hours && self.owner.same(&other.owner)
            && same_opt(&self.owner_cache, &other.owner_cache)
    }
}

impl Team {
    /// Whether the two rows hold the same values.
    pub fn same(&self, other: &Team) -> (out: bool)
        ensures
            out == (self@ == other@),
    {
        self.team_id == other.team_id && self.name == other.name
    }
}

/// One write to the backing store.
#[derive(Clone, Debug, PartialEq, Eq)]
pub enum Write {
    /// Delete the bot with this id.
    RemoveBot(String),
    /// Write this row over the bot with its id.
    PutBot(Bot),
    /// Write this row over the team with its id.
    PutTeam(Team),
}

pub enum WriteView {
    RemoveBot(Seq<char>),
    PutBot(BotView),
    PutTeam(TeamView),
}

impl View for Write {
    type V = WriteView;

    open spec fn view(&self) -> WriteView {
        match self {
            Write::RemoveBot(id) => WriteView::RemoveBot(id@),
            Write::PutBot(b) => WriteView::PutBot(b@),
            Write::PutTeam(t) => WriteView::PutTeam(t@),
        }
    }
}

/// The writes that a list of writes stands for.
pub open spec fn write_rows(v: Seq<Write>) -> Seq<WriteView> {
    v.map_values(|w: Write| w@)
}

/// Some bot of the list has the id.
pub open spec fn holds_id(bots: Seq<BotView>, id: Seq<char>) -> bool {
    exists|i: int| 0 <= i < bots.len() && (#[trigger] bots[i]).bot_id == id
}

/// A removal for each bot of `before` whose id no bot of `after` has, in the
/// order of `before`.
pub open spec fn removals_of(before: Seq<BotView>, after: Seq<BotView>) -> Seq<WriteView> {
    before.filter(|b: BotView| !holds_id(after, b.bot_id)).map_values(
        |b: BotView| WriteView::RemoveBot(b.bot_id),
    )
}

/// A put for each bot of `after` that `before` does not hold as it is, in
/// the order of `after`.
pub open spec fn bot_puts_of(before: Seq<BotView>, after: Seq<BotView>) -> Seq<WriteView> {
    after.filter(|b: BotView| !before.contains(b)).map_values(|b: BotView| WriteView::PutBot(b))
}

/// A put for each team of `after` that `before` does not hold as it is, in
/// the order of `after`.
pub open spec fn team_puts_of(before: Seq<TeamView>, after: Seq<TeamView>) -> Seq<WriteView> {
    after.filter(|t: TeamView| !before.contains(t)).map_values(
        |t: TeamView| WriteView::PutTeam(t),
    )
}

/// The writes that take the backing store from `before` to `after`: the
/// removals, then the puts of bots, then the puts of teams. A row that is
/// the same in both is not written.
pub open spec fn changes_of(before: StoreView, after: StoreView) -> Seq<WriteView> {
    removals_of(before.bots, after.bots) + bot_puts_of(before.bots, after.bots) + team_puts_of(
        before.teams,
        after.teams,
    )
}

/// Whether some bot of the list has the id.
fn has_id(bots: &Vec<Bot>, id: &String) -> (out: bool)
    ensures
        out == holds_id(bot_rows(bots@), id@),
{
    let mut i: usize = 0;
    while i < bots.len()
        invariant
            i <= bots.len(),
            forall|j: int| 0 <= j < i ==> (#[trigger] bot_rows(bots@)[j]).bot_id != id@,
        decreases bots.len() - i,
    {
        if bots[i].bot_id == *id {
            assert(bot_rows(bots@)[i as int].bot_id == id@);
            return true;
        }
        i += 1;
    }
    false
}

/// Whether the list holds the row as it is.
fn holds_bot(bots: &Vec<Bot>, row: &Bot) -> (out: bool)
    ensures
        out == bot_rows(bots@).contains(row@),
{
    let mut i: usize = 0;
    while i < bots.len()
        invariant
            i <= bots.len(),
            forall|j: int| 0 <= j < i ==> #[trigger] bot_rows(bots@)[j] != row@,
        decreases bots.len() - i,
    {
        if bots[i].same(row) {
            assert(bot_rows(bots@)[i as int] == row@);
            return true;
        }
        i += 1;
    }
    false
}

/// Whether the list holds the row as it is.
fn holds_team(teams: &Vec<Team>, row: &Team) -> (out: bool)
    ensures
        out == team_rows(teams@).contains(row@),
{
    let mut i: usize = 0;
    while i < teams.len()
        invariant
            i <= teams.len(),
            forall|j: int| 0 <= j < i ==> #[trigger] team_rows(teams@)[j] != row@,
        decreases teams.len() - i,
    {
        if teams[i].same(row) {
            assert(team_rows(teams@)[i as int] == row@);
            return true;
        }
        i += 1;
    }
    false
}

/// Works out the writes that take the backing store from `before` to
/// `after`.
pub fn changes(before: &Store, after: &Store) -> (out: Vec<Write>)
    ensures
        write_rows(out@) == changes_of(before@, after@),
{
    let ghost old_bots = bot_rows(before.bots@);
    let ghost new_bots = bot_rows(after.bots@);
    let ghost old_teams = team_rows(before.teams@);
    let ghost new_teams = team_rows(after.teams@);
    let ghost gone = |b: BotView| !holds_id(new_bots, b.bot_id);
    let ghost removal = |b: BotView| WriteView::RemoveBot(b.bot_id);
    let ghost fresh = |b: BotView| !old_bots.contains(b);
    let ghost put = |b: BotView| WriteView::PutBot(b);
    let ghost fresh_team = |t: TeamView| !old_teams.contains(t);
    let ghost put_team = |t: TeamView| WriteView::PutTeam(t);
    let mut out: Vec<Write> = Vec::new();
    let mut i: usize = 0;
    assert(old_bots.take(0) == Seq::<BotView>::empty());
    assert(write_rows(out@) == Seq::<WriteView>::empty());
    while i < before.bots.len()
        invariant
            i <= before.bots.len(),
            old_bots == bot_rows(before.bots@),
            new_bots == bot_rows(after.bots@),
            gone == (|b: BotView| !holds_id(new_bots, b.bot_id)),
            removal == (|b: BotView| WriteView::RemoveBot(b.bot_id)),
            write_rows(out@) == old_bots.take(i as int).filter(gone).map_values(removal),
        decreases before.bots.len() - i,
    {
        let row = &before.bots[i];
        let ghost so_far = out@;
        proof {
            assert(old_bots[i as int] == row@);
            assert(old_bots.take(i + 1) == old_bots.take(i as int).push(row@));
            old_bots.take(i as int).lemma_filter_push(row@, gone);
        }
        if !has_id(&after.bots, &row.bot_id) {
            out.push(Write::RemoveBot(row.bot_id.clone()));
            assert(write_rows(out@) == write_rows(so_far).push(removal(row@)));
            assert(old_bots.take(i as int).filter(gone).push(row@).map_values(removal)
                == old_bots.take(i as int).filter(gone).map_values(removal).push(removal(row@)));
        }
        i += 1;
    }
    assert(old_bots.take(before.bots.len() as int) == old_bots);
    let ghost removed = write_rows(out@);
    assert(removed == removals_of(old_bots, new_bots));
    let mut j: usize = 0;
    assert(new_bots.take(0) == Seq::<BotView>::empty());
    assert(new_bots.take(0).filter(fresh).map_values(put) == Seq::<WriteView>::empty());
    assert(write_rows(out@) == removed + Seq::<WriteView>::empty());
    while j < after.bots.len()
        invariant
            j <= after.bots.len(),
            old_bots == bot_rows(before.bots@),
            new_bots == bot_rows(after.bots@),
            fresh == (|b: BotView| !old_bots.contains(b)),
            put == (|b: BotView| WriteView::PutBot(b)),
            write_rows(out@) == removed + new_bots.take(j as int).filter(fresh).map_values(put),
        decreases after.bots.len() - j,
    {
        let row = &after.bots[j];
        let ghost so_far = out@;
        proof {
            assert(new_bots[j as int] == row@);
            assert(new_bots.take(j + 1) == new_bots.take(j as int).push(row@));
            new_bots.take(j as int).lemma_filter_push(row@, fresh);
        }
        if !holds_bot(&before.bots, row) {
            out.push(Write::PutBot(row.copy()));
            assert(write_rows(out@) == write_rows(so_far).push(put(row@)));
            assert(new_bots.take(j as int).filter(fresh).push(row@).map_values(put)
                == new_bots.take(j as int).filter(fresh).map_values(put).push(put(row@)));
            assert(write_rows(out@) == removed + new_bots.take(j + 1).filter(fresh).map_values(
                put,
            ));
        }
        j += 1;
    }
    assert(new_bots.take(after.bots.len() as int) == new_bots);
    let ghost bots_done = write_rows(out@);
    assert(bots_done == removals_of(old_bots, new_bots) + bot_puts_of(old_bots, new_bots));
    let mut k: usize = 0;
    assert(new_teams.take(0) == Seq::<TeamView>::empty());
    assert(new_teams.take(0).filter(fresh_team).map_values(put_team) == Seq::<WriteView>::empty());
    assert(write_rows(out@) == bots_done + Seq::<WriteView>::empty());
    while k < after.teams.len()
        invariant
            k <= after.teams.len(),
            old_teams == team_rows(before.teams@),
            new_teams == team_rows(after.teams@),
            fresh_team == (|t: TeamView| !old_teams.contains(t)),
            put_team == (|t: TeamView| WriteView::PutTeam(t)),
            write_rows(out@) == bots_done + new_teams.take(k as int).filter(fresh_team).map_values(
                put_team,
            ),
        decreases after.teams.len() - k,
    {
        let row = &after.teams[k];
        let ghost so_far = out@;
        proof {
            assert(new_teams[k as int] == row@);
            assert(new_teams.take(k + 1) == new_teams.take(k as int).push(row@));
            new_teams.take(k as int).lemma_filter_push(row@, fresh_team);
        }
        if !holds_team(&before.teams, row) {
            out.push(Write::PutTeam(row.copy()));
            assert(write_rows(out@) == write_rows(so_far).push(put_team(row@)));
            assert(new_teams.take(k as int).filter(fresh_team).push(row@).map_values(put_team)
                == new_teams.take(k as int).filter(fresh_team).map_values(put_team).push(
                put_team(row@),
            ));
            assert(write_rows(out@) == bots_done + new_teams.take(k + 1).filter(
                fresh_team,
            ).map_values(put_team));
        }
        k += 1;
    }
    assert(new_teams.take(after.teams.len() as int) == new_teams);
    out
}

/// Filtering by a test that no item passes leaves nothing.
proof fn lemma_filter_drops_all<A>(s: Seq<A>, pred: spec_fn(A) -> bool)
    requires
        forall|i: int| 0 <= i < s.len() ==> !pred(#[trigger] s[i]),
    ensures
        s.filter(pred) == Seq::<A>::empty(),
    decreases s.len(),
{
    if s.len() == 0 {
        assert(s.filter(pred) == Seq::<A>::empty()) by {
            reveal(Seq::filter);
        }
    } else {
        lemma_filter_drops_all(s.drop_last(), pred);
        s.drop_last().lemma_filter_push(s.last(), pred);
        assert(s.drop_last().push(s.last()) == s);
    }
}

/// Where nothing has changed there is nothing to write. So an action that
/// the engine refuses, which leaves the rows as they were, writes nothing
/// to the backing store.
pub proof fn lemma_no_change_no_write(before: StoreView, after: StoreView)
    requires
        after.bots == before.bots,
        after.teams == before.teams,
    ensures
        changes_of(before, after) == Seq::<WriteView>::empty(),
{
    let bots = before.bots;
    let teams = before.teams;
    assert forall|i: int| 0 <= i < bots.len() implies holds_id(
        bots,
        (#[trigger] bots[i]).bot_id,
    ) by {}
    lemma_filter_drops_all(bots, |b: BotView| !holds_id(bots, b.bot_id));
    lemma_filter_drops_all(bots, |b: BotView| !bots.contains(b));
    lemma_filter_drops_all(teams, |t: TeamView| !teams.contains(t));
    assert(changes_of(before, after) =~= Seq::<WriteView>::empty());
}

} // verus!
