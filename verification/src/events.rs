//! What the bot does when the platform tells it something: how it greets a
//! new member of the main server, what it says when a command fails, and
//! how it mends the claims of the store when it starts.

use vstd::prelude::*;
use vstd::string::*;
use crate::report::join;
use crate::store::{bot_rows, Bot, BotState, BotView};
use crate::text::{chars_of, decimal, decimal_text, is_word, lower, opt_text, to_lower};

verus! {

/// The servers, the channel and the role that the bot works with.
#[derive(Clone, Copy, Debug, PartialEq, Eq, Structural)]
pub struct Servers {
    pub main: u64,
    pub testing: u64,
    /// The channel for notices about who has joined.
    pub system_channel: u64,
    /// The role that every bot gets on the main server.
    pub bot_role: u64,
}

/// Someone who has just joined a server.
#[derive(Clone, Debug, PartialEq, Eq)]
pub struct NewMember {
    pub guild_id: u64,
    pub user_id: u64,
    pub name: String,
    /// The address of the member's picture.
    pub face: String,
    pub bot: bool,
    /// Whether the member is on the testing server as well.
    pub in_testing: bool,
}

/// Something to do on the platform.
#[derive(Clone, Debug, PartialEq, Eq)]
pub enum Reaction {
    /// Remove the user from the server.
    Kick { guild: u64, user: u64, reason: String },
    /// Post a notice.
    Announce { channel: u64, title: String, description: String, thumbnail: String },
    /// Give the user the role.
    GiveRole { guild: u64, user: u64, role: u64, reason: String },
}

pub enum ReactionView {
    Kick { guild: u64, user: u64, reason: Seq<char> },
    Announce { channel: u64, title: Seq<char>, description: Seq<char>, thumbnail: Seq<char> },
    GiveRole { guild: u64, user: u64, role: u64, reason: Seq<char> },
}

impl View for Reaction {
    type V = ReactionView;

    open spec fn view(&self) -> ReactionView {
        match self {
            Reaction::Kick { guild, user, reason } => ReactionView::Kick {
                guild: *guild,
                user: *user,
                reason: reason@,
            },
            Reaction::Announce { channel, title, description, thumbnail } => ReactionView::Announce {
                channel: *channel,
                title: title@,
                description: description@,
                thumbnail: thumbnail@,
            },
            Reaction::GiveRole { guild, user, role, reason } => ReactionView::GiveRole {
                guild: *guild,
                user: *user,
                role: *role,
                reason: reason@,
            },
        }
    }
}

/// The reactions that a list of reactions stands for.
pub open spec fn reaction_rows(v: Seq<Reaction>) -> Seq<ReactionView> {
    v.map_values(|r: Reaction| r@)
}

/// The notice for a bot that has joined the main server.
pub open spec fn bot_notice(m: NewMember, servers: Servers) -> ReactionView {
    ReactionView::Announce {
        channel: servers.system_channel,
        title: "__**New Bot Added**__"@,
        description: "Bot <@"@ + decimal_text(m.user_id as nat) + "> ("@ + m.name@
            + ") has joined the server and has been given the `Bots` role."@,
        thumbnail: m.face@,
    }
}

/// The notice for a user who has joined the main server.
pub open spec fn user_notice(m: NewMember, servers: Servers) -> ReactionView {
    ReactionView::Announce {
        channel: servers.system_channel,
        title: "__**New User**__"@,
        description: "Hmmmm... looks like <@"@ + decimal_text(m.user_id as nat) + "> ("@ + m.name@
            + ") has strolled in. Can we trust them?"@,
        thumbnail: m.face@,
    }
}

/// What is done about a new member, in order. A bot that joins the main
/// server leaves the testing server if it is there, is announced and gets
/// the bot role; a user who joins the main server is announced; nothing is
/// done about who joins another server.
pub open spec fn greeting(m: NewMember, servers: Servers) -> Seq<ReactionView> {
    if m.guild_id != servers.main {
        Seq::<ReactionView>::empty()
    } else if !m.bot {
        seq![user_notice(m, servers)]
    } else {
        let rest = seq![
            bot_notice(m, servers),
            ReactionView::GiveRole {
                guild: servers.main,
                user: m.user_id,
                role: servers.bot_role,
                reason: "Bot added to server"@,
            },
        ];
        if m.in_testing {
            seq![
                ReactionView::Kick {
                    guild: servers.testing,
                    user: m.user_id,
                    reason: "Added to main server"@,
                },
            ] + rest
        } else {
            rest
        }
    }
}

/// Works out what to do about a new member.
pub fn on_member_join(m: &NewMember, servers: &Servers) -> (out: Vec<Reaction>)
    ensures
        reaction_rows(out@) == greeting(*m, *servers),
{
    let mut out: Vec<Reaction> = Vec::new();
    if m.guild_id != servers.main {
        assert(reaction_rows(out@) =~= greeting(*m, *servers));
        return out;
    }
    let id = decimal(m.user_id);
    if !m.bot {
        let description = join("Hmmmm... looks like <@", id.as_str(), "> (").concat(
            m.name.as_str(),
        ).concat(") has strolled in. Can we trust them?");
        out.push(
            Reaction::Announce {
                channel: servers.system_channel,
                title: String::from_str("__**New User**__"),
                description,
                thumbnail: m.face.clone(),
            },
        );
        assert(reaction_rows(out@) =~= greeting(*m, *servers));
        return out;
    }
    if m.in_testing {
        out.push(
            Reaction::Kick {
                guild: servers.testing,
                user: m.user_id,
                reason: String::from_str("Added to main server"),
            },
        );
    }
    let description = join("Bot <@", id.as_str(), "> (").concat(m.name.as_str()).concat(
        ") has joined the server and has been given the `Bots` role.",
    );
    out.push(
        Reaction::Announce {
            channel: servers.system_channel,
            title: String::from_str("__**New Bot Added**__"),
            description,
            thumbnail: m.face.clone(),
        },
    );
    out.push(
        Reaction::GiveRole {
            guild: servers.main,
            user: m.user_id,
            role: servers.bot_role,
            reason: String::from_str("Bot added to server"),
        },
    );
    assert(reaction_rows(out@) =~= greeting(*m, *servers));
    out
}

/// The answer to a caller who asks how old an account is.
pub open spec fn age_text(name: Seq<char>, created_at: Seq<char>) -> Seq<char> {
    name + "'s account was created at "@ + created_at
}

/// Words the answer to a caller who asks how old an account is.
pub fn age(name: &str, created_at: &str) -> (out: String)
    ensures
        out@ == age_text(name@, created_at@),
{
    join(name, "'s account was created at ", created_at)
}

/// How a command came to fail.
#[derive(Clone, Debug, PartialEq, Eq)]
pub enum Failure {
    /// The command ran and ended in an error.
    Command { error: String },
    /// A check before the command turned the caller away, with or without
    /// saying why.
    CheckFailed { error: Option<String> },
    /// Anything else; the platform's own handling applies.
    Other,
}

/// What the caller is told about a failed command, if this bot has words
/// of its own for it.
pub open spec fn failure_text(f: Failure) -> Option<Seq<char>> {
    match f {
        Failure::Command { error } => Some(
            "There was an error running this command: "@ + error@,
        ),
        Failure::CheckFailed { error: Some(error) } => Some(
            "Whoa there, do you have permission to do this?: "@ + error@,
        ),
        Failure::CheckFailed { error: None } => Some(
            "You don't have permission to do this but we couldn't figure out why..."@,
        ),
        Failure::Other => None,
    }
}

/// What to tell the caller about a failed command.
pub fn on_error(f: &Failure) -> (out: Option<String>)
    ensures
        opt_text(out) == failure_text(*f),
{
    match f {
        Failure::Command { error } => Some(
            String::from_str("There was an error running this command: ").concat(error.as_str()),
        ),
        Failure::CheckFailed { error: Some(error) } => Some(
            String::from_str("Whoa there, do you have permission to do this?: ").concat(
                error.as_str(),
            ),
        ),
        Failure::CheckFailed { error: None } => Some(
            String::from_str(
                "You don't have permission to do this but we couldn't figure out why...",
            ),
        ),
        Failure::Other => None,
    }
}

/// The claim is the word `none` in some mix of cases, which stands for no
/// claim at all.
pub open spec fn is_empty_claim(b: BotView) -> bool {
    b.claimed_by is Some && lower(b.claimed_by->Some_0) == "none"@
}

/// A bot's row after its claim has been mended: a claim by `none` is taken
/// away and the bot goes back to the queue.
pub open spec fn mended(b: BotView) -> BotView {
    if is_empty_claim(b) {
        BotView { claimed_by: None, state: BotState::Pending, ..b }
    } else {
        b
    }
}

/// Mends the claims of all bots. This is done once when the bot starts.
pub fn repair_claims(bots: &Vec<Bot>) -> (out: Vec<Bot>)
    ensures
        bot_rows(out@) == bot_rows(bots@).map_values(|b: BotView| mended(b)),
{
    let mut out: Vec<Bot> = Vec::new();
    let mut i: usize = 0;
    while i < bots.len()
        invariant
            i <= bots.len(),
            out.len() == i,
            forall|j: int| 0 <= j < i ==> (#[trigger] out@[j])@ == mended(bots@[j]@),
        decreases bots.len() - i,
    {
        let mut row = bots[i].copy();
        let empty = match &row.claimed_by {
            Some(who) => {
                let who = chars_of(who.as_str());
                let who = to_lower(&who);
                is_word(&who, "none")
            },
            None => false,
        };
        if empty {
            row.claimed_by = None;
            row.state = BotState::Pending;
        }
        out.push(row);
        i += 1;
    }
    assert(bot_rows(out@) =~= bot_rows(bots@).map_values(|b: BotView| mended(b)));
    out
}

} // verus!
