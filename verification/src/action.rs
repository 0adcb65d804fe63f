//! The actions themselves: one variant for each entry of the catalog, with
//! the values of its fields.

use vstd::prelude::*;
use crate::catalog::{fields_of, types_of, ActionKind, FieldType};

verus! {

/// One administrative intent with the values of its fields.
#[derive(Clone, Debug, PartialEq, Eq)]
pub enum Action {
    /// Take a bot up for testing.
    ClaimBot { bot_id: String, force: bool },
    /// Give a claimed bot back to the queue.
    UnclaimBot { bot_id: String, reason: String },
    /// Approve a bot.
    ApproveBot { bot_id: String, reason: String },
    /// Deny a bot.
    DenyBot { bot_id: String, reason: String },
    /// Set one bot's votes back to zero.
    VoteReset { bot_id: String, reason: String },
    /// Set every bot's votes back to zero.
    VoteResetAll { reason: String },
    /// Send an approved bot back to the queue.
    Unverify { bot_id: String, reason: String },
    /// Give a bot premium for a number of hours.
    PremiumAdd { bot_id: String, reason: String, duration: i32 },
    /// Take premium away from a bot.
    PremiumRemove { bot_id: String, reason: String },
    /// Bar a bot from being voted for.
    VoteBanAdd { bot_id: String, reason: String },
    /// Let a bot be voted for again.
    VoteBanRemove { bot_id: String, reason: String },
    /// Remove a bot from the list.
    ForceRemove { bot_id: String, reason: String, kick: bool },
    /// Certify a bot.
    CertifyAdd { bot_id: String, reason: String },
    /// Take a bot's certification away.
    CertifyRemove { bot_id: String, reason: String },
    /// Set a bot's votes to a given count.
    VoteCountSet { bot_id: String, reason: String, count: i32 },
    /// Hand a bot to another user.
    TransferOwnershipToUser { bot_id: String, reason: String, new_owner: String },
    /// Hand a bot to a team.
    TransferOwnershipToTeam { bot_id: String, reason: String, new_team: String },
    /// Rename a team.
    TeamNameEdit { team_id: String, new_name: String, reason: String },
}

/// The value of one field, as the contracts see it.
pub enum Value {
    Text(Seq<char>),
    Flag(bool),
    Number(int),
}

/// The shape of value that a field of the given type holds.
pub open spec fn fits(ty: FieldType, v: Value) -> bool {
    match ty {
        FieldType::Id | FieldType::Text => v is Text,
        FieldType::Flag => v is Flag,
        FieldType::Integer | FieldType::Duration => v is Number && i32::MIN <= v->Number_0
            <= i32::MAX,
    }
}

impl Action {
    /// The entry of the catalog that this action belongs to.
    pub open spec fn kind_of(self) -> ActionKind {
        match self {
            Action::ClaimBot { .. } => ActionKind::ClaimBot,
            Action::UnclaimBot { .. } => ActionKind::UnclaimBot,
            Action::ApproveBot { .. } => ActionKind::ApproveBot,
            Action::DenyBot { .. } => ActionKind::DenyBot,
            Action::VoteReset { .. } => ActionKind::VoteReset,
            Action::VoteResetAll { .. } => ActionKind::VoteResetAll,
            Action::Unverify { .. } => ActionKind::Unverify,
            Action::PremiumAdd { .. } => ActionKind::PremiumAdd,
            Action::PremiumRemove { .. } => ActionKind::PremiumRemove,
            Action::VoteBanAdd { .. } => ActionKind::VoteBanAdd,
            Action::VoteBanRemove { .. } => ActionKind::VoteBanRemove,
            Action::ForceRemove { .. } => ActionKind::ForceRemove,
            Action::CertifyAdd { .. } => ActionKind::CertifyAdd,
            Action::CertifyRemove { .. } => ActionKind::CertifyRemove,
            Action::VoteCountSet { .. } => ActionKind::VoteCountSet,
            Action::TransferOwnershipToUser { .. } => ActionKind::TransferOwnershipToUser,
            Action::TransferOwnershipToTeam { .. } => ActionKind::TransferOwnershipToTeam,
            Action::TeamNameEdit { .. } => ActionKind::TeamNameEdit,
        }
    }

    /// The values of this action's fields, in the order of its form.
    pub open spec fn values(self) -> Seq<Value> {
        match self {
            Action::ClaimBot { bot_id, force } => seq![Value::Text(bot_id@), Value::Flag(force)],
            Action::UnclaimBot { bot_id, reason } => seq![
                Value::Text(bot_id@),
                Value::Text(reason@),
            ],
            Action::ApproveBot { bot_id, reason } => seq![
                Value::Text(bot_id@),
                Value::Text(reason@),
            ],
            Action::DenyBot { bot_id, reason } => seq![Value::Text(bot_id@), Value::Text(reason@)],
            Action::VoteReset { bot_id, reason } => seq![
                Value::Text(bot_id@),
                Value::Text(reason@),
            ],
            Action::VoteResetAll { reason } => seq![Value::Text(reason@)],
            Action::Unverify { bot_id, reason } => seq![Value::Text(bot_id@), Value::Text(reason@)],
            Action::PremiumAdd { bot_id, reason, duration } => seq![
                Value::Text(bot_id@),
                Value::Text(reason@),
                Value::Number(duration as int),
            ],
            Action::PremiumRemove { bot_id, reason } => seq![
                Value::Text(bot_id@),
                Value::Text(reason@),
            ],
            Action::VoteBanAdd { bot_id, reason } => seq![
                Value::Text(bot_id@),
                Value::Text(reason@),
            ],
            Action::VoteBanRemove { bot_id, reason } => seq![
                Value::Text(bot_id@),
                Value::Text(reason@),
            ],
            Action::ForceRemove { bot_id, reason, kick } => seq![
                Value::Text(bot_id@),
                Value::Text(reason@),
                Value::Flag(kick),
            ],
            Action::CertifyAdd { bot_id, reason } => seq![
                Value::Text(bot_id@),
                Value::Text(reason@),
            ],
            Action::CertifyRemove { bot_id, reason } => seq![
                Value::Text(bot_id@),
                Value::Text(reason@),
            ],
            Action::VoteCountSet { bot_id, reason, count } => seq![
                Value::Text(bot_id@),
                Value::Text(reason@),
                Value::Number(count as int),
            ],
            Action::TransferOwnershipToUser { bot_id, reason, new_owner } => seq![
                Value::Text(bot_id@),
                Value::Text(reason@),
                Value::Text(new_owner@),
            ],
            Action::TransferOwnershipToTeam { bot_id, reason, new_team } => seq![
                Value::Text(bot_id@),
                Value::Text(reason@),
                Value::Text(new_team@),
            ],
            Action::TeamNameEdit { team_id, new_name, reason } => seq![
                Value::Text(team_id@),
                Value::Text(new_name@),
                Value::Text(reason@),
            ],
        }
    }

    /// The entry of the catalog that this action belongs to.
    pub fn kind(&self) -> (out: ActionKind)
        ensures
            out == self.kind_of(),
    {
        match self {
            Action::ClaimBot { .. } => ActionKind::ClaimBot,
            Action::UnclaimBot { .. } => ActionKind::UnclaimBot,
            Action::ApproveBot { .. } => ActionKind::ApproveBot,
            Action::DenyBot { .. } => ActionKind::DenyBot,
            Action::VoteReset { .. } => ActionKind::VoteReset,
            Action::VoteResetAll { .. } => ActionKind::VoteResetAll,
            Action::Unverify { .. } => ActionKind::Unverify,
            Action::PremiumAdd { .. } => ActionKind::PremiumAdd,
            Action::PremiumRemove { .. } => ActionKind::PremiumRemove,
            Action::VoteBanAdd { .. } => ActionKind::VoteBanAdd,
            Action::VoteBanRemove { .. } => ActionKind::VoteBanRemove,
            Action::ForceRemove { .. } => ActionKind::ForceRemove,
            Action::CertifyAdd { .. } => ActionKind::CertifyAdd,
            Action::CertifyRemove { .. } => ActionKind::CertifyRemove,
            Action::VoteCountSet { .. } => ActionKind::VoteCountSet,
            Action::TransferOwnershipToUser { .. } => ActionKind::TransferOwnershipToUser,
            Action::TransferOwnershipToTeam { .. } => ActionKind::TransferOwnershipToTeam,
            Action::TeamNameEdit { .. } => ActionKind::TeamNameEdit,
        }
    }

    /// The name that this action goes by.
    pub fn name(&self) -> (out: &'static str)
        ensures
            out@ == crate::catalog::name_of(self.kind_of()),
    {
        self.kind().name()
    }
}

/// Every action has as many values as the catalog lists fields for its
/// kind, and each value has the shape that the field's type asks for.
pub proof fn lemma_action_fits_catalog(a: Action)
    ensures
        a.values().len() == fields_of(a.kind_of()).len(),
        forall|i: int|
            0 <= i < a.values().len() ==> fits(
                #[trigger] types_of(a.kind_of())[i],
                a.values()[i],
            ),
{
}

/// An action of the given kind with the given values. Where there are
/// several, they differ in nothing that the library looks at.
pub open spec fn made(kind: ActionKind, vals: Seq<Value>) -> Action {
    choose|a: Action| a.kind_of() == kind && a.values() == vals
}

} // verus!
