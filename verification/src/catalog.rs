//! The closed catalog of administrative actions: their names, the title of
//! the form that asks for each, and the typed fields that each one takes.

use vstd::prelude::*;
use crate::error::RpcError;
use crate::text::{chars_of, contains, contains_text, same_chars, texts};

verus! {

/// One entry of the catalog.
#[derive(Clone, Copy, Debug, PartialEq, Eq, Structural)]
pub enum ActionKind {
    ClaimBot,
    UnclaimBot,
    ApproveBot,
    DenyBot,
    VoteReset,
    VoteResetAll,
    Unverify,
    PremiumAdd,
    PremiumRemove,
    VoteBanAdd,
    VoteBanRemove,
    ForceRemove,
    CertifyAdd,
    CertifyRemove,
    VoteCountSet,
    TransferOwnershipToUser,
    TransferOwnershipToTeam,
    TeamNameEdit,
}

/// How the raw text of a field is read.
#[derive(Clone, Copy, Debug, PartialEq, Eq, Structural)]
pub enum FieldType {
    /// The id of a bot, a user or a team; taken as it is.
    Id,
    /// Free text; taken as it is.
    Text,
    /// A truth value.
    Flag,
    /// A 32-bit signed integer.
    Integer,
    /// A duration, kept in whole hours.
    Duration,
}

/// One field of an action's form.
#[derive(Clone, Copy, Debug)]
pub struct FieldSpec {
    /// The name under which the field is submitted.
    pub id: &'static str,
    /// The text shown beside the input.
    pub label: &'static str,
    pub ty: FieldType,
    /// Whether the input takes several lines.
    pub long: bool,
    /// The text shown in the empty input.
    pub hint: Option<&'static str>,
}

/// Every entry of the catalog, in the catalog's order.
pub open spec fn all_kinds() -> Seq<ActionKind> {
    seq![
        ActionKind::ClaimBot,
        ActionKind::UnclaimBot,
        ActionKind::ApproveBot,
        ActionKind::DenyBot,
        ActionKind::VoteReset,
        ActionKind::VoteResetAll,
        ActionKind::Unverify,
        ActionKind::PremiumAdd,
        ActionKind::PremiumRemove,
        ActionKind::VoteBanAdd,
        ActionKind::VoteBanRemove,
        ActionKind::ForceRemove,
        ActionKind::CertifyAdd,
        ActionKind::CertifyRemove,
        ActionKind::VoteCountSet,
        ActionKind::TransferOwnershipToUser,
        ActionKind::TransferOwnershipToTeam,
        ActionKind::TeamNameEdit,
    ]
}

/// The name under which callers ask for an action.
pub open spec fn name_of(kind: ActionKind) -> Seq<char> {
    match kind {
        ActionKind::ClaimBot => "ClaimBot"@,
        ActionKind::UnclaimBot => "UnclaimBot"@,
        ActionKind::ApproveBot => "ApproveBot"@,
        ActionKind::DenyBot => "DenyBot"@,
        ActionKind::VoteReset => "VoteReset"@,
        ActionKind::VoteResetAll => "VoteResetAll"@,
        ActionKind::Unverify => "Unverify"@,
        ActionKind::PremiumAdd => "PremiumAdd"@,
        ActionKind::PremiumRemove => "PremiumRemove"@,
        ActionKind::VoteBanAdd => "VoteBanAdd"@,
        ActionKind::VoteBanRemove => "VoteBanRemove"@,
        ActionKind::ForceRemove => "ForceRemove"@,
        ActionKind::CertifyAdd => "CertifyAdd"@,
        ActionKind::CertifyRemove => "CertifyRemove"@,
        ActionKind::VoteCountSet => "VoteCountSet"@,
        ActionKind::TransferOwnershipToUser => "TransferOwnershipToUser"@,
        ActionKind::TransferOwnershipToTeam => "TransferOwnershipToTeam"@,
        ActionKind::TeamNameEdit => "TeamNameEdit"@,
    }
}

/// The kind that a name stands for, or the error for a name that the
/// catalog does not hold.
pub open spec fn kind_of(name: Seq<char>) -> Result<ActionKind, RpcError> {
    if exists|k: ActionKind| name_of(k) == name {
        Ok(choose|k: ActionKind| name_of(k) == name)
    } else {
        Err(RpcError::UnknownAction)
    }
}

impl ActionKind {
    /// Every entry of the catalog, in the catalog's order.
    pub fn all() -> (out: Vec<ActionKind>)
        ensures
            out@ == all_kinds(),
    {
        vec![
            ActionKind::ClaimBot,
            ActionKind::UnclaimBot,
            ActionKind::ApproveBot,
            ActionKind::DenyBot,
            ActionKind::VoteReset,
            ActionKind::VoteResetAll,
            ActionKind::Unverify,
            ActionKind::PremiumAdd,
            ActionKind::PremiumRemove,
            ActionKind::VoteBanAdd,
            ActionKind::VoteBanRemove,
            ActionKind::ForceRemove,
            ActionKind::CertifyAdd,
            ActionKind::CertifyRemove,
            ActionKind::VoteCountSet,
            ActionKind::TransferOwnershipToUser,
            ActionKind::TransferOwnershipToTeam,
            ActionKind::TeamNameEdit,
        ]
    }

    /// The name under which callers ask for this action.
    pub fn name(self) -> (out: &'static str)
        ensures
            out@ == name_of(self),
    {
        match self {
            ActionKind::ClaimBot => "ClaimBot",
            ActionKind::UnclaimBot => "UnclaimBot",
            ActionKind::ApproveBot => "ApproveBot",
            ActionKind::DenyBot => "DenyBot",
            ActionKind::VoteReset => "VoteReset",
            ActionKind::VoteResetAll => "VoteResetAll",
            ActionKind::Unverify => "Unverify",
            ActionKind::PremiumAdd => "PremiumAdd",
            ActionKind::PremiumRemove => "PremiumRemove",
            ActionKind::VoteBanAdd => "VoteBanAdd",
            ActionKind::VoteBanRemove => "VoteBanRemove",
            ActionKind::ForceRemove => "ForceRemove",
            ActionKind::CertifyAdd => "CertifyAdd",
            ActionKind::CertifyRemove => "CertifyRemove",
            ActionKind::VoteCountSet => "VoteCountSet",
            ActionKind::TransferOwnershipToUser => "TransferOwnershipToUser",
            ActionKind::TransferOwnershipToTeam => "TransferOwnershipToTeam",
            ActionKind::TeamNameEdit => "TeamNameEdit",
        }
    }
}

/// The catalog's list holds every kind.
pub proof fn lemma_all_kinds_complete(kind: ActionKind)
    ensures
        all_kinds().contains(kind),
{
    let i: int = match kind {
        ActionKind::ClaimBot => 0,
        ActionKind::UnclaimBot => 1,
        ActionKind::ApproveBot => 2,
        ActionKind::DenyBot => 3,
        ActionKind::VoteReset => 4,
        ActionKind::VoteResetAll => 5,
        ActionKind::Unverify => 6,
        ActionKind::PremiumAdd => 7,
        ActionKind::PremiumRemove => 8,
        ActionKind::VoteBanAdd => 9,
        ActionKind::VoteBanRemove => 10,
        ActionKind::ForceRemove => 11,
        ActionKind::CertifyAdd => 12,
        ActionKind::CertifyRemove => 13,
        ActionKind::VoteCountSet => 14,
        ActionKind::TransferOwnershipToUser => 15,
        ActionKind::TransferOwnershipToTeam => 16,
        ActionKind::TeamNameEdit => 17,
    };
    assert(all_kinds()[i] == kind);
}

proof fn reveal_names()
    ensures
        "ClaimBot"@.len() == 8 && "ClaimBot"@[0] == 'C',
        "UnclaimBot"@.len() == 10 && "UnclaimBot"@[0] == 'U',
        "ApproveBot"@.len() == 10 && "ApproveBot"@[0] == 'A',
        "DenyBot"@.len() == 7,
        "VoteReset"@.len() == 9,
        "VoteResetAll"@.len() == 12 && "VoteResetAll"@[0] == 'V' && "VoteResetAll"@[4] == 'R',
        "Unverify"@.len() == 8 && "Unverify"@[0] == 'U',
        "PremiumAdd"@.len() == 10 && "PremiumAdd"@[0] == 'P',
        "PremiumRemove"@.len() == 13 && "PremiumRemove"@[0] == 'P',
        "VoteBanAdd"@.len() == 10 && "VoteBanAdd"@[0] == 'V',
        "VoteBanRemove"@.len() == 13 && "VoteBanRemove"@[0] == 'V',
        "ForceRemove"@.len() == 11,
        "CertifyAdd"@.len() == 10 && "CertifyAdd"@[0] == 'C',
        "CertifyRemove"@.len() == 13 && "CertifyRemove"@[0] == 'C',
        "VoteCountSet"@.len() == 12 && "VoteCountSet"@[0] == 'V' && "VoteCountSet"@[4] == 'C',
        "TransferOwnershipToUser"@.len() == 23 && "TransferOwnershipToUser"@[19] == 'U',
        "TransferOwnershipToTeam"@.len() == 23 && "TransferOwnershipToTeam"@[19] == 'T',
        "TeamNameEdit"@.len() == 12 && "TeamNameEdit"@[0] == 'T',
{
    reveal_strlit("ClaimBot");
    reveal_strlit("UnclaimBot");
    reveal_strlit("ApproveBot");
    reveal_strlit("DenyBot");
    reveal_strlit("VoteReset");
    reveal_strlit("VoteResetAll");
    reveal_strlit("Unverify");
    reveal_strlit("PremiumAdd");
    reveal_strlit("PremiumRemove");
    reveal_strlit("VoteBanAdd");
    reveal_strlit("VoteBanRemove");
    reveal_strlit("ForceRemove");
    reveal_strlit("CertifyAdd");
    reveal_strlit("CertifyRemove");
    reveal_strlit("VoteCountSet");
    reveal_strlit("TransferOwnershipToUser");
    reveal_strlit("TransferOwnershipToTeam");
    reveal_strlit("TeamNameEdit");
}

/// No two entries of the catalog share a name.
pub proof fn lemma_names_distinct(a: ActionKind, b: ActionKind)
    requires
        name_of(a) == name_of(b),
    ensures
        a == b,
{
    reveal_names();
}

/// A name that the catalog holds stands for the one kind that carries it.
pub proof fn lemma_kind_of_name(kind: ActionKind)
    ensures
        kind_of(name_of(kind)) == Ok::<ActionKind, RpcError>(kind),
{
    let found = choose|k: ActionKind| name_of(k) == name_of(kind);
    lemma_names_distinct(found, kind);
}

impl ActionKind {
    /// Looks an action up by its name. The name must match to the letter.
    pub fn from_name(name: &str) -> (out: Result<ActionKind, RpcError>)
        ensures
            out == kind_of(name@),
    {
        let wanted = chars_of(name);
        let kinds = ActionKind::all();
        let mut i: usize = 0;
        while i < kinds.len()
            invariant
                i <= kinds.len(),
                kinds@ == all_kinds(),
                wanted@ == name@,
                forall|j: int| 0 <= j < i ==> name_of(kinds@[j]) != name@,
            decreases kinds.len() - i,
        {
            let kind = kinds[i];
            let own = chars_of(kind.name());
            if same_chars(&own, &wanted) {
                proof {
                    let found = choose|k: ActionKind| name_of(k) == name@;
                    lemma_names_distinct(found, kind);
                }
                return Ok(kind);
            }
            i += 1;
        }
        proof {
            assert forall|k: ActionKind| name_of(k) != name@ by {
                lemma_all_kinds_complete(k);
                let j = choose|j: int| 0 <= j < all_kinds().len() && all_kinds()[j] == k;
                assert(name_of(kinds@[j]) != name@);
            }
        }
        Err(RpcError::UnknownAction)
    }
}

/// Every name of the catalog, in the catalog's order.
pub open spec fn all_names() -> Seq<Seq<char>> {
    all_kinds().map_values(|k: ActionKind| name_of(k))
}

/// The names that hold `partial` somewhere in them, in the catalog's order.
/// The empty text is held by every name.
pub open spec fn suggestions(partial: Seq<char>) -> Seq<Seq<char>> {
    all_names().filter(|n: Seq<char>| contains_text(n, partial))
}

/// Every name of the catalog, in the catalog's order.
pub fn names() -> (out: Vec<String>)
    ensures
        texts(out@) == all_names(),
{
    let kinds = ActionKind::all();
    let mut out: Vec<String> = Vec::new();
    let mut i: usize = 0;
    while i < kinds.len()
        invariant
            i <= kinds.len(),
            kinds@ == all_kinds(),
            texts(out@) == all_names().take(i as int),
        decreases kinds.len() - i,
    {
        let ghost before = out@;
        let name = kinds[i].name();
        out.push(name.to_string());
        assert(texts(out@) == texts(before).push(name@));
        assert(all_names().take(i + 1) == all_names().take(i as int).push(name@));
        i += 1;
    }
    assert(all_names().take(kinds.len() as int) == all_names());
    out
}

/// The names to offer a caller who has typed `partial` so far.
pub fn autocomplete(partial: &str) -> (out: Vec<String>)
    ensures
        texts(out@) == suggestions(partial@),
{
    let typed = chars_of(partial);
    let kinds = ActionKind::all();
    let mut out: Vec<String> = Vec::new();
    let ghost pred = |n: Seq<char>| contains_text(n, partial@);
    let mut i: usize = 0;
    assert(all_names().take(0) == Seq::<Seq<char>>::empty());
    assert(texts(out@) == Seq::<Seq<char>>::empty());
    while i < kinds.len()
        invariant
            i <= kinds.len(),
            kinds@ == all_kinds(),
            typed@ == partial@,
            pred == (|n: Seq<char>| contains_text(n, partial@)),
            texts(out@) == all_names().take(i as int).filter(pred),
        decreases kinds.len() - i,
    {
        let name = kinds[i].name();
        let own = chars_of(name);
        proof {
            assert(all_names().take(i + 1) == all_names().take(i as int).push(name@));
            all_names().take(i as int).lemma_filter_push(name@, pred);
        }
        if contains(&own, &typed) {
            let ghost before = out@;
            let text = name.to_string();
            out.push(text);
            assert(texts(out@) == texts(before).push(name@));
        }
        i += 1;
    }
    assert(all_names().take(kinds.len() as int) == all_names());
    out
}

/// The title of the form that asks for an action's fields.
pub open spec fn title_of(kind: ActionKind) -> Seq<char> {
    match kind {
        ActionKind::ClaimBot => "Claim Bot"@,
        ActionKind::UnclaimBot => "Unclaim Bot"@,
        ActionKind::ApproveBot => "Approve Bot"@,
        ActionKind::DenyBot => "Deny Bot"@,
        ActionKind::VoteReset => "Vote Reset Bot"@,
        ActionKind::VoteResetAll => "Vote Reset All Bots"@,
        ActionKind::Unverify => "Unverify Bot"@,
        ActionKind::PremiumAdd => "Add Bot To Premium"@,
        ActionKind::PremiumRemove => "Remove Bot From Premium"@,
        ActionKind::VoteBanAdd => "Vote Ban Bot"@,
        ActionKind::VoteBanRemove => "Vote Ban Remove Bot"@,
        ActionKind::ForceRemove => "Force Remove Bot"@,
        ActionKind::CertifyAdd => "Certify Bot (not recommended)"@,
        ActionKind::CertifyRemove => "Uncertify Bot"@,
        ActionKind::VoteCountSet => "Set Bot Vote Count"@,
        ActionKind::TransferOwnershipToUser => "Transfer Bot Ownership"@,
        ActionKind::TransferOwnershipToTeam => "Transfer Bot Ownership to Team"@,
        ActionKind::TeamNameEdit => "Team Name Edit"@,
    }
}

/// A field whose input takes one line.
pub open spec fn short(
    id: &'static str,
    label: &'static str,
    ty: FieldType,
    hint: Option<&'static str>,
) -> FieldSpec {
    FieldSpec { id, label, ty, long: false, hint }
}

/// The field that names the bot an action is aimed at.
pub open spec fn bot_id_field() -> FieldSpec {
    short("bot_id", "Bot ID", FieldType::Id, None)
}

/// The field that takes the reason for an action.
pub open spec fn reason_field() -> FieldSpec {
    FieldSpec { id: "reason", label: "Reason", ty: FieldType::Text, long: true, hint: None }
}

/// The field that takes a reason which has to give proof.
pub open spec fn proof_field() -> FieldSpec {
    FieldSpec {
        id: "reason",
        label: "Reason",
        ty: FieldType::Text,
        long: true,
        hint: Some("You must give proof"),
    }
}

/// The fields that an action takes, in the order in which they are asked
/// for and submitted.
pub open spec fn fields_of(kind: ActionKind) -> Seq<FieldSpec> {
    match kind {
        ActionKind::ClaimBot => seq![
            bot_id_field(),
            short("force", "Force Claim [Y/N]", FieldType::Flag, None),
        ],
        ActionKind::UnclaimBot => seq![bot_id_field(), reason_field()],
        ActionKind::ApproveBot => seq![bot_id_field(), reason_field()],
        ActionKind::DenyBot => seq![bot_id_field(), reason_field()],
        ActionKind::VoteReset => seq![bot_id_field(), reason_field()],
        ActionKind::VoteResetAll => seq![reason_field()],
        ActionKind::Unverify => seq![bot_id_field(), proof_field()],
        ActionKind::PremiumAdd => seq![
            bot_id_field(),
            proof_field(),
            short(
                "duration",
                "Time Period",
                FieldType::Duration,
                Some("Format: INTEGER UNIT, e.g. 1 day, 2 weeks, 3 months, 4 years"),
            ),
        ],
        ActionKind::PremiumRemove => seq![bot_id_field(), proof_field()],
        ActionKind::VoteBanAdd => seq![bot_id_field(), reason_field()],
        ActionKind::VoteBanRemove => seq![bot_id_field(), reason_field()],
        ActionKind::ForceRemove => seq![
            bot_id_field(),
            reason_field(),
            short("kick", "Kick?", FieldType::Flag, Some("T/F")),
        ],
        ActionKind::CertifyAdd => seq![bot_id_field(), reason_field()],
        ActionKind::CertifyRemove => seq![bot_id_field(), reason_field()],
        ActionKind::VoteCountSet => seq![
            bot_id_field(),
            reason_field(),
            short("count", "Count", FieldType::Integer, None),
        ],
        ActionKind::TransferOwnershipToUser => seq![
            bot_id_field(),
            reason_field(),
            short("new_owner", "New Owner ID", FieldType::Id, None),
        ],
        ActionKind::TransferOwnershipToTeam => seq![
            bot_id_field(),
            reason_field(),
            short("new_team", "New Team ID", FieldType::Id, None),
        ],
        ActionKind::TeamNameEdit => seq![
            short("team_id", "Team ID", FieldType::Id, None),
            short("new_name", "New Team Name", FieldType::Text, None),
            reason_field(),
        ],
    }
}

/// How each field of an action is read, in the order of its fields.
pub open spec fn types_of(kind: ActionKind) -> Seq<FieldType> {
    fields_of(kind).map_values(|f: FieldSpec| f.ty)
}

fn new_short(
    id: &'static str,
    label: &'static str,
    ty: FieldType,
    hint: Option<&'static str>,
) -> (out: FieldSpec)
    ensures
        out == short(id, label, ty, hint),
{
    FieldSpec { id, label, ty, long: false, hint }
}

fn new_bot_id_field() -> (out: FieldSpec)
    ensures
        out == bot_id_field(),
{
    new_short("bot_id", "Bot ID", FieldType::Id, None)
}

fn new_reason_field() -> (out: FieldSpec)
    ensures
        out == reason_field(),
{
    FieldSpec { id: "reason", label: "Reason", ty: FieldType::Text, long: true, hint: None }
}

fn new_proof_field() -> (out: FieldSpec)
    ensures
        out == proof_field(),
{
    FieldSpec {
        id: "reason",
        label: "Reason",
        ty: FieldType::Text,
        long: true,
        hint: Some("You must give proof"),
    }
}

impl ActionKind {
    /// The title of the form that asks for this action's fields.
    pub fn title(self) -> (out: &'static str)
        ensures
            out@ == title_of(self),
    {
        match self {
            ActionKind::ClaimBot => "Claim Bot",
            ActionKind::UnclaimBot => "Unclaim Bot",
            ActionKind::ApproveBot => "Approve Bot",
            ActionKind::DenyBot => "Deny Bot",
            ActionKind::VoteReset => "Vote Reset Bot",
            ActionKind::VoteResetAll => "Vote Reset All Bots",
            ActionKind::Unverify => "Unverify Bot",
            ActionKind::PremiumAdd => "Add Bot To Premium",
            ActionKind::PremiumRemove => "Remove Bot From Premium",
            ActionKind::VoteBanAdd => "Vote Ban Bot",
            ActionKind::VoteBanRemove => "Vote Ban Remove Bot",
            ActionKind::ForceRemove => "Force Remove Bot",
            ActionKind::CertifyAdd => "Certify Bot (not recommended)",
            ActionKind::CertifyRemove => "Uncertify Bot",
            ActionKind::VoteCountSet => "Set Bot Vote Count",
            ActionKind::TransferOwnershipToUser => "Transfer Bot Ownership",
            ActionKind::TransferOwnershipToTeam => "Transfer Bot Ownership to Team",
            ActionKind::TeamNameEdit => "Team Name Edit",
        }
    }

    /// The fields that this action takes, in the order in which they are
    /// asked for and submitted.
    pub fn fields(self) -> (out: Vec<FieldSpec>)
        ensures
            out@ == fields_of(self),
    {
        match self {
            ActionKind::ClaimBot => vec![
                new_bot_id_field(),
                new_short("force", "Force Claim [Y/N]", FieldType::Flag, None),
            ],
            ActionKind::UnclaimBot => vec![new_bot_id_field(), new_reason_field()],
            ActionKind::ApproveBot => vec![new_bot_id_field(), new_reason_field()],
            ActionKind::DenyBot => vec![new_bot_id_field(), new_reason_field()],
            ActionKind::VoteReset => vec![new_bot_id_field(), new_reason_field()],
            ActionKind::VoteResetAll => vec![new_reason_field()],
            ActionKind::Unverify => vec![new_bot_id_field(), new_proof_field()],
            ActionKind::PremiumAdd => vec![
                new_bot_id_field(),
                new_proof_field(),
                new_short(
                    "duration",
                    "Time Period",
                    FieldType::Duration,
                    Some("Format: INTEGER UNIT, e.g. 1 day, 2 weeks, 3 months, 4 years"),
                ),
            ],
            ActionKind::PremiumRemove => vec![new_bot_id_field(), new_proof_field()],
            ActionKind::VoteBanAdd => vec![new_bot_id_field(), new_reason_field()],
            ActionKind::VoteBanRemove => vec![new_bot_id_field(), new_reason_field()],
            ActionKind::ForceRemove => vec![
                new_bot_id_field(),
                new_reason_field(),
                new_short("kick", "Kick?", FieldType::Flag, Some("T/F")),
            ],
            ActionKind::CertifyAdd => vec![new_bot_id_field(), new_reason_field()],
            ActionKind::CertifyRemove => vec![new_bot_id_field(), new_reason_field()],
            ActionKind::VoteCountSet => vec![
                new_bot_id_field(),
                new_reason_field(),
                new_short("count", "Count", FieldType::Integer, None),
            ],
            ActionKind::TransferOwnershipToUser => vec![
                new_bot_id_field(),
                new_reason_field(),
                new_short("new_owner", "New Owner ID", FieldType::Id, None),
            ],
            ActionKind::TransferOwnershipToTeam => vec![
                new_bot_id_field(),
                new_reason_field(),
                new_short("new_team", "New Team ID", FieldType::Id, None),
            ],
            ActionKind::TeamNameEdit => vec![
                new_short("team_id", "Team ID", FieldType::Id, None),
                new_short("new_name", "New Team Name", FieldType::Text, None),
                new_reason_field(),
            ],
        }
    }
}

/// The form for an action, looked up by the action's name.
pub fn schema(name: &str) -> (out: Result<Vec<FieldSpec>, RpcError>)
    ensures
        match kind_of(name@) {
            Ok(kind) => out is Ok && out->Ok_0@ == fields_of(kind),
            Err(e) => out == Err::<Vec<FieldSpec>, RpcError>(e),
        },
{
    match ActionKind::from_name(name) {
        Ok(kind) => Ok(kind.fields()),
        Err(e) => Err(e),
    }
}

} // verus!
