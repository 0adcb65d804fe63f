//! The role sync: which users get which special flag, read off the roles
//! that the members of the main server hold.

use vstd::prelude::*;

verus! {

/// A flag that mirrors a role of the main server.
#[derive(Clone, Copy, Debug, PartialEq, Eq, Structural)]
pub enum SpecialRole {
    BugHunter,
}

/// One flag to set for one user.
#[derive(Clone, Copy, Debug, PartialEq, Eq, Structural)]
pub struct SpecRoleSync {
    pub user_id: u64,
    pub col: SpecialRole,
}

/// A member of the main server with the ids of the roles held.
#[derive(Clone, Debug, PartialEq, Eq)]
pub struct Member {
    pub user_id: u64,
    pub roles: Vec<u64>,
}

/// The member holds the role.
pub open spec fn holds(m: Member, role: u64) -> bool {
    m.roles@.contains(role)
}

/// The flags to set: one for each member who holds the bug hunter role, in
/// the order of the members.
pub open spec fn resync_of(members: Seq<Member>, bug_hunter_role: u64) -> Seq<SpecRoleSync> {
    members.filter(|m: Member| holds(m, bug_hunter_role)).map_values(
        |m: Member| SpecRoleSync { user_id: m.user_id, col: SpecialRole::BugHunter },
    )
}

/// Whether the list holds the role.
fn has_role(roles: &Vec<u64>, role: u64) -> (out: bool)
    ensures
        out == roles@.contains(role),
{
    let mut i: usize = 0;
    while i < roles.len()
        invariant
            i <= roles.len(),
            forall|j: int| 0 <= j < i ==> roles@[j] != role,
        decreases roles.len() - i,
    {
        if roles[i] == role {
            return true;
        }
        i += 1;
    }
    false
}

/// Works out the flags to set from the members of the main server. Every
/// flag that is not in the result is to be cleared.
pub fn spec_role_sync(members: &Vec<Member>, bug_hunter_role: u64) -> (out: Vec<SpecRoleSync>)
    ensures
        out@ == resync_of(members@, bug_hunter_role),
{
    let ghost pick = |m: Member| holds(m, bug_hunter_role);
    let ghost flag = |m: Member| SpecRoleSync { user_id: m.user_id, col: SpecialRole::BugHunter };
    let mut out: Vec<SpecRoleSync> = Vec::new();
    let mut i: usize = 0;
    assert(members@.take(0) == Seq::<Member>::empty());
    while i < members.len()
        invariant
            i <= members.len(),
            pick == (|m: Member| holds(m, bug_hunter_role)),
            flag == (|m: Member| SpecRoleSync { user_id: m.user_id, col: SpecialRole::BugHunter }),
            out@ == members@.take(i as int).filter(pick).map_values(flag),
        decreases members.len() - i,
    {
        let member = &members[i];
        proof {
            assert(members@.take(i + 1) == members@.take(i as int).push(*member));
            members@.take(i as int).lemma_filter_push(*member, pick);
        }
        if has_role(&member.roles, bug_hunter_role) {
            out.push(SpecRoleSync { user_id: member.user_id, col: SpecialRole::BugHunter });
            assert(members@.take(i as int).filter(pick).push(*member).map_values(flag)
                == members@.take(i as int).filter(pick).map_values(flag).push(flag(*member)));
        }
        i += 1;
    }
    assert(members@.take(members.len() as int) == members@);
    out
}

} // verus!
