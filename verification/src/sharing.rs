//! Replacing who a quiz or a set is shared with: the shares to remove and the
//! shares to write.
use vstd::prelude::*;
use crate::enums::{Id, Permission};

verus! {

/// The users of `existing` (in their order) that are not in `keep`.
pub open spec fn users_to_unshare_spec(existing: Seq<Id>, keep: Seq<Id>) -> Seq<Id>
    decreases existing.len(),
{
    if existing.len() == 0 {
        seq![]
    } else {
        let before = users_to_unshare_spec(existing.drop_last(), keep);
        if keep.contains(existing.last()) {
            before
        } else {
            before.push(existing.last())
        }
    }
}

/// Membership in the users to unshare: shared before and not kept.
pub proof fn lemma_users_to_unshare_members(existing: Seq<Id>, keep: Seq<Id>, x: Id)
    ensures
        users_to_unshare_spec(existing, keep).contains(x) <==> (existing.contains(x) && !keep.contains(x)),
    decreases existing.len(),
{
    if existing.len() > 0 {
        let init = existing.drop_last();
        lemma_users_to_unshare_members(init, keep, x);
        let before = users_to_unshare_spec(init, keep);
        if existing.contains(x) && !keep.contains(x) {
            let i = choose|i: int| 0 <= i < existing.len() && existing[i] == x;
            if i < existing.len() - 1 {
                assert(init[i] == x);
            } else if !keep.contains(existing.last()) {
                assert(users_to_unshare_spec(existing, keep).last() == x);
            }
        }
        if users_to_unshare_spec(existing, keep).contains(x) {
            if before.contains(x) {
                let i = choose|i: int| 0 <= i < init.len() && init[i] == x;
                assert(existing[i] == x);
            } else {
                assert(existing.last() == x);
            }
        }
        if before.contains(x) {
            let i = choose|i: int| 0 <= i < before.len() && before[i] == x;
            if !keep.contains(existing.last()) {
                assert(users_to_unshare_spec(existing, keep)[i] == x);
            }
        }
    }
}

fn contains_user(ids: &Vec<Id>, x: Id) -> (found: bool)
    ensures
        found == ids@.contains(x),
{
    let mut i: usize = 0;
    while i < ids.len()
        invariant
            i <= ids.len(),
            forall|j: int| 0 <= j < i ==> ids@[j] != x,
        decreases ids.len() - i,
    {
        if ids[i] == x {
            return true;
        }
        i = i + 1;
    }
    false
}

/// The users who had a share and are no longer among `keep`, in the order of
/// `existing`.
pub fn users_to_unshare(existing: &Vec<Id>, keep: &Vec<Id>) -> (gone: Vec<Id>)
    ensures
        gone@ == users_to_unshare_spec(existing@, keep@),
{
    let mut gone: Vec<Id> = Vec::new();
    let mut i: usize = 0;
    while i < existing.len()
        invariant
            i <= existing.len(),
            gone@ == users_to_unshare_spec(existing@.subrange(0, i as int), keep@),
        decreases existing.len() - i,
    {
        assert(existing@.subrange(0, i as int) =~= existing@.subrange(0, (i + 1) as int).drop_last());
        if !contains_user(keep, existing[i]) {
            gone.push(existing[i]);
        }
        i = i + 1;
    }
    assert(existing@.subrange(0, existing.len() as int) =~= existing@);
    gone
}

/// A share of a quiz with one user.
#[derive(Clone, Copy, Debug, PartialEq, Eq, Structural)]
pub struct QuizShareRow {
    pub quiz_id: Id,
    pub user_id: Id,
}

/// What replacing the audience of a quiz writes: the users whose share is
/// deleted, then the shares inserted (an existing share is left as it is).
#[derive(Clone, Debug)]
pub struct QuizSharePlan {
    pub unshare: Vec<Id>,
    pub rows: Vec<QuizShareRow>,
}

/// Plans sharing `quiz_id` with exactly `new_participants`, given the users it
/// is shared with now.
pub fn plan_quiz_share(quiz_id: Id, existing: &Vec<Id>, new_participants: &Vec<Id>) -> (plan: QuizSharePlan)
    ensures
        plan.unshare@ == users_to_unshare_spec(existing@, new_participants@),
        plan.rows@.len() == new_participants@.len(),
        forall|k: int| 0 <= k < new_participants@.len() ==>
            #[trigger] plan.rows@[k] == (QuizShareRow { quiz_id, user_id: new_participants@[k] }),
{
    let unshare = users_to_unshare(existing, new_participants);
    let mut rows: Vec<QuizShareRow> = Vec::new();
    let mut i: usize = 0;
    while i < new_participants.len()
        invariant
            i <= new_participants.len(),
            rows@.len() == i,
            forall|k: int| 0 <= k < i ==>
                #[trigger] rows@[k] == (QuizShareRow { quiz_id, user_id: new_participants@[k] }),
        decreases new_participants.len() - i,
    {
        rows.push(QuizShareRow { quiz_id, user_id: new_participants[i] });
        i = i + 1;
    }
    QuizSharePlan { unshare, rows }
}

/// One user to share a set with, and, optionally, the permission to grant
/// (the stored default applies when it is absent).
#[derive(Clone, Copy, Debug, PartialEq, Eq, Structural)]
pub struct ShareSetForUser {
    pub user_id: Id,
    pub permission: Option<Permission>,
}

/// A share of a set with one user.
#[derive(Clone, Copy, Debug, PartialEq, Eq, Structural)]
pub struct SetShareRow {
    pub set_id: Id,
    pub user_id: Id,
    pub permission: Option<Permission>,
}

/// What replacing the audience of a set writes: the users whose share is
/// deleted, then the shares inserted or, for a user already sharing, updated
/// to the new permission.
#[derive(Clone, Debug)]
pub struct SetSharePlan {
    pub unshare: Vec<Id>,
    pub rows: Vec<SetShareRow>,
}

/// The user ids of a list of share requests.
pub open spec fn sharing_user_ids(users: Seq<ShareSetForUser>) -> Seq<Id> {
    users.map_values(|u: ShareSetForUser| u.user_id)
}

/// Plans sharing `set_id` with exactly `sharing_users`, given the users it is
/// shared with now.
pub fn plan_set_share(set_id: Id, existing: &Vec<Id>, sharing_users: &Vec<ShareSetForUser>) -> (plan: SetSharePlan)
    ensures
        plan.unshare@ == users_to_unshare_spec(existing@, sharing_user_ids(sharing_users@)),
        plan.rows@.len() == sharing_users@.len(),
        forall|k: int| 0 <= k < sharing_users@.len() ==>
            #[trigger] plan.rows@[k] == (SetShareRow {
                set_id,
                user_id: sharing_users@[k].user_id,
                permission: sharing_users@[k].permission,
            }),
{
    let mut ids: Vec<Id> = Vec::new();
    let mut rows: Vec<SetShareRow> = Vec::new();
    let mut i: usize = 0;
    while i < sharing_users.len()
        invariant
            i <= sharing_users.len(),
            ids@ == sharing_user_ids(sharing_users@.subrange(0, i as int)),
            rows@.len() == i,
            forall|k: int| 0 <= k < i ==>
                #[trigger] rows@[k] == (SetShareRow {
                    set_id,
                    user_id: sharing_users@[k].user_id,
                    permission: sharing_users@[k].permission,
                }),
        decreases sharing_users.len() - i,
    {
        let u = sharing_users[i];
        ids.push(u.user_id);
        rows.push(SetShareRow { set_id, user_id: u.user_id, permission: u.permission });
        assert(sharing_user_ids(sharing_users@.subrange(0, (i + 1) as int)) =~= sharing_user_ids(
            sharing_users@.subrange(0, i as int),
        ).push(u.user_id));
        i = i + 1;
    }
    assert(sharing_users@.subrange(0, sharing_users.len() as int) =~= sharing_users@);
    let unshare = users_to_unshare(existing, &ids);
    SetSharePlan { unshare, rows }
}

/// Sharing replaces the audience: once the planned deletions and insertions are
/// applied, the users a quiz or set is shared with are exactly the requested
/// ones, whoever had a share before.
pub proof fn law_sharing_replaces_the_audience(existing: Seq<Id>, requested: Seq<Id>, x: Id)
    ensures
        ((existing.contains(x) && !users_to_unshare_spec(existing, requested).contains(x)) || requested.contains(x))
            <==> requested.contains(x),
{
    lemma_users_to_unshare_members(existing, requested, x);
}

/// Nobody requested loses a share, and nobody who never had one is unshared.
pub proof fn law_unshare_only_dropped_users(existing: Seq<Id>, requested: Seq<Id>, x: Id)
    requires
        users_to_unshare_spec(existing, requested).contains(x),
    ensures
        existing.contains(x),
        !requested.contains(x),
{
    lemma_users_to_unshare_members(existing, requested, x);
}

} // verus!
