//! Who may do what: the authorisation decisions of the services, taken on the
//! facts the services read from storage.
use vstd::prelude::*;
use crate::enums::{Error, Id, Permission, permission_rank};
use crate::models::Quiz;

verus! {

/// Only the creator may do it: used to delete a quiz, a quiz question, a set
/// or a flashcard, and to list the users a quiz is shared with.
pub fn authorize_creator(is_creator: bool) -> (r: Result<(), Error>)
    ensures
        r == if is_creator { Ok::<(), Error>(()) } else { Err(Error::PermissionDenied) },
{
    if is_creator {
        Ok(())
    } else {
        Err(Error::PermissionDenied)
    }
}

/// Changing a quiz's details: only its creator, and only before it is published.
pub open spec fn quiz_update_decision(caller_id: Id, quiz: Quiz) -> Result<(), Error> {
    if caller_id != quiz.creator_id {
        Err(Error::PermissionDenied)
    } else if quiz.is_published {
        Err(Error::Published)
    } else {
        Ok(())
    }
}

pub fn authorize_quiz_update(caller_id: Id, quiz: &Quiz) -> (r: Result<(), Error>)
    ensures
        r == quiz_update_decision(caller_id, *quiz),
{
    if caller_id != quiz.creator_id {
        Err(Error::PermissionDenied)
    } else if quiz.is_published {
        Err(Error::Published)
    } else {
        Ok(())
    }
}

/// Sharing a quiz: only its creator.
pub fn authorize_quiz_share(caller_id: Id, quiz: &Quiz) -> (r: Result<(), Error>)
    ensures
        r == if caller_id == quiz.creator_id { Ok::<(), Error>(()) } else { Err(Error::AccessDenied) },
{
    if caller_id != quiz.creator_id {
        Err(Error::AccessDenied)
    } else {
        Ok(())
    }
}

/// Adding or changing the questions of a quiz: only its creator, and only
/// before it is published.
pub open spec fn quiz_question_change_decision(caller_id: Id, quiz: Quiz) -> Result<(), Error> {
    if caller_id != quiz.creator_id || quiz.is_published {
        Err(Error::PermissionDenied)
    } else {
        Ok(())
    }
}

pub fn authorize_quiz_question_change(caller_id: Id, quiz: &Quiz) -> (r: Result<(), Error>)
    ensures
        r == quiz_question_change_decision(caller_id, *quiz),
{
    if quiz.creator_id != caller_id {
        return Err(Error::PermissionDenied);
    }
    if quiz.is_published {
        return Err(Error::PermissionDenied);
    }
    Ok(())
}

/// Reading the questions of a quiz (to take it): its creator or a user it is
/// shared with.
pub fn authorize_quiz_question_read(is_creator: bool, is_shared: bool) -> (r: Result<(), Error>)
    ensures
        r == if is_creator || is_shared { Ok::<(), Error>(()) } else { Err(Error::PermissionDenied) },
{
    if is_creator || is_shared {
        Ok(())
    } else {
        Err(Error::PermissionDenied)
    }
}

/// Whether a share with permission `granted` allows what `required` allows.
pub open spec fn share_grants(granted: Permission, required: Permission) -> bool {
    permission_rank(granted) >= permission_rank(required)
}

/// Whether a user holding the shares `granted` on a set has at least the
/// permission `required` (some share grants it).
pub fn has_share_permission(granted: &Vec<Permission>, required: Permission) -> (ok: bool)
    ensures
        ok == exists|i: int| 0 <= i < granted@.len() && share_grants(#[trigger] granted@[i], required),
{
    let mut i: usize = 0;
    while i < granted.len()
        invariant
            i <= granted.len(),
            forall|j: int| 0 <= j < i ==> !share_grants(#[trigger] granted@[j], required),
        decreases granted.len() - i,
    {
        if granted[i].includes(required) {
            return true;
        }
        i = i + 1;
    }
    false
}

/// Changing a set's details: its owner or a user with an edit share on it.
pub fn authorize_set_update(is_owner: bool, has_edit_share: bool) -> (r: Result<(), Error>)
    ensures
        r == if is_owner || has_edit_share { Ok::<(), Error>(()) } else { Err(Error::PermissionDenied) },
{
    if is_owner || has_edit_share {
        Ok(())
    } else {
        Err(Error::PermissionDenied)
    }
}

/// Sharing a set: allowed as soon as the ownership lookup itself succeeded,
/// whatever it answered.
pub fn authorize_set_share(owner_lookup_succeeded: bool) -> (r: Result<(), Error>)
    ensures
        r == if owner_lookup_succeeded { Ok::<(), Error>(()) } else { Err(Error::PermissionDenied) },
{
    if owner_lookup_succeeded {
        Ok(())
    } else {
        Err(Error::PermissionDenied)
    }
}

/// Adding a flashcard to a set: the set's creator or a user with an edit share.
pub open spec fn qna_create_decision(is_set_creator: bool, has_edit_share: bool) -> Result<(), Error> {
    if !is_set_creator && !has_edit_share {
        Err(Error::PermissionDenied)
    } else {
        Ok(())
    }
}

pub fn authorize_qna_create(is_set_creator: bool, has_edit_share: bool) -> (r: Result<(), Error>)
    ensures
        r == qna_create_decision(is_set_creator, has_edit_share),
{
    if !is_set_creator && !has_edit_share {
        Err(Error::PermissionDenied)
    } else {
        Ok(())
    }
}

/// Changing a flashcard: its creator, the set's creator, or a user with an
/// edit share on the set.
pub open spec fn qna_update_decision(is_question_creator: bool, is_set_creator: bool, has_edit_share: bool) -> Result<(), Error> {
    if is_question_creator || is_set_creator || has_edit_share {
        Ok(())
    } else {
        Err(Error::PermissionDenied)
    }
}

pub fn authorize_qna_update(is_question_creator: bool, is_set_creator: bool, has_edit_share: bool) -> (r: Result<(), Error>)
    ensures
        r == qna_update_decision(is_question_creator, is_set_creator, has_edit_share),
{
    if is_question_creator || is_set_creator || has_edit_share {
        Ok(())
    } else {
        Err(Error::PermissionDenied)
    }
}

/// Reading flashcards of a set: only when the set is visible to the caller.
pub fn authorize_set_read(set_visible: bool) -> (r: Result<(), Error>)
    ensures
        r == if set_visible { Ok::<(), Error>(()) } else { Err(Error::AccessDenied) },
{
    if set_visible {
        Ok(())
    } else {
        Err(Error::AccessDenied)
    }
}

/// Reading several flashcards at once: every one of their sets must be
/// visible to the caller.
pub fn authorize_sets_read(sets_visible: &Vec<bool>) -> (r: Result<(), Error>)
    ensures
        r == if forall|i: int| 0 <= i < sets_visible@.len() ==> #[trigger] sets_visible@[i] {
            Ok::<(), Error>(())
        } else {
            Err(Error::AccessDenied)
        },
{
    let mut i: usize = 0;
    while i < sets_visible.len()
        invariant
            i <= sets_visible.len(),
            forall|j: int| 0 <= j < i ==> #[trigger] sets_visible@[j],
        decreases sets_visible.len() - i,
    {
        if !sets_visible[i] {
            return Err(Error::AccessDenied);
        }
        i = i + 1;
    }
    Ok(())
}

/// Changing someone's role: staff only.
pub fn authorize_role_change(caller_is_staff: bool) -> (r: Result<(), Error>)
    ensures
        r == if caller_is_staff { Ok::<(), Error>(()) } else { Err(Error::PermissionDenied) },
{
    if caller_is_staff {
        Ok(())
    } else {
        Err(Error::PermissionDenied)
    }
}

/// Only the creator of an unpublished quiz may change it: a granted update
/// means the caller created the quiz and it is not published, and a published
/// quiz is refused to everyone.
pub proof fn law_only_creator_changes_unpublished_quiz(caller_id: Id, quiz: Quiz)
    ensures
        quiz_update_decision(caller_id, quiz) is Ok ==> caller_id == quiz.creator_id && !quiz.is_published,
        quiz_question_change_decision(caller_id, quiz) is Ok ==> caller_id == quiz.creator_id && !quiz.is_published,
        quiz.is_published ==> quiz_update_decision(caller_id, quiz) is Err,
{
}

/// Whoever may add a flashcard to a set may also change the flashcards of that
/// set.
pub proof fn law_qna_creators_may_edit(is_question_creator: bool, is_set_creator: bool, has_edit_share: bool)
    requires
        qna_create_decision(is_set_creator, has_edit_share) is Ok,
    ensures
        qna_update_decision(is_question_creator, is_set_creator, has_edit_share) is Ok,
{
}

/// Permissions are ordered: a share grants every permission weaker than its own,
/// and an edit share grants everything.
pub proof fn law_share_permissions_ordered(granted: Permission, required: Permission, weaker: Permission)
    ensures
        share_grants(Permission::Edit, required),
        share_grants(granted, granted),
        share_grants(granted, required) && share_grants(required, weaker) ==> share_grants(granted, weaker),
        share_grants(Permission::View, required) ==> required == Permission::View,
{
}

} // verus!
