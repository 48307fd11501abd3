//! What follows from the rules that the store keeps.

use crate::sql_types::Role as RoleName;
use crate::store::view::{is_other_grant, StoreView};
use crate::user::role::user_role::UserRoleView;
use vstd::prelude::*;

verus! {

/// A role is recorded under one id only.
pub proof fn lemma_role_id_unique(s: StoreView, a: i32, b: i32, role: RoleName)
    requires
        s.roles_wf(),
        s.role_is(a, role),
        s.role_is(b, role),
    ensures
        a == b,
{
    let i = choose|i: int|
        0 <= i < s.roles.len() && (#[trigger] s.roles[i]).id == a && s.roles[i].name == role;
    let j = choose|j: int|
        0 <= j < s.roles.len() && (#[trigger] s.roles[j]).id == b && s.roles[j].name == role;
    if i < j {
        assert(s.roles[i].name != s.roles[j].name);
    } else if j < i {
        assert(s.roles[j].name != s.roles[i].name);
    }
}

/// The id that a recorded role is known by is the id of its record.
pub proof fn lemma_id_of_role(s: StoreView, id: i32, role: RoleName)
    requires
        s.roles_wf(),
        s.role_is(id, role),
    ensures
        s.id_of_role(role) == id,
        s.has_role_named(role),
{
    lemma_role_id_unique(s, s.id_of_role(role), id, role);
    let j = choose|j: int|
        0 <= j < s.roles.len() && (#[trigger] s.roles[j]).id == id && s.roles[j].name == role;
    assert(s.roles[j].name == role);
}

/// A recorded role has a record, under the id it is known by.
pub proof fn lemma_named_role_has_id(s: StoreView, role: RoleName)
    requires
        s.has_role_named(role),
    ensures
        s.role_is(s.id_of_role(role), role),
{
    let j = choose|j: int| 0 <= j < s.roles.len() && (#[trigger] s.roles[j]).name == role;
    assert(s.role_is(s.roles[j].id, role));
}

/// A user holds a recorded role exactly if a grant names the user and the
/// record of that role.
pub proof fn lemma_has_role_is_grant(s: StoreView, user_id: i32, role: RoleName)
    requires
        s.roles_wf(),
        s.has_role_named(role),
    ensures
        s.has_role(user_id, role) == s.has_grant(user_id, s.id_of_role(role)),
{
    lemma_named_role_has_id(s, role);
    let rid = s.id_of_role(role);
    if s.has_role(user_id, role) {
        let i = choose|i: int|
            0 <= i < s.user_roles.len() && (#[trigger] s.user_roles[i]).user_id == user_id
                && s.role_is(s.user_roles[i].role_id, role);
        lemma_role_id_unique(s, s.user_roles[i].role_id, rid, role);
        assert(s.grants_at(i, user_id, rid));
    }
    if s.has_grant(user_id, rid) {
        let i = choose|i: int| #[trigger] s.grants_at(i, user_id, rid);
        assert(s.user_roles[i].user_id == user_id && s.role_is(s.user_roles[i].role_id, role));
    }
}

/// Nobody holds a role that is not recorded.
pub proof fn lemma_unrecorded_role_is_not_held(s: StoreView, user_id: i32, role: RoleName)
    requires
        !s.has_role_named(role),
    ensures
        !s.has_role(user_id, role),
{
    if s.has_role(user_id, role) {
        let i = choose|i: int|
            0 <= i < s.user_roles.len() && (#[trigger] s.user_roles[i]).user_id == user_id
                && s.role_is(s.user_roles[i].role_id, role);
        let rid = s.user_roles[i].role_id;
        let j = choose|j: int|
            0 <= j < s.roles.len() && (#[trigger] s.roles[j]).id == rid && s.roles[j].name == role;
        assert(s.roles[j].name == role);
    }
}

/// Where the rules hold, a grant that is there is there exactly once.
pub proof fn lemma_grant_is_single(s: StoreView, user_id: i32, role_id: i32)
    requires
        s.user_roles_wf(),
        s.has_grant(user_id, role_id),
    ensures
        s.has_exactly_one_grant(user_id, role_id),
{
    let i = choose|i: int| #[trigger] s.grants_at(i, user_id, role_id);
    assert forall|j: int| #[trigger] s.grants_at(j, user_id, role_id) implies j == i by {
        if j < i {
            assert(!(s.user_roles[j].user_id == s.user_roles[i].user_id && s.user_roles[j].role_id
                == s.user_roles[i].role_id));
        } else if i < j {
            assert(!(s.user_roles[i].user_id == s.user_roles[j].user_id && s.user_roles[i].role_id
                == s.user_roles[j].role_id));
        }
    }
    assert(s.grants_at(i, user_id, role_id));
}

/// Removing a grant that is not there changes nothing.
pub proof fn lemma_remove_absent_grant(s: StoreView, user_id: i32, role_id: i32)
    requires
        !s.has_grant(user_id, role_id),
    ensures
        s.without_user_role(user_id, role_id) == s,
{
    let keep = is_other_grant(user_id, role_id);
    assert forall|i: int| 0 <= i < s.user_roles.len() implies keep(#[trigger] s.user_roles[i]) by {
        assert(!s.grants_at(i, user_id, role_id));
    }
    lemma_filter_keeps_all(s.user_roles, keep);
}

/// A filter that every element passes keeps the sequence as it is.
pub proof fn lemma_filter_keeps_all(rows: Seq<UserRoleView>, keep: spec_fn(UserRoleView) -> bool)
    requires
        forall|i: int| 0 <= i < rows.len() ==> keep(#[trigger] rows[i]),
    ensures
        rows.filter(keep) == rows,
    decreases rows.len(),
{
    reveal(Seq::filter);
    if rows.len() > 0 {
        assert forall|i: int| 0 <= i < rows.drop_last().len() implies keep(
            #[trigger] rows.drop_last()[i],
        ) by {
            assert(rows.drop_last()[i] == rows[i]);
        }
        lemma_filter_keeps_all(rows.drop_last(), keep);
        assert(keep(rows[rows.len() - 1]));
        assert(rows.drop_last().push(rows.last()) =~= rows);
    }
}

/// After a grant has been removed it is not there.
pub proof fn lemma_removed_grant_is_gone(s: StoreView, user_id: i32, role_id: i32)
    ensures
        !s.without_user_role(user_id, role_id).has_grant(user_id, role_id),
{
    let after = s.without_user_role(user_id, role_id);
    let keep = is_other_grant(user_id, role_id);
    if after.has_grant(user_id, role_id) {
        let i = choose|i: int| #[trigger] after.grants_at(i, user_id, role_id);
        s.user_roles.lemma_filter_pred(keep, i);
        assert(keep(after.user_roles[i]));
    }
}

/// Removing one grant leaves every other grant where it was found: another
/// user's, or the same user's grant of another role.
pub proof fn lemma_other_grants_stay(
    s: StoreView,
    user_id: i32,
    role_id: i32,
    other_user: i32,
    other_role: i32,
)
    requires
        other_user != user_id || other_role != role_id,
    ensures
        s.without_user_role(user_id, role_id).has_grant(other_user, other_role) == s.has_grant(
            other_user,
            other_role,
        ),
{
    let after = s.without_user_role(user_id, role_id);
    let keep = is_other_grant(user_id, role_id);
    if s.has_grant(other_user, other_role) {
        let i = choose|i: int| #[trigger] s.grants_at(i, other_user, other_role);
        assert(keep(s.user_roles[i]));
        s.user_roles.lemma_filter_contains(keep, i);
        let j = choose|j: int|
            0 <= j < after.user_roles.len() && after.user_roles[j] == s.user_roles[i];
        assert(after.grants_at(j, other_user, other_role));
    }
    if after.has_grant(other_user, other_role) {
        let j = choose|j: int| #[trigger] after.grants_at(j, other_user, other_role);
        assert(after.user_roles.contains(after.user_roles[j]));
        s.user_roles.lemma_filter_contains_rev(keep, after.user_roles[j]);
        let i = choose|i: int|
            0 <= i < s.user_roles.len() && s.user_roles[i] == after.user_roles[j];
        assert(s.grants_at(i, other_user, other_role));
    }
}

} // verus!
