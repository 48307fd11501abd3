//! The tables themselves, and each operation on them proved against the
//! rules that the store keeps.

use crate::store::view::{is_other_grant, StoreError, StoreView};
use crate::user::email::{Email, EmailView};
use crate::user::local_auth::{LocalAuth, LocalAuthView};
use crate::user::role::permission::Permission;
use crate::user::role::role_permission::RolePermission;
use crate::user::role::user_role::{UserRole, UserRoleView};
use crate::user::role::Role;
use crate::user::{QueriedUser, UserLike, UserView};
use vstd::prelude::*;

verus! {

/// The records of every table, in the order in which they were stored.
pub(crate) struct Tables {
    users: Vec<QueriedUser>,
    emails: Vec<Email>,
    local_auth: Vec<LocalAuth>,
    roles: Vec<Role>,
    permissions: Vec<Permission>,
    role_permissions: Vec<RolePermission>,
    user_roles: Vec<UserRole>,
    last_user_id: i32,
    last_email_id: i32,
    last_local_auth_id: i32,
    last_user_role_id: i32,
}

impl View for Tables {
    type V = StoreView;

    closed spec fn view(&self) -> StoreView {
        StoreView {
            users: self.users@.map_values(|row: QueriedUser| row@),
            emails: self.emails@.map_values(|row: Email| row@),
            local_auth: self.local_auth@.map_values(|row: LocalAuth| row@),
            roles: self.roles@.map_values(|row: Role| row@),
            permissions: self.permissions@.map_values(|row: Permission| row@),
            role_permissions: self.role_permissions@.map_values(|row: RolePermission| row@),
            user_roles: self.user_roles@.map_values(|row: UserRole| row@),
            last_user_id: self.last_user_id,
            last_email_id: self.last_email_id,
            last_local_auth_id: self.last_local_auth_id,
            last_user_role_id: self.last_user_role_id,
        }
    }
}

impl Tables {
    /// Tables without records.
    pub(crate) fn new() -> (made: Tables)
        ensures
            made@ == StoreView::empty(),
            made@.wf(),
    {
        let made = Tables {
            users: Vec::new(),
            emails: Vec::new(),
            local_auth: Vec::new(),
            roles: Vec::new(),
            permissions: Vec::new(),
            role_permissions: Vec::new(),
            user_roles: Vec::new(),
            last_user_id: 0,
            last_email_id: 0,
            last_local_auth_id: 0,
            last_user_role_id: 0,
        };
        proof {
            assert(made@.users =~= Seq::empty());
            assert(made@.emails =~= Seq::empty());
            assert(made@.local_auth =~= Seq::empty());
            assert(made@.roles =~= Seq::empty());
            assert(made@.permissions =~= Seq::empty());
            assert(made@.role_permissions =~= Seq::empty());
            assert(made@.user_roles =~= Seq::empty());
        }
        made
    }

    // ----- users -----
    /// The place of the user with this id.
    fn user_index(&self, id: i32) -> (found: Option<usize>)
        ensures
            match found {
                Some(i) => i < self@.users.len() && self@.users[i as int].id == id,
                None => !self@.has_user(id),
            },
    {
        let mut i: usize = 0;
        while i < self.users.len()
            invariant
                i <= self.users@.len(),
                self@.users.len() == self.users@.len(),
                forall|k: int| 0 <= k < i ==> (#[trigger] self@.users[k]).id != id,
            decreases self.users@.len() - i,
        {
            if self.users[i].id() == id {
                return Some(i);
            }
            i += 1;
        }
        None
    }

    /// The user with this id, if one is recorded.
    pub(crate) fn find_user(&self, id: i32) -> (found: Option<QueriedUser>)
        ensures
            match found {
                Some(user) => self@.users.contains(user@) && user@.id == id,
                None => !self@.has_user(id),
            },
    {
        match self.user_index(id) {
            Some(i) => {
                let user = self.users[i];
                assert(self@.users[i as int] == user@);
                Some(user)
            },
            None => None,
        }
    }

    /// Records a user under the id that the record carries.
    pub(crate) fn load_user(&mut self, row: QueriedUser) -> (r: Result<(), StoreError>)
        requires
            old(self)@.wf(),
        ensures
            final(self)@.wf(),
            match r {
                Ok(()) => !old(self)@.has_user(row@.id) && final(self)@ == old(self)@.with_user(
                    row@,
                ),
                Err(e) => e == StoreError::UniqueViolation && old(self)@.has_user(row@.id)
                    && final(self)@ == old(self)@,
            },
    {
        let id = row.id();
        if self.user_index(id).is_some() {
            return Err(StoreError::UniqueViolation);
        }
        if id > self.last_user_id {
            self.last_user_id = id;
        }
        self.users.push(row);
        proof {
            assert(self@.users =~= old(self)@.users.push(row@));
            assert(self@ == old(self)@.with_user(row@));
        }
        Ok(())
    }

    /// Records a user under the next id of the table, and hands that id
    /// back.
    pub(crate) fn insert_user(&mut self, created_at: crate::timestamp::Timestamp) -> (r: Result<
        i32,
        StoreError,
    >)
        requires
            old(self)@.wf(),
        ensures
            final(self)@.wf(),
            match r {
                Ok(id) => old(self)@.last_user_id < i32::MAX && id == old(self)@.last_user_id + 1
                    && final(self)@ == old(self)@.with_user(
                    UserView { id, created_at, primary_email: None },
                ),
                Err(e) => e == StoreError::OutOfIds && old(self)@.last_user_id == i32::MAX
                    && final(self)@ == old(self)@,
            },
    {
        if self.last_user_id == i32::MAX {
            return Err(StoreError::OutOfIds);
        }
        let id = self.last_user_id + 1;
        let row = QueriedUser::new(id, created_at, None);
        self.last_user_id = id;
        self.users.push(row);
        proof {
            assert(self@.users =~= old(self)@.users.push(row@));
            assert(self@ == old(self)@.with_user(row@));
        }
        Ok(id)
    }

    /// Sets the primary email address of the user with this id.
    pub(crate) fn update_primary_email(&mut self, user_id: i32, email_id: i32) -> (r: Result<
        (),
        StoreError,
    >)
        requires
            old(self)@.wf(),
        ensures
            final(self)@.wf(),
            match r {
                Ok(()) => old(self)@.has_user(user_id) && final(self)@
                    == old(self)@.with_primary_email(user_id, email_id),
                Err(e) => e == StoreError::NotFound && !old(self)@.has_user(user_id)
                    && final(self)@ == old(self)@,
            },
    {
        match self.user_index(user_id) {
            None => Err(StoreError::NotFound),
            Some(i) => {
                let before = self.users[i];
                let after = QueriedUser::new(before.id(), before.created_at(), Some(email_id));
                self.users.set(i, after);
                proof {
                    let expected = old(self)@.with_primary_email(user_id, email_id);
                    assert forall|k: int| 0 <= k < self@.users.len() implies self@.users[k]
                        == expected.users[k] by {
                        if k != i as int {
                            assert(self@.users[k] == old(self)@.users[k]);
                            if k < i as int {
                                assert(old(self)@.users[k].id != old(self)@.users[i as int].id);
                            } else {
                                assert(old(self)@.users[i as int].id != old(self)@.users[k].id);
                            }
                        }
                    }
                    assert(self@.users =~= expected.users);
                    assert(self@ == expected);
                }
                Ok(())
            },
        }
    }
}

impl Tables {
    // ----- emails -----
    /// The place of the email address with this id.
    fn email_index(&self, id: i32) -> (found: Option<usize>)
        ensures
            match found {
                Some(i) => i < self@.emails.len() && self@.emails[i as int].id == id,
                None => !self@.has_email(id),
            },
    {
        let mut i: usize = 0;
        while i < self.emails.len()
            invariant
                i <= self.emails@.len(),
                self@.emails.len() == self.emails@.len(),
                forall|k: int| 0 <= k < i ==> (#[trigger] self@.emails[k]).id != id,
            decreases self.emails@.len() - i,
        {
            if self.emails[i].id() == id {
                return Some(i);
            }
            i += 1;
        }
        None
    }

    /// The email address with this id, if one is recorded.
    pub(crate) fn find_email(&self, id: i32) -> (found: Option<Email>)
        ensures
            match found {
                Some(email) => self@.emails.contains(email@) && email@.id == id,
                None => !self@.has_email(id),
            },
    {
        match self.email_index(id) {
            Some(i) => {
                let email = self.emails[i].duplicate();
                assert(self@.emails[i as int] == email@);
                Some(email)
            },
            None => None,
        }
    }

    /// The first record with this address, if there is one.
    pub(crate) fn find_email_by_address(&self, address: &str) -> (found: Option<Email>)
        ensures
            match found {
                Some(email) => exists|i: int|
                    #[trigger] self@.is_first_with_address(i, address@) && self@.emails[i]
                        == email@,
                None => !self@.has_address(address@),
            },
    {
        let mut i: usize = 0;
        while i < self.emails.len()
            invariant
                i <= self.emails@.len(),
                self@.emails.len() == self.emails@.len(),
                forall|k: int| 0 <= k < i ==> (#[trigger] self@.emails[k]).email != address@,
            decreases self.emails@.len() - i,
        {
            if crate::text::same_text(self.emails[i].email(), address) {
                let email = self.emails[i].duplicate();
                assert(self@.emails[i as int] == email@);
                assert(self@.is_first_with_address(i as int, address@));
                return Some(email);
            }
            i += 1;
        }
        None
    }

    /// Records an email address under the id that the record carries.
    pub(crate) fn load_email(&mut self, row: Email) -> (r: Result<(), StoreError>)
        requires
            old(self)@.wf(),
        ensures
            final(self)@.wf(),
            match r {
                Ok(()) => !old(self)@.has_email(row@.id) && final(self)@
                    == old(self)@.with_email(row@),
                Err(e) => e == StoreError::UniqueViolation && old(self)@.has_email(row@.id)
                    && final(self)@ == old(self)@,
            },
    {
        let id = row.id();
        if self.email_index(id).is_some() {
            return Err(StoreError::UniqueViolation);
        }
        if id > self.last_email_id {
            self.last_email_id = id;
        }
        self.emails.push(row);
        proof {
            assert(self@.emails =~= old(self)@.emails.push(row@));
            assert(self@ == old(self)@.with_email(row@));
        }
        Ok(())
    }

    /// Records a new, unverified email address under the next id of the
    /// table, and hands the record back.
    pub(crate) fn insert_email(&mut self, new: crate::user::email::NewEmail) -> (r: Result<
        Email,
        StoreError,
    >)
        requires
            old(self)@.wf(),
        ensures
            final(self)@.wf(),
            match r {
                Ok(email) => old(self)@.last_email_id < i32::MAX && email@ == (EmailView {
                    id: (old(self)@.last_email_id + 1) as i32,
                    email: new@.email,
                    user_id: new@.user_id,
                    verified: false,
                    verification_token: Some(new@.verification_token),
                }) && final(self)@ == old(self)@.with_email(email@),
                Err(e) => e == StoreError::OutOfIds && old(self)@.last_email_id == i32::MAX
                    && final(self)@ == old(self)@,
            },
    {
        if self.last_email_id == i32::MAX {
            return Err(StoreError::OutOfIds);
        }
        let id = self.last_email_id + 1;
        let row = new.into_record(id);
        let handed_back = row.duplicate();
        self.last_email_id = id;
        self.emails.push(row);
        proof {
            assert(self@.emails =~= old(self)@.emails.push(row@));
            assert(self@ == old(self)@.with_email(row@));
        }
        Ok(handed_back)
    }

    /// Stores the change that marks an address verified. The table must
    /// still hold, unverified, the very record that the change was made
    /// from.
    pub(crate) fn store_verification(&mut self, change: Email) -> (r: Result<(), StoreError>)
        requires
            old(self)@.wf(),
            change@.verified,
            change@.verification_token is None,
        ensures
            final(self)@.wf(),
            match r {
                Ok(()) => old(self)@.awaits(change@) && final(self)@
                    == old(self)@.with_email_replaced(change@),
                Err(e) => final(self)@ == old(self)@ && !old(self)@.awaits(change@) && e == (
                if old(self)@.has_email(change@.id) {
                    StoreError::Conflict
                } else {
                    StoreError::NotFound
                }),
            },
    {
        match self.email_index(change.id()) {
            None => {
                proof {
                    if self@.awaits(change@) {
                        let i = choose|i: int|
                            0 <= i < self@.emails.len() && !(#[trigger] self@.emails[i]).verified
                                && self@.emails[i].verified() == change@;
                        assert(self@.emails[i].id == change@.id);
                    }
                }
                Err(StoreError::NotFound)
            },
            Some(i) => {
                let stored = &self.emails[i];
                let same = !stored.is_verified() && stored.user_id() == change.user_id()
                    && crate::text::same_text(stored.email(), change.email());
                proof {
                    assert(self@.emails[i as int] == stored@);
                    if self@.awaits(change@) {
                        let k = choose|k: int|
                            0 <= k < self@.emails.len() && !(#[trigger] self@.emails[k]).verified
                                && self@.emails[k].verified() == change@;
                        assert(self@.emails[k].id == change@.id);
                        if k < i as int {
                            assert(self@.emails[k].id != self@.emails[i as int].id);
                        } else if k > i as int {
                            assert(self@.emails[i as int].id != self@.emails[k].id);
                        }
                        assert(k == i as int);
                    }
                    if same {
                        assert(stored@.verified() == change@);
                    }
                }
                if !same {
                    return Err(StoreError::Conflict);
                }
                self.emails.set(i, change);
                proof {
                    let expected = old(self)@.with_email_replaced(change@);
                    assert forall|k: int| 0 <= k < self@.emails.len() implies self@.emails[k]
                        == expected.emails[k] by {
                        if k != i as int {
                            assert(self@.emails[k] == old(self)@.emails[k]);
                            if k < i as int {
                                assert(old(self)@.emails[k].id != old(self)@.emails[i as int].id);
                            } else {
                                assert(old(self)@.emails[i as int].id != old(self)@.emails[k].id);
                            }
                        }
                    }
                    assert(self@.emails =~= expected.emails);
                    assert(self@ == expected);
                    assert(self@.emails_wf()) by {
                        assert forall|a: int, b: int|
                            0 <= a < b < self@.emails.len() implies (#[trigger] self@.emails[a]).id
                            != (#[trigger] self@.emails[b]).id by {
                            assert(self@.emails[a].id == old(self)@.emails[a].id);
                            assert(self@.emails[b].id == old(self)@.emails[b].id);
                        }
                        assert forall|a: int| 0 <= a < self@.emails.len() implies (
                        #[trigger] self@.emails[a]).id <= self@.last_email_id by {
                            assert(self@.emails[a].id == old(self)@.emails[a].id);
                        }
                        assert forall|a: int| 0 <= a < self@.emails.len() implies (
                        #[trigger] self@.emails[a]).consistent() by {
                            if a != i as int {
                                assert(self@.emails[a] == old(self)@.emails[a]);
                            }
                        }
                    }
                }
                Ok(())
            },
        }
    }
}

impl Tables {
    // ----- local_auth -----
    /// The place of the password with this id.
    fn local_auth_index(&self, id: i32) -> (found: Option<usize>)
        ensures
            match found {
                Some(i) => i < self@.local_auth.len() && self@.local_auth[i as int].id == id,
                None => !self@.has_local_auth(id),
            },
    {
        let mut i: usize = 0;
        while i < self.local_auth.len()
            invariant
                i <= self.local_auth@.len(),
                self@.local_auth.len() == self.local_auth@.len(),
                forall|k: int| 0 <= k < i ==> (#[trigger] self@.local_auth[k]).id != id,
            decreases self.local_auth@.len() - i,
        {
            if self.local_auth[i].id() == id {
                return Some(i);
            }
            i += 1;
        }
        None
    }

    /// The place of the password of this user.
    fn local_auth_index_for(&self, user_id: i32) -> (found: Option<usize>)
        ensures
            match found {
                Some(i) => i < self@.local_auth.len() && self@.local_auth[i as int].user_id
                    == user_id,
                None => !self@.has_local_auth_for(user_id),
            },
    {
        let mut i: usize = 0;
        while i < self.local_auth.len()
            invariant
                i <= self.local_auth@.len(),
                self@.local_auth.len() == self.local_auth@.len(),
                forall|k: int| 0 <= k < i ==> (#[trigger] self@.local_auth[k]).user_id != user_id,
            decreases self.local_auth@.len() - i,
        {
            if self.local_auth[i].user_id() == user_id {
                return Some(i);
            }
            i += 1;
        }
        None
    }

    /// The password of this user, if one is recorded.
    pub(crate) fn find_local_auth_for(&self, user_id: i32) -> (found: Option<LocalAuth>)
        ensures
            match found {
                Some(auth) => self@.local_auth.contains(auth@) && auth@.user_id == user_id,
                None => !self@.has_local_auth_for(user_id),
            },
    {
        match self.local_auth_index_for(user_id) {
            Some(i) => {
                let auth = self.local_auth[i].duplicate();
                assert(self@.local_auth[i as int] == auth@);
                Some(auth)
            },
            None => None,
        }
    }

    /// Records a password under the id that the record carries.
    pub(crate) fn load_local_auth(&mut self, row: LocalAuth) -> (r: Result<(), StoreError>)
        requires
            old(self)@.wf(),
        ensures
            final(self)@.wf(),
            match r {
                Ok(()) => !old(self)@.has_local_auth(row@.id) && !old(self)@.has_local_auth_for(
                    row@.user_id,
                ) && final(self)@ == old(self)@.with_local_auth(row@),
                Err(e) => e == StoreError::UniqueViolation && (old(self)@.has_local_auth(row@.id)
                    || old(self)@.has_local_auth_for(row@.user_id)) && final(self)@ == old(
                    self,
                )@,
            },
    {
        let id = row.id();
        if self.local_auth_index(id).is_some() {
            return Err(StoreError::UniqueViolation);
        }
        if self.local_auth_index_for(row.user_id()).is_some() {
            return Err(StoreError::UniqueViolation);
        }
        if id > self.last_local_auth_id {
            self.last_local_auth_id = id;
        }
        self.local_auth.push(row);
        proof {
            assert(self@.local_auth =~= old(self)@.local_auth.push(row@));
            assert(self@ == old(self)@.with_local_auth(row@));
        }
        Ok(())
    }

    /// Records a new password under the next id of the table, and hands the
    /// record back. A user has one password at most.
    pub(crate) fn insert_local_auth(&mut self, new: crate::user::local_auth::NewLocalAuth) -> (r:
        Result<LocalAuth, StoreError>)
        requires
            old(self)@.wf(),
        ensures
            final(self)@.wf(),
            match r {
                Ok(auth) => !old(self)@.has_local_auth_for(new@.user_id) && old(
                    self,
                )@.last_local_auth_id < i32::MAX && auth@ == (LocalAuthView {
                    id: (old(self)@.last_local_auth_id + 1) as i32,
                    password: new@.password,
                    user_id: new@.user_id,
                    created_at: new@.created_at,
                }) && final(self)@ == old(self)@.with_local_auth(auth@),
                Err(e) => final(self)@ == old(self)@ && if old(self)@.has_local_auth_for(
                    new@.user_id,
                ) {
                    e == StoreError::UniqueViolation
                } else {
                    e == StoreError::OutOfIds && old(self)@.last_local_auth_id == i32::MAX
                },
            },
    {
        if self.local_auth_index_for(new.user_id()).is_some() {
            return Err(StoreError::UniqueViolation);
        }
        if self.last_local_auth_id == i32::MAX {
            return Err(StoreError::OutOfIds);
        }
        let id = self.last_local_auth_id + 1;
        let row = new.into_record(id);
        let handed_back = row.duplicate();
        self.last_local_auth_id = id;
        self.local_auth.push(row);
        proof {
            assert(self@.local_auth =~= old(self)@.local_auth.push(row@));
            assert(self@ == old(self)@.with_local_auth(row@));
        }
        Ok(handed_back)
    }

    // ----- roles -----
    /// The place of the role with this id.
    fn role_index(&self, id: i32) -> (found: Option<usize>)
        ensures
            match found {
                Some(i) => i < self@.roles.len() && self@.roles[i as int].id == id,
                None => !self@.has_role_id(id),
            },
    {
        let mut i: usize = 0;
        while i < self.roles.len()
            invariant
                i <= self.roles@.len(),
                self@.roles.len() == self.roles@.len(),
                forall|k: int| 0 <= k < i ==> (#[trigger] self@.roles[k]).id != id,
            decreases self.roles@.len() - i,
        {
            if self.roles[i].id() == id {
                return Some(i);
            }
            i += 1;
        }
        None
    }

    /// The place of the record of this role.
    fn role_index_named(&self, role: crate::sql_types::Role) -> (found: Option<usize>)
        ensures
            match found {
                Some(i) => i < self@.roles.len() && self@.roles[i as int].name == role,
                None => !self@.has_role_named(role),
            },
    {
        let mut i: usize = 0;
        while i < self.roles.len()
            invariant
                i <= self.roles@.len(),
                self@.roles.len() == self.roles@.len(),
                forall|k: int| 0 <= k < i ==> (#[trigger] self@.roles[k]).name != role,
            decreases self.roles@.len() - i,
        {
            if self.roles[i].name() == role {
                return Some(i);
            }
            i += 1;
        }
        None
    }

    /// The id under which this role is recorded, if it is.
    pub(crate) fn role_id(&self, role: crate::sql_types::Role) -> (found: Option<i32>)
        ensures
            match found {
                Some(id) => self@.role_is(id, role),
                None => !self@.has_role_named(role),
            },
    {
        match self.role_index_named(role) {
            Some(i) => {
                let id = self.roles[i].id();
                assert(self@.roles[i as int].id == id);
                Some(id)
            },
            None => None,
        }
    }

    /// The record of the role with this id, if there is one.
    pub(crate) fn find_role(&self, id: i32) -> (found: Option<Role>)
        ensures
            match found {
                Some(role) => self@.roles.contains(role@) && role@.id == id,
                None => !self@.has_role_id(id),
            },
    {
        match self.role_index(id) {
            Some(i) => {
                let role = self.roles[i];
                assert(self@.roles[i as int] == role@);
                Some(role)
            },
            None => None,
        }
    }

    /// Records a role.
    pub(crate) fn load_role(&mut self, row: Role) -> (r: Result<(), StoreError>)
        requires
            old(self)@.wf(),
        ensures
            final(self)@.wf(),
            match r {
                Ok(()) => !old(self)@.has_role_id(row@.id) && !old(self)@.has_role_named(
                    row@.name,
                ) && final(self)@ == old(self)@.with_role(row@),
                Err(e) => e == StoreError::UniqueViolation && (old(self)@.has_role_id(row@.id)
                    || old(self)@.has_role_named(row@.name)) && final(self)@ == old(self)@,
            },
    {
        if self.role_index(row.id()).is_some() {
            return Err(StoreError::UniqueViolation);
        }
        if self.role_index_named(row.name()).is_some() {
            return Err(StoreError::UniqueViolation);
        }
        self.roles.push(row);
        proof {
            assert(self@.roles =~= old(self)@.roles.push(row@));
            assert(self@ == old(self)@.with_role(row@));
        }
        Ok(())
    }

    // ----- permissions -----
    /// The place of the permission with this id.
    fn permission_index(&self, id: i32) -> (found: Option<usize>)
        ensures
            match found {
                Some(i) => i < self@.permissions.len() && self@.permissions[i as int].id == id,
                None => !self@.has_permission_id(id),
            },
    {
        let mut i: usize = 0;
        while i < self.permissions.len()
            invariant
                i <= self.permissions@.len(),
                self@.permissions.len() == self.permissions@.len(),
                forall|k: int| 0 <= k < i ==> (#[trigger] self@.permissions[k]).id != id,
            decreases self.permissions@.len() - i,
        {
            if self.permissions[i].id() == id {
                return Some(i);
            }
            i += 1;
        }
        None
    }

    /// The place of the record of this permission.
    fn permission_index_named(&self, permission: crate::sql_types::Permission) -> (found: Option<
        usize,
    >)
        ensures
            match found {
                Some(i) => i < self@.permissions.len() && self@.permissions[i as int].name
                    == permission,
                None => !self@.has_permission_named(permission),
            },
    {
        let mut i: usize = 0;
        while i < self.permissions.len()
            invariant
                i <= self.permissions@.len(),
                self@.permissions.len() == self.permissions@.len(),
                forall|k: int| 0 <= k < i ==> (#[trigger] self@.permissions[k]).name != permission,
            decreases self.permissions@.len() - i,
        {
            if self.permissions[i].name() == permission {
                return Some(i);
            }
            i += 1;
        }
        None
    }

    /// Records a permission.
    pub(crate) fn load_permission(&mut self, row: Permission) -> (r: Result<(), StoreError>)
        requires
            old(self)@.wf(),
        ensures
            final(self)@.wf(),
            match r {
                Ok(()) => !old(self)@.has_permission_id(row@.id) && !old(
                    self,
                )@.has_permission_named(row@.name) && final(self)@ == old(self)@.with_permission(
                    row@,
                ),
                Err(e) => e == StoreError::UniqueViolation && (old(self)@.has_permission_id(
                    row@.id,
                ) || old(self)@.has_permission_named(row@.name)) && final(self)@ == old(self)@,
            },
    {
        if self.permission_index(row.id()).is_some() {
            return Err(StoreError::UniqueViolation);
        }
        if self.permission_index_named(row.name()).is_some() {
            return Err(StoreError::UniqueViolation);
        }
        self.permissions.push(row);
        proof {
            assert(self@.permissions =~= old(self)@.permissions.push(row@));
            assert(self@ == old(self)@.with_permission(row@));
        }
        Ok(())
    }

    /// Records that a role has a permission.
    pub(crate) fn load_role_permission(&mut self, row: RolePermission)
        requires
            old(self)@.wf(),
        ensures
            final(self)@.wf(),
            final(self)@ == old(self)@.with_role_permission(row@),
    {
        self.role_permissions.push(row);
        proof {
            assert(self@.role_permissions =~= old(self)@.role_permissions.push(row@));
            assert(self@ == old(self)@.with_role_permission(row@));
        }
    }
}

impl Tables {
    // ----- user_roles -----
    /// The place of the grant of the role with this id to this user.
    fn grant_index(&self, user_id: i32, role_id: i32) -> (found: Option<usize>)
        ensures
            match found {
                Some(i) => self@.grants_at(i as int, user_id, role_id),
                None => !self@.has_grant(user_id, role_id),
            },
    {
        let mut i: usize = 0;
        while i < self.user_roles.len()
            invariant
                i <= self.user_roles@.len(),
                self@.user_roles.len() == self.user_roles@.len(),
                forall|k: int| 0 <= k < i ==> !#[trigger] self@.grants_at(k, user_id, role_id),
            decreases self.user_roles@.len() - i,
        {
            if self.user_roles[i].user_id() == user_id && self.user_roles[i].role_id() == role_id {
                return Some(i);
            }
            i += 1;
        }
        None
    }

    /// Records a grant under the id that the record carries.
    pub(crate) fn load_user_role(&mut self, row: UserRole) -> (r: Result<(), StoreError>)
        requires
            old(self)@.wf(),
        ensures
            final(self)@.wf(),
            match r {
                Ok(()) => !old(self)@.has_grant(row@.user_id, row@.role_id) && final(self)@
                    == old(self)@.with_user_role(row@),
                Err(e) => e == StoreError::UniqueViolation && old(self)@.has_grant(
                    row@.user_id,
                    row@.role_id,
                ) && final(self)@ == old(self)@,
            },
    {
        if self.grant_index(row.user_id(), row.role_id()).is_some() {
            return Err(StoreError::UniqueViolation);
        }
        let id = row.id();
        if id > self.last_user_role_id {
            self.last_user_role_id = id;
        }
        self.user_roles.push(row);
        proof {
            assert(self@.user_roles =~= old(self)@.user_roles.push(row@));
            assert(self@ == old(self)@.with_user_role(row@));
            assert forall|i: int, j: int| 0 <= i < j < self@.user_roles.len() implies !((
            #[trigger] self@.user_roles[i]).user_id == (#[trigger] self@.user_roles[j]).user_id
                && self@.user_roles[i].role_id == self@.user_roles[j].role_id) by {
                if j == old(self)@.user_roles.len() {
                    assert(!old(self)@.grants_at(i, row@.user_id, row@.role_id));
                }
            }
        }
        Ok(())
    }

    /// Records a grant under the next id of the table.
    pub(crate) fn insert_user_role(
        &mut self,
        user_id: i32,
        role_id: i32,
        created_at: crate::timestamp::Timestamp,
    ) -> (r: Result<(), StoreError>)
        requires
            old(self)@.wf(),
        ensures
            final(self)@.wf(),
            match r {
                Ok(()) => !old(self)@.has_grant(user_id, role_id) && old(self)@.last_user_role_id
                    < i32::MAX && final(self)@ == old(self)@.with_user_role(
                    UserRoleView {
                        id: (old(self)@.last_user_role_id + 1) as i32,
                        user_id,
                        role_id,
                        created_at,
                    },
                ),
                Err(e) => final(self)@ == old(self)@ && if old(self)@.has_grant(user_id, role_id) {
                    e == StoreError::UniqueViolation
                } else {
                    e == StoreError::OutOfIds && old(self)@.last_user_role_id == i32::MAX
                },
            },
    {
        if self.grant_index(user_id, role_id).is_some() {
            return Err(StoreError::UniqueViolation);
        }
        if self.last_user_role_id == i32::MAX {
            return Err(StoreError::OutOfIds);
        }
        let id = self.last_user_role_id + 1;
        let row = UserRole::new(id, user_id, role_id, created_at);
        self.last_user_role_id = id;
        self.user_roles.push(row);
        proof {
            assert(self@.user_roles =~= old(self)@.user_roles.push(row@));
            assert(self@ == old(self)@.with_user_role(row@));
            assert forall|i: int, j: int| 0 <= i < j < self@.user_roles.len() implies !((
            #[trigger] self@.user_roles[i]).user_id == (#[trigger] self@.user_roles[j]).user_id
                && self@.user_roles[i].role_id == self@.user_roles[j].role_id) by {
                if j == old(self)@.user_roles.len() {
                    assert(!old(self)@.grants_at(i, user_id, role_id));
                }
            }
        }
        Ok(())
    }

    /// Whether the table of grants has an id left to hand out.
    pub(crate) fn has_user_role_id_left(&self) -> (b: bool)
        ensures
            b == (self@.last_user_role_id < i32::MAX),
    {
        self.last_user_role_id < i32::MAX
    }

    /// Removes every grant of the role with this id to this user.
    pub(crate) fn delete_user_role(&mut self, user_id: i32, role_id: i32)
        requires
            old(self)@.wf(),
        ensures
            final(self)@.wf(),
            final(self)@ == old(self)@.without_user_role(user_id, role_id),
    {
        let ghost before = self@.user_roles;
        let ghost keep = is_other_grant(user_id, role_id);
        let ghost mut origin: Seq<int> = Seq::empty();
        let mut kept: Vec<UserRole> = Vec::new();
        let mut i: usize = 0;
        proof {
            reveal(Seq::filter);
            assert(before.subrange(0, 0) =~= Seq::empty());
            assert(kept@.map_values(|row: UserRole| row@) =~= Seq::empty());
        }
        while i < self.user_roles.len()
            invariant
                i <= self.user_roles@.len(),
                before == self@.user_roles,
                before.len() == self.user_roles@.len(),
                self@ == old(self)@,
                keep == is_other_grant(user_id, role_id),
                kept@.map_values(|row: UserRole| row@) == before.subrange(0, i as int).filter(
                    keep,
                ),
                origin.len() == kept@.len(),
                forall|a: int|
                    0 <= a < origin.len() ==> 0 <= #[trigger] origin[a] < i && kept@[a]@
                        == before[origin[a]],
                forall|a: int, b: int|
                    0 <= a < b < origin.len() ==> #[trigger] origin[a] < #[trigger] origin[b],
            decreases self.user_roles@.len() - i,
        {
            let row = self.user_roles[i];
            proof {
                reveal(Seq::filter);
                let seen = before.subrange(0, i as int + 1);
                assert(seen.drop_last() =~= before.subrange(0, i as int));
                assert(seen.last() == row@);
                assert(before[i as int] == row@);
            }
            if !(row.user_id() == user_id && row.role_id() == role_id) {
                kept.push(row);
                proof {
                    origin = origin.push(i as int);
                    assert(kept@.map_values(|row: UserRole| row@) =~= before.subrange(
                        0,
                        i as int,
                    ).filter(keep).push(row@));
                }
            }
            i += 1;
        }
        proof {
            assert(before.subrange(0, i as int) =~= before);
        }
        self.user_roles = kept;
        proof {
            assert(self@.user_roles == before.filter(keep));
            assert(self@ == old(self)@.without_user_role(user_id, role_id));
            assert forall|a: int, b: int| 0 <= a < b < self@.user_roles.len() implies !((
            #[trigger] self@.user_roles[a]).user_id == (#[trigger] self@.user_roles[b]).user_id
                && self@.user_roles[a].role_id == self@.user_roles[b].role_id) by {
                assert(origin[a] < origin[b]);
                assert(self@.user_roles[a] == before[origin[a]]);
                assert(self@.user_roles[b] == before[origin[b]]);
            }
            assert forall|a: int| 0 <= a < self@.user_roles.len() implies (
            #[trigger] self@.user_roles[a]).id <= self@.last_user_role_id by {
                assert(self@.user_roles[a] == before[origin[a]]);
            }
        }
    }

    // ----- authorization -----
    /// Whether the record with this id is the record of this role.
    fn is_role(&self, role_id: i32, role: crate::sql_types::Role) -> (b: bool)
        requires
            self@.wf(),
        ensures
            b == self@.role_is(role_id, role),
    {
        match self.role_index(role_id) {
            None => false,
            Some(j) => {
                let b = self.roles[j].name() == role;
                proof {
                    if !b && self@.role_is(role_id, role) {
                        let k = choose|k: int|
                            0 <= k < self@.roles.len() && (#[trigger] self@.roles[k]).id == role_id
                                && self@.roles[k].name == role;
                        if k < j as int {
                            assert(self@.roles[k].id != self@.roles[j as int].id);
                        } else if k > j as int {
                            assert(self@.roles[j as int].id != self@.roles[k].id);
                        }
                    }
                }
                b
            },
        }
    }

    /// Whether the record with this id is the record of this permission.
    fn is_permission(&self, permission_id: i32, permission: crate::sql_types::Permission) -> (b:
        bool)
        requires
            self@.wf(),
        ensures
            b == self@.permission_is(permission_id, permission),
    {
        match self.permission_index(permission_id) {
            None => false,
            Some(j) => {
                let b = self.permissions[j].name() == permission;
                proof {
                    if !b && self@.permission_is(permission_id, permission) {
                        let k = choose|k: int|
                            0 <= k < self@.permissions.len() && (
                            #[trigger] self@.permissions[k]).id == permission_id
                                && self@.permissions[k].name == permission;
                        if k < j as int {
                            assert(self@.permissions[k].id != self@.permissions[j as int].id);
                        } else if k > j as int {
                            assert(self@.permissions[j as int].id != self@.permissions[k].id);
                        }
                    }
                }
                b
            },
        }
    }

    /// Whether the role with this id allows this action.
    fn role_allows(&self, role_id: i32, permission: crate::sql_types::Permission) -> (b: bool)
        requires
            self@.wf(),
        ensures
            b == self@.role_permits(role_id, permission),
    {
        let mut k: usize = 0;
        while k < self.role_permissions.len()
            invariant
                k <= self.role_permissions@.len(),
                self@.wf(),
                self@.role_permissions.len() == self.role_permissions@.len(),
                forall|n: int|
                    0 <= n < k ==> !((#[trigger] self@.role_permissions[n]).role_id == role_id
                        && self@.permission_is(
                        self@.role_permissions[n].permission_id,
                        permission,
                    )),
            decreases self.role_permissions@.len() - k,
        {
            let row = &self.role_permissions[k];
            assert(self@.role_permissions[k as int] == row@);
            if row.role_id() == role_id && self.is_permission(row.permission_id(), permission) {
                return true;
            }
            k += 1;
        }
        false
    }

    /// Whether the user holds the role.
    pub(crate) fn has_role(&self, user_id: i32, role: crate::sql_types::Role) -> (b: bool)
        requires
            self@.wf(),
        ensures
            b == self@.has_role(user_id, role),
    {
        let mut i: usize = 0;
        while i < self.user_roles.len()
            invariant
                i <= self.user_roles@.len(),
                self@.wf(),
                self@.user_roles.len() == self.user_roles@.len(),
                forall|n: int|
                    0 <= n < i ==> !((#[trigger] self@.user_roles[n]).user_id == user_id
                        && self@.role_is(self@.user_roles[n].role_id, role)),
            decreases self.user_roles@.len() - i,
        {
            let row = &self.user_roles[i];
            assert(self@.user_roles[i as int] == row@);
            if row.user_id() == user_id && self.is_role(row.role_id(), role) {
                return true;
            }
            i += 1;
        }
        false
    }

    /// Whether the user may take the action.
    pub(crate) fn has_permission(
        &self,
        user_id: i32,
        permission: crate::sql_types::Permission,
    ) -> (b: bool)
        requires
            self@.wf(),
        ensures
            b == self@.has_permission(user_id, permission),
    {
        let mut i: usize = 0;
        while i < self.user_roles.len()
            invariant
                i <= self.user_roles@.len(),
                self@.wf(),
                self@.user_roles.len() == self.user_roles@.len(),
                forall|n: int|
                    0 <= n < i ==> !((#[trigger] self@.user_roles[n]).user_id == user_id
                        && self@.has_role_id(self@.user_roles[n].role_id) && self@.role_permits(
                        self@.user_roles[n].role_id,
                        permission,
                    )),
            decreases self.user_roles@.len() - i,
        {
            let row = &self.user_roles[i];
            assert(self@.user_roles[i as int] == row@);
            if row.user_id() == user_id && self.role_index(row.role_id()).is_some()
                && self.role_allows(row.role_id(), permission) {
                return true;
            }
            i += 1;
        }
        false
    }
}

impl Tables {
    // ----- joins and copies -----
    /// The first email address with this text whose user is recorded and
    /// has a password, together with that user and that password.
    pub(crate) fn find_login(&self, address: &str) -> (found: Option<
        (QueriedUser, Email, LocalAuth),
    >)
        ensures
            match found {
                Some((user, email, auth)) => {
                    &&& exists|i: int|
                        #[trigger] self@.is_login_record(i, address@) && self@.emails[i]
                            == email@
                    &&& self@.users.contains(user@)
                    &&& user@.id == email@.user_id
                    &&& self@.local_auth.contains(auth@)
                    &&& auth@.user_id == email@.user_id
                },
                None => forall|i: int| !#[trigger] self@.can_log_in_at(i, address@),
            },
    {
        let mut i: usize = 0;
        while i < self.emails.len()
            invariant
                i <= self.emails@.len(),
                self@.emails.len() == self.emails@.len(),
                forall|k: int| 0 <= k < i ==> !#[trigger] self@.can_log_in_at(k, address@),
            decreases self.emails@.len() - i,
        {
            if crate::text::same_text(self.emails[i].email(), address) {
                let user_id = self.emails[i].user_id();
                assert(self@.emails[i as int] == self.emails@[i as int]@);
                match self.find_user(user_id) {
                    None => {},
                    Some(user) => match self.find_local_auth_for(user_id) {
                        None => {},
                        Some(auth) => {
                            let email = self.emails[i].duplicate();
                            proof {
                                let at = choose|k: int|
                                    0 <= k < self@.users.len() && self@.users[k] == user@;
                                assert(self@.users[at].id == user_id);
                                let place = choose|k: int|
                                    0 <= k < self@.local_auth.len() && self@.local_auth[k]
                                        == auth@;
                                assert(self@.local_auth[place].user_id == user_id);
                                assert(self@.can_log_in_at(i as int, address@));
                                assert(self@.is_login_record(i as int, address@));
                            }
                            return Some((user, email, auth));
                        },
                    },
                }
            }
            i += 1;
        }
        None
    }

    /// A copy of every user record, in the order of the table.
    pub(crate) fn user_rows(&self) -> (rows: Vec<QueriedUser>)
        ensures
            rows@.map_values(|row: QueriedUser| row@) == self@.users,
    {
        let mut rows: Vec<QueriedUser> = Vec::new();
        let mut i: usize = 0;
        while i < self.users.len()
            invariant
                i <= self.users@.len(),
                rows@.len() == i,
                forall|k: int| 0 <= k < i ==> rows@[k]@ == self.users@[k]@,
            decreases self.users@.len() - i,
        {
            rows.push(self.users[i]);
            i += 1;
        }
        assert(rows@.map_values(|row: QueriedUser| row@) =~= self@.users);
        rows
    }

    /// A copy of every email record, in the order of the table.
    pub(crate) fn email_rows(&self) -> (rows: Vec<Email>)
        ensures
            rows@.map_values(|row: Email| row@) == self@.emails,
    {
        let mut rows: Vec<Email> = Vec::new();
        let mut i: usize = 0;
        while i < self.emails.len()
            invariant
                i <= self.emails@.len(),
                rows@.len() == i,
                forall|k: int| 0 <= k < i ==> rows@[k]@ == self.emails@[k]@,
            decreases self.emails@.len() - i,
        {
            rows.push(self.emails[i].duplicate());
            i += 1;
        }
        assert(rows@.map_values(|row: Email| row@) =~= self@.emails);
        rows
    }

    /// A copy of every grant, in the order of the table.
    pub(crate) fn user_role_rows(&self) -> (rows: Vec<UserRole>)
        ensures
            rows@.map_values(|row: UserRole| row@) == self@.user_roles,
    {
        let mut rows: Vec<UserRole> = Vec::new();
        let mut i: usize = 0;
        while i < self.user_roles.len()
            invariant
                i <= self.user_roles@.len(),
                rows@.len() == i,
                forall|k: int| 0 <= k < i ==> rows@[k]@ == self.user_roles@[k]@,
            decreases self.user_roles@.len() - i,
        {
            rows.push(self.user_roles[i]);
            i += 1;
        }
        assert(rows@.map_values(|row: UserRole| row@) =~= self@.user_roles);
        rows
    }
}

} // verus!
