//! Granting and revoking roles, and the capabilities that a permission
//! check hands out.
//!
//! A capability is a value that only a successful check returns, and whose
//! method is the permitted action. Holding one is the proof that the check
//! was made; there is no other way to come by one.

use crate::base_actor::{BaseActor, BaseActorView};
use crate::base_post::post::comment::{NewComment, NewCommentView};
use crate::base_post::post::media_post::{NewMediaPost, NewMediaPostView};
use crate::base_post::post::{NewPost, NewPostView, Post};
use crate::base_post::{BasePost, NewBasePost, NewBasePostView};
use crate::file::image::Image;
use crate::file::File;
use crate::sql_types::Permission as PermissionName;
use crate::sql_types::PostVisibility;
use crate::sql_types::Role as RoleName;
use crate::store::lemmas::{
    lemma_grant_is_single, lemma_has_role_is_grant, lemma_id_of_role, lemma_named_role_has_id,
    lemma_other_grants_stay, lemma_removed_grant_is_gone, lemma_unrecorded_role_is_not_held,
};
use crate::store::{Store, StoreError, StoreView};
use crate::timestamp::{now, Timestamp};
use crate::user::role::user_role::UserRoleView;
use crate::user::UserLike;
use vstd::prelude::*;

verus! {

/// What granting a role to a user answers: success where the user holds the
/// role already; otherwise the role has to be recorded, and the table of
/// grants has to have an id left.
pub open spec fn grant_result(s: StoreView, user_id: i32, role: RoleName) -> Result<
    (),
    StoreError,
> {
    if s.has_role(user_id, role) {
        Ok(())
    } else if !s.has_role_named(role) {
        Err(StoreError::NotFound)
    } else if s.last_user_role_id == i32::MAX {
        Err(StoreError::OutOfIds)
    } else {
        Ok(())
    }
}

/// The store after granting a role to a user at a given time: one more grant
/// where the user did not hold the role and the grant succeeds, and the same
/// store in every other case.
pub open spec fn after_grant(
    s: StoreView,
    user_id: i32,
    role: RoleName,
    at: Timestamp,
) -> StoreView {
    if !s.has_role(user_id, role) && grant_result(s, user_id, role) is Ok {
        s.with_user_role(
            UserRoleView {
                id: (s.last_user_role_id + 1) as i32,
                user_id,
                role_id: s.id_of_role(role),
                created_at: at,
            },
        )
    } else {
        s
    }
}

/// The store after revoking a role from a user: without the grant where the
/// user held the role, and the same store where the user did not.
pub open spec fn after_revoke(s: StoreView, user_id: i32, role: RoleName) -> StoreView {
    if s.has_role(user_id, role) {
        s.without_user_role(user_id, s.id_of_role(role))
    } else {
        s
    }
}

/// Grants a role to a user, with the given time on the grant.
pub(crate) fn grant_role_at<U: UserLike>(
    user: &U,
    role: RoleName,
    at: Timestamp,
    store: &mut Store,
) -> (r: Result<(), StoreError>)
    ensures
        final(store)@.wf(),
        r == grant_result(old(store)@, user.profile().id, role),
        final(store)@ == after_grant(old(store)@, user.profile().id, role, at),
{
    let user_id = user.id();
    if store.has_role(user_id, role) {
        return Ok(());
    }
    match store.role_id(role) {
        None => Err(StoreError::NotFound),
        Some(role_id) => {
            proof {
                lemma_id_of_role(store@, role_id, role);
                lemma_has_role_is_grant(store@, user_id, role);
            }
            match store.insert_user_role(user_id, role_id, at) {
                Ok(()) => Ok(()),
                Err(e) => Err(e),
            }
        },
    }
}

/// Grants a role to a user, with the time of the clock on the grant.
pub(crate) fn grant_role<U: UserLike>(user: &U, role: RoleName, store: &mut Store) -> (r: Result<
    (),
    StoreError,
>)
    ensures
        final(store)@.wf(),
        r == grant_result(old(store)@, user.profile().id, role),
        exists|at: Timestamp|
            final(store)@ == #[trigger] after_grant(old(store)@, user.profile().id, role, at),
{
    let at = now();
    let r = grant_role_at(user, role, at, store);
    assert(store@ == after_grant(old(store)@, user.profile().id, role, at));
    r
}

/// Revokes a role from a user. This cannot fail: a role that the user does
/// not hold is left alone.
pub(crate) fn revoke_role<U: UserLike>(user: &U, role: RoleName, store: &mut Store) -> (r: Result<
    (),
    StoreError,
>)
    ensures
        final(store)@.wf(),
        r is Ok,
        final(store)@ == after_revoke(old(store)@, user.profile().id, role),
{
    let user_id = user.id();
    if !store.has_role(user_id, role) {
        return Ok(());
    }
    match store.role_id(role) {
        None => {
            proof {
                lemma_unrecorded_role_is_not_held(store@, user_id, role);
            }
            Ok(())
        },
        Some(role_id) => {
            proof {
                lemma_id_of_role(store@, role_id, role);
            }
            store.delete_user_role(user_id, role_id);
            Ok(())
        },
    }
}

/// The capability to grant roles.
pub struct RoleGranter(());

impl RoleGranter {
    pub(crate) fn new() -> RoleGranter {
        RoleGranter(())
    }

    /// Grants a role to a user, with the time of the clock on the grant.
    /// Granting a role that the user holds changes nothing and succeeds.
    pub fn grant_role<U: UserLike>(&self, user: &U, role: RoleName, store: &mut Store) -> (r:
        Result<(), StoreError>)
        ensures
            final(store)@.wf(),
            r == grant_result(old(store)@, user.profile().id, role),
            exists|at: Timestamp|
                final(store)@ == #[trigger] after_grant(old(store)@, user.profile().id, role, at),
    {
        grant_role(user, role, store)
    }

    /// Grants a role to a user, with the given time on the grant.
    pub fn grant_role_at<U: UserLike>(
        &self,
        user: &U,
        role: RoleName,
        at: Timestamp,
        store: &mut Store,
    ) -> (r: Result<(), StoreError>)
        ensures
            final(store)@.wf(),
            r == grant_result(old(store)@, user.profile().id, role),
            final(store)@ == after_grant(old(store)@, user.profile().id, role, at),
    {
        grant_role_at(user, role, at, store)
    }
}

/// The capability to revoke roles.
pub struct RoleRevoker(());

impl RoleRevoker {
    pub(crate) fn new() -> RoleRevoker {
        RoleRevoker(())
    }

    /// Revokes a role from a user. Revoking a role that the user does not
    /// hold changes nothing and succeeds.
    pub fn revoke_role<U: UserLike>(&self, user: &U, role: RoleName, store: &mut Store) -> (r:
        Result<(), StoreError>)
        ensures
            final(store)@.wf(),
            r is Ok,
            final(store)@ == after_revoke(old(store)@, user.profile().id, role),
    {
        revoke_role(user, role, store)
    }
}

/// Why no capability was handed out.
#[derive(Clone, Copy, Debug, PartialEq, Eq, Structural)]
pub enum PermissionError {
    /// The user may not take the action.
    Permission,
}

impl PermissionError {
    /// What to tell a reader about this error.
    pub fn message(&self) -> (text: &'static str)
        ensures
            text@ == "User does not have permission to perform this action"@,
    {
        "User does not have permission to perform this action"
    }
}

/// What a permission check answers: the capability, or why there is none.
pub type PermissionResult<T> = Result<T, PermissionError>;

/// The view of an optional text.
pub open spec fn text_view(text: Option<String>) -> Option<Seq<char>> {
    match text {
        Some(inner) => Some(inner@),
        None => None,
    }
}

/// The id of an optional image.
pub open spec fn image_id(image: Option<&Image>) -> Option<i32> {
    match image {
        Some(inner) => Some(inner@.id),
        None => None,
    }
}

/// What a [`PostDraft`] holds.
pub struct PostDraftView {
    pub base_post: NewBasePostView,
    pub content: Seq<char>,
    pub source: Option<Seq<char>>,
}

/// A post that has been permitted and put together, and waits to be
/// recorded: first its common part, then, under the id which that part got,
/// its text.
pub struct PostDraft {
    base_post: NewBasePost,
    content: String,
    source: Option<String>,
}

impl View for PostDraft {
    type V = PostDraftView;

    closed spec fn view(&self) -> PostDraftView {
        PostDraftView {
            base_post: self.base_post@,
            content: self.content@,
            source: text_view(self.source),
        }
    }
}

impl PostDraft {
    /// The common part of the post, which is recorded first.
    pub fn base_post(&self) -> (r: &NewBasePost)
        ensures
            r@ == self@.base_post,
    {
        &self.base_post
    }

    /// The text of the post, to be recorded for the common part as it was
    /// stored.
    pub fn finish(self, stored: &BasePost) -> (made: NewPost)
        ensures
            made@ == (NewPostView {
                content: self@.content,
                source: self@.source,
                base_post: stored@.id,
            }),
    {
        NewPost::new(self.content, self.source, stored)
    }
}

/// The file of a media post that waits for its post to be recorded.
#[derive(Clone, Copy, Debug)]
pub struct MediaDraft {
    file_id: i32,
}

impl MediaDraft {
    /// The id of the file.
    pub closed spec fn file(&self) -> i32 {
        self.file_id
    }

    /// The id of the file.
    pub fn file_id(&self) -> (r: i32)
        ensures
            r == self.file(),
    {
        self.file_id
    }

    /// The media post to record for the post as it was stored.
    pub fn finish(&self, stored: &Post) -> (made: NewMediaPost)
        ensures
            made@ == (NewMediaPostView { file_id: self.file(), post_id: stored@.id }),
    {
        NewMediaPost::from_ids(self.file_id, stored.id())
    }
}

/// The place of a comment that waits for its post to be recorded.
#[derive(Clone, Copy, Debug)]
pub struct CommentDraft {
    conversation: i32,
    parent: i32,
}

impl CommentDraft {
    /// The id of the post that started the conversation.
    pub closed spec fn conversation(&self) -> i32 {
        self.conversation
    }

    /// The id of the post that the comment answers.
    pub closed spec fn parent(&self) -> i32 {
        self.parent
    }

    /// The id of the post that started the conversation.
    pub fn conversation_id(&self) -> (r: i32)
        ensures
            r == self.conversation(),
    {
        self.conversation
    }

    /// The id of the post that the comment answers.
    pub fn parent_id(&self) -> (r: i32)
        ensures
            r == self.parent(),
    {
        self.parent
    }

    /// The comment to record for the post as it was stored.
    pub fn finish(&self, stored: &Post) -> (made: NewComment)
        ensures
            made@ == (NewCommentView {
                conversation: self.conversation(),
                parent: self.parent(),
                post: stored@.id,
            }),
    {
        NewComment::from_ids(self.conversation, self.parent, stored.id())
    }
}

/// Puts a post together for an actor.
fn draft_post(
    actor: &BaseActor,
    name: Option<String>,
    media_type: String,
    icon: Option<&Image>,
    visibility: PostVisibility,
    original_json: serde_json::Value,
    content: String,
    source: String,
) -> (draft: PostDraft)
    ensures
        draft@ == (PostDraftView {
            base_post: NewBasePostView {
                name: text_view(name),
                media_type: media_type@,
                posted_by: actor@.id,
                icon: image_id(icon),
                visibility,
                original_json,
            },
            content: content@,
            source: Some(source@),
        }),
{
    PostDraft {
        base_post: NewBasePost::new(name, media_type, actor, icon, visibility, original_json),
        content,
        source: Some(source),
    }
}

/// The capability to post as one actor.
pub struct PostMaker<'a>(&'a BaseActor);

impl<'a> PostMaker<'a> {
    pub(crate) fn new(base_actor: &'a BaseActor) -> (maker: PostMaker<'a>)
        ensures
            maker.actor() == base_actor@,
    {
        PostMaker(base_actor)
    }

    /// The actor that the capability is bound to.
    pub closed spec fn actor(&self) -> BaseActorView {
        self.0@
    }

    /// Puts together a post of the actor that the capability is bound to.
    pub fn make_post(
        &self,
        name: Option<String>,
        media_type: String,
        icon: Option<&Image>,
        visibility: PostVisibility,
        original_json: serde_json::Value,
        content: String,
        source: String,
    ) -> (draft: PostDraft)
        ensures
            draft@ == (PostDraftView {
                base_post: NewBasePostView {
                    name: text_view(name),
                    media_type: media_type@,
                    posted_by: self.actor().id,
                    icon: image_id(icon),
                    visibility,
                    original_json,
                },
                content: content@,
                source: Some(source@),
            }),
    {
        draft_post(self.0, name, media_type, icon, visibility, original_json, content, source)
    }
}

/// The capability to post media as one actor.
pub struct MediaPostMaker<'a>(&'a BaseActor);

impl<'a> MediaPostMaker<'a> {
    pub(crate) fn new(base_actor: &'a BaseActor) -> (maker: MediaPostMaker<'a>)
        ensures
            maker.actor() == base_actor@,
    {
        MediaPostMaker(base_actor)
    }

    /// The actor that the capability is bound to.
    pub closed spec fn actor(&self) -> BaseActorView {
        self.0@
    }

    /// Puts together a post of the actor that the capability is bound to,
    /// with a media file.
    pub fn make_media_post(
        &self,
        name: Option<String>,
        media_type: String,
        icon: Option<&Image>,
        visibility: PostVisibility,
        original_json: serde_json::Value,
        content: String,
        source: String,
        media: &File,
    ) -> (draft: (PostDraft, MediaDraft))
        ensures
            draft.0@ == (PostDraftView {
                base_post: NewBasePostView {
                    name: text_view(name),
                    media_type: media_type@,
                    posted_by: self.actor().id,
                    icon: image_id(icon),
                    visibility,
                    original_json,
                },
                content: content@,
                source: Some(source@),
            }),
            draft.1.file() == media@.id,
    {
        (
            draft_post(self.0, name, media_type, icon, visibility, original_json, content, source),
            MediaDraft { file_id: media.id() },
        )
    }
}

/// The capability to comment as one actor.
pub struct CommentMaker<'a>(&'a BaseActor);

impl<'a> CommentMaker<'a> {
    pub(crate) fn new(base_actor: &'a BaseActor) -> (maker: CommentMaker<'a>)
        ensures
            maker.actor() == base_actor@,
    {
        CommentMaker(base_actor)
    }

    /// The actor that the capability is bound to.
    pub closed spec fn actor(&self) -> BaseActorView {
        self.0@
    }

    /// Puts together a comment of the actor that the capability is bound
    /// to, on a post within a conversation.
    pub fn make_comment(
        &self,
        name: Option<String>,
        media_type: String,
        icon: Option<&Image>,
        visibility: PostVisibility,
        original_json: serde_json::Value,
        content: String,
        source: String,
        conversation: &Post,
        parent: &Post,
    ) -> (draft: (PostDraft, CommentDraft))
        ensures
            draft.0@ == (PostDraftView {
                base_post: NewBasePostView {
                    name: text_view(name),
                    media_type: media_type@,
                    posted_by: self.actor().id,
                    icon: image_id(icon),
                    visibility,
                    original_json,
                },
                content: content@,
                source: Some(source@),
            }),
            draft.1.conversation() == conversation@.id,
            draft.1.parent() == parent@.id,
    {
        (
            draft_post(self.0, name, media_type, icon, visibility, original_json, content, source),
            CommentDraft { conversation: conversation.id(), parent: parent.id() },
        )
    }
}

/// The capability to take one action on the instance as a whole. What the
/// action writes is kept outside this crate; whoever writes it asks for this
/// value first.
pub struct Capability {
    user_id: i32,
    permission: PermissionName,
}

impl Capability {
    /// The id of the user who was found to have the permission.
    pub closed spec fn holder(&self) -> i32 {
        self.user_id
    }

    /// The action that is permitted.
    pub closed spec fn action(&self) -> PermissionName {
        self.permission
    }

    /// The id of the user who was found to have the permission.
    pub fn user_id(&self) -> (r: i32)
        ensures
            r == self.holder(),
    {
        self.user_id
    }

    /// The action that is permitted.
    pub fn permission(&self) -> (r: PermissionName)
        ensures
            r == self.action(),
    {
        self.permission
    }
}

/// The capability to take one action as one actor. What the action writes
/// is kept outside this crate; whoever writes it asks for this value first.
pub struct ActorCapability<'a> {
    actor: &'a BaseActor,
    permission: PermissionName,
}

impl<'a> ActorCapability<'a> {
    /// The actor that the capability is bound to.
    pub closed spec fn actor(&self) -> BaseActorView {
        self.actor@
    }

    /// The action that is permitted.
    pub closed spec fn action(&self) -> PermissionName {
        self.permission
    }

    /// The actor that the capability is bound to.
    pub fn base_actor(&self) -> (r: &'a BaseActor)
        ensures
            r@ == self.actor(),
    {
        self.actor
    }

    /// The action that is permitted.
    pub fn permission(&self) -> (r: PermissionName)
        ensures
            r == self.action(),
    {
        self.permission
    }
}

/// Whether a user may take an action as an actor: the user has to be the
/// local user behind the actor, and has to have the permission.
pub open spec fn may_act_as(
    s: StoreView,
    user_id: i32,
    actor: BaseActorView,
    permission: PermissionName,
) -> bool {
    actor.local_user == Some(user_id) && s.has_permission(user_id, permission)
}

/// What a user who can be asked for permissions offers.
pub trait PermissionedUser: UserLike + Sized {
    /// Whether the user may take an action: whether the user holds a
    /// recorded role that has the permission.
    fn has_permission(&self, permission: PermissionName, store: &Store) -> (b: bool)
        ensures
            b == store@.has_permission(self.profile().id, permission),
    {
        store.has_permission(self.id(), permission)
    }

    /// Whether the user may take an action as an actor.
    fn may_act_as(&self, base_actor: &BaseActor, permission: PermissionName, store: &Store) -> (b:
        bool)
        ensures
            b == may_act_as(store@, self.profile().id, base_actor@, permission),
    {
        base_actor.is_local_user(self) && self.has_permission(permission, store)
    }

    /// Asks for the capability to take an action on the instance as a
    /// whole, such as configuring it or banning a user. It is handed out
    /// exactly to a user who has the permission, and names that user and
    /// that action.
    fn can(&self, permission: PermissionName, store: &Store) -> (r: Result<
        Capability,
        PermissionError,
    >)
        ensures
            r is Ok <==> store@.has_permission(self.profile().id, permission),
            r matches Ok(capability) ==> capability.holder() == self.profile().id
                && capability.action() == permission,
    {
        if self.has_permission(permission, store) {
            Ok(Capability { user_id: self.id(), permission })
        } else {
            Err(PermissionError::Permission)
        }
    }

    /// Asks for the capability to take an action as an actor, such as
    /// answering the requests to follow that actor. It is handed out exactly
    /// to the local user behind the actor, if that user has the permission,
    /// and is bound to that actor and that action.
    fn can_as<'a>(
        &self,
        base_actor: &'a BaseActor,
        permission: PermissionName,
        store: &Store,
    ) -> (r: Result<ActorCapability<'a>, PermissionError>)
        ensures
            r is Ok <==> may_act_as(store@, self.profile().id, base_actor@, permission),
            r matches Ok(capability) ==> capability.actor() == base_actor@ && capability.action()
                == permission,
    {
        if self.may_act_as(base_actor, permission, store) {
            Ok(ActorCapability { actor: base_actor, permission })
        } else {
            Err(PermissionError::Permission)
        }
    }

    /// Asks for the capability to post as an actor. It is handed out
    /// exactly to the local user behind the actor, if that user has the
    /// `make-post` permission, and is bound to that actor.
    fn can_post<'a>(&self, base_actor: &'a BaseActor, store: &Store) -> (r: Result<
        PostMaker<'a>,
        PermissionError,
    >)
        ensures
            r is Ok <==> may_act_as(
                store@,
                self.profile().id,
                base_actor@,
                PermissionName::MakePost,
            ),
            r matches Ok(maker) ==> maker.actor() == base_actor@,
    {
        if self.may_act_as(base_actor, PermissionName::MakePost, store) {
            Ok(PostMaker::new(base_actor))
        } else {
            Err(PermissionError::Permission)
        }
    }

    /// Asks for the capability to post media as an actor. It is handed out
    /// exactly to the local user behind the actor, if that user has the
    /// `make-media-post` permission, and is bound to that actor.
    fn can_post_media<'a>(&self, base_actor: &'a BaseActor, store: &Store) -> (r: Result<
        MediaPostMaker<'a>,
        PermissionError,
    >)
        ensures
            r is Ok <==> may_act_as(
                store@,
                self.profile().id,
                base_actor@,
                PermissionName::MakeMediaPost,
            ),
            r matches Ok(maker) ==> maker.actor() == base_actor@,
    {
        if self.may_act_as(base_actor, PermissionName::MakeMediaPost, store) {
            Ok(MediaPostMaker::new(base_actor))
        } else {
            Err(PermissionError::Permission)
        }
    }

    /// Asks for the capability to comment as an actor. It is handed out
    /// exactly to the local user behind the actor, if that user has the
    /// `make-comment` permission, and is bound to that actor.
    fn can_post_comment<'a>(&self, base_actor: &'a BaseActor, store: &Store) -> (r: Result<
        CommentMaker<'a>,
        PermissionError,
    >)
        ensures
            r is Ok <==> may_act_as(
                store@,
                self.profile().id,
                base_actor@,
                PermissionName::MakeComment,
            ),
            r matches Ok(maker) ==> maker.actor() == base_actor@,
    {
        if self.may_act_as(base_actor, PermissionName::MakeComment, store) {
            Ok(CommentMaker::new(base_actor))
        } else {
            Err(PermissionError::Permission)
        }
    }

    /// Asks for the capability to grant roles. It is handed out exactly to
    /// a user who has the `grant-role` permission.
    fn can_grant_role(&self, store: &Store) -> (r: Result<RoleGranter, PermissionError>)
        ensures
            r is Ok <==> store@.has_permission(self.profile().id, PermissionName::GrantRole),
    {
        if self.has_permission(PermissionName::GrantRole, store) {
            Ok(RoleGranter::new())
        } else {
            Err(PermissionError::Permission)
        }
    }

    /// Asks for the capability to revoke roles. It is handed out exactly to
    /// a user who has the `revoke-role` permission.
    fn can_revoke_role(&self, store: &Store) -> (r: Result<RoleRevoker, PermissionError>)
        ensures
            r is Ok <==> store@.has_permission(self.profile().id, PermissionName::RevokeRole),
    {
        if self.has_permission(PermissionName::RevokeRole, store) {
            Ok(RoleRevoker::new())
        } else {
            Err(PermissionError::Permission)
        }
    }
}

/// Granting keeps the rules of the store.
pub proof fn lemma_grant_keeps_rules(s: StoreView, user_id: i32, role: RoleName, at: Timestamp)
    requires
        s.wf(),
    ensures
        after_grant(s, user_id, role, at).wf(),
{
    let after = after_grant(s, user_id, role, at);
    if after != s {
        lemma_has_role_is_grant(s, user_id, role);
        let role_id = s.id_of_role(role);
        let n = s.user_roles.len() as int;
        assert forall|i: int, j: int| 0 <= i < j < after.user_roles.len() implies !((
        #[trigger] after.user_roles[i]).user_id == (#[trigger] after.user_roles[j]).user_id
            && after.user_roles[i].role_id == after.user_roles[j].role_id) by {
            if j == n {
                assert(after.user_roles[i] == s.user_roles[i]);
                assert(!s.grants_at(i, user_id, role_id));
            } else {
                assert(after.user_roles[i] == s.user_roles[i]);
                assert(after.user_roles[j] == s.user_roles[j]);
            }
        }
        assert forall|i: int| 0 <= i < after.user_roles.len() implies (
        #[trigger] after.user_roles[i]).id <= after.last_user_role_id by {
            if i < n {
                assert(after.user_roles[i] == s.user_roles[i]);
            }
        }
    }
}

/// A grant that succeeds leaves the user holding the role, through exactly
/// one record of the table of grants.
pub proof fn lemma_granted_role_is_held_once(
    s: StoreView,
    user_id: i32,
    role: RoleName,
    at: Timestamp,
)
    requires
        s.wf(),
        grant_result(s, user_id, role) is Ok,
    ensures
        after_grant(s, user_id, role, at).has_role(user_id, role),
        after_grant(s, user_id, role, at).has_exactly_one_grant(
            user_id,
            after_grant(s, user_id, role, at).id_of_role(role),
        ),
{
    let after = after_grant(s, user_id, role, at);
    lemma_grant_keeps_rules(s, user_id, role, at);
    if !s.has_role_named(role) {
        lemma_unrecorded_role_is_not_held(s, user_id, role);
    }
    lemma_named_role_has_id(s, role);
    let role_id = s.id_of_role(role);
    assert(after.roles == s.roles);
    assert(after.role_is(role_id, role));
    lemma_id_of_role(after, role_id, role);
    if !s.has_role(user_id, role) {
        let n = s.user_roles.len() as int;
        assert(after.user_roles[n].user_id == user_id);
        assert(after.role_is(after.user_roles[n].role_id, role));
        assert(after.has_role(user_id, role));
    }
    lemma_has_role_is_grant(after, user_id, role);
    lemma_grant_is_single(after, user_id, role_id);
}

/// Granting is idempotent. Where a grant succeeds, the same grant made again
/// succeeds too and changes nothing: the user holds the role, and exactly one
/// record of the table of grants says so.
pub proof fn lemma_grant_is_idempotent(
    s: StoreView,
    user_id: i32,
    role: RoleName,
    first: Timestamp,
    second: Timestamp,
)
    requires
        s.wf(),
        grant_result(s, user_id, role) is Ok,
    ensures
        ({
            let once = after_grant(s, user_id, role, first);
            let twice = after_grant(once, user_id, role, second);
            &&& grant_result(once, user_id, role) is Ok
            &&& twice == once
            &&& twice.has_role(user_id, role)
            &&& twice.has_exactly_one_grant(user_id, twice.id_of_role(role))
        }),
{
    lemma_granted_role_is_held_once(s, user_id, role, first);
}

/// Revoking a role that the user does not hold succeeds and changes nothing.
pub proof fn lemma_revoke_of_absent_role_is_noop(s: StoreView, user_id: i32, role: RoleName)
    requires
        !s.has_role(user_id, role),
    ensures
        after_revoke(s, user_id, role) == s,
{
}

/// After a role has been revoked the user does not hold it, so that revoking
/// it again changes nothing.
pub proof fn lemma_revoke_is_idempotent(s: StoreView, user_id: i32, role: RoleName)
    requires
        s.wf(),
    ensures
        !after_revoke(s, user_id, role).has_role(user_id, role),
        after_revoke(after_revoke(s, user_id, role), user_id, role) == after_revoke(
            s,
            user_id,
            role,
        ),
{
    let after = after_revoke(s, user_id, role);
    if s.has_role(user_id, role) {
        if !s.has_role_named(role) {
            lemma_unrecorded_role_is_not_held(s, user_id, role);
        }
        let role_id = s.id_of_role(role);
        lemma_removed_grant_is_gone(s, user_id, role_id);
        assert(after.roles == s.roles);
        assert(after.has_role_named(role) == s.has_role_named(role));
        assert(after.roles_wf());
        lemma_named_role_has_id(s, role);
        assert(after.role_is(role_id, role));
        lemma_id_of_role(after, role_id, role);
        lemma_has_role_is_grant(after, user_id, role);
    }
}

/// Revoking a role from one user takes no role from another user.
pub proof fn lemma_revoke_leaves_other_users(
    s: StoreView,
    user_id: i32,
    role: RoleName,
    other_user: i32,
    other_role: RoleName,
)
    requires
        s.wf(),
        other_user != user_id,
    ensures
        after_revoke(s, user_id, role).has_role(other_user, other_role) == s.has_role(
            other_user,
            other_role,
        ),
{
    let after = after_revoke(s, user_id, role);
    if after != s {
        assert(after.roles == s.roles);
        assert(after.roles_wf());
        if s.has_role_named(other_role) {
            lemma_named_role_has_id(s, other_role);
            let other_id = s.id_of_role(other_role);
            assert(after.role_is(other_id, other_role));
            lemma_id_of_role(after, other_id, other_role);
            lemma_has_role_is_grant(s, other_user, other_role);
            lemma_has_role_is_grant(after, other_user, other_role);
            lemma_other_grants_stay(s, user_id, s.id_of_role(role), other_user, other_id);
        } else {
            assert(!after.has_role_named(other_role));
            lemma_unrecorded_role_is_not_held(s, other_user, other_role);
            lemma_unrecorded_role_is_not_held(after, other_user, other_role);
        }
    }
}

} // verus!
