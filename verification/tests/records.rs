use aardwolf_models::base_actor::follower::{Follower, NewFollower};
use aardwolf_models::base_actor::group::{Group, NewGroup};
use aardwolf_models::base_actor::group_actor::{GroupActor, NewGroupActor};
use aardwolf_models::base_actor::persona::{NewPersona, Persona, Visibility, VisibilityParseError};
use aardwolf_models::base_actor::{BaseActor, NewBaseActor};
use aardwolf_models::base_post::direct_post::{DirectPost, NewDirectPost};
use aardwolf_models::base_post::post::comment::{Comment, NewComment};
use aardwolf_models::base_post::post::media_post::{MediaPost, NewMediaPost};
use aardwolf_models::base_post::post::{NewPost, Post};
use aardwolf_models::base_post::reaction::{
    NewReaction, Reaction, ReactionType, ReactionTypeParseError,
};
use aardwolf_models::base_post::{BasePost, NewBasePost};
use aardwolf_models::file::image::{Image, NewImage};
use aardwolf_models::file::{File, FileCreationError, Newfile};
use aardwolf_models::link::{Lang, LangParseError, Link, NewLink};
use aardwolf_models::sql_types::url::UrlParseError;
use aardwolf_models::sql_types::{
    Permission as PermissionName, PostVisibility, Role as RoleName, Url,
};
use aardwolf_models::text::same_text;
use aardwolf_models::timer::{NewTimer, Timer};
use aardwolf_models::timestamp::Timestamp;
use aardwolf_models::user::QueriedUser;

fn url(text: &str) -> Url {
    Url::parse(text).ok().unwrap()
}

fn actor(id: i32, local_user: Option<i32>) -> BaseActor {
    BaseActor::new(
        id,
        "Actor".to_owned(),
        url("https://example.com/actor"),
        url("https://example.com/inbox"),
        url("https://example.com/outbox"),
        local_user,
        serde_json::Value::Null,
    )
}

fn base_post(id: i32, posted_by: i32) -> BasePost {
    BasePost::new(
        id,
        Some("Title".to_owned()),
        "text/plain".to_owned(),
        posted_by,
        None,
        PostVisibility::Public,
        serde_json::Value::Bool(true),
    )
}

#[test]
fn timestamps_are_ordered_by_seconds_then_nanoseconds() {
    let early = Timestamp::new(5, 900);
    let late = Timestamp::new(6, 0);
    let later = Timestamp::new(6, 1);
    assert!(early.is_before(&late));
    assert!(late.is_before(&later));
    assert!(!late.is_before(&early));
    assert!(!late.is_before(&late));
    assert!(Timestamp::new(-1, 0).is_before(&Timestamp::new(0, 0)));
    assert_eq!(early.seconds(), 5);
    assert_eq!(early.nanoseconds(), 900);
}

#[test]
fn texts_are_compared_character_for_character() {
    assert!(same_text("", ""));
    assert!(same_text("grüße", "grüße"));
    assert!(!same_text("a", "b"));
    assert!(!same_text("a", "ab"));
    assert!(!same_text("ab", "a"));
    assert!(!same_text("A", "a"));
}

#[test]
fn url_is_kept_in_normal_form() {
    assert_eq!(url("https://example.net").as_str(), "https://example.net/");
    assert_eq!(
        url("HTTPS://Example.NET/a/../b").as_str(),
        "https://example.net/b"
    );
    assert_eq!(
        url("https://example.net/").into_string(),
        "https://example.net/"
    );
    assert_eq!(url("https://example.net").duplicate().as_str(), "https://example.net/");
}

#[test]
fn text_that_is_no_absolute_url_is_rejected() {
    assert!(matches!(Url::parse("not a url"), Err(UrlParseError)));
    assert!(matches!(Url::parse("/relative/path"), Err(UrlParseError)));
    assert!(matches!(Url::parse(""), Err(UrlParseError)));
    assert!(matches!(Url::from_parsed(None), Err(UrlParseError)));
    assert_eq!(UrlParseError.message(), "Failed to parse Url");
}

#[test]
fn stored_url_is_taken_as_it_is() {
    assert_eq!(Url::from_stored("anything".to_owned()).as_str(), "anything");
    assert_eq!(
        Url::from_parsed(Some("https://example.net/".to_owned()))
            .ok()
            .unwrap()
            .as_str(),
        "https://example.net/"
    );
}

#[test]
fn roles_have_their_texts() {
    assert_eq!(RoleName::Verified.as_str(), "verified");
    assert_eq!(RoleName::Moderator.as_str(), "moderator");
    assert_eq!(RoleName::Admin.as_str(), "admin");
    for role in [RoleName::Verified, RoleName::Moderator, RoleName::Admin] {
        assert_eq!(RoleName::parse(role.as_str()), Ok(role));
    }
    assert!(RoleName::parse("Admin").is_err());
    assert!(RoleName::parse("").is_err());
    assert_eq!("moderator".parse::<RoleName>(), Ok(RoleName::Moderator));
    assert!("Moderator".parse::<RoleName>().is_err());
}

#[test]
fn permissions_have_their_texts() {
    let all = [
        (PermissionName::MakePost, "make-post"),
        (PermissionName::MakeMediaPost, "make-media-post"),
        (PermissionName::MakeComment, "make-comment"),
        (PermissionName::FollowUser, "follow-user"),
        (PermissionName::MakePersona, "make-persona"),
        (PermissionName::SwitchPersona, "switch-persona"),
        (PermissionName::DeletePersona, "delete-persona"),
        (PermissionName::ManageFollowRequest, "manage-follow-request"),
        (PermissionName::ConfigureInstance, "configure-instance"),
        (PermissionName::BanUser, "ban-user"),
        (PermissionName::BlockInstance, "block-instance"),
        (PermissionName::GrantRole, "grant-role"),
        (PermissionName::RevokeRole, "revoke-role"),
    ];
    for (permission, text) in all {
        assert_eq!(permission.as_str(), text);
        assert_eq!(PermissionName::parse(text), Ok(permission));
    }
    assert_eq!(
        "grant-role".parse::<PermissionName>(),
        Ok(PermissionName::GrantRole)
    );
    assert!("grant role".parse::<PermissionName>().is_err());
    assert!(PermissionName::parse("make_post").is_err());
}

#[test]
fn visibility_has_its_texts() {
    let all = [
        (Visibility::Public, "PUB"),
        (Visibility::FollowersOnly, "FL"),
        (Visibility::FriendsOnly, "MUT"),
        (Visibility::ListedPeopleOnly, "LIST"),
    ];
    for (visibility, text) in all {
        assert_eq!(visibility.as_str(), text);
        assert_eq!(Visibility::parse(text), Ok(visibility));
        assert_eq!(text.parse::<Visibility>(), Ok(visibility));
    }
    assert_eq!("list".parse::<Visibility>(), Err(VisibilityParseError));
    assert_eq!(Visibility::parse("pub"), Err(VisibilityParseError));
    assert_eq!(VisibilityParseError.message(), "Failed to parse Visibility");
}

#[test]
fn languages_have_their_texts() {
    let all = [(Lang::EnUs, "EnUs"), (Lang::EnUk, "EnUk"), (Lang::EnAu, "EnAu")];
    for (lang, text) in all {
        assert_eq!(lang.as_str(), text);
        assert_eq!(Lang::parse(text), Ok(lang));
    }
    assert_eq!("EnAu".parse::<Lang>(), Ok(Lang::EnAu));
    assert_eq!("enau".parse::<Lang>(), Err(LangParseError));
    assert_eq!(Lang::parse("EnNz"), Err(LangParseError));
    assert_eq!(LangParseError.message(), "Failed to parse Lang");
}

#[test]
fn reaction_types_have_their_texts() {
    let all = [
        (ReactionType::Like, "LIKE"),
        (ReactionType::Dislike, "DISLIKE"),
        (ReactionType::Seen, "SEEN"),
    ];
    for (reaction, text) in all {
        assert_eq!(reaction.as_str(), text);
        assert_eq!(ReactionType::parse(text), Ok(reaction));
    }
    assert_eq!("DISLIKE".parse::<ReactionType>(), Ok(ReactionType::Dislike));
    assert_eq!("".parse::<ReactionType>(), Err(ReactionTypeParseError));
    assert_eq!(ReactionType::parse("LOVE"), Err(ReactionTypeParseError));
    assert_eq!(
        ReactionTypeParseError.message(),
        "Error parsing ReactionType"
    );
}

#[test]
fn base_actor_keeps_its_values() {
    let actor = actor(3, Some(9));
    assert_eq!(actor.id(), 3);
    assert_eq!(actor.display_name(), "Actor");
    assert_eq!(actor.profile_url().as_str(), "https://example.com/actor");
    assert_eq!(actor.inbox_url().as_str(), "https://example.com/inbox");
    assert_eq!(actor.outbox_url().as_str(), "https://example.com/outbox");
    assert_eq!(actor.local_user(), Some(9));
    assert_eq!(*actor.original_json(), serde_json::Value::Null);
    assert!(actor.is_local_user(&QueriedUser::new(9, Timestamp::new(0, 0), None)));
    assert!(!actor.is_local_user(&QueriedUser::new(8, Timestamp::new(0, 0), None)));
    assert!(!self::actor(3, None).is_local_user(&QueriedUser::new(9, Timestamp::new(0, 0), None)));
}

#[test]
fn modified_actor_changes_what_is_set_and_nothing_else() {
    let mut changes = actor(3, Some(9)).modify();
    changes.set_display_name("Renamed".to_owned());
    changes.set_inbox_url(url("https://example.org/in"));
    assert_eq!(changes.id(), 3);
    assert_eq!(changes.display_name(), "Renamed");
    assert_eq!(changes.profile_url().as_str(), "https://example.com/actor");
    assert_eq!(changes.inbox_url().as_str(), "https://example.org/in");
    assert_eq!(changes.outbox_url().as_str(), "https://example.com/outbox");
    changes.set_profile_url(url("https://example.org/me"));
    changes.set_outbox_url(url("https://example.org/out"));
    let actor = changes.into_base_actor(Some(9));
    assert_eq!(actor.profile_url().as_str(), "https://example.org/me");
    assert_eq!(actor.outbox_url().as_str(), "https://example.org/out");
    assert_eq!(actor.display_name(), "Renamed");
    assert_eq!(actor.local_user(), Some(9));
}

#[test]
fn new_actor_takes_the_id_of_its_local_user() {
    let user = QueriedUser::new(9, Timestamp::new(0, 0), None);
    let new = NewBaseActor::new(
        "Actor".to_owned(),
        url("https://example.com/actor"),
        url("https://example.com/inbox"),
        Some(&user),
        serde_json::Value::Null,
    );
    assert_eq!(new.local_user(), Some(9));
    assert_eq!(new.display_name(), "Actor");
    assert_eq!(new.inbox_url().as_str(), "https://example.com/inbox");
    let remote = NewBaseActor::new(
        "Remote".to_owned(),
        url("https://example.com/actor"),
        url("https://example.com/inbox"),
        None::<&QueriedUser>,
        serde_json::Value::Null,
    );
    assert_eq!(remote.local_user(), None);
}

#[test]
fn groups_and_followers_take_the_ids_of_their_actors() {
    let first = actor(3, None);
    let second = actor(4, None);
    assert_eq!(NewGroup::new(&first).base_actor_id(), 3);
    let group = Group::new(12, 3);
    assert_eq!(group.id(), 12);
    assert_eq!(group.base_actor_id(), 3);
    let member = NewGroupActor::new(&group, &second);
    assert_eq!(member.group_id(), 12);
    assert_eq!(member.base_actor_id(), 4);
    let stored = GroupActor::new(1, 12, 4);
    assert_eq!((stored.id(), stored.group_id(), stored.base_actor_id()), (1, 12, 4));
    let following = NewFollower::new(&first, &second);
    assert_eq!(following.follower(), 3);
    assert_eq!(following.follows(), 4);
    let stored = Follower::new(2, 3, 4);
    assert_eq!((stored.id(), stored.follower(), stored.follows()), (2, 3, 4));
}

#[test]
fn persona_takes_the_ids_of_its_image_and_actor() {
    let image = Image::new(21, 640, 480, 5);
    let new = NewPersona::new(
        Visibility::FollowersOnly,
        true,
        Some(&image),
        "short".to_owned(),
        &actor(3, None),
    );
    assert_eq!(new.default_visibility(), Visibility::FollowersOnly);
    assert!(new.is_searchable());
    assert_eq!(new.avatar(), Some(21));
    assert_eq!(new.shortname(), "short");
    assert_eq!(new.base_actor(), 3);
    let plain = NewPersona::new(Visibility::Public, false, None, "p".to_owned(), &actor(3, None));
    assert_eq!(plain.avatar(), None);
    let stored = Persona::new(1, Visibility::FriendsOnly, false, None, "s".to_owned(), 3);
    assert_eq!(stored.id(), 1);
    assert_eq!(stored.default_visibility(), Visibility::FriendsOnly);
    assert!(!stored.is_searchable());
    assert_eq!(stored.avatar(), None);
    assert_eq!(stored.shortname(), "s");
    assert_eq!(stored.base_actor(), 3);
    assert_eq!(stored.duplicate().shortname(), "s");
}

#[test]
fn file_that_is_missing_is_not_recorded() {
    assert!(matches!(
        Newfile::new(Some("/tmp/a.png"), false),
        Err(FileCreationError::Missing)
    ));
    assert!(matches!(
        Newfile::new(None, false),
        Err(FileCreationError::Missing)
    ));
    assert_eq!(FileCreationError::Missing.message(), "File is missing");
}

#[test]
fn file_whose_path_is_no_text_is_not_recorded() {
    assert!(matches!(
        Newfile::new(None, true),
        Err(FileCreationError::Utf8)
    ));
    assert_eq!(
        FileCreationError::Utf8.message(),
        "File path contains invalid utf8"
    );
}

#[test]
fn file_that_is_there_is_recorded_under_its_path() {
    let new = Newfile::new(Some("/tmp/a.png"), true).ok().unwrap();
    assert_eq!(new.file_path(), "/tmp/a.png");
    let file = File::new(5, "/tmp/a.png".to_owned());
    assert_eq!(file.id(), 5);
    assert_eq!(file.path(), "/tmp/a.png");
    let image = NewImage::new(640, 480, &file);
    assert_eq!((image.width(), image.height(), image.file_id()), (640, 480, 5));
}

#[test]
fn base_post_takes_the_ids_of_its_actor_and_image() {
    let image = Image::new(21, 640, 480, 5);
    let new = NewBasePost::new(
        None,
        "text/html".to_owned(),
        &actor(3, None),
        Some(&image),
        PostVisibility::ListedPeopleOnly,
        serde_json::Value::Null,
    );
    assert_eq!(new.name(), None);
    assert_eq!(new.media_type(), "text/html");
    assert_eq!(new.posted_by(), 3);
    assert_eq!(new.icon(), Some(21));
    assert_eq!(new.visibility(), PostVisibility::ListedPeopleOnly);
    let stored = base_post(8, 3);
    assert_eq!(stored.id(), 8);
    assert_eq!(stored.name(), Some("Title"));
    assert_eq!(stored.posted_by(), 3);
    assert_eq!(stored.icon(), None);
    assert_eq!(*stored.original_json(), serde_json::Value::Bool(true));
}

#[test]
fn post_is_viewable_by_the_actors_it_was_handed_to() {
    let post = base_post(8, 3);
    let reader = actor(4, None);
    let stranger = actor(5, None);
    let direct = vec![
        DirectPost::new(1, 7, 4),
        DirectPost::new(2, 8, 6),
        DirectPost::new(3, 8, 4),
    ];
    assert!(post.is_viewable_by(&reader, &direct));
    assert!(!post.is_viewable_by(&stranger, &direct));
    assert!(!post.is_viewable_by(&reader, &Vec::new()));
    assert!(!post.is_viewable_by(&reader, &vec![DirectPost::new(1, 7, 4)]));
    let handed = NewDirectPost::new(&post, &reader);
    assert_eq!((handed.base_post_id(), handed.base_actor_id()), (8, 4));
}

#[test]
fn posts_comments_and_reactions_take_the_ids_they_refer_to() {
    let stored = base_post(8, 3);
    let new = NewPost::new("shown".to_owned(), Some("written".to_owned()), &stored);
    assert_eq!(new.content(), "shown");
    assert_eq!(new.source(), Some("written"));
    assert_eq!(new.base_post(), 8);

    let conversation = Post::new(30, "first".to_owned(), None, 6);
    let parent = Post::new(31, "second".to_owned(), None, 7);
    let post = Post::new(32, "third".to_owned(), Some("3rd".to_owned()), 8);
    assert_eq!(post.source(), Some("3rd"));
    assert_eq!(post.duplicate().content(), "third");
    let comment = NewComment::new(&conversation, &parent, &post);
    assert_eq!(
        (comment.conversation(), comment.parent(), comment.post()),
        (30, 31, 32)
    );
    let stored = Comment::new(40, 30, 31, 32);
    assert_eq!(stored.id(), 40);
    let reaction = NewReaction::new(ReactionType::Seen, &stored);
    assert_eq!(reaction.reaction_type(), ReactionType::Seen);
    assert_eq!(reaction.comment_id(), 40);
    let stored = Reaction::new(1, ReactionType::Like, 40);
    assert_eq!(stored.id(), 1);
    assert_eq!(stored.reaction_type(), ReactionType::Like);
    assert_eq!(stored.comment_id(), 40);

    let media = NewMediaPost::new(&File::new(5, "/tmp/a.png".to_owned()), &post);
    assert_eq!((media.file_id(), media.post_id()), (5, 32));
    let stored = MediaPost::new(2, 5, 32);
    assert_eq!((stored.id(), stored.file_id(), stored.post_id()), (2, 5, 32));
}

#[test]
fn link_sizes_are_stored_with_the_same_bits() {
    assert_eq!(NewLink::size_to_store(0), 0);
    assert_eq!(NewLink::size_to_store(640), 640);
    assert_eq!(NewLink::size_to_store(i32::MAX as u32), i32::MAX);
    assert_eq!(NewLink::size_to_store(i32::MAX as u32 + 1), i32::MIN);
    assert_eq!(NewLink::size_to_store(u32::MAX), -1);
    assert_eq!(NewLink::size_to_store(3_000_000_000), 3_000_000_000u32 as i32);
}

#[test]
fn link_takes_the_text_of_its_address_and_the_id_of_its_post() {
    let new = NewLink::new(
        url("https://example.net"),
        Lang::EnUk,
        480,
        u32::MAX,
        "preview".to_owned(),
        &base_post(8, 3),
    );
    assert_eq!(new.href(), "https://example.net/");
    assert_eq!(new.href_lang(), Lang::EnUk);
    assert_eq!(new.height(), 480);
    assert_eq!(new.width(), -1);
    assert_eq!(new.preview(), "preview");
    assert_eq!(new.base_post(), 8);
    let stored = Link::new(
        1,
        url("https://example.net"),
        Lang::EnAu,
        480,
        640,
        "preview".to_owned(),
        8,
    );
    assert_eq!(stored.id(), 1);
    assert_eq!(stored.href().as_str(), "https://example.net/");
    assert_eq!(stored.href_lang(), Lang::EnAu);
    assert_eq!((stored.height(), stored.width()), (480, 640));
    assert_eq!(stored.preview(), "preview");
    assert_eq!(stored.base_post(), 8);
}

#[test]
fn timer_keeps_its_time() {
    let new = NewTimer::new(Timestamp::new(77, 5));
    assert_eq!(new.fire_time(), Timestamp::new(77, 5));
    let stored = Timer::new(3, Timestamp::new(78, 0));
    assert_eq!(stored.id(), 3);
    assert_eq!(stored.fire_time(), Timestamp::new(78, 0));
}
