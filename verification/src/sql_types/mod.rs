//! The values that records keep as text.

pub mod lang;
pub mod permission;
pub mod post_visibility;
pub mod reaction_type;
pub mod role;
pub mod url;

pub use self::lang::Lang;
pub use self::permission::Permission;
pub use self::post_visibility::Visibility as PostVisibility;
pub use self::reaction_type::ReactionType;
pub use self::role::Role;
pub use self::url::Url;
