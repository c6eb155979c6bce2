//! The entity model: plain data definitions for every cached kind and their
//! identifiers.
//!
//! Each kind stores the fields the projection rules read, as plain values; a
//! kind with a parent relation also exposes that parent's identifier, which
//! drives cascading deletes. The model holds no reference to storage.

use vstd::prelude::*;
use crate::repo::{Child, Entity};

verus! {

/// A composite identifier: an entity keyed within its guild (a member, a
/// presence, a voice state, an emoji).
#[derive(Debug, Clone, Copy, PartialEq, Eq, Structural, Hash)]
pub struct PairId {
    pub guild_id: u64,
    pub id: u64,
}

/// A cached user, keyed globally by user id.
#[derive(Debug, Clone, Copy, PartialEq, Eq)]
pub struct UserEntity {
    pub id: u64,
    pub bot: bool,
    pub discriminator: u16,
    pub public_flags: Option<u64>,
}

impl Entity for UserEntity {
    type Id = u64;

    open spec fn eid(self) -> u64 {
        self.id
    }

    fn id(self) -> u64 {
        self.id
    }

    fn id_eq(a: u64, b: u64) -> bool {
        a == b
    }
}

/// The user the connection itself runs as.
#[derive(Debug, Clone, Copy, PartialEq, Eq)]
pub struct CurrentUserEntity {
    pub id: u64,
    pub bot: bool,
}

impl Entity for CurrentUserEntity {
    type Id = u64;

    open spec fn eid(self) -> u64 {
        self.id
    }

    fn id(self) -> u64 {
        self.id
    }

    fn id_eq(a: u64, b: u64) -> bool {
        a == b
    }
}

/// A cached guild: the root of its children's parent relations.
#[derive(Debug, Clone, Copy, PartialEq, Eq)]
pub struct GuildEntity {
    pub id: u64,
    pub owner_id: u64,
    pub afk_channel_id: Option<u64>,
    pub afk_timeout: u64,
    pub member_count: Option<u64>,
    pub unavailable: bool,
}

impl Entity for GuildEntity {
    type Id = u64;

    open spec fn eid(self) -> u64 {
        self.id
    }

    fn id(self) -> u64 {
        self.id
    }

    fn id_eq(a: u64, b: u64) -> bool {
        a == b
    }
}

/// A category channel within a guild.
#[derive(Debug, Clone, Copy, PartialEq, Eq)]
pub struct CategoryChannelEntity {
    pub id: u64,
    pub guild_id: u64,
    pub position: i64,
}

impl Entity for CategoryChannelEntity {
    type Id = u64;

    open spec fn eid(self) -> u64 {
        self.id
    }

    fn id(self) -> u64 {
        self.id
    }

    fn id_eq(a: u64, b: u64) -> bool {
        a == b
    }
}

impl Child for CategoryChannelEntity {
    open spec fn parent_of(self) -> u64 {
        self.guild_id
    }

    fn parent(self) -> u64 {
        self.guild_id
    }
}

/// A text channel within a guild; tracks the latest message and pin change.
#[derive(Debug, Clone, Copy, PartialEq, Eq)]
pub struct TextChannelEntity {
    pub id: u64,
    pub guild_id: u64,
    pub position: i64,
    pub nsfw: bool,
    pub last_message_id: Option<u64>,
    pub last_pin_timestamp: Option<u64>,
}

impl Entity for TextChannelEntity {
    type Id = u64;

    open spec fn eid(self) -> u64 {
        self.id
    }

    fn id(self) -> u64 {
        self.id
    }

    fn id_eq(a: u64, b: u64) -> bool {
        a == b
    }
}

impl Child for TextChannelEntity {
    open spec fn parent_of(self) -> u64 {
        self.guild_id
    }

    fn parent(self) -> u64 {
        self.guild_id
    }
}

/// A voice or stage channel within a guild; the two kinds share one shape
/// and are cached in separate repositories.
#[derive(Debug, Clone, Copy, PartialEq, Eq)]
pub struct VoiceChannelEntity {
    pub id: u64,
    pub guild_id: u64,
    pub position: i64,
    pub bitrate: u64,
    pub user_limit: Option<u64>,
}

impl Entity for VoiceChannelEntity {
    type Id = u64;

    open spec fn eid(self) -> u64 {
        self.id
    }

    fn id(self) -> u64 {
        self.id
    }

    fn id_eq(a: u64, b: u64) -> bool {
        a == b
    }
}

impl Child for VoiceChannelEntity {
    open spec fn parent_of(self) -> u64 {
        self.guild_id
    }

    fn parent(self) -> u64 {
        self.guild_id
    }
}

/// A group direct-message channel; references its participants by user id
/// through the user repository, not by embedding them.
#[derive(Debug, Clone, Copy, PartialEq, Eq)]
pub struct GroupEntity {
    pub id: u64,
    pub owner_id: u64,
    pub application_id: Option<u64>,
    pub last_message_id: Option<u64>,
    pub last_pin_timestamp: Option<u64>,
}

impl Entity for GroupEntity {
    type Id = u64;

    open spec fn eid(self) -> u64 {
        self.id
    }

    fn id(self) -> u64 {
        self.id
    }

    fn id_eq(a: u64, b: u64) -> bool {
        a == b
    }
}

/// A one-to-one direct-message channel.
#[derive(Debug, Clone, Copy, PartialEq, Eq)]
pub struct PrivateChannelEntity {
    pub id: u64,
    pub last_message_id: Option<u64>,
    pub last_pin_timestamp: Option<u64>,
}

impl Entity for PrivateChannelEntity {
    type Id = u64;

    open spec fn eid(self) -> u64 {
        self.id
    }

    fn id(self) -> u64 {
        self.id
    }

    fn id_eq(a: u64, b: u64) -> bool {
        a == b
    }
}

/// A guild member, keyed by (guild id, user id).
#[derive(Debug, Clone, Copy, PartialEq, Eq)]
pub struct MemberEntity {
    pub guild_id: u64,
    pub user_id: u64,
    pub deaf: bool,
    pub mute: bool,
    pub pending: bool,
    pub premium_since: Option<u64>,
    pub joined_at: Option<u64>,
}

impl Entity for MemberEntity {
    type Id = PairId;

    open spec fn eid(self) -> PairId {
        PairId { guild_id: self.guild_id, id: self.user_id }
    }

    fn id(self) -> PairId {
        PairId { guild_id: self.guild_id, id: self.user_id }
    }

    fn id_eq(a: PairId, b: PairId) -> bool {
        a == b
    }
}

impl Child for MemberEntity {
    open spec fn parent_of(self) -> u64 {
        self.guild_id
    }

    fn parent(self) -> u64 {
        self.guild_id
    }
}

/// A guild role.
#[derive(Debug, Clone, Copy, PartialEq, Eq)]
pub struct RoleEntity {
    pub id: u64,
    pub guild_id: u64,
    pub color: u32,
    pub position: i64,
    pub permissions: u64,
    pub hoist: bool,
    pub mentionable: bool,
}

impl Entity for RoleEntity {
    type Id = u64;

    open spec fn eid(self) -> u64 {
        self.id
    }

    fn id(self) -> u64 {
        self.id
    }

    fn id_eq(a: u64, b: u64) -> bool {
        a == b
    }
}

impl Child for RoleEntity {
    open spec fn parent_of(self) -> u64 {
        self.guild_id
    }

    fn parent(self) -> u64 {
        self.guild_id
    }
}

/// A guild emoji, keyed by (guild id, emoji id).
#[derive(Debug, Clone, Copy, PartialEq, Eq)]
pub struct EmojiEntity {
    pub id: u64,
    pub guild_id: u64,
    pub animated: bool,
    pub available: bool,
}

impl Entity for EmojiEntity {
    type Id = PairId;

    open spec fn eid(self) -> PairId {
        PairId { guild_id: self.guild_id, id: self.id }
    }

    fn id(self) -> PairId {
        PairId { guild_id: self.guild_id, id: self.id }
    }

    fn id_eq(a: PairId, b: PairId) -> bool {
        a == b
    }
}

impl Child for EmojiEntity {
    open spec fn parent_of(self) -> u64 {
        self.guild_id
    }

    fn parent(self) -> u64 {
        self.guild_id
    }
}

/// A user's presence within a guild.
#[derive(Debug, Clone, Copy, PartialEq, Eq)]
pub enum Status {
    Online,
    Idle,
    DoNotDisturb,
    Invisible,
    Offline,
}

#[derive(Debug, Clone, Copy, PartialEq, Eq)]
pub struct PresenceEntity {
    pub guild_id: u64,
    pub user_id: u64,
    pub status: Status,
}

impl Entity for PresenceEntity {
    type Id = PairId;

    open spec fn eid(self) -> PairId {
        PairId { guild_id: self.guild_id, id: self.user_id }
    }

    fn id(self) -> PairId {
        PairId { guild_id: self.guild_id, id: self.user_id }
    }

    fn id_eq(a: PairId, b: PairId) -> bool {
        a == b
    }
}

impl Child for PresenceEntity {
    open spec fn parent_of(self) -> u64 {
        self.guild_id
    }

    fn parent(self) -> u64 {
        self.guild_id
    }
}

/// A user's voice state within a guild.
#[derive(Debug, Clone, Copy, PartialEq, Eq)]
pub struct VoiceStateEntity {
    pub guild_id: u64,
    pub user_id: u64,
    pub channel_id: Option<u64>,
    pub deaf: bool,
    pub mute: bool,
}

impl Entity for VoiceStateEntity {
    type Id = PairId;

    open spec fn eid(self) -> PairId {
        PairId { guild_id: self.guild_id, id: self.user_id }
    }

    fn id(self) -> PairId {
        PairId { guild_id: self.guild_id, id: self.user_id }
    }

    fn id_eq(a: PairId, b: PairId) -> bool {
        a == b
    }
}

impl Child for VoiceStateEntity {
    open spec fn parent_of(self) -> u64 {
        self.guild_id
    }

    fn parent(self) -> u64 {
        self.guild_id
    }
}

/// A cached message, keyed by message id; its channel is its parent.
#[derive(Debug, Clone, Copy, PartialEq, Eq)]
pub struct MessageEntity {
    pub id: u64,
    pub channel_id: u64,
    pub author_id: u64,
    pub timestamp: u64,
    pub pinned: bool,
}

impl Entity for MessageEntity {
    type Id = u64;

    open spec fn eid(self) -> u64 {
        self.id
    }

    fn id(self) -> u64 {
        self.id
    }

    fn id_eq(a: u64, b: u64) -> bool {
        a == b
    }
}

/// A message attachment; its message is its parent, so deleting the message
/// cascades over its attachments.
#[derive(Debug, Clone, Copy, PartialEq, Eq)]
pub struct AttachmentEntity {
    pub id: u64,
    pub message_id: u64,
    pub size: u64,
}

impl Entity for AttachmentEntity {
    type Id = u64;

    open spec fn eid(self) -> u64 {
        self.id
    }

    fn id(self) -> u64 {
        self.id
    }

    fn id_eq(a: u64, b: u64) -> bool {
        a == b
    }
}

impl Child for AttachmentEntity {
    open spec fn parent_of(self) -> u64 {
        self.message_id
    }

    fn parent(self) -> u64 {
        self.message_id
    }
}

} // verus!
