//! The change events the projector consumes, their payloads, and the
//! conversions from payload to stored entity.
//!
//! Every event arrives already deserialized. A payload carries exactly what
//! the wire form of the event carries: where the wire form lacks the parent
//! identifier (a snapshot's emoji, role or voice state), the conversion takes
//! it as an argument; where a partial update arrives, a merge rule copies
//! every field from the stored value except the listed changed ones.

use vstd::prelude::*;
use crate::entity::{
    AttachmentEntity, CategoryChannelEntity, EmojiEntity, GroupEntity, GuildEntity, MemberEntity,
    MessageEntity, PresenceEntity, PrivateChannelEntity, RoleEntity, TextChannelEntity,
    UserEntity, VoiceChannelEntity, VoiceStateEntity,
};

verus! {

/// A guild channel as a channel event or a guild snapshot carries it.
#[derive(Debug, Clone, Copy, PartialEq, Eq)]
pub enum GuildChannelPayload {
    Category(CategoryChannelEntity),
    Text(TextChannelEntity),
    Stage(VoiceChannelEntity),
    Voice(VoiceChannelEntity),
}

/// A group channel with the participants the wire form embeds.
#[derive(Debug, Clone, PartialEq, Eq)]
pub struct GroupPayload {
    pub channel: GroupEntity,
    pub recipients: Vec<UserEntity>,
}

/// A private channel with the participants the wire form embeds.
#[derive(Debug, Clone, PartialEq, Eq)]
pub struct PrivateChannelPayload {
    pub channel: PrivateChannelEntity,
    pub recipients: Vec<UserEntity>,
}

/// Any channel, as a channel create/update/delete event carries it.
#[derive(Debug, Clone, PartialEq, Eq)]
pub enum ChannelPayload {
    Group(GroupPayload),
    Guild(GuildChannelPayload),
    Private(PrivateChannelPayload),
}

/// A member with the user record the wire form embeds.
#[derive(Debug, Clone, Copy, PartialEq, Eq)]
pub struct MemberPayload {
    pub guild_id: u64,
    pub user: UserEntity,
    pub deaf: bool,
    pub mute: bool,
    pub pending: bool,
    pub premium_since: Option<u64>,
    pub joined_at: Option<u64>,
}

/// A snapshot's emoji; the guild id comes from the snapshot, not the wire.
#[derive(Debug, Clone, Copy, PartialEq, Eq)]
pub struct EmojiPayload {
    pub id: u64,
    pub animated: bool,
    pub available: bool,
}

/// A snapshot's role; the guild id comes from the snapshot, not the wire.
#[derive(Debug, Clone, Copy, PartialEq, Eq)]
pub struct RolePayload {
    pub id: u64,
    pub color: u32,
    pub position: i64,
    pub permissions: u64,
    pub hoist: bool,
    pub mentionable: bool,
}

/// A snapshot's voice state; the guild id comes from the snapshot.
#[derive(Debug, Clone, Copy, PartialEq, Eq)]
pub struct VoiceStatePayload {
    pub user_id: u64,
    pub channel_id: Option<u64>,
    pub deaf: bool,
    pub mute: bool,
}

/// An attachment as a message-create event carries it; the message id comes
/// from the surrounding message.
#[derive(Debug, Clone, Copy, PartialEq, Eq)]
pub struct AttachmentPayload {
    pub id: u64,
    pub size: u64,
}

/// A created message with its attachments.
#[derive(Debug, Clone, PartialEq, Eq)]
pub struct MessagePayload {
    pub id: u64,
    pub channel_id: u64,
    pub author_id: u64,
    pub timestamp: u64,
    pub pinned: bool,
    pub attachments: Vec<AttachmentPayload>,
}

/// A full guild snapshot: the guild record and every child the snapshot
/// subsumes.
#[derive(Debug, Clone, PartialEq, Eq)]
pub struct GuildSnapshot {
    pub guild: GuildEntity,
    pub channels: Vec<GuildChannelPayload>,
    pub emojis: Vec<EmojiPayload>,
    pub members: Vec<MemberPayload>,
    pub presences: Vec<PresenceEntity>,
    pub roles: Vec<RolePayload>,
    pub voice_states: Vec<VoiceStatePayload>,
}

/// The partial fields a guild-update event may change.
#[derive(Debug, Clone, Copy, PartialEq, Eq)]
pub struct GuildUpdatePayload {
    pub id: u64,
    pub owner_id: u64,
    pub afk_channel_id: Option<u64>,
    pub afk_timeout: u64,
}

/// The partial fields a member-update event may change, with the refreshed
/// user record the event embeds.
#[derive(Debug, Clone, Copy, PartialEq, Eq)]
pub struct MemberUpdatePayload {
    pub guild_id: u64,
    pub user: UserEntity,
    pub pending: bool,
    pub premium_since: Option<u64>,
}

/// One discrete change event: the closed set of variants the projector maps
/// to repository calls. Variants with no cache effect are explicit, so that
/// no unrecognized input ever reaches an unreachable arm.
#[derive(Debug, Clone, PartialEq, Eq)]
pub enum Event {
    BanAdd { guild_id: u64, user_id: u64 },
    BanRemove { guild_id: u64, user_id: u64 },
    ChannelCreate(ChannelPayload),
    ChannelDelete(ChannelPayload),
    ChannelPinsUpdate { channel_id: u64, last_pin_timestamp: Option<u64> },
    ChannelUpdate(ChannelPayload),
    GuildCreate(GuildSnapshot),
    GuildDelete { id: u64, unavailable: bool },
    GuildEmojisUpdate { guild_id: u64, emojis: Vec<EmojiPayload> },
    GuildUpdate(GuildUpdatePayload),
    MemberAdd(MemberPayload),
    MemberChunk { members: Vec<MemberPayload>, presences: Vec<PresenceEntity> },
    MemberRemove { guild_id: u64, user_id: u64 },
    MemberUpdate(MemberUpdatePayload),
    MessageCreate(MessagePayload),
    MessageDelete { id: u64 },
}

// ---------------------------------------------------------------------------
// Merge rules: construct a new value copying every field from the old value
// except the listed changed fields.
// ---------------------------------------------------------------------------

/// A group channel with only its pin timestamp changed.
pub open spec fn spec_group_with_pin(c: GroupEntity, ts: Option<u64>) -> GroupEntity {
    GroupEntity { last_pin_timestamp: ts, ..c }
}

/// A text channel with only its pin timestamp changed.
pub open spec fn spec_text_with_pin(c: TextChannelEntity, ts: Option<u64>) -> TextChannelEntity {
    TextChannelEntity { last_pin_timestamp: ts, ..c }
}

/// A private channel with only its pin timestamp changed.
pub open spec fn spec_private_with_pin(
    c: PrivateChannelEntity,
    ts: Option<u64>,
) -> PrivateChannelEntity {
    PrivateChannelEntity { last_pin_timestamp: ts, ..c }
}

/// A group channel with only its last message changed.
pub open spec fn spec_group_with_last_message(c: GroupEntity, id: u64) -> GroupEntity {
    GroupEntity { last_message_id: Some(id), ..c }
}

/// A text channel with only its last message changed.
pub open spec fn spec_text_with_last_message(c: TextChannelEntity, id: u64) -> TextChannelEntity {
    TextChannelEntity { last_message_id: Some(id), ..c }
}

/// A private channel with only its last message changed.
pub open spec fn spec_private_with_last_message(
    c: PrivateChannelEntity,
    id: u64,
) -> PrivateChannelEntity {
    PrivateChannelEntity { last_message_id: Some(id), ..c }
}

/// A guild with only its availability flag changed.
pub open spec fn spec_guild_with_unavailable(g: GuildEntity, unavailable: bool) -> GuildEntity {
    GuildEntity { unavailable, ..g }
}

/// A guild with the fields of a guild-update event applied and every other
/// field kept from the stored value.
pub open spec fn spec_guild_updated(g: GuildEntity, p: GuildUpdatePayload) -> GuildEntity {
    GuildEntity {
        owner_id: p.owner_id,
        afk_channel_id: p.afk_channel_id,
        afk_timeout: p.afk_timeout,
        ..g
    }
}

/// A member with the fields of a member-update event applied and every other
/// field kept from the stored value.
pub open spec fn spec_member_updated(m: MemberEntity, p: MemberUpdatePayload) -> MemberEntity {
    MemberEntity { pending: p.pending, premium_since: p.premium_since, ..m }
}

impl GroupEntity {
    pub fn with_pin_timestamp(self, ts: Option<u64>) -> (r: Self)
        ensures
            r == spec_group_with_pin(self, ts),
    {
        GroupEntity { last_pin_timestamp: ts, ..self }
    }

    pub fn with_last_message(self, id: u64) -> (r: Self)
        ensures
            r == spec_group_with_last_message(self, id),
    {
        GroupEntity { last_message_id: Some(id), ..self }
    }
}

impl TextChannelEntity {
    pub fn with_pin_timestamp(self, ts: Option<u64>) -> (r: Self)
        ensures
            r == spec_text_with_pin(self, ts),
    {
        TextChannelEntity { last_pin_timestamp: ts, ..self }
    }

    pub fn with_last_message(self, id: u64) -> (r: Self)
        ensures
            r == spec_text_with_last_message(self, id),
    {
        TextChannelEntity { last_message_id: Some(id), ..self }
    }
}

impl PrivateChannelEntity {
    pub fn with_pin_timestamp(self, ts: Option<u64>) -> (r: Self)
        ensures
            r == spec_private_with_pin(self, ts),
    {
        PrivateChannelEntity { last_pin_timestamp: ts, ..self }
    }

    pub fn with_last_message(self, id: u64) -> (r: Self)
        ensures
            r == spec_private_with_last_message(self, id),
    {
        PrivateChannelEntity { last_message_id: Some(id), ..self }
    }
}

impl GuildEntity {
    pub fn with_unavailable(self, unavailable: bool) -> (r: Self)
        ensures
            r == spec_guild_with_unavailable(self, unavailable),
    {
        GuildEntity { unavailable, ..self }
    }

    pub fn updated(self, p: &GuildUpdatePayload) -> (r: Self)
        ensures
            r == spec_guild_updated(self, *p),
    {
        GuildEntity {
            owner_id: p.owner_id,
            afk_channel_id: p.afk_channel_id,
            afk_timeout: p.afk_timeout,
            ..self
        }
    }
}

impl MemberEntity {
    pub fn updated(self, p: &MemberUpdatePayload) -> (r: Self)
        ensures
            r == spec_member_updated(self, *p),
    {
        MemberEntity { pending: p.pending, premium_since: p.premium_since, ..self }
    }
}

// ---------------------------------------------------------------------------
// Conversions from wire payload to stored entity.
// ---------------------------------------------------------------------------

/// The stored member a member payload converts to.
pub open spec fn spec_member_entity(p: MemberPayload) -> MemberEntity {
    MemberEntity {
        guild_id: p.guild_id,
        user_id: p.user.id,
        deaf: p.deaf,
        mute: p.mute,
        pending: p.pending,
        premium_since: p.premium_since,
        joined_at: p.joined_at,
    }
}

/// The stored emoji a snapshot emoji converts to, under its guild.
pub open spec fn spec_emoji_entity(guild_id: u64, p: EmojiPayload) -> EmojiEntity {
    EmojiEntity { id: p.id, guild_id, animated: p.animated, available: p.available }
}

/// The stored role a snapshot role converts to, under its guild.
pub open spec fn spec_role_entity(guild_id: u64, p: RolePayload) -> RoleEntity {
    RoleEntity {
        id: p.id,
        guild_id,
        color: p.color,
        position: p.position,
        permissions: p.permissions,
        hoist: p.hoist,
        mentionable: p.mentionable,
    }
}

/// The stored voice state a snapshot voice state converts to, under its
/// guild.
pub open spec fn spec_voice_state_entity(guild_id: u64, p: VoiceStatePayload) -> VoiceStateEntity {
    VoiceStateEntity {
        guild_id,
        user_id: p.user_id,
        channel_id: p.channel_id,
        deaf: p.deaf,
        mute: p.mute,
    }
}

/// The stored attachment a message attachment converts to, under its
/// message.
pub open spec fn spec_attachment_entity(message_id: u64, p: AttachmentPayload) -> AttachmentEntity {
    AttachmentEntity { id: p.id, message_id, size: p.size }
}

/// The stored message a message payload converts to; attachments are stored
/// separately.
pub open spec fn spec_message_entity(p: MessagePayload) -> MessageEntity {
    MessageEntity {
        id: p.id,
        channel_id: p.channel_id,
        author_id: p.author_id,
        timestamp: p.timestamp,
        pinned: p.pinned,
    }
}

pub fn member_entity(p: &MemberPayload) -> (r: MemberEntity)
    ensures
        r == spec_member_entity(*p),
{
    MemberEntity {
        guild_id: p.guild_id,
        user_id: p.user.id,
        deaf: p.deaf,
        mute: p.mute,
        pending: p.pending,
        premium_since: p.premium_since,
        joined_at: p.joined_at,
    }
}

pub fn emoji_entity(guild_id: u64, p: &EmojiPayload) -> (r: EmojiEntity)
    ensures
        r == spec_emoji_entity(guild_id, *p),
{
    EmojiEntity { id: p.id, guild_id, animated: p.animated, available: p.available }
}

pub fn role_entity(guild_id: u64, p: &RolePayload) -> (r: RoleEntity)
    ensures
        r == spec_role_entity(guild_id, *p),
{
    RoleEntity {
        id: p.id,
        guild_id,
        color: p.color,
        position: p.position,
        permissions: p.permissions,
        hoist: p.hoist,
        mentionable: p.mentionable,
    }
}

pub fn voice_state_entity(guild_id: u64, p: &VoiceStatePayload) -> (r: VoiceStateEntity)
    ensures
        r == spec_voice_state_entity(guild_id, *p),
{
    VoiceStateEntity {
        guild_id,
        user_id: p.user_id,
        channel_id: p.channel_id,
        deaf: p.deaf,
        mute: p.mute,
    }
}

pub fn attachment_entity(message_id: u64, p: &AttachmentPayload) -> (r: AttachmentEntity)
    ensures
        r == spec_attachment_entity(message_id, *p),
{
    AttachmentEntity { id: p.id, message_id, size: p.size }
}

pub fn message_entity(p: &MessagePayload) -> (r: MessageEntity)
    ensures
        r == spec_message_entity(*p),
{
    MessageEntity {
        id: p.id,
        channel_id: p.channel_id,
        author_id: p.author_id,
        timestamp: p.timestamp,
        pinned: p.pinned,
    }
}

// ---------------------------------------------------------------------------
// Batch conversions: the sequences a bulk upsert writes.
// ---------------------------------------------------------------------------

/// The stored members of a batch of member payloads, in order.
pub open spec fn spec_member_entities(s: Seq<MemberPayload>) -> Seq<MemberEntity>
    decreases s.len(),
{
    if s.len() == 0 {
        Seq::empty()
    } else {
        spec_member_entities(s.drop_last()).push(spec_member_entity(s.last()))
    }
}

/// The users embedded in a batch of member payloads, in order.
pub open spec fn spec_member_users(s: Seq<MemberPayload>) -> Seq<UserEntity>
    decreases s.len(),
{
    if s.len() == 0 {
        Seq::empty()
    } else {
        spec_member_users(s.drop_last()).push(s.last().user)
    }
}

/// The stored emoji of a snapshot's emoji batch, under their guild.
pub open spec fn spec_emoji_entities(guild_id: u64, s: Seq<EmojiPayload>) -> Seq<EmojiEntity>
    decreases s.len(),
{
    if s.len() == 0 {
        Seq::empty()
    } else {
        spec_emoji_entities(guild_id, s.drop_last()).push(spec_emoji_entity(guild_id, s.last()))
    }
}

/// The stored roles of a snapshot's role batch, under their guild.
pub open spec fn spec_role_entities(guild_id: u64, s: Seq<RolePayload>) -> Seq<RoleEntity>
    decreases s.len(),
{
    if s.len() == 0 {
        Seq::empty()
    } else {
        spec_role_entities(guild_id, s.drop_last()).push(spec_role_entity(guild_id, s.last()))
    }
}

/// The stored voice states of a snapshot's batch, under their guild.
pub open spec fn spec_voice_state_entities(
    guild_id: u64,
    s: Seq<VoiceStatePayload>,
) -> Seq<VoiceStateEntity>
    decreases s.len(),
{
    if s.len() == 0 {
        Seq::empty()
    } else {
        spec_voice_state_entities(guild_id, s.drop_last()).push(
            spec_voice_state_entity(guild_id, s.last()),
        )
    }
}

/// The stored attachments of a message's batch, under their message.
pub open spec fn spec_attachment_entities(
    message_id: u64,
    s: Seq<AttachmentPayload>,
) -> Seq<AttachmentEntity>
    decreases s.len(),
{
    if s.len() == 0 {
        Seq::empty()
    } else {
        spec_attachment_entities(message_id, s.drop_last()).push(
            spec_attachment_entity(message_id, s.last()),
        )
    }
}

/// The category channels of a snapshot's channel list, in order.
pub open spec fn spec_categories(s: Seq<GuildChannelPayload>) -> Seq<CategoryChannelEntity>
    decreases s.len(),
{
    if s.len() == 0 {
        Seq::empty()
    } else {
        match s.last() {
            GuildChannelPayload::Category(c) => spec_categories(s.drop_last()).push(c),
            _ => spec_categories(s.drop_last()),
        }
    }
}

/// The text channels of a snapshot's channel list, in order.
pub open spec fn spec_texts(s: Seq<GuildChannelPayload>) -> Seq<TextChannelEntity>
    decreases s.len(),
{
    if s.len() == 0 {
        Seq::empty()
    } else {
        match s.last() {
            GuildChannelPayload::Text(c) => spec_texts(s.drop_last()).push(c),
            _ => spec_texts(s.drop_last()),
        }
    }
}

/// The stage channels of a snapshot's channel list, in order.
pub open spec fn spec_stages(s: Seq<GuildChannelPayload>) -> Seq<VoiceChannelEntity>
    decreases s.len(),
{
    if s.len() == 0 {
        Seq::empty()
    } else {
        match s.last() {
            GuildChannelPayload::Stage(c) => spec_stages(s.drop_last()).push(c),
            _ => spec_stages(s.drop_last()),
        }
    }
}

/// The voice channels of a snapshot's channel list, in order.
pub open spec fn spec_voices(s: Seq<GuildChannelPayload>) -> Seq<VoiceChannelEntity>
    decreases s.len(),
{
    if s.len() == 0 {
        Seq::empty()
    } else {
        match s.last() {
            GuildChannelPayload::Voice(c) => spec_voices(s.drop_last()).push(c),
            _ => spec_voices(s.drop_last()),
        }
    }
}

pub fn member_entities(v: &Vec<MemberPayload>) -> (r: Vec<MemberEntity>)
    ensures
        r@ == spec_member_entities(v@),
{
    let mut r: Vec<MemberEntity> = Vec::new();
    let mut i: usize = 0;
    while i < v.len()
        invariant
            i <= v@.len(),
            r@ == spec_member_entities(v@.take(i as int)),
        decreases v@.len() - i,
    {
        r.push(member_entity(&v[i]));
        proof {
            assert(v@.take(i + 1).drop_last() =~= v@.take(i as int));
            assert(v@.take(i + 1).last() == v@[i as int]);
        }
        i = i + 1;
    }
    proof {
        assert(v@.take(v@.len() as int) =~= v@);
    }
    r
}

pub fn member_users(v: &Vec<MemberPayload>) -> (r: Vec<UserEntity>)
    ensures
        r@ == spec_member_users(v@),
{
    let mut r: Vec<UserEntity> = Vec::new();
    let mut i: usize = 0;
    while i < v.len()
        invariant
            i <= v@.len(),
            r@ == spec_member_users(v@.take(i as int)),
        decreases v@.len() - i,
    {
        r.push(v[i].user);
        proof {
            assert(v@.take(i + 1).drop_last() =~= v@.take(i as int));
            assert(v@.take(i + 1).last() == v@[i as int]);
        }
        i = i + 1;
    }
    proof {
        assert(v@.take(v@.len() as int) =~= v@);
    }
    r
}

pub fn emoji_entities(guild_id: u64, v: &Vec<EmojiPayload>) -> (r: Vec<EmojiEntity>)
    ensures
        r@ == spec_emoji_entities(guild_id, v@),
{
    let mut r: Vec<EmojiEntity> = Vec::new();
    let mut i: usize = 0;
    while i < v.len()
        invariant
            i <= v@.len(),
            r@ == spec_emoji_entities(guild_id, v@.take(i as int)),
        decreases v@.len() - i,
    {
        r.push(emoji_entity(guild_id, &v[i]));
        proof {
            assert(v@.take(i + 1).drop_last() =~= v@.take(i as int));
            assert(v@.take(i + 1).last() == v@[i as int]);
        }
        i = i + 1;
    }
    proof {
        assert(v@.take(v@.len() as int) =~= v@);
    }
    r
}

pub fn role_entities(guild_id: u64, v: &Vec<RolePayload>) -> (r: Vec<RoleEntity>)
    ensures
        r@ == spec_role_entities(guild_id, v@),
{
    let mut r: Vec<RoleEntity> = Vec::new();
    let mut i: usize = 0;
    while i < v.len()
        invariant
            i <= v@.len(),
            r@ == spec_role_entities(guild_id, v@.take(i as int)),
        decreases v@.len() - i,
    {
        r.push(role_entity(guild_id, &v[i]));
        proof {
            assert(v@.take(i + 1).drop_last() =~= v@.take(i as int));
            assert(v@.take(i + 1).last() == v@[i as int]);
        }
        i = i + 1;
    }
    proof {
        assert(v@.take(v@.len() as int) =~= v@);
    }
    r
}

pub fn voice_state_entities(guild_id: u64, v: &Vec<VoiceStatePayload>) -> (r: Vec<
    VoiceStateEntity,
>)
    ensures
        r@ == spec_voice_state_entities(guild_id, v@),
{
    let mut r: Vec<VoiceStateEntity> = Vec::new();
    let mut i: usize = 0;
    while i < v.len()
        invariant
            i <= v@.len(),
            r@ == spec_voice_state_entities(guild_id, v@.take(i as int)),
        decreases v@.len() - i,
    {
        r.push(voice_state_entity(guild_id, &v[i]));
        proof {
            assert(v@.take(i + 1).drop_last() =~= v@.take(i as int));
            assert(v@.take(i + 1).last() == v@[i as int]);
        }
        i = i + 1;
    }
    proof {
        assert(v@.take(v@.len() as int) =~= v@);
    }
    r
}

pub fn attachment_entities(message_id: u64, v: &Vec<AttachmentPayload>) -> (r: Vec<
    AttachmentEntity,
>)
    ensures
        r@ == spec_attachment_entities(message_id, v@),
{
    let mut r: Vec<AttachmentEntity> = Vec::new();
    let mut i: usize = 0;
    while i < v.len()
        invariant
            i <= v@.len(),
            r@ == spec_attachment_entities(message_id, v@.take(i as int)),
        decreases v@.len() - i,
    {
        r.push(attachment_entity(message_id, &v[i]));
        proof {
            assert(v@.take(i + 1).drop_last() =~= v@.take(i as int));
            assert(v@.take(i + 1).last() == v@[i as int]);
        }
        i = i + 1;
    }
    proof {
        assert(v@.take(v@.len() as int) =~= v@);
    }
    r
}

/// Splits a snapshot's channel list into the four guild-channel kinds, each
/// in its own batch, in order of appearance.
pub fn split_channels(v: &Vec<GuildChannelPayload>) -> (r: (
    Vec<CategoryChannelEntity>,
    Vec<TextChannelEntity>,
    Vec<VoiceChannelEntity>,
    Vec<VoiceChannelEntity>,
))
    ensures
        r.0@ == spec_categories(v@),
        r.1@ == spec_texts(v@),
        r.2@ == spec_stages(v@),
        r.3@ == spec_voices(v@),
{
    let mut cats: Vec<CategoryChannelEntity> = Vec::new();
    let mut texts: Vec<TextChannelEntity> = Vec::new();
    let mut stages: Vec<VoiceChannelEntity> = Vec::new();
    let mut voices: Vec<VoiceChannelEntity> = Vec::new();
    let mut i: usize = 0;
    while i < v.len()
        invariant
            i <= v@.len(),
            cats@ == spec_categories(v@.take(i as int)),
            texts@ == spec_texts(v@.take(i as int)),
            stages@ == spec_stages(v@.take(i as int)),
            voices@ == spec_voices(v@.take(i as int)),
        decreases v@.len() - i,
    {
        match &v[i] {
            GuildChannelPayload::Category(c) => cats.push(*c),
            GuildChannelPayload::Text(c) => texts.push(*c),
            GuildChannelPayload::Stage(c) => stages.push(*c),
            GuildChannelPayload::Voice(c) => voices.push(*c),
        }
        proof {
            assert(v@.take(i + 1).drop_last() =~= v@.take(i as int));
            assert(v@.take(i + 1).last() == v@[i as int]);
        }
        i = i + 1;
    }
    proof {
        assert(v@.take(v@.len() as int) =~= v@);
    }
    (cats, texts, stages, voices)
}

} // verus!
