//! The event projector: one projection rule per event variant, mapping the
//! event to the repository calls that realize its effect.
//!
//! Each rule's effect on the whole cache is stated as a spec-level
//! transition on [`CacheView`]; the executable rule is proved to produce
//! exactly that transition. Partial updates merge before writing and are
//! silently discarded when the target entity is absent; a structural guild
//! delete cascades over every child kind before the guild record itself;
//! variants with no cache effect are explicit no-ops.

use vstd::prelude::*;
use crate::cache::{Backend, Cache, CacheError, CacheView};
use crate::entity::{PairId, PresenceEntity};
use crate::events::{
    ChannelPayload, EmojiPayload, Event, GuildChannelPayload, GuildSnapshot, GuildUpdatePayload, MemberPayload,
    MemberUpdatePayload, MessagePayload, attachment_entities, emoji_entities,
    member_entities, member_entity, member_users, message_entity, role_entities,
    spec_attachment_entities, spec_categories, spec_emoji_entities, spec_group_with_last_message,
    spec_group_with_pin, spec_guild_updated, spec_guild_with_unavailable, spec_member_entities,
    spec_member_entity, spec_member_updated, spec_member_users, spec_message_entity,
    spec_private_with_last_message, spec_private_with_pin, spec_role_entities, spec_stages,
    spec_text_with_last_message, spec_text_with_pin, spec_texts, spec_voice_state_entities,
    spec_voices, split_channels, voice_state_entities,
};
use crate::repo::{CascadeRepository, Entity, Repository, purge, upsert_all};

verus! {

/// The effect of caching one channel: the rule channel-create and
/// channel-update share. A group or private channel also caches every
/// listed participant user.
pub open spec fn apply_channel_upsert(v: CacheView, c: ChannelPayload) -> CacheView {
    match c {
        ChannelPayload::Group(g) => CacheView {
            users: upsert_all(v.users, g.recipients@),
            groups: v.groups.insert(g.channel.id, g.channel),
            ..v
        },
        ChannelPayload::Guild(GuildChannelPayload::Category(c)) => CacheView {
            category_channels: v.category_channels.insert(c.id, c),
            ..v
        },
        ChannelPayload::Guild(GuildChannelPayload::Text(c)) => CacheView {
            text_channels: v.text_channels.insert(c.id, c),
            ..v
        },
        ChannelPayload::Guild(GuildChannelPayload::Stage(c)) => CacheView {
            stage_channels: v.stage_channels.insert(c.id, c),
            ..v
        },
        ChannelPayload::Guild(GuildChannelPayload::Voice(c)) => CacheView {
            voice_channels: v.voice_channels.insert(c.id, c),
            ..v
        },
        ChannelPayload::Private(p) => CacheView {
            users: upsert_all(v.users, p.recipients@),
            private_channels: v.private_channels.insert(p.channel.id, p.channel),
            ..v
        },
    }
}

/// The effect of a channel delete: the channel leaves the repository that
/// matches its kind.
pub open spec fn apply_channel_delete(v: CacheView, c: ChannelPayload) -> CacheView {
    match c {
        ChannelPayload::Group(g) => CacheView { groups: v.groups.remove(g.channel.id), ..v },
        ChannelPayload::Guild(GuildChannelPayload::Category(c)) => CacheView {
            category_channels: v.category_channels.remove(c.id),
            ..v
        },
        ChannelPayload::Guild(GuildChannelPayload::Text(c)) => CacheView {
            text_channels: v.text_channels.remove(c.id),
            ..v
        },
        ChannelPayload::Guild(GuildChannelPayload::Stage(c)) => CacheView {
            stage_channels: v.stage_channels.remove(c.id),
            ..v
        },
        ChannelPayload::Guild(GuildChannelPayload::Voice(c)) => CacheView {
            voice_channels: v.voice_channels.remove(c.id),
            ..v
        },
        ChannelPayload::Private(p) => CacheView {
            private_channels: v.private_channels.remove(p.channel.id),
            ..v
        },
    }
}

/// The effect of a pin-timestamp change: group, then text channel, then
/// private channel, in that priority order, stopping at the first match;
/// a no-op when none matches.
pub open spec fn apply_channel_pins_update(v: CacheView, channel_id: u64, ts: Option<u64>) -> CacheView {
    if v.groups.contains_key(channel_id) {
        CacheView {
            groups: v.groups.insert(channel_id, spec_group_with_pin(v.groups[channel_id], ts)),
            ..v
        }
    } else if v.text_channels.contains_key(channel_id) {
        CacheView {
            text_channels: v.text_channels.insert(
                channel_id,
                spec_text_with_pin(v.text_channels[channel_id], ts),
            ),
            ..v
        }
    } else if v.private_channels.contains_key(channel_id) {
        CacheView {
            private_channels: v.private_channels.insert(
                channel_id,
                spec_private_with_pin(v.private_channels[channel_id], ts),
            ),
            ..v
        }
    } else {
        v
    }
}

/// The effect of a guild snapshot: every child channel, the emoji, members,
/// the members' users, presences, roles and voice states are cached in
/// bulk, and the guild record itself is cached.
pub open spec fn apply_guild_create(v: CacheView, s: GuildSnapshot) -> CacheView {
    CacheView {
        category_channels: upsert_all(v.category_channels, spec_categories(s.channels@)),
        text_channels: upsert_all(v.text_channels, spec_texts(s.channels@)),
        stage_channels: upsert_all(v.stage_channels, spec_stages(s.channels@)),
        voice_channels: upsert_all(v.voice_channels, spec_voices(s.channels@)),
        emojis: upsert_all(v.emojis, spec_emoji_entities(s.guild.id, s.emojis@)),
        members: upsert_all(v.members, spec_member_entities(s.members@)),
        users: upsert_all(v.users, spec_member_users(s.members@)),
        presences: upsert_all(v.presences, s.presences@),
        roles: upsert_all(v.roles, spec_role_entities(s.guild.id, s.roles@)),
        voice_states: upsert_all(v.voice_states, spec_voice_state_entities(s.guild.id, s.voice_states@)),
        guilds: v.guilds.insert(s.guild.id, s.guild),
        ..v
    }
}

/// The effect of the cascade phase of a structural guild delete: every
/// child of the guild leaves every child repository; the guild record
/// itself is untouched.
pub open spec fn apply_guild_cascade(v: CacheView, id: u64) -> CacheView {
    CacheView {
        category_channels: purge(v.category_channels, id),
        text_channels: purge(v.text_channels, id),
        stage_channels: purge(v.stage_channels, id),
        voice_channels: purge(v.voice_channels, id),
        emojis: purge(v.emojis, id),
        members: purge(v.members, id),
        presences: purge(v.presences, id),
        roles: purge(v.roles, id),
        voice_states: purge(v.voice_states, id),
        ..v
    }
}

/// The effect of a guild delete. Marked unavailable, it only flips the
/// stored guild's flag (a no-op when the guild is absent) and never touches
/// a child. Structural, it is the cascade phase followed by the removal of
/// the guild record.
pub open spec fn apply_guild_delete(v: CacheView, id: u64, unavailable: bool) -> CacheView {
    if unavailable {
        if v.guilds.contains_key(id) {
            CacheView {
                guilds: v.guilds.insert(id, spec_guild_with_unavailable(v.guilds[id], true)),
                ..v
            }
        } else {
            v
        }
    } else {
        let cascaded = apply_guild_cascade(v, id);
        CacheView { guilds: cascaded.guilds.remove(id), ..cascaded }
    }
}

/// The effect of a guild emoji update: the listed emoji are cached in bulk
/// under the guild.
pub open spec fn apply_guild_emojis_update(
    v: CacheView,
    guild_id: u64,
    emojis: Seq<EmojiPayload>,
) -> CacheView {
    CacheView { emojis: upsert_all(v.emojis, spec_emoji_entities(guild_id, emojis)), ..v }
}

/// The effect of a guild update: the stored guild, if any, with the
/// payload's fields merged; a no-op when the guild is absent.
pub open spec fn apply_guild_update(v: CacheView, p: GuildUpdatePayload) -> CacheView {
    if v.guilds.contains_key(p.id) {
        CacheView { guilds: v.guilds.insert(p.id, spec_guild_updated(v.guilds[p.id], p)), ..v }
    } else {
        v
    }
}

/// The effect of a member add: the embedded user and the member record are
/// both cached.
pub open spec fn apply_member_add(v: CacheView, p: MemberPayload) -> CacheView {
    CacheView {
        users: v.users.insert(p.user.id, p.user),
        members: v.members.insert(spec_member_entity(p).eid(), spec_member_entity(p)),
        ..v
    }
}

/// The effect of a member chunk: members, their users and the presences are
/// cached in bulk.
pub open spec fn apply_member_chunk(
    v: CacheView,
    members: Seq<MemberPayload>,
    presences: Seq<PresenceEntity>,
) -> CacheView {
    CacheView {
        members: upsert_all(v.members, spec_member_entities(members)),
        users: upsert_all(v.users, spec_member_users(members)),
        presences: upsert_all(v.presences, presences),
        ..v
    }
}

/// The effect of a member remove: the (guild, user) record leaves the
/// member repository.
pub open spec fn apply_member_remove(v: CacheView, guild_id: u64, user_id: u64) -> CacheView {
    CacheView { members: v.members.remove(PairId { guild_id, id: user_id }), ..v }
}

/// The effect of a member update: when the member is stored, the refreshed
/// user is cached and the payload's fields are merged into the member; a
/// no-op when the member is absent.
pub open spec fn apply_member_update(v: CacheView, p: MemberUpdatePayload) -> CacheView {
    let key = PairId { guild_id: p.guild_id, id: p.user.id };
    if v.members.contains_key(key) {
        CacheView {
            users: v.users.insert(p.user.id, p.user),
            members: v.members.insert(key, spec_member_updated(v.members[key], p)),
            ..v
        }
    } else {
        v
    }
}

/// The effect of a message create: the channel-like holder of the message's
/// channel id (group, then text channel, then private channel, stopping at
/// the first match) learns the new last-message id; every attachment and
/// the message itself are cached.
pub open spec fn apply_message_create(v: CacheView, p: MessagePayload) -> CacheView {
    let held = if v.groups.contains_key(p.channel_id) {
        CacheView {
            groups: v.groups.insert(
                p.channel_id,
                spec_group_with_last_message(v.groups[p.channel_id], p.id),
            ),
            ..v
        }
    } else if v.text_channels.contains_key(p.channel_id) {
        CacheView {
            text_channels: v.text_channels.insert(
                p.channel_id,
                spec_text_with_last_message(v.text_channels[p.channel_id], p.id),
            ),
            ..v
        }
    } else if v.private_channels.contains_key(p.channel_id) {
        CacheView {
            private_channels: v.private_channels.insert(
                p.channel_id,
                spec_private_with_last_message(v.private_channels[p.channel_id], p.id),
            ),
            ..v
        }
    } else {
        v
    };
    CacheView {
        attachments: upsert_all(held.attachments, spec_attachment_entities(p.id, p.attachments@)),
        messages: held.messages.insert(p.id, spec_message_entity(p)),
        ..held
    }
}

/// The effect of a message delete: every attachment stored under the
/// message leaves the attachment repository, discovered through the stored
/// relationship, and the message record leaves with them.
pub open spec fn apply_message_delete(v: CacheView, id: u64) -> CacheView {
    CacheView { attachments: purge(v.attachments, id), messages: v.messages.remove(id), ..v }
}

/// The effect of any event on the whole cache: the closed dispatch the
/// projector realizes. Ban events carry no cacheable state and leave the
/// cache unchanged by design.
pub open spec fn apply_event(v: CacheView, e: Event) -> CacheView {
    match e {
        Event::BanAdd { .. } => v,
        Event::BanRemove { .. } => v,
        Event::ChannelCreate(c) => apply_channel_upsert(v, c),
        Event::ChannelDelete(c) => apply_channel_delete(v, c),
        Event::ChannelPinsUpdate { channel_id, last_pin_timestamp } => apply_channel_pins_update(
            v,
            channel_id,
            last_pin_timestamp,
        ),
        Event::ChannelUpdate(c) => apply_channel_upsert(v, c),
        Event::GuildCreate(s) => apply_guild_create(v, s),
        Event::GuildDelete { id, unavailable } => apply_guild_delete(v, id, unavailable),
        Event::GuildEmojisUpdate { guild_id, emojis } => apply_guild_emojis_update(
            v,
            guild_id,
            emojis@,
        ),
        Event::GuildUpdate(p) => apply_guild_update(v, p),
        Event::MemberAdd(p) => apply_member_add(v, p),
        Event::MemberChunk { members, presences } => apply_member_chunk(v, members@, presences@),
        Event::MemberRemove { guild_id, user_id } => apply_member_remove(v, guild_id, user_id),
        Event::MemberUpdate(p) => apply_member_update(v, p),
        Event::MessageCreate(p) => apply_message_create(v, p),
        Event::MessageDelete { id } => apply_message_delete(v, id),
    }
}

/// One projection: what an event type implements to be processed against
/// the cache. Its abstract effect is a total function on the cache's state,
/// and processing realizes exactly that effect.
pub trait CacheUpdate<B: Backend> {
    /// The effect of this value on the cache's abstract state.
    spec fn effect(&self, v: CacheView) -> CacheView;

    /// Projects this value against the cache.
    fn process(&self, cache: &mut Cache<B>) -> (r: Result<(), CacheError>)
        requires
            old(cache).inv(),
        ensures
            final(cache).inv(),
            r is Ok,
            final(cache)@ == self.effect(old(cache)@),
    ;
}

impl<B: Backend> CacheUpdate<B> for Event {
    open spec fn effect(&self, v: CacheView) -> CacheView {
        apply_event(v, *self)
    }

    fn process(&self, cache: &mut Cache<B>) -> (r: Result<(), CacheError>) {
        cache.process(self)
    }
}

impl<B: Backend> Cache<B> {
    /// Caches one channel: the shared body of channel-create and
    /// channel-update.
    fn upsert_channel(&mut self, c: &ChannelPayload) -> (r: Result<(), CacheError>)
        requires
            old(self).inv(),
        ensures
            final(self).inv(),
            r is Ok,
            final(self)@ == apply_channel_upsert(old(self)@, *c),
    {
        match c {
            ChannelPayload::Group(g) => {
                self.users.upsert_bulk(&g.recipients);
                self.groups.upsert(g.channel);
            },
            ChannelPayload::Guild(GuildChannelPayload::Category(cc)) => {
                self.category_channels.upsert(*cc);
            },
            ChannelPayload::Guild(GuildChannelPayload::Text(cc)) => {
                self.text_channels.upsert(*cc);
            },
            ChannelPayload::Guild(GuildChannelPayload::Stage(cc)) => {
                self.stage_channels.upsert(*cc);
            },
            ChannelPayload::Guild(GuildChannelPayload::Voice(cc)) => {
                self.voice_channels.upsert(*cc);
            },
            ChannelPayload::Private(p) => {
                self.users.upsert_bulk(&p.recipients);
                self.private_channels.upsert(p.channel);
            },
        }
        Ok(())
    }

    /// Projects a channel-create event.
    pub fn process_channel_create(&mut self, c: &ChannelPayload) -> (r: Result<(), CacheError>)
        requires
            old(self).inv(),
        ensures
            final(self).inv(),
            r is Ok,
            final(self)@ == apply_channel_upsert(old(self)@, *c),
    {
        self.upsert_channel(c)
    }

    /// Projects a channel-update event; a full replace, like a create.
    pub fn process_channel_update(&mut self, c: &ChannelPayload) -> (r: Result<(), CacheError>)
        requires
            old(self).inv(),
        ensures
            final(self).inv(),
            r is Ok,
            final(self)@ == apply_channel_upsert(old(self)@, *c),
    {
        self.upsert_channel(c)
    }

    /// Projects a channel-delete event.
    pub fn process_channel_delete(&mut self, c: &ChannelPayload) -> (r: Result<(), CacheError>)
        requires
            old(self).inv(),
        ensures
            final(self).inv(),
            r is Ok,
            final(self)@ == apply_channel_delete(old(self)@, *c),
    {
        match c {
            ChannelPayload::Group(g) => {
                self.groups.remove(g.channel.id);
            },
            ChannelPayload::Guild(GuildChannelPayload::Category(cc)) => {
                self.category_channels.remove(cc.id);
            },
            ChannelPayload::Guild(GuildChannelPayload::Text(cc)) => {
                self.text_channels.remove(cc.id);
            },
            ChannelPayload::Guild(GuildChannelPayload::Stage(cc)) => {
                self.stage_channels.remove(cc.id);
            },
            ChannelPayload::Guild(GuildChannelPayload::Voice(cc)) => {
                self.voice_channels.remove(cc.id);
            },
            ChannelPayload::Private(p) => {
                self.private_channels.remove(p.channel.id);
            },
        }
        Ok(())
    }

    /// Projects a pin-timestamp change: merges the new timestamp into the
    /// first matching channel-like holder; succeeds untouched when none
    /// matches.
    pub fn process_channel_pins_update(
        &mut self,
        channel_id: u64,
        last_pin_timestamp: Option<u64>,
    ) -> (r: Result<(), CacheError>)
        requires
            old(self).inv(),
        ensures
            final(self).inv(),
            r is Ok,
            final(self)@ == apply_channel_pins_update(old(self)@, channel_id, last_pin_timestamp),
    {
        if let Some(group) = self.groups.get(channel_id) {
            self.groups.upsert(group.with_pin_timestamp(last_pin_timestamp));
            return Ok(());
        }
        if let Some(text_channel) = self.text_channels.get(channel_id) {
            self.text_channels.upsert(text_channel.with_pin_timestamp(last_pin_timestamp));
            return Ok(());
        }
        if let Some(private_channel) = self.private_channels.get(channel_id) {
            self.private_channels.upsert(private_channel.with_pin_timestamp(last_pin_timestamp));
            return Ok(());
        }
        Ok(())
    }

    /// Projects a guild snapshot: children through each kind's bulk entry
    /// point, then the guild record.
    pub fn process_guild_create(&mut self, s: &GuildSnapshot) -> (r: Result<(), CacheError>)
        requires
            old(self).inv(),
        ensures
            final(self).inv(),
            r is Ok,
            final(self)@ == apply_guild_create(old(self)@, *s),
    {
        let (cats, texts, stages, voices) = split_channels(&s.channels);
        self.category_channels.upsert_bulk(&cats);
        self.text_channels.upsert_bulk(&texts);
        self.stage_channels.upsert_bulk(&stages);
        self.voice_channels.upsert_bulk(&voices);
        let emojis = emoji_entities(s.guild.id, &s.emojis);
        self.emojis.upsert_bulk(&emojis);
        let members = member_entities(&s.members);
        self.members.upsert_bulk(&members);
        let users = member_users(&s.members);
        self.users.upsert_bulk(&users);
        self.presences.upsert_bulk(&s.presences);
        let roles = role_entities(s.guild.id, &s.roles);
        self.roles.upsert_bulk(&roles);
        let voice_states = voice_state_entities(s.guild.id, &s.voice_states);
        self.voice_states.upsert_bulk(&voice_states);
        self.guilds.upsert(s.guild);
        Ok(())
    }

    /// Runs the cascade phase of a structural guild delete: removes every
    /// child of the guild from every child repository and leaves the guild
    /// record in place. A structural delete issues this phase first and
    /// removes the guild record only afterwards, so no live child is left
    /// referencing a missing guild.
    pub fn remove_guild_children(&mut self, id: u64) -> (r: Result<(), CacheError>)
        requires
            old(self).inv(),
        ensures
            final(self).inv(),
            r is Ok,
            final(self)@ == apply_guild_cascade(old(self)@, id),
    {
        self.category_channels.remove_parent(id);
        self.text_channels.remove_parent(id);
        self.stage_channels.remove_parent(id);
        self.voice_channels.remove_parent(id);
        self.emojis.remove_parent(id);
        self.members.remove_parent(id);
        self.presences.remove_parent(id);
        self.roles.remove_parent(id);
        self.voice_states.remove_parent(id);
        Ok(())
    }

    /// Projects a guild delete: flips the availability flag when the guild
    /// is only unavailable; when the delete is structural, runs
    /// [`Self::remove_guild_children`] to completion and only then removes
    /// the guild record. The two phases are not one transaction: had a
    /// child removal failed, the guild record would have been left in
    /// place with the removals already applied — a failure this infallible
    /// backend cannot exhibit, and the issuing order itself is wider than
    /// a state-transition contract can state.
    pub fn process_guild_delete(&mut self, id: u64, unavailable: bool) -> (r: Result<
        (),
        CacheError,
    >)
        requires
            old(self).inv(),
        ensures
            final(self).inv(),
            r is Ok,
            final(self)@ == apply_guild_delete(old(self)@, id, unavailable),
    {
        if unavailable {
            if let Some(guild) = self.guilds.get(id) {
                self.guilds.upsert(guild.with_unavailable(true));
            }
            return Ok(());
        }
        let cascade = self.remove_guild_children(id);
        if cascade.is_err() {
            return cascade;
        }
        self.guilds.remove(id);
        Ok(())
    }

    /// Projects a guild emoji update.
    pub fn process_guild_emojis_update(
        &mut self,
        guild_id: u64,
        emojis: &Vec<EmojiPayload>,
    ) -> (r: Result<(), CacheError>)
        requires
            old(self).inv(),
        ensures
            final(self).inv(),
            r is Ok,
            final(self)@ == apply_guild_emojis_update(old(self)@, guild_id, emojis@),
    {
        let entities = emoji_entities(guild_id, emojis);
        self.emojis.upsert_bulk(&entities);
        Ok(())
    }

    /// Projects a guild update: fetches the stored guild, merges the
    /// payload's fields and writes the result; succeeds untouched when the
    /// guild is absent.
    pub fn process_guild_update(&mut self, p: &GuildUpdatePayload) -> (r: Result<(), CacheError>)
        requires
            old(self).inv(),
        ensures
            final(self).inv(),
            r is Ok,
            final(self)@ == apply_guild_update(old(self)@, *p),
    {
        if let Some(guild) = self.guilds.get(p.id) {
            self.guilds.upsert(guild.updated(p));
        }
        Ok(())
    }

    /// Projects a member add: the embedded user, then the member record.
    pub fn process_member_add(&mut self, p: &MemberPayload) -> (r: Result<(), CacheError>)
        requires
            old(self).inv(),
        ensures
            final(self).inv(),
            r is Ok,
            final(self)@ == apply_member_add(old(self)@, *p),
    {
        self.users.upsert(p.user);
        self.members.upsert(member_entity(p));
        Ok(())
    }

    /// Projects a member chunk: members, their users and presences, each
    /// through its bulk entry point.
    pub fn process_member_chunk(
        &mut self,
        members: &Vec<MemberPayload>,
        presences: &Vec<PresenceEntity>,
    ) -> (r: Result<(), CacheError>)
        requires
            old(self).inv(),
        ensures
            final(self).inv(),
            r is Ok,
            final(self)@ == apply_member_chunk(old(self)@, members@, presences@),
    {
        let member_batch = member_entities(members);
        self.members.upsert_bulk(&member_batch);
        let user_batch = member_users(members);
        self.users.upsert_bulk(&user_batch);
        self.presences.upsert_bulk(presences);
        Ok(())
    }

    /// Projects a member remove.
    pub fn process_member_remove(&mut self, guild_id: u64, user_id: u64) -> (r: Result<
        (),
        CacheError,
    >)
        requires
            old(self).inv(),
        ensures
            final(self).inv(),
            r is Ok,
            final(self)@ == apply_member_remove(old(self)@, guild_id, user_id),
    {
        self.members.remove(PairId { guild_id, id: user_id });
        Ok(())
    }

    /// Projects a member update: fetches the stored member, caches the
    /// refreshed user and merges the payload's fields; succeeds untouched
    /// when the member is absent.
    pub fn process_member_update(&mut self, p: &MemberUpdatePayload) -> (r: Result<
        (),
        CacheError,
    >)
        requires
            old(self).inv(),
        ensures
            final(self).inv(),
            r is Ok,
            final(self)@ == apply_member_update(old(self)@, *p),
    {
        if let Some(member) = self.members.get(PairId { guild_id: p.guild_id, id: p.user.id }) {
            self.users.upsert(p.user);
            self.members.upsert(member.updated(p));
        }
        Ok(())
    }

    /// Projects a message create: merges the last-message id into the first
    /// matching channel-like holder, caches every attachment and the
    /// message itself.
    pub fn process_message_create(&mut self, p: &MessagePayload) -> (r: Result<(), CacheError>)
        requires
            old(self).inv(),
        ensures
            final(self).inv(),
            r is Ok,
            final(self)@ == apply_message_create(old(self)@, *p),
    {
        if let Some(group) = self.groups.get(p.channel_id) {
            self.groups.upsert(group.with_last_message(p.id));
        } else if let Some(text_channel) = self.text_channels.get(p.channel_id) {
            self.text_channels.upsert(text_channel.with_last_message(p.id));
        } else if let Some(private_channel) = self.private_channels.get(p.channel_id) {
            self.private_channels.upsert(private_channel.with_last_message(p.id));
        }
        let attachments = attachment_entities(p.id, &p.attachments);
        self.attachments.upsert_bulk(&attachments);
        self.messages.upsert(message_entity(p));
        Ok(())
    }

    /// Projects a message delete: the attachments stored under the message
    /// leave first, discovered through the stored relationship (the event
    /// carries no attachment payload), then the message record.
    pub fn process_message_delete(&mut self, id: u64) -> (r: Result<(), CacheError>)
        requires
            old(self).inv(),
        ensures
            final(self).inv(),
            r is Ok,
            final(self)@ == apply_message_delete(old(self)@, id),
    {
        self.attachments.remove_parent(id);
        self.messages.remove(id);
        Ok(())
    }

    /// Projects one event against this cache: the single entry point the
    /// event source drives. Every variant is dispatched explicitly;
    /// variants with no cache effect succeed without touching state.
    pub fn process(&mut self, event: &Event) -> (r: Result<(), CacheError>)
        requires
            old(self).inv(),
        ensures
            final(self).inv(),
            r is Ok,
            final(self)@ == apply_event(old(self)@, *event),
    {
        match event {
            Event::BanAdd { .. } => Ok(()),
            Event::BanRemove { .. } => Ok(()),
            Event::ChannelCreate(c) => self.process_channel_create(c),
            Event::ChannelDelete(c) => self.process_channel_delete(c),
            Event::ChannelPinsUpdate { channel_id, last_pin_timestamp } => self
                .process_channel_pins_update(*channel_id, *last_pin_timestamp),
            Event::ChannelUpdate(c) => self.process_channel_update(c),
            Event::GuildCreate(s) => self.process_guild_create(s),
            Event::GuildDelete { id, unavailable } => self.process_guild_delete(*id, *unavailable),
            Event::GuildEmojisUpdate { guild_id, emojis } => self.process_guild_emojis_update(
                *guild_id,
                emojis,
            ),
            Event::GuildUpdate(p) => self.process_guild_update(p),
            Event::MemberAdd(p) => self.process_member_add(p),
            Event::MemberChunk { members, presences } => self.process_member_chunk(
                members,
                presences,
            ),
            Event::MemberRemove { guild_id, user_id } => self.process_member_remove(
                *guild_id,
                *user_id,
            ),
            Event::MemberUpdate(p) => self.process_member_update(p),
            Event::MessageCreate(p) => self.process_message_create(p),
            Event::MessageDelete { id } => self.process_message_delete(*id),
        }
    }
}

} // verus!
