use entity_cache::cache::{Cache, MemoryBackend};
use entity_cache::entity::{
    CategoryChannelEntity, CurrentUserEntity, GroupEntity, GuildEntity, PairId,
    PresenceEntity, PrivateChannelEntity, Status, TextChannelEntity, UserEntity, VoiceStateEntity,
};
use entity_cache::events::{
    AttachmentPayload, ChannelPayload, EmojiPayload, Event, GroupPayload, GuildChannelPayload,
    GuildSnapshot, GuildUpdatePayload, MemberPayload, MemberUpdatePayload, MessagePayload,
    PrivateChannelPayload, RolePayload,
};
use entity_cache::project::CacheUpdate;

fn user(id: u64) -> UserEntity {
    UserEntity { id, bot: false, discriminator: 1, public_flags: None }
}

fn guild(id: u64) -> GuildEntity {
    GuildEntity {
        id,
        owner_id: 100,
        afk_channel_id: None,
        afk_timeout: 300,
        member_count: Some(3),
        unavailable: false,
    }
}

fn text_channel(id: u64, guild_id: u64) -> TextChannelEntity {
    TextChannelEntity {
        id,
        guild_id,
        position: 0,
        nsfw: false,
        last_message_id: None,
        last_pin_timestamp: None,
    }
}

fn member_payload(guild_id: u64, user_id: u64) -> MemberPayload {
    MemberPayload {
        guild_id,
        user: user(user_id),
        deaf: false,
        mute: false,
        pending: false,
        premium_since: None,
        joined_at: Some(40),
    }
}

fn role_payload(id: u64) -> RolePayload {
    RolePayload { id, color: 0, position: 1, permissions: 8, hoist: false, mentionable: true }
}

fn snapshot(guild_id: u64) -> GuildSnapshot {
    GuildSnapshot {
        guild: guild(guild_id),
        channels: vec![
            GuildChannelPayload::Category(CategoryChannelEntity {
                id: 20,
                guild_id,
                position: 0,
            }),
            GuildChannelPayload::Text(text_channel(21, guild_id)),
        ],
        emojis: vec![EmojiPayload { id: 30, animated: false, available: true }],
        members: vec![
            member_payload(guild_id, 1),
            member_payload(guild_id, 2),
            member_payload(guild_id, 3),
        ],
        presences: vec![PresenceEntity { guild_id, user_id: 1, status: Status::Online }],
        roles: vec![role_payload(40)],
        voice_states: vec![],
    }
}

fn message(id: u64, channel_id: u64, attachments: Vec<AttachmentPayload>) -> MessagePayload {
    MessagePayload { id, channel_id, author_id: 1, timestamp: 1000, pinned: false, attachments }
}

#[test]
fn guild_snapshot_populates_every_child_repository() {
    let mut cache = Cache::new();
    let outcome = cache.process(&Event::GuildCreate(snapshot(7)));
    assert!(outcome.is_ok());
    assert_eq!(cache.category_channels.len(), 1);
    assert_eq!(cache.text_channels.len(), 1);
    assert_eq!(cache.members.len(), 3);
    assert_eq!(cache.users.len(), 3);
    assert_eq!(cache.roles.len(), 1);
    assert_eq!(cache.emojis.len(), 1);
    assert_eq!(cache.presences.len(), 1);
    assert_eq!(cache.guilds.get(7), Some(guild(7)));
}

#[test]
fn message_create_updates_last_message_id_and_nothing_else_of_the_channel() {
    let mut cache = Cache::new();
    let channel = text_channel(21, 7);
    assert_eq!(channel.last_message_id, None);
    cache
        .process(&Event::ChannelCreate(ChannelPayload::Guild(GuildChannelPayload::Text(channel))))
        .unwrap();
    cache.process(&Event::MessageCreate(message(900, 21, vec![]))).unwrap();
    let stored = cache.text_channels.get(21).unwrap();
    assert_eq!(stored.last_message_id, Some(900));
    assert_eq!(TextChannelEntity { last_message_id: None, ..stored }, channel);
    assert_eq!(cache.messages.len(), 1);
}

#[test]
fn pins_update_for_unknown_channel_succeeds_and_mutates_nothing() {
    let mut cache = Cache::new();
    cache.process(&Event::GuildCreate(snapshot(7))).unwrap();
    let outcome = cache.process(&Event::ChannelPinsUpdate {
        channel_id: 999,
        last_pin_timestamp: Some(5),
    });
    assert!(outcome.is_ok());
    assert_eq!(cache.groups.len(), 0);
    assert_eq!(cache.text_channels.len(), 1);
    assert_eq!(cache.private_channels.len(), 0);
    assert_eq!(cache.text_channels.get(21).unwrap().last_pin_timestamp, None);
}

#[test]
fn pins_update_stops_at_the_first_matching_kind() {
    let mut cache = Cache::new();
    let group = GroupEntity {
        id: 50,
        owner_id: 1,
        application_id: None,
        last_message_id: None,
        last_pin_timestamp: None,
    };
    cache
        .process(&Event::ChannelCreate(ChannelPayload::Group(GroupPayload {
            channel: group,
            recipients: vec![user(1), user(2)],
        })))
        .unwrap();
    cache
        .process(&Event::ChannelPinsUpdate { channel_id: 50, last_pin_timestamp: Some(77) })
        .unwrap();
    assert_eq!(cache.groups.get(50).unwrap().last_pin_timestamp, Some(77));
    assert_eq!(cache.users.len(), 2);
}

#[test]
fn merge_updates_on_absent_entities_are_silent_no_ops() {
    let mut cache = Cache::new();
    let outcome = cache.process(&Event::GuildUpdate(GuildUpdatePayload {
        id: 7,
        owner_id: 2,
        afk_channel_id: None,
        afk_timeout: 60,
    }));
    assert!(outcome.is_ok());
    assert_eq!(cache.guilds.len(), 0);
    let outcome = cache.process(&Event::MemberUpdate(MemberUpdatePayload {
        guild_id: 7,
        user: user(1),
        pending: true,
        premium_since: Some(3),
    }));
    assert!(outcome.is_ok());
    assert_eq!(cache.members.len(), 0);
    assert_eq!(cache.users.len(), 0);
}

#[test]
fn unavailable_guild_delete_only_flips_the_flag() {
    let mut cache = Cache::new();
    cache.process(&Event::GuildCreate(snapshot(7))).unwrap();
    let outcome = cache.process(&Event::GuildDelete { id: 7, unavailable: true });
    assert!(outcome.is_ok());
    assert_eq!(cache.members.len(), 3);
    assert_eq!(cache.users.len(), 3);
    assert_eq!(cache.roles.len(), 1);
    assert_eq!(cache.emojis.len(), 1);
    assert_eq!(cache.presences.len(), 1);
    assert_eq!(cache.category_channels.len(), 1);
    assert_eq!(cache.text_channels.len(), 1);
    let stored = cache.guilds.get(7).unwrap();
    assert!(stored.unavailable);
    assert_eq!(GuildEntity { unavailable: false, ..stored }, guild(7));
}

#[test]
fn structural_guild_delete_cascades_over_every_child_kind() {
    let mut cache = Cache::new();
    cache.process(&Event::GuildCreate(snapshot(7))).unwrap();
    cache.process(&Event::GuildCreate(snapshot(8))).unwrap();
    let outcome = cache.process(&Event::GuildDelete { id: 7, unavailable: false });
    assert!(outcome.is_ok());
    assert_eq!(cache.guilds.get(7), None);
    assert_eq!(cache.members.len(), 3);
    assert_eq!(cache.roles.len(), 1);
    assert_eq!(cache.emojis.len(), 1);
    assert_eq!(cache.presences.len(), 1);
    assert_eq!(cache.category_channels.len(), 1);
    assert_eq!(cache.text_channels.len(), 1);
    assert_eq!(cache.guilds.get(8), Some(guild(8)));
    assert_eq!(cache.members.get(PairId { guild_id: 8, id: 1 }).unwrap().guild_id, 8);
    // users are global, never cascaded; the two snapshots shared them
    assert_eq!(cache.users.len(), 3);
}

#[test]
fn the_cascade_phase_leaves_the_guild_record_in_place() {
    let mut cache = Cache::new();
    cache.process(&Event::GuildCreate(snapshot(7))).unwrap();
    let outcome = cache.remove_guild_children(7);
    assert!(outcome.is_ok());
    assert_eq!(cache.members.len(), 0);
    assert_eq!(cache.roles.len(), 0);
    assert_eq!(cache.emojis.len(), 0);
    assert_eq!(cache.presences.len(), 0);
    assert_eq!(cache.category_channels.len(), 0);
    assert_eq!(cache.text_channels.len(), 0);
    // the guild record is removed only after the cascade has completed
    assert_eq!(cache.guilds.get(7), Some(guild(7)));
}

#[test]
fn message_delete_removes_its_attachments_with_it() {
    let mut cache = Cache::new();
    let attachments = vec![
        AttachmentPayload { id: 70, size: 10 },
        AttachmentPayload { id: 71, size: 20 },
    ];
    cache.process(&Event::MessageCreate(message(900, 21, attachments))).unwrap();
    cache
        .process(&Event::MessageCreate(message(901, 21, vec![AttachmentPayload {
            id: 72,
            size: 30,
        }])))
        .unwrap();
    assert_eq!(cache.attachments.len(), 3);
    let outcome = cache.process(&Event::MessageDelete { id: 900 });
    assert!(outcome.is_ok());
    assert_eq!(cache.messages.get(900), None);
    assert_eq!(cache.attachments.get(70), None);
    assert_eq!(cache.attachments.get(71), None);
    assert_eq!(cache.attachments.len(), 1);
    assert_eq!(cache.attachments.get(72).unwrap().message_id, 901);
}

#[test]
fn independent_events_touch_only_their_own_entities() {
    let mut cache = Cache::new();
    cache.process(&Event::MessageCreate(message(900, 21, vec![AttachmentPayload {
        id: 70,
        size: 10,
    }])))
        .unwrap();
    // two units of work over disjoint entities, as the executor would run
    // them side by side: each completes and reflects only its own effect
    let first = cache.process(&Event::MemberAdd(member_payload(7, 1)));
    let second = cache.process(&Event::MessageDelete { id: 900 });
    assert!(first.is_ok());
    assert!(second.is_ok());
    assert_eq!(cache.members.get(PairId { guild_id: 7, id: 1 }).unwrap().user_id, 1);
    assert_eq!(cache.users.get(1), Some(user(1)));
    assert_eq!(cache.messages.get(900), None);
    assert_eq!(cache.attachments.len(), 0);
}

#[test]
fn the_facade_is_built_eagerly_over_a_backend() {
    let mut cache = Cache::with_backend(MemoryBackend);
    assert_eq!(cache.guilds.len(), 0);
    assert_eq!(cache.users.len(), 0);
    cache.process(&Event::MemberAdd(member_payload(7, 1))).unwrap();
    assert_eq!(cache.users.len(), 1);
    let _backend: &MemoryBackend = cache.backend();
}

#[test]
fn the_facade_exposes_plain_read_write_handles() {
    let mut cache = Cache::new();
    cache.current_user.upsert(CurrentUserEntity { id: 99, bot: true });
    assert_eq!(cache.current_user.get(99), Some(CurrentUserEntity { id: 99, bot: true }));
    cache.process(&Event::GuildCreate(snapshot(7))).unwrap();
    assert_eq!(cache.current_user.len(), 1);
}

#[test]
fn member_add_caches_user_and_member() {
    let mut cache = Cache::new();
    cache.process(&Event::MemberAdd(member_payload(7, 5))).unwrap();
    assert_eq!(cache.users.get(5), Some(user(5)));
    let stored = cache.members.get(PairId { guild_id: 7, id: 5 }).unwrap();
    assert_eq!(stored.joined_at, Some(40));
}

#[test]
fn member_remove_deletes_only_that_membership() {
    let mut cache = Cache::new();
    cache.process(&Event::MemberAdd(member_payload(7, 5))).unwrap();
    cache.process(&Event::MemberAdd(member_payload(8, 5))).unwrap();
    cache.process(&Event::MemberRemove { guild_id: 7, user_id: 5 }).unwrap();
    assert_eq!(cache.members.get(PairId { guild_id: 7, id: 5 }), None);
    assert!(cache.members.get(PairId { guild_id: 8, id: 5 }).is_some());
    assert_eq!(cache.users.get(5), Some(user(5)));
}

#[test]
fn member_update_refreshes_user_and_merges_member() {
    let mut cache = Cache::new();
    cache.process(&Event::MemberAdd(member_payload(7, 5))).unwrap();
    let refreshed = UserEntity { id: 5, bot: false, discriminator: 2, public_flags: Some(1) };
    cache
        .process(&Event::MemberUpdate(MemberUpdatePayload {
            guild_id: 7,
            user: refreshed,
            pending: true,
            premium_since: Some(60),
        }))
        .unwrap();
    assert_eq!(cache.users.get(5), Some(refreshed));
    let stored = cache.members.get(PairId { guild_id: 7, id: 5 }).unwrap();
    assert!(stored.pending);
    assert_eq!(stored.premium_since, Some(60));
    assert_eq!(stored.joined_at, Some(40));
}

#[test]
fn member_chunk_bulk_writes_members_users_and_presences() {
    let mut cache = Cache::new();
    cache
        .process(&Event::MemberChunk {
            members: vec![member_payload(7, 1), member_payload(7, 2)],
            presences: vec![PresenceEntity { guild_id: 7, user_id: 1, status: Status::Idle }],
        })
        .unwrap();
    assert_eq!(cache.members.len(), 2);
    assert_eq!(cache.users.len(), 2);
    assert_eq!(cache.presences.len(), 1);
}

#[test]
fn emoji_update_upserts_the_listed_emoji() {
    let mut cache = Cache::new();
    cache
        .process(&Event::GuildEmojisUpdate {
            guild_id: 7,
            emojis: vec![
                EmojiPayload { id: 30, animated: false, available: true },
                EmojiPayload { id: 31, animated: true, available: true },
            ],
        })
        .unwrap();
    assert_eq!(cache.emojis.len(), 2);
    assert_eq!(cache.emojis.get(PairId { guild_id: 7, id: 31 }).unwrap().animated, true);
}

#[test]
fn channel_delete_removes_from_the_matching_kind() {
    let mut cache = Cache::new();
    let channel = text_channel(21, 7);
    let payload = ChannelPayload::Guild(GuildChannelPayload::Text(channel));
    cache.process(&Event::ChannelCreate(payload.clone())).unwrap();
    assert_eq!(cache.text_channels.len(), 1);
    cache.process(&Event::ChannelDelete(payload)).unwrap();
    assert_eq!(cache.text_channels.len(), 0);
}

#[test]
fn private_channel_create_caches_recipients() {
    let mut cache = Cache::new();
    let channel = PrivateChannelEntity { id: 60, last_message_id: None, last_pin_timestamp: None };
    cache
        .process(&Event::ChannelCreate(ChannelPayload::Private(PrivateChannelPayload {
            channel,
            recipients: vec![user(1), user(2)],
        })))
        .unwrap();
    assert_eq!(cache.private_channels.get(60), Some(channel));
    assert_eq!(cache.users.len(), 2);
}

#[test]
fn an_event_processes_itself_through_the_update_interface() {
    let mut cache = Cache::new();
    let event = Event::MemberAdd(member_payload(7, 5));
    assert!(event.process(&mut cache).is_ok());
    assert_eq!(cache.members.len(), 1);
    assert_eq!(cache.users.get(5), Some(user(5)));
}

#[test]
fn ban_events_are_explicit_no_ops() {
    let mut cache = Cache::new();
    cache.process(&Event::GuildCreate(snapshot(7))).unwrap();
    let outcome = cache.process(&Event::BanAdd { guild_id: 7, user_id: 1 });
    assert!(outcome.is_ok());
    let outcome = cache.process(&Event::BanRemove { guild_id: 7, user_id: 1 });
    assert!(outcome.is_ok());
    assert_eq!(cache.members.len(), 3);
    assert_eq!(cache.users.len(), 3);
}

#[test]
fn voice_states_cascade_with_their_guild() {
    let mut cache = Cache::new();
    let mut snap = snapshot(7);
    snap.voice_states = vec![entity_cache::events::VoiceStatePayload {
        user_id: 1,
        channel_id: Some(22),
        deaf: false,
        mute: false,
    }];
    cache.process(&Event::GuildCreate(snap)).unwrap();
    assert_eq!(
        cache.voice_states.get(PairId { guild_id: 7, id: 1 }),
        Some(VoiceStateEntity {
            guild_id: 7,
            user_id: 1,
            channel_id: Some(22),
            deaf: false,
            mute: false,
        })
    );
    cache.process(&Event::GuildDelete { id: 7, unavailable: false }).unwrap();
    assert_eq!(cache.voice_states.len(), 0);
}
