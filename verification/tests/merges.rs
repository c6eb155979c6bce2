use entity_cache::entity::{
    GroupEntity, GuildEntity, MemberEntity, PrivateChannelEntity, TextChannelEntity, UserEntity,
};
use entity_cache::events::{GuildUpdatePayload, MemberUpdatePayload};

fn group() -> GroupEntity {
    GroupEntity {
        id: 1,
        owner_id: 2,
        application_id: Some(3),
        last_message_id: Some(4),
        last_pin_timestamp: Some(5),
    }
}

fn text() -> TextChannelEntity {
    TextChannelEntity {
        id: 1,
        guild_id: 2,
        position: 3,
        nsfw: true,
        last_message_id: Some(4),
        last_pin_timestamp: Some(5),
    }
}

fn private() -> PrivateChannelEntity {
    PrivateChannelEntity { id: 1, last_message_id: Some(4), last_pin_timestamp: Some(5) }
}

#[test]
fn group_pin_merge_changes_only_the_timestamp() {
    let merged = group().with_pin_timestamp(Some(9));
    assert_eq!(merged, GroupEntity { last_pin_timestamp: Some(9), ..group() });
}

#[test]
fn text_pin_merge_changes_only_the_timestamp() {
    let merged = text().with_pin_timestamp(None);
    assert_eq!(merged, TextChannelEntity { last_pin_timestamp: None, ..text() });
}

#[test]
fn private_pin_merge_changes_only_the_timestamp() {
    let merged = private().with_pin_timestamp(Some(9));
    assert_eq!(merged, PrivateChannelEntity { last_pin_timestamp: Some(9), ..private() });
}

#[test]
fn group_last_message_merge_changes_only_that_field() {
    let merged = group().with_last_message(77);
    assert_eq!(merged, GroupEntity { last_message_id: Some(77), ..group() });
}

#[test]
fn text_last_message_merge_changes_only_that_field() {
    let merged = text().with_last_message(77);
    assert_eq!(merged, TextChannelEntity { last_message_id: Some(77), ..text() });
}

#[test]
fn private_last_message_merge_changes_only_that_field() {
    let merged = private().with_last_message(77);
    assert_eq!(merged, PrivateChannelEntity { last_message_id: Some(77), ..private() });
}

#[test]
fn guild_unavailable_merge_changes_only_the_flag() {
    let guild = GuildEntity {
        id: 1,
        owner_id: 2,
        afk_channel_id: Some(3),
        afk_timeout: 4,
        member_count: Some(5),
        unavailable: false,
    };
    let merged = guild.with_unavailable(true);
    assert_eq!(merged, GuildEntity { unavailable: true, ..guild });
}

#[test]
fn guild_update_merge_keeps_unlisted_fields() {
    let guild = GuildEntity {
        id: 1,
        owner_id: 2,
        afk_channel_id: Some(3),
        afk_timeout: 4,
        member_count: Some(5),
        unavailable: true,
    };
    let payload = GuildUpdatePayload { id: 1, owner_id: 9, afk_channel_id: None, afk_timeout: 60 };
    let merged = guild.updated(&payload);
    assert_eq!(merged.owner_id, 9);
    assert_eq!(merged.afk_channel_id, None);
    assert_eq!(merged.afk_timeout, 60);
    assert_eq!(merged.id, 1);
    assert_eq!(merged.member_count, Some(5));
    assert!(merged.unavailable);
}

#[test]
fn member_update_merge_keeps_unlisted_fields() {
    let member = MemberEntity {
        guild_id: 1,
        user_id: 2,
        deaf: true,
        mute: false,
        pending: false,
        premium_since: None,
        joined_at: Some(3),
    };
    let payload = MemberUpdatePayload {
        guild_id: 1,
        user: UserEntity { id: 2, bot: false, discriminator: 1, public_flags: None },
        pending: true,
        premium_since: Some(9),
    };
    let merged = member.updated(&payload);
    assert!(merged.pending);
    assert_eq!(merged.premium_since, Some(9));
    assert!(merged.deaf);
    assert!(!merged.mute);
    assert_eq!(merged.joined_at, Some(3));
    assert_eq!(merged.guild_id, 1);
    assert_eq!(merged.user_id, 2);
}
