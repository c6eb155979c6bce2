use entity_cache::entity::GuildEntity;
use entity_cache::keyed::Value;

#[test]
fn a_fresh_value_is_indexed_under_its_key() {
    let guild = <GuildEntity as Value>::new(42);
    assert_eq!(guild.key(), 42);
    assert_eq!(guild.id, 42);
    assert!(!guild.unavailable);
}

#[test]
fn the_key_of_a_guild_record_is_its_id() {
    let guild = GuildEntity {
        id: 7,
        owner_id: 1,
        afk_channel_id: None,
        afk_timeout: 300,
        member_count: Some(2),
        unavailable: false,
    };
    assert_eq!(guild.key(), 7);
}
