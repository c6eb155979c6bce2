use entity_cache::entity::{AttachmentEntity, MemberEntity, PairId, UserEntity};
use entity_cache::repo::Repo;

fn user(id: u64) -> UserEntity {
    UserEntity { id, bot: false, discriminator: 1, public_flags: None }
}

fn member(guild_id: u64, user_id: u64) -> MemberEntity {
    MemberEntity {
        guild_id,
        user_id,
        deaf: false,
        mute: false,
        pending: false,
        premium_since: None,
        joined_at: Some(7),
    }
}

#[test]
fn upsert_then_get_returns_the_entity() {
    let mut repo: Repo<UserEntity> = Repo::new();
    let u = user(5);
    repo.upsert(u);
    assert_eq!(repo.get(5), Some(u));
}

#[test]
fn upsert_replaces_whole_value() {
    let mut repo: Repo<UserEntity> = Repo::new();
    repo.upsert(user(5));
    let changed = UserEntity { id: 5, bot: true, discriminator: 9, public_flags: Some(4) };
    repo.upsert(changed);
    assert_eq!(repo.get(5), Some(changed));
    assert_eq!(repo.len(), 1);
}

#[test]
fn remove_then_get_returns_absence() {
    let mut repo: Repo<UserEntity> = Repo::new();
    repo.upsert(user(5));
    repo.remove(5);
    assert_eq!(repo.get(5), None);
    repo.remove(5);
    assert_eq!(repo.get(5), None);
    assert_eq!(repo.len(), 0);
}

#[test]
fn get_absent_is_not_an_error() {
    let repo: Repo<UserEntity> = Repo::new();
    assert_eq!(repo.get(123), None);
}

#[test]
fn bulk_upsert_writes_every_element() {
    let mut repo: Repo<UserEntity> = Repo::new();
    repo.upsert_bulk(&vec![user(1), user(2), user(3)]);
    assert_eq!(repo.len(), 3);
    assert_eq!(repo.get(2), Some(user(2)));
}

#[test]
fn bulk_upsert_with_equal_keys_keeps_a_whole_record() {
    let mut repo: Repo<UserEntity> = Repo::new();
    let later = UserEntity { id: 1, bot: true, discriminator: 2, public_flags: None };
    repo.upsert_bulk(&vec![user(1), later]);
    assert_eq!(repo.len(), 1);
    assert_eq!(repo.get(1), Some(later));
}

#[test]
fn composite_keys_are_unique_on_the_full_tuple() {
    let mut repo: Repo<MemberEntity> = Repo::new();
    repo.upsert(member(1, 10));
    repo.upsert(member(1, 11));
    repo.upsert(member(2, 10));
    assert_eq!(repo.len(), 3);
    assert_eq!(repo.get(PairId { guild_id: 1, id: 10 }), Some(member(1, 10)));
    assert_eq!(repo.get(PairId { guild_id: 2, id: 10 }), Some(member(2, 10)));
}

#[test]
fn listing_finds_every_child_of_the_parent() {
    let mut repo: Repo<AttachmentEntity> = Repo::new();
    repo.upsert(AttachmentEntity { id: 1, message_id: 9, size: 10 });
    repo.upsert(AttachmentEntity { id: 2, message_id: 9, size: 20 });
    repo.upsert(AttachmentEntity { id: 3, message_id: 8, size: 30 });
    let mut ids = repo.ids_of_parent(9);
    ids.sort();
    assert_eq!(ids, vec![1, 2]);
}

#[test]
fn cascade_removes_exactly_the_parents_children() {
    let mut repo: Repo<AttachmentEntity> = Repo::new();
    repo.upsert(AttachmentEntity { id: 1, message_id: 9, size: 10 });
    repo.upsert(AttachmentEntity { id: 2, message_id: 9, size: 20 });
    repo.upsert(AttachmentEntity { id: 3, message_id: 8, size: 30 });
    repo.remove_parent(9);
    assert_eq!(repo.len(), 1);
    assert_eq!(repo.get(1), None);
    assert_eq!(repo.get(2), None);
    assert_eq!(repo.get(3), Some(AttachmentEntity { id: 3, message_id: 8, size: 30 }));
}
