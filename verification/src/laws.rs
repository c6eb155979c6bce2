//! The laws the cache obeys, each proved from the contracts the repositories
//! and the projector state.

use vstd::prelude::*;
use crate::cache::CacheView;
use crate::entity::PairId;
use crate::events::{
    GuildUpdatePayload, MemberPayload, MemberUpdatePayload, spec_guild_with_unavailable,
    spec_member_entity,
};
use crate::project::{
    apply_channel_pins_update, apply_guild_cascade, apply_guild_delete, apply_guild_update,
    apply_member_add, apply_member_update, apply_message_delete,
};
use crate::repo::{Child, Entity, lookup, purge};

verus! {

/// Upserting an entity and then getting its identifier returns exactly that
/// entity, whatever was stored before.
pub proof fn lemma_upsert_then_get<E: Entity>(m: Map<E::Id, E>, e: E)
    ensures
        lookup(m.insert(e.eid(), e), e.eid()) == Some(e),
{
}

/// Removing an identifier makes a get return absence, and a second remove
/// changes nothing: removal is idempotent and never an error.
pub proof fn lemma_remove_then_get<E: Entity>(m: Map<E::Id, E>, id: E::Id)
    ensures
        lookup(m.remove(id), id) == None::<E>,
        m.remove(id).remove(id) == m.remove(id),
{
    assert(m.remove(id).remove(id) =~= m.remove(id));
}

/// A merge-type update whose target entity is absent leaves the whole cache
/// state unchanged; the projector reports such an update as a success, by
/// its `process` contracts, never as an error.
pub proof fn lemma_merge_update_absent(
    v: CacheView,
    gp: GuildUpdatePayload,
    mp: MemberUpdatePayload,
    channel_id: u64,
    ts: Option<u64>,
)
    requires
        !v.guilds.contains_key(gp.id),
        !v.members.contains_key(PairId { guild_id: mp.guild_id, id: mp.user.id }),
        !v.groups.contains_key(channel_id),
        !v.text_channels.contains_key(channel_id),
        !v.private_channels.contains_key(channel_id),
    ensures
        apply_guild_update(v, gp) == v,
        apply_member_update(v, mp) == v,
        apply_channel_pins_update(v, channel_id, ts) == v,
{
}

/// A cascade removes exactly the entities of the removed parent: every
/// entity of another parent stays, unchanged.
pub proof fn lemma_purge_exact<E: Child>(m: Map<E::Id, E>, p: u64)
    ensures
        forall|k: E::Id| #[trigger]
            purge(m, p).contains_key(k) <==> m.contains_key(k) && m[k].parent_of() != p,
        forall|k: E::Id| #[trigger] purge(m, p).contains_key(k) ==> purge(m, p)[k] == m[k],
{
}

/// A guild delete marked unavailable never reduces any repository: every
/// child repository is left exactly as it was, the set of stored guilds is
/// unchanged, and the only change of value is the guild's own availability
/// flag.
pub proof fn lemma_unavailable_delete_preserves_children(v: CacheView, id: u64)
    ensures
        apply_guild_delete(v, id, true).category_channels == v.category_channels,
        apply_guild_delete(v, id, true).text_channels == v.text_channels,
        apply_guild_delete(v, id, true).stage_channels == v.stage_channels,
        apply_guild_delete(v, id, true).voice_channels == v.voice_channels,
        apply_guild_delete(v, id, true).emojis == v.emojis,
        apply_guild_delete(v, id, true).members == v.members,
        apply_guild_delete(v, id, true).presences == v.presences,
        apply_guild_delete(v, id, true).roles == v.roles,
        apply_guild_delete(v, id, true).voice_states == v.voice_states,
        apply_guild_delete(v, id, true).users == v.users,
        apply_guild_delete(v, id, true).messages == v.messages,
        apply_guild_delete(v, id, true).attachments == v.attachments,
        apply_guild_delete(v, id, true).guilds.dom() == v.guilds.dom(),
        forall|k: u64|
            k != id && #[trigger] v.guilds.contains_key(k) ==> apply_guild_delete(
                v,
                id,
                true,
            ).guilds[k] == v.guilds[k],
        v.guilds.contains_key(id) ==> apply_guild_delete(v, id, true).guilds[id]
            == spec_guild_with_unavailable(v.guilds[id], true),
{
    if v.guilds.contains_key(id) {
        assert(apply_guild_delete(v, id, true).guilds.dom() =~= v.guilds.dom());
    }
}

/// The cascade phase of a structural guild delete never touches the guild
/// record and leaves no child of that guild behind: when the second phase
/// removes the record, every child is already gone, so no live child ever
/// references a missing guild.
pub proof fn lemma_cascade_before_record_removal(v: CacheView, id: u64)
    ensures
        apply_guild_cascade(v, id).guilds == v.guilds,
        forall|k: u64| #[trigger]
            apply_guild_cascade(v, id).category_channels.contains_key(k) ==> apply_guild_cascade(
                v,
                id,
            ).category_channels[k].guild_id != id,
        forall|k: u64| #[trigger]
            apply_guild_cascade(v, id).text_channels.contains_key(k) ==> apply_guild_cascade(
                v,
                id,
            ).text_channels[k].guild_id != id,
        forall|k: u64| #[trigger]
            apply_guild_cascade(v, id).stage_channels.contains_key(k) ==> apply_guild_cascade(
                v,
                id,
            ).stage_channels[k].guild_id != id,
        forall|k: u64| #[trigger]
            apply_guild_cascade(v, id).voice_channels.contains_key(k) ==> apply_guild_cascade(
                v,
                id,
            ).voice_channels[k].guild_id != id,
        forall|k: PairId| #[trigger]
            apply_guild_cascade(v, id).emojis.contains_key(k) ==> apply_guild_cascade(
                v,
                id,
            ).emojis[k].guild_id != id,
        forall|k: PairId| #[trigger]
            apply_guild_cascade(v, id).members.contains_key(k) ==> apply_guild_cascade(
                v,
                id,
            ).members[k].guild_id != id,
        forall|k: PairId| #[trigger]
            apply_guild_cascade(v, id).presences.contains_key(k) ==> apply_guild_cascade(
                v,
                id,
            ).presences[k].guild_id != id,
        forall|k: u64| #[trigger]
            apply_guild_cascade(v, id).roles.contains_key(k) ==> apply_guild_cascade(
                v,
                id,
            ).roles[k].guild_id != id,
        forall|k: PairId| #[trigger]
            apply_guild_cascade(v, id).voice_states.contains_key(k) ==> apply_guild_cascade(
                v,
                id,
            ).voice_states[k].guild_id != id,
        apply_guild_delete(v, id, false) == (CacheView {
            guilds: apply_guild_cascade(v, id).guilds.remove(id),
            ..apply_guild_cascade(v, id)
        }),
{
}

/// A structural guild delete (not merely unavailable) empties every child
/// repository's membership for that guild, keeps every other guild's
/// children unchanged, and removes the guild record itself.
pub proof fn lemma_structural_delete_empties(v: CacheView, id: u64)
    ensures
        !apply_guild_delete(v, id, false).guilds.contains_key(id),
        forall|k: u64| #[trigger]
            apply_guild_delete(v, id, false).category_channels.contains_key(k) ==> apply_guild_delete(
                v,
                id,
                false,
            ).category_channels[k].guild_id != id,
        forall|k: u64| #[trigger]
            apply_guild_delete(v, id, false).text_channels.contains_key(k) ==> apply_guild_delete(
                v,
                id,
                false,
            ).text_channels[k].guild_id != id,
        forall|k: u64| #[trigger]
            apply_guild_delete(v, id, false).stage_channels.contains_key(k) ==> apply_guild_delete(
                v,
                id,
                false,
            ).stage_channels[k].guild_id != id,
        forall|k: u64| #[trigger]
            apply_guild_delete(v, id, false).voice_channels.contains_key(k) ==> apply_guild_delete(
                v,
                id,
                false,
            ).voice_channels[k].guild_id != id,
        forall|k: PairId| #[trigger]
            apply_guild_delete(v, id, false).emojis.contains_key(k) ==> apply_guild_delete(
                v,
                id,
                false,
            ).emojis[k].guild_id != id,
        forall|k: PairId| #[trigger]
            apply_guild_delete(v, id, false).members.contains_key(k) ==> apply_guild_delete(
                v,
                id,
                false,
            ).members[k].guild_id != id,
        forall|k: PairId| #[trigger]
            apply_guild_delete(v, id, false).presences.contains_key(k) ==> apply_guild_delete(
                v,
                id,
                false,
            ).presences[k].guild_id != id,
        forall|k: u64| #[trigger]
            apply_guild_delete(v, id, false).roles.contains_key(k) ==> apply_guild_delete(
                v,
                id,
                false,
            ).roles[k].guild_id != id,
        forall|k: PairId| #[trigger]
            apply_guild_delete(v, id, false).voice_states.contains_key(k) ==> apply_guild_delete(
                v,
                id,
                false,
            ).voice_states[k].guild_id != id,
        apply_guild_delete(v, id, false).users == v.users,
        apply_guild_delete(v, id, false).messages == v.messages,
        apply_guild_delete(v, id, false).attachments == v.attachments,
        apply_guild_delete(v, id, false).groups == v.groups,
        apply_guild_delete(v, id, false).private_channels == v.private_channels,
{
}

/// A message delete removes the message record and every attachment stored
/// under that message, and nothing else: attachments of other messages and
/// other messages stay exactly as stored.
pub proof fn lemma_message_delete_removes_attachments(v: CacheView, id: u64)
    ensures
        !apply_message_delete(v, id).messages.contains_key(id),
        forall|k: u64| #[trigger]
            apply_message_delete(v, id).attachments.contains_key(k) ==> apply_message_delete(
                v,
                id,
            ).attachments[k].message_id != id,
        forall|k: u64|
            v.attachments.contains_key(k) && v.attachments[k].message_id != id
                ==> apply_message_delete(v, id).attachments.contains_key(k)
                && apply_message_delete(v, id).attachments[k] == v.attachments[k],
        forall|k: u64|
            k != id && #[trigger] v.messages.contains_key(k) ==> apply_message_delete(
                v,
                id,
            ).messages.contains_key(k) && apply_message_delete(v, id).messages[k] == v.messages[k],
{
}

/// Two member adds for different users are independent: projected in either
/// order they end in the same cache state, and each member and user record
/// reflects only its own event.
pub proof fn lemma_member_adds_commute(v: CacheView, p1: MemberPayload, p2: MemberPayload)
    requires
        p1.user.id != p2.user.id,
    ensures
        apply_member_add(apply_member_add(v, p1), p2) == apply_member_add(
            apply_member_add(v, p2),
            p1,
        ),
        lookup(apply_member_add(apply_member_add(v, p1), p2).users, p1.user.id) == Some(p1.user),
        lookup(apply_member_add(apply_member_add(v, p1), p2).users, p2.user.id) == Some(p2.user),
        lookup(
            apply_member_add(apply_member_add(v, p1), p2).members,
            spec_member_entity(p1).eid(),
        ) == Some(spec_member_entity(p1)),
        lookup(
            apply_member_add(apply_member_add(v, p1), p2).members,
            spec_member_entity(p2).eid(),
        ) == Some(spec_member_entity(p2)),
{
    let a = apply_member_add(apply_member_add(v, p1), p2);
    let b = apply_member_add(apply_member_add(v, p2), p1);
    assert(a.users =~= b.users);
    assert(a.members =~= b.members);
    assert(a =~= b);
}

/// A member add and a message delete touch disjoint repositories: projected
/// in either order they end in the same cache state.
pub proof fn lemma_member_add_message_delete_commute(v: CacheView, p: MemberPayload, id: u64)
    ensures
        apply_message_delete(apply_member_add(v, p), id) == apply_member_add(
            apply_message_delete(v, id),
            p,
        ),
{
    assert(apply_message_delete(apply_member_add(v, p), id) =~= apply_member_add(
        apply_message_delete(v, id),
        p,
    ));
}

} // verus!
