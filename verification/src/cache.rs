//! The backend facade: one repository per entity kind, constructed eagerly
//! from the backend and exposed as the read/write handles both the projector
//! and outside callers use.

use vstd::prelude::*;
use crate::entity::{
    AttachmentEntity, CategoryChannelEntity, CurrentUserEntity, EmojiEntity, GroupEntity,
    GuildEntity, MemberEntity, MessageEntity, PairId, PresenceEntity, PrivateChannelEntity,
    RoleEntity, TextChannelEntity, UserEntity, VoiceChannelEntity, VoiceStateEntity,
};
use crate::repo::{CascadeRepository, Repo, Repository};

verus! {

/// The error a repository call can signal. The in-memory backend keeps
/// everything in memory and never fails, so no value of it is ever
/// produced; the type keeps the facade's outcome shape, which callers
/// match on. See [`crate::repo::Repository`] for the narrowing this
/// reflects: a backend with real failure modes is outside this crate.
#[derive(Debug, Clone, Copy, PartialEq, Eq)]
pub struct CacheError;

/// A storage engine: one repository type per entity kind, with a
/// constructor for each. The engine is written against this capability set
/// and never against a concrete storage type. Each constructor's contract
/// ties the repository it hands out to the backend's own abstract state, so
/// the facade built over a backend is pinned exactly.
pub trait Backend: Sized {
    type AttachmentRepository: CascadeRepository<AttachmentEntity>;

    type CategoryChannelRepository: CascadeRepository<CategoryChannelEntity>;

    type CurrentUserRepository: Repository<CurrentUserEntity>;

    type EmojiRepository: CascadeRepository<EmojiEntity>;

    type GroupRepository: Repository<GroupEntity>;

    type GuildRepository: Repository<GuildEntity>;

    type MemberRepository: CascadeRepository<MemberEntity>;

    type MessageRepository: Repository<MessageEntity>;

    type PresenceRepository: CascadeRepository<PresenceEntity>;

    type PrivateChannelRepository: Repository<PrivateChannelEntity>;

    type RoleRepository: CascadeRepository<RoleEntity>;

    type StageChannelRepository: CascadeRepository<VoiceChannelEntity>;

    type TextChannelRepository: CascadeRepository<TextChannelEntity>;

    type UserRepository: Repository<UserEntity>;

    type VoiceChannelRepository: CascadeRepository<VoiceChannelEntity>;

    type VoiceStateRepository: CascadeRepository<VoiceStateEntity>;

    /// What each repository holds when it is constructed from this backend.
    spec fn attachments_held(&self) -> Map<u64, AttachmentEntity>;

    spec fn category_channels_held(&self) -> Map<u64, CategoryChannelEntity>;

    spec fn current_user_held(&self) -> Map<u64, CurrentUserEntity>;

    spec fn emojis_held(&self) -> Map<PairId, EmojiEntity>;

    spec fn groups_held(&self) -> Map<u64, GroupEntity>;

    spec fn guilds_held(&self) -> Map<u64, GuildEntity>;

    spec fn members_held(&self) -> Map<PairId, MemberEntity>;

    spec fn messages_held(&self) -> Map<u64, MessageEntity>;

    spec fn presences_held(&self) -> Map<PairId, PresenceEntity>;

    spec fn private_channels_held(&self) -> Map<u64, PrivateChannelEntity>;

    spec fn roles_held(&self) -> Map<u64, RoleEntity>;

    spec fn stage_channels_held(&self) -> Map<u64, VoiceChannelEntity>;

    spec fn text_channels_held(&self) -> Map<u64, TextChannelEntity>;

    spec fn users_held(&self) -> Map<u64, UserEntity>;

    spec fn voice_channels_held(&self) -> Map<u64, VoiceChannelEntity>;

    spec fn voice_states_held(&self) -> Map<PairId, VoiceStateEntity>;

    fn attachments(&self) -> (r: Self::AttachmentRepository)
        ensures
            r.wf(),
            r.contents() == self.attachments_held(),
    ;

    fn category_channels(&self) -> (r: Self::CategoryChannelRepository)
        ensures
            r.wf(),
            r.contents() == self.category_channels_held(),
    ;

    fn current_user(&self) -> (r: Self::CurrentUserRepository)
        ensures
            r.wf(),
            r.contents() == self.current_user_held(),
    ;

    fn emojis(&self) -> (r: Self::EmojiRepository)
        ensures
            r.wf(),
            r.contents() == self.emojis_held(),
    ;

    fn groups(&self) -> (r: Self::GroupRepository)
        ensures
            r.wf(),
            r.contents() == self.groups_held(),
    ;

    fn guilds(&self) -> (r: Self::GuildRepository)
        ensures
            r.wf(),
            r.contents() == self.guilds_held(),
    ;

    fn members(&self) -> (r: Self::MemberRepository)
        ensures
            r.wf(),
            r.contents() == self.members_held(),
    ;

    fn messages(&self) -> (r: Self::MessageRepository)
        ensures
            r.wf(),
            r.contents() == self.messages_held(),
    ;

    fn presences(&self) -> (r: Self::PresenceRepository)
        ensures
            r.wf(),
            r.contents() == self.presences_held(),
    ;

    fn private_channels(&self) -> (r: Self::PrivateChannelRepository)
        ensures
            r.wf(),
            r.contents() == self.private_channels_held(),
    ;

    fn roles(&self) -> (r: Self::RoleRepository)
        ensures
            r.wf(),
            r.contents() == self.roles_held(),
    ;

    fn stage_channels(&self) -> (r: Self::StageChannelRepository)
        ensures
            r.wf(),
            r.contents() == self.stage_channels_held(),
    ;

    fn text_channels(&self) -> (r: Self::TextChannelRepository)
        ensures
            r.wf(),
            r.contents() == self.text_channels_held(),
    ;

    fn users(&self) -> (r: Self::UserRepository)
        ensures
            r.wf(),
            r.contents() == self.users_held(),
    ;

    fn voice_channels(&self) -> (r: Self::VoiceChannelRepository)
        ensures
            r.wf(),
            r.contents() == self.voice_channels_held(),
    ;

    fn voice_states(&self) -> (r: Self::VoiceStateRepository)
        ensures
            r.wf(),
            r.contents() == self.voice_states_held(),
    ;
}

/// The in-memory storage engine: every repository it constructs starts
/// empty and keeps its entities in memory.
pub struct MemoryBackend;

impl Backend for MemoryBackend {
    type AttachmentRepository = Repo<AttachmentEntity>;

    type CategoryChannelRepository = Repo<CategoryChannelEntity>;

    type CurrentUserRepository = Repo<CurrentUserEntity>;

    type EmojiRepository = Repo<EmojiEntity>;

    type GroupRepository = Repo<GroupEntity>;

    type GuildRepository = Repo<GuildEntity>;

    type MemberRepository = Repo<MemberEntity>;

    type MessageRepository = Repo<MessageEntity>;

    type PresenceRepository = Repo<PresenceEntity>;

    type PrivateChannelRepository = Repo<PrivateChannelEntity>;

    type RoleRepository = Repo<RoleEntity>;

    type StageChannelRepository = Repo<VoiceChannelEntity>;

    type TextChannelRepository = Repo<TextChannelEntity>;

    type UserRepository = Repo<UserEntity>;

    type VoiceChannelRepository = Repo<VoiceChannelEntity>;

    type VoiceStateRepository = Repo<VoiceStateEntity>;

    open spec fn attachments_held(&self) -> Map<u64, AttachmentEntity> {
        Map::empty()
    }

    open spec fn category_channels_held(&self) -> Map<u64, CategoryChannelEntity> {
        Map::empty()
    }

    open spec fn current_user_held(&self) -> Map<u64, CurrentUserEntity> {
        Map::empty()
    }

    open spec fn emojis_held(&self) -> Map<PairId, EmojiEntity> {
        Map::empty()
    }

    open spec fn groups_held(&self) -> Map<u64, GroupEntity> {
        Map::empty()
    }

    open spec fn guilds_held(&self) -> Map<u64, GuildEntity> {
        Map::empty()
    }

    open spec fn members_held(&self) -> Map<PairId, MemberEntity> {
        Map::empty()
    }

    open spec fn messages_held(&self) -> Map<u64, MessageEntity> {
        Map::empty()
    }

    open spec fn presences_held(&self) -> Map<PairId, PresenceEntity> {
        Map::empty()
    }

    open spec fn private_channels_held(&self) -> Map<u64, PrivateChannelEntity> {
        Map::empty()
    }

    open spec fn roles_held(&self) -> Map<u64, RoleEntity> {
        Map::empty()
    }

    open spec fn stage_channels_held(&self) -> Map<u64, VoiceChannelEntity> {
        Map::empty()
    }

    open spec fn text_channels_held(&self) -> Map<u64, TextChannelEntity> {
        Map::empty()
    }

    open spec fn users_held(&self) -> Map<u64, UserEntity> {
        Map::empty()
    }

    open spec fn voice_channels_held(&self) -> Map<u64, VoiceChannelEntity> {
        Map::empty()
    }

    open spec fn voice_states_held(&self) -> Map<PairId, VoiceStateEntity> {
        Map::empty()
    }

    fn attachments(&self) -> (r: Repo<AttachmentEntity>) {
        Repo::new()
    }

    fn category_channels(&self) -> (r: Repo<CategoryChannelEntity>) {
        Repo::new()
    }

    fn current_user(&self) -> (r: Repo<CurrentUserEntity>) {
        Repo::new()
    }

    fn emojis(&self) -> (r: Repo<EmojiEntity>) {
        Repo::new()
    }

    fn groups(&self) -> (r: Repo<GroupEntity>) {
        Repo::new()
    }

    fn guilds(&self) -> (r: Repo<GuildEntity>) {
        Repo::new()
    }

    fn members(&self) -> (r: Repo<MemberEntity>) {
        Repo::new()
    }

    fn messages(&self) -> (r: Repo<MessageEntity>) {
        Repo::new()
    }

    fn presences(&self) -> (r: Repo<PresenceEntity>) {
        Repo::new()
    }

    fn private_channels(&self) -> (r: Repo<PrivateChannelEntity>) {
        Repo::new()
    }

    fn roles(&self) -> (r: Repo<RoleEntity>) {
        Repo::new()
    }

    fn stage_channels(&self) -> (r: Repo<VoiceChannelEntity>) {
        Repo::new()
    }

    fn text_channels(&self) -> (r: Repo<TextChannelEntity>) {
        Repo::new()
    }

    fn users(&self) -> (r: Repo<UserEntity>) {
        Repo::new()
    }

    fn voice_channels(&self) -> (r: Repo<VoiceChannelEntity>) {
        Repo::new()
    }

    fn voice_states(&self) -> (r: Repo<VoiceStateEntity>) {
        Repo::new()
    }
}

/// The abstract state of the whole cache: one map per entity kind.
#[verifier::ext_equal]
pub struct CacheView {
    pub attachments: Map<u64, AttachmentEntity>,
    pub category_channels: Map<u64, CategoryChannelEntity>,
    pub current_user: Map<u64, CurrentUserEntity>,
    pub emojis: Map<PairId, EmojiEntity>,
    pub groups: Map<u64, GroupEntity>,
    pub guilds: Map<u64, GuildEntity>,
    pub members: Map<PairId, MemberEntity>,
    pub messages: Map<u64, MessageEntity>,
    pub presences: Map<PairId, PresenceEntity>,
    pub private_channels: Map<u64, PrivateChannelEntity>,
    pub roles: Map<u64, RoleEntity>,
    pub stage_channels: Map<u64, VoiceChannelEntity>,
    pub text_channels: Map<u64, TextChannelEntity>,
    pub users: Map<u64, UserEntity>,
    pub voice_channels: Map<u64, VoiceChannelEntity>,
    pub voice_states: Map<PairId, VoiceStateEntity>,
}

impl CacheView {
    /// The state with nothing cached.
    pub open spec fn empty() -> CacheView {
        CacheView {
            attachments: Map::empty(),
            category_channels: Map::empty(),
            current_user: Map::empty(),
            emojis: Map::empty(),
            groups: Map::empty(),
            guilds: Map::empty(),
            members: Map::empty(),
            messages: Map::empty(),
            presences: Map::empty(),
            private_channels: Map::empty(),
            roles: Map::empty(),
            stage_channels: Map::empty(),
            text_channels: Map::empty(),
            users: Map::empty(),
            voice_channels: Map::empty(),
            voice_states: Map::empty(),
        }
    }

    /// The state a backend's repositories hold when the facade is built.
    pub open spec fn of_backend<B: Backend>(b: &B) -> CacheView {
        CacheView {
            attachments: b.attachments_held(),
            category_channels: b.category_channels_held(),
            current_user: b.current_user_held(),
            emojis: b.emojis_held(),
            groups: b.groups_held(),
            guilds: b.guilds_held(),
            members: b.members_held(),
            messages: b.messages_held(),
            presences: b.presences_held(),
            private_channels: b.private_channels_held(),
            roles: b.roles_held(),
            stage_channels: b.stage_channels_held(),
            text_channels: b.text_channels_held(),
            users: b.users_held(),
            voice_channels: b.voice_channels_held(),
            voice_states: b.voice_states_held(),
        }
    }
}

/// The facade: one repository instance per entity kind, all created when
/// the cache is built. Repositories are public read/write handles; the
/// projector issues its calls through the same handles outside callers use.
pub struct Cache<B: Backend> {
    pub backend: B,
    pub attachments: B::AttachmentRepository,
    pub category_channels: B::CategoryChannelRepository,
    pub current_user: B::CurrentUserRepository,
    pub emojis: B::EmojiRepository,
    pub groups: B::GroupRepository,
    pub guilds: B::GuildRepository,
    pub members: B::MemberRepository,
    pub messages: B::MessageRepository,
    pub presences: B::PresenceRepository,
    pub private_channels: B::PrivateChannelRepository,
    pub roles: B::RoleRepository,
    pub stage_channels: B::StageChannelRepository,
    pub text_channels: B::TextChannelRepository,
    pub users: B::UserRepository,
    pub voice_channels: B::VoiceChannelRepository,
    pub voice_states: B::VoiceStateRepository,
}

impl<B: Backend> View for Cache<B> {
    type V = CacheView;

    open spec fn view(&self) -> CacheView {
        CacheView {
            attachments: self.attachments.contents(),
            category_channels: self.category_channels.contents(),
            current_user: self.current_user.contents(),
            emojis: self.emojis.contents(),
            groups: self.groups.contents(),
            guilds: self.guilds.contents(),
            members: self.members.contents(),
            messages: self.messages.contents(),
            presences: self.presences.contents(),
            private_channels: self.private_channels.contents(),
            roles: self.roles.contents(),
            stage_channels: self.stage_channels.contents(),
            text_channels: self.text_channels.contents(),
            users: self.users.contents(),
            voice_channels: self.voice_channels.contents(),
            voice_states: self.voice_states.contents(),
        }
    }
}

impl<B: Backend> Cache<B> {
    /// Well-formedness: every repository is well formed.
    pub open spec fn inv(&self) -> bool {
        &&& self.attachments.wf()
        &&& self.category_channels.wf()
        &&& self.current_user.wf()
        &&& self.emojis.wf()
        &&& self.groups.wf()
        &&& self.guilds.wf()
        &&& self.members.wf()
        &&& self.messages.wf()
        &&& self.presences.wf()
        &&& self.private_channels.wf()
        &&& self.roles.wf()
        &&& self.stage_channels.wf()
        &&& self.text_channels.wf()
        &&& self.users.wf()
        &&& self.voice_channels.wf()
        &&& self.voice_states.wf()
    }

    /// Builds the facade over a backend: every repository instance is
    /// created here, eagerly and totally, never lazily per call, and the
    /// facade keeps the very backend it was given.
    pub fn with_backend(backend: B) -> (r: Self)
        ensures
            r.inv(),
            r@ == CacheView::of_backend(&backend),
            r.backend == backend,
    {
        let attachments = backend.attachments();
        let category_channels = backend.category_channels();
        let current_user = backend.current_user();
        let emojis = backend.emojis();
        let groups = backend.groups();
        let guilds = backend.guilds();
        let members = backend.members();
        let messages = backend.messages();
        let presences = backend.presences();
        let private_channels = backend.private_channels();
        let roles = backend.roles();
        let stage_channels = backend.stage_channels();
        let text_channels = backend.text_channels();
        let users = backend.users();
        let voice_channels = backend.voice_channels();
        let voice_states = backend.voice_states();

        Cache {
            backend,
            attachments,
            category_channels,
            current_user,
            emojis,
            groups,
            guilds,
            members,
            messages,
            presences,
            private_channels,
            roles,
            stage_channels,
            text_channels,
            users,
            voice_channels,
            voice_states,
        }
    }

    /// The backend the facade owns.
    pub fn backend(&self) -> (r: &B)
        ensures
            *r == self.backend,
    {
        &self.backend
    }
}

impl Cache<MemoryBackend> {
    /// Builds the cache over the in-memory backend, with every repository
    /// empty.
    pub fn new() -> (r: Self)
        ensures
            r.inv(),
            r@ == CacheView::empty(),
    {
        let c = Cache::with_backend(MemoryBackend);
        proof {
            assert(c@ =~= CacheView::empty());
        }
        c
    }
}

} // verus!
