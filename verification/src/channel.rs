use vstd::prelude::*;

verus! {

// ---------------------------------------------------------------------------
// Attachment references
// ---------------------------------------------------------------------------

/// Reference to an uploaded asset (an icon, a banner image, ...).
pub struct File {
    pub id: String,
}

impl DeepView for File {
    type V = Seq<char>;

    open spec fn deep_view(&self) -> Seq<char> {
        self.id@
    }
}

/// One banner shown on a channel: an optional image and an optional link.
pub struct ChannelBanner {
    pub icon: Option<File>,
    pub link: Option<String>,
}

/// Mathematical value of a `ChannelBanner`.
#[verifier::ext_equal]
pub struct BannerV {
    pub icon: Option<Seq<char>>,
    pub link: Option<Seq<char>>,
}

impl DeepView for ChannelBanner {
    type V = BannerV;

    open spec fn deep_view(&self) -> BannerV {
        BannerV { icon: self.icon.deep_view(), link: self.link.deep_view() }
    }
}

/// A requested banner in an edit payload: the image is named by its
/// attachment id and has not been resolved yet.
#[derive(Debug)]
pub struct ChannelBannerField {
    pub icon: Option<String>,
    pub link: Option<String>,
}

/// Mathematical value of a `ChannelBannerField`.
#[verifier::ext_equal]
pub struct BannerFieldV {
    pub icon: Option<Seq<char>>,
    pub link: Option<Seq<char>>,
}

impl DeepView for ChannelBannerField {
    type V = BannerFieldV;

    open spec fn deep_view(&self) -> BannerFieldV {
        BannerFieldV { icon: self.icon.deep_view(), link: self.link.deep_view() }
    }
}

// ---------------------------------------------------------------------------
// Role overrides on server channels
// ---------------------------------------------------------------------------

/// Channel-level permission override for one role: `allow` bits are granted
/// and `deny` bits are withdrawn after server-wide role aggregation.
pub struct RoleOverride {
    pub role_id: String,
    pub allow: u64,
    pub deny: u64,
}

/// Mathematical value of a `RoleOverride`.
#[verifier::ext_equal]
pub struct RoleOverrideV {
    pub role_id: Seq<char>,
    pub allow: u64,
    pub deny: u64,
}

impl DeepView for RoleOverride {
    type V = RoleOverrideV;

    open spec fn deep_view(&self) -> RoleOverrideV {
        RoleOverrideV { role_id: self.role_id@, allow: self.allow, deny: self.deny }
    }
}

// ---------------------------------------------------------------------------
// Channels
// ---------------------------------------------------------------------------

/// Fields of a channel that a partial update may clear.
#[derive(Debug, Clone, Copy, PartialEq, Eq, Structural)]
pub enum FieldsChannel {
    Description,
    Icon,
    DefaultPermissions,
}

/// A channel: a tagged union over every conversation shape the system
/// serves. Only `Group` carries a transferable owner; only `Group`,
/// `TextChannel` and `VoiceChannel` accept partial updates.
pub enum Channel {
    SavedMessages {
        id: String,
        user: String,
    },
    DirectMessage {
        id: String,
        active: bool,
        recipients: Vec<String>,
        last_message_id: Option<String>,
    },
    Group {
        id: String,
        name: String,
        owner: String,
        description: Option<String>,
        recipients: Vec<String>,
        icon: Option<File>,
        banner: Vec<ChannelBanner>,
        last_message_id: Option<String>,
        permissions: Option<u64>,
        nsfw: bool,
        password: Option<String>,
    },
    TextChannel {
        id: String,
        server: String,
        name: String,
        description: Option<String>,
        icon: Option<File>,
        banner: Vec<ChannelBanner>,
        nsfw: bool,
        password: Option<String>,
        role_overrides: Vec<RoleOverride>,
    },
    VoiceChannel {
        id: String,
        server: String,
        name: String,
        description: Option<String>,
        icon: Option<File>,
        banner: Vec<ChannelBanner>,
        nsfw: bool,
        password: Option<String>,
        role_overrides: Vec<RoleOverride>,
    },
    MarketplaceDM {
        id: String,
        buyer: String,
        seller: String,
        listing_id: String,
        recipients: Vec<String>,
        last_message_id: Option<String>,
    },
    AdminDM {
        id: String,
        server: String,
        admin: String,
        user: String,
        last_message_id: Option<String>,
    },
    ExperienceDM {
        id: String,
        user: String,
        host: String,
        experience_id: String,
        last_message_id: Option<String>,
    },
}

/// Mathematical value of a `Channel`.
#[verifier::ext_equal]
pub enum ChannelV {
    SavedMessages {
        id: Seq<char>,
        user: Seq<char>,
    },
    DirectMessage {
        id: Seq<char>,
        active: bool,
        recipients: Seq<Seq<char>>,
        last_message_id: Option<Seq<char>>,
    },
    Group {
        id: Seq<char>,
        name: Seq<char>,
        owner: Seq<char>,
        description: Option<Seq<char>>,
        recipients: Seq<Seq<char>>,
        icon: Option<Seq<char>>,
        banner: Seq<BannerV>,
        last_message_id: Option<Seq<char>>,
        permissions: Option<u64>,
        nsfw: bool,
        password: Option<Seq<char>>,
    },
    TextChannel {
        id: Seq<char>,
        server: Seq<char>,
        name: Seq<char>,
        description: Option<Seq<char>>,
        icon: Option<Seq<char>>,
        banner: Seq<BannerV>,
        nsfw: bool,
        password: Option<Seq<char>>,
        role_overrides: Seq<RoleOverrideV>,
    },
    VoiceChannel {
        id: Seq<char>,
        server: Seq<char>,
        name: Seq<char>,
        description: Option<Seq<char>>,
        icon: Option<Seq<char>>,
        banner: Seq<BannerV>,
        nsfw: bool,
        password: Option<Seq<char>>,
        role_overrides: Seq<RoleOverrideV>,
    },
    MarketplaceDM {
        id: Seq<char>,
        buyer: Seq<char>,
        seller: Seq<char>,
        listing_id: Seq<char>,
        recipients: Seq<Seq<char>>,
        last_message_id: Option<Seq<char>>,
    },
    AdminDM {
        id: Seq<char>,
        server: Seq<char>,
        admin: Seq<char>,
        user: Seq<char>,
        last_message_id: Option<Seq<char>>,
    },
    ExperienceDM {
        id: Seq<char>,
        user: Seq<char>,
        host: Seq<char>,
        experience_id: Seq<char>,
        last_message_id: Option<Seq<char>>,
    },
}

impl DeepView for Channel {
    type V = ChannelV;

    open spec fn deep_view(&self) -> ChannelV {
        match self {
            Channel::SavedMessages { id, user } => ChannelV::SavedMessages {
                id: id@,
                user: user@,
            },
            Channel::DirectMessage { id, active, recipients, last_message_id } => {
                ChannelV::DirectMessage {
                    id: id@,
                    active: *active,
                    recipients: recipients.deep_view(),
                    last_message_id: last_message_id.deep_view(),
                }
            },
            Channel::Group {
                id,
                name,
                owner,
                description,
                recipients,
                icon,
                banner,
                last_message_id,
                permissions,
                nsfw,
                password,
            } => ChannelV::Group {
                id: id@,
                name: name@,
                owner: owner@,
                description: description.deep_view(),
                recipients: recipients.deep_view(),
                icon: icon.deep_view(),
                banner: banner.deep_view(),
                last_message_id: last_message_id.deep_view(),
                permissions: *permissions,
                nsfw: *nsfw,
                password: password.deep_view(),
            },
            Channel::TextChannel {
                id,
                server,
                name,
                description,
                icon,
                banner,
                nsfw,
                password,
                role_overrides,
            } => ChannelV::TextChannel {
                id: id@,
                server: server@,
                name: name@,
                description: description.deep_view(),
                icon: icon.deep_view(),
                banner: banner.deep_view(),
                nsfw: *nsfw,
                password: password.deep_view(),
                role_overrides: role_overrides.deep_view(),
            },
            Channel::VoiceChannel {
                id,
                server,
                name,
                description,
                icon,
                banner,
                nsfw,
                password,
                role_overrides,
            } => ChannelV::VoiceChannel {
                id: id@,
                server: server@,
                name: name@,
                description: description.deep_view(),
                icon: icon.deep_view(),
                banner: banner.deep_view(),
                nsfw: *nsfw,
                password: password.deep_view(),
                role_overrides: role_overrides.deep_view(),
            },
            Channel::MarketplaceDM { id, buyer, seller, listing_id, recipients, last_message_id } => {
                ChannelV::MarketplaceDM {
                    id: id@,
                    buyer: buyer@,
                    seller: seller@,
                    listing_id: listing_id@,
                    recipients: recipients.deep_view(),
                    last_message_id: last_message_id.deep_view(),
                }
            },
            Channel::AdminDM { id, server, admin, user, last_message_id } => ChannelV::AdminDM {
                id: id@,
                server: server@,
                admin: admin@,
                user: user@,
                last_message_id: last_message_id.deep_view(),
            },
            Channel::ExperienceDM { id, user, host, experience_id, last_message_id } => {
                ChannelV::ExperienceDM {
                    id: id@,
                    user: user@,
                    host: host@,
                    experience_id: experience_id@,
                    last_message_id: last_message_id.deep_view(),
                }
            },
        }
    }
}

impl ChannelV {
    /// The identifier of a channel, whatever its variant.
    pub open spec fn id(self) -> Seq<char> {
        match self {
            ChannelV::SavedMessages { id, .. } => id,
            ChannelV::DirectMessage { id, .. } => id,
            ChannelV::Group { id, .. } => id,
            ChannelV::TextChannel { id, .. } => id,
            ChannelV::VoiceChannel { id, .. } => id,
            ChannelV::MarketplaceDM { id, .. } => id,
            ChannelV::AdminDM { id, .. } => id,
            ChannelV::ExperienceDM { id, .. } => id,
        }
    }

    /// Whether the variant accepts partial updates at all.
    pub open spec fn editable(self) -> bool {
        self is Group || self is TextChannel || self is VoiceChannel
    }
}

impl Channel {
    /// The identifier of a channel, whatever its variant.
    pub fn id(&self) -> (r: &String)
        ensures
            r@ == self.deep_view().id(),
    {
        match self {
            Channel::SavedMessages { id, .. } => id,
            Channel::DirectMessage { id, .. } => id,
            Channel::Group { id, .. } => id,
            Channel::TextChannel { id, .. } => id,
            Channel::VoiceChannel { id, .. } => id,
            Channel::MarketplaceDM { id, .. } => id,
            Channel::AdminDM { id, .. } => id,
            Channel::ExperienceDM { id, .. } => id,
        }
    }
}

// ---------------------------------------------------------------------------
// Partial updates
// ---------------------------------------------------------------------------

/// Sparse projection of a channel: every field optionally present,
/// representing "fields to set". A present field always overwrites the
/// corresponding channel field; absent fields are left untouched unless
/// named in the companion removal list.
pub struct PartialChannel {
    pub name: Option<String>,
    pub owner: Option<String>,
    pub description: Option<String>,
    pub icon: Option<File>,
    pub banner: Option<Vec<ChannelBanner>>,
    pub nsfw: Option<bool>,
    pub active: Option<bool>,
    pub password: Option<String>,
}

/// Mathematical value of a `PartialChannel`.
#[verifier::ext_equal]
pub struct PartialChannelV {
    pub name: Option<Seq<char>>,
    pub owner: Option<Seq<char>>,
    pub description: Option<Seq<char>>,
    pub icon: Option<Seq<char>>,
    pub banner: Option<Seq<BannerV>>,
    pub nsfw: Option<bool>,
    pub active: Option<bool>,
    pub password: Option<Seq<char>>,
}

impl DeepView for PartialChannel {
    type V = PartialChannelV;

    open spec fn deep_view(&self) -> PartialChannelV {
        PartialChannelV {
            name: self.name.deep_view(),
            owner: self.owner.deep_view(),
            description: self.description.deep_view(),
            icon: self.icon.deep_view(),
            banner: self.banner.deep_view(),
            nsfw: self.nsfw,
            active: self.active,
            password: self.password.deep_view(),
        }
    }
}

impl PartialChannelV {
    /// The partial that sets nothing.
    pub open spec fn empty() -> PartialChannelV {
        PartialChannelV {
            name: None,
            owner: None,
            description: None,
            icon: None,
            banner: None,
            nsfw: None,
            active: None,
            password: None,
        }
    }
}

impl Default for PartialChannel {
    /// A partial that sets nothing.
    fn default() -> (r: PartialChannel)
        ensures
            r.deep_view() == PartialChannelV::empty(),
    {
        PartialChannel {
            name: None,
            owner: None,
            description: None,
            icon: None,
            banner: None,
            nsfw: None,
            active: None,
            password: None,
        }
    }
}

// ---------------------------------------------------------------------------
// Edit payload
// ---------------------------------------------------------------------------

/// An edit-channel request: a sparse "set" payload and an explicit list of
/// fields to clear. `archived` is accepted for interface compatibility and
/// ignored by the mutation engine.
pub struct DataEditChannel {
    pub name: Option<String>,
    pub description: Option<String>,
    pub owner: Option<String>,
    pub icon: Option<String>,
    pub banner: Option<Vec<ChannelBannerField>>,
    pub nsfw: Option<bool>,
    pub archived: Option<bool>,
    pub remove: Option<Vec<FieldsChannel>>,
    pub password: Option<String>,
}

/// Mathematical value of a `DataEditChannel`.
#[verifier::ext_equal]
pub struct DataEditChannelV {
    pub name: Option<Seq<char>>,
    pub description: Option<Seq<char>>,
    pub owner: Option<Seq<char>>,
    pub icon: Option<Seq<char>>,
    pub banner: Option<Seq<BannerFieldV>>,
    pub nsfw: Option<bool>,
    pub archived: Option<bool>,
    pub remove: Option<Seq<FieldsChannel>>,
    pub password: Option<Seq<char>>,
}

impl DeepView for DataEditChannel {
    type V = DataEditChannelV;

    open spec fn deep_view(&self) -> DataEditChannelV {
        DataEditChannelV {
            name: self.name.deep_view(),
            description: self.description.deep_view(),
            owner: self.owner.deep_view(),
            icon: self.icon.deep_view(),
            banner: self.banner.deep_view(),
            nsfw: self.nsfw,
            archived: self.archived,
            remove: match self.remove {
                Some(ref v) => Some(v@),
                None => None,
            },
            password: self.password.deep_view(),
        }
    }
}

impl DataEditChannelV {
    /// A request that names no field to set and no field to clear.
    /// (`archived` does not count: it is accepted and ignored.)
    pub open spec fn is_empty(self) -> bool {
        &&& self.name is None
        &&& self.description is None
        &&& self.owner is None
        &&& self.icon is None
        &&& self.banner is None
        &&& self.nsfw is None
        &&& self.remove is None
        &&& self.password is None
    }
}

// ---------------------------------------------------------------------------
// Stored assets
// ---------------------------------------------------------------------------

/// An uploaded asset as storage records it: its identifier and whether it
/// has been scheduled for deletion.
pub struct Attachment {
    pub id: String,
    pub deleted: bool,
}

/// Mathematical value of an `Attachment`.
#[verifier::ext_equal]
pub struct AttachmentV {
    pub id: Seq<char>,
    pub deleted: bool,
}

impl DeepView for Attachment {
    type V = AttachmentV;

    open spec fn deep_view(&self) -> AttachmentV {
        AttachmentV { id: self.id@, deleted: self.deleted }
    }
}

// ---------------------------------------------------------------------------
// Value-preserving copies
// ---------------------------------------------------------------------------

/// Copy an optional string, keeping its contents.
pub fn clone_opt_string(o: &Option<String>) -> (r: Option<String>)
    ensures
        r.deep_view() == o.deep_view(),
{
    match o {
        Some(s) => Some(s.clone()),
        None => None,
    }
}

/// Copy an asset reference, keeping its contents.
pub fn clone_file(f: &File) -> (r: File)
    ensures
        r.deep_view() == f.deep_view(),
{
    File { id: f.id.clone() }
}

/// Copy an optional asset reference, keeping its contents.
pub fn clone_opt_file(o: &Option<File>) -> (r: Option<File>)
    ensures
        r.deep_view() == o.deep_view(),
{
    match o {
        Some(f) => Some(clone_file(f)),
        None => None,
    }
}

/// Copy a banner, keeping its contents.
pub fn clone_banner(b: &ChannelBanner) -> (r: ChannelBanner)
    ensures
        r.deep_view() == b.deep_view(),
{
    ChannelBanner { icon: clone_opt_file(&b.icon), link: clone_opt_string(&b.link) }
}

/// Copy a banner list, keeping its contents.
pub fn clone_banners(v: &Vec<ChannelBanner>) -> (r: Vec<ChannelBanner>)
    ensures
        r.deep_view() == v.deep_view(),
{
    let mut out: Vec<ChannelBanner> = Vec::new();
    let mut i: usize = 0;
    while i < v.len()
        invariant
            i <= v.len(),
            out.len() == i,
            forall|j: int| 0 <= j < i ==> out.deep_view()[j] == v.deep_view()[j],
        decreases v.len() - i,
    {
        out.push(clone_banner(&v[i]));
        proof {
            assert(out.deep_view()[i as int] == out@[i as int].deep_view());
            assert(v.deep_view()[i as int] == v@[i as int].deep_view());
        }
        i = i + 1;
    }
    proof {
        assert(out.deep_view() =~= v.deep_view());
    }
    out
}

/// Copy a string list, keeping its contents.
pub fn clone_strings(v: &Vec<String>) -> (r: Vec<String>)
    ensures
        r.deep_view() == v.deep_view(),
{
    let mut out: Vec<String> = Vec::new();
    let mut i: usize = 0;
    while i < v.len()
        invariant
            i <= v.len(),
            out.len() == i,
            forall|j: int| 0 <= j < i ==> out.deep_view()[j] == v.deep_view()[j],
        decreases v.len() - i,
    {
        out.push(v[i].clone());
        proof {
            assert(out.deep_view()[i as int] == out@[i as int].deep_view());
            assert(v.deep_view()[i as int] == v@[i as int].deep_view());
        }
        i = i + 1;
    }
    proof {
        assert(out.deep_view() =~= v.deep_view());
    }
    out
}

/// Copy a role-override list, keeping its contents.
pub fn clone_overrides(v: &Vec<RoleOverride>) -> (r: Vec<RoleOverride>)
    ensures
        r.deep_view() == v.deep_view(),
{
    let mut out: Vec<RoleOverride> = Vec::new();
    let mut i: usize = 0;
    while i < v.len()
        invariant
            i <= v.len(),
            out.len() == i,
            forall|j: int| 0 <= j < i ==> out.deep_view()[j] == v.deep_view()[j],
        decreases v.len() - i,
    {
        out.push(
            RoleOverride {
                role_id: v[i].role_id.clone(),
                allow: v[i].allow,
                deny: v[i].deny,
            },
        );
        proof {
            assert(out.deep_view()[i as int] == out@[i as int].deep_view());
            assert(v.deep_view()[i as int] == v@[i as int].deep_view());
        }
        i = i + 1;
    }
    proof {
        assert(out.deep_view() =~= v.deep_view());
    }
    out
}

impl Channel {
    /// Copy a channel, keeping its contents.
    pub fn duplicate(&self) -> (r: Channel)
        ensures
            r.deep_view() == self.deep_view(),
    {
        match self {
            Channel::SavedMessages { id, user } => Channel::SavedMessages {
                id: id.clone(),
                user: user.clone(),
            },
            Channel::DirectMessage { id, active, recipients, last_message_id } => {
                Channel::DirectMessage {
                    id: id.clone(),
                    active: *active,
                    recipients: clone_strings(recipients),
                    last_message_id: clone_opt_string(last_message_id),
                }
            },
            Channel::Group {
                id,
                name,
                owner,
                description,
                recipients,
                icon,
                banner,
                last_message_id,
                permissions,
                nsfw,
                password,
            } => Channel::Group {
                id: id.clone(),
                name: name.clone(),
                owner: owner.clone(),
                description: clone_opt_string(description),
                recipients: clone_strings(recipients),
                icon: clone_opt_file(icon),
                banner: clone_banners(banner),
                last_message_id: clone_opt_string(last_message_id),
                permissions: *permissions,
                nsfw: *nsfw,
                password: clone_opt_string(password),
            },
            Channel::TextChannel {
                id,
                server,
                name,
                description,
                icon,
                banner,
                nsfw,
                password,
                role_overrides,
            } => Channel::TextChannel {
                id: id.clone(),
                server: server.clone(),
                name: name.clone(),
                description: clone_opt_string(description),
                icon: clone_opt_file(icon),
                banner: clone_banners(banner),
                nsfw: *nsfw,
                password: clone_opt_string(password),
                role_overrides: clone_overrides(role_overrides),
            },
            Channel::VoiceChannel {
                id,
                server,
                name,
                description,
                icon,
                banner,
                nsfw,
                password,
                role_overrides,
            } => Channel::VoiceChannel {
                id: id.clone(),
                server: server.clone(),
                name: name.clone(),
                description: clone_opt_string(description),
                icon: clone_opt_file(icon),
                banner: clone_banners(banner),
                nsfw: *nsfw,
                password: clone_opt_string(password),
                role_overrides: clone_overrides(role_overrides),
            },
            Channel::MarketplaceDM { id, buyer, seller, listing_id, recipients, last_message_id } => {
                Channel::MarketplaceDM {
                    id: id.clone(),
                    buyer: buyer.clone(),
                    seller: seller.clone(),
                    listing_id: listing_id.clone(),
                    recipients: clone_strings(recipients),
                    last_message_id: clone_opt_string(last_message_id),
                }
            },
            Channel::AdminDM { id, server, admin, user, last_message_id } => Channel::AdminDM {
                id: id.clone(),
                server: server.clone(),
                admin: admin.clone(),
                user: user.clone(),
                last_message_id: clone_opt_string(last_message_id),
            },
            Channel::ExperienceDM { id, user, host, experience_id, last_message_id } => {
                Channel::ExperienceDM {
                    id: id.clone(),
                    user: user.clone(),
                    host: host.clone(),
                    experience_id: experience_id.clone(),
                    last_message_id: clone_opt_string(last_message_id),
                }
            },
        }
    }
}

} // verus!
