use vstd::prelude::*;

use crate::channel::{
    Attachment, AttachmentV, BannerFieldV, BannerV, Channel, ChannelBanner, ChannelBannerField,
    ChannelV, DataEditChannel, DataEditChannelV, FieldsChannel, File, PartialChannel,
    PartialChannelV, RoleOverride, RoleOverrideV, clone_banners, clone_opt_file, clone_opt_string,
    clone_overrides, clone_strings,
};
use crate::error::Error;
use crate::perms::contains_string;
use crate::system_message::{SystemMessage, SystemMessageV, derive_system_messages, emitted_messages};

verus! {

// ---------------------------------------------------------------------------
// Splitting an editable channel into its mutable and fixed parts
// ---------------------------------------------------------------------------

/// The fields a partial update may touch, shared by the editable variants.
pub struct EditableCommon {
    pub name: String,
    pub description: Option<String>,
    pub icon: Option<File>,
    pub banner: Vec<ChannelBanner>,
    pub nsfw: bool,
    pub password: Option<String>,
}

/// Mathematical value of `EditableCommon`.
#[verifier::ext_equal]
pub struct EditableCommonV {
    pub name: Seq<char>,
    pub description: Option<Seq<char>>,
    pub icon: Option<Seq<char>>,
    pub banner: Seq<BannerV>,
    pub nsfw: bool,
    pub password: Option<Seq<char>>,
}

impl DeepView for EditableCommon {
    type V = EditableCommonV;

    open spec fn deep_view(&self) -> EditableCommonV {
        EditableCommonV {
            name: self.name@,
            description: self.description.deep_view(),
            icon: self.icon.deep_view(),
            banner: self.banner.deep_view(),
            nsfw: self.nsfw,
            password: self.password.deep_view(),
        }
    }
}

/// The fields a partial update never touches, per editable variant.
/// (The owner is special: it moves only through a validated transfer.)
pub enum EditableRest {
    GroupRest {
        id: String,
        owner: String,
        recipients: Vec<String>,
        last_message_id: Option<String>,
        permissions: Option<u64>,
    },
    TextRest { id: String, server: String, role_overrides: Vec<RoleOverride> },
    VoiceRest { id: String, server: String, role_overrides: Vec<RoleOverride> },
}

/// Mathematical value of `EditableRest`.
#[verifier::ext_equal]
pub enum EditableRestV {
    GroupRest {
        id: Seq<char>,
        owner: Seq<char>,
        recipients: Seq<Seq<char>>,
        last_message_id: Option<Seq<char>>,
        permissions: Option<u64>,
    },
    TextRest { id: Seq<char>, server: Seq<char>, role_overrides: Seq<RoleOverrideV> },
    VoiceRest { id: Seq<char>, server: Seq<char>, role_overrides: Seq<RoleOverrideV> },
}

impl DeepView for EditableRest {
    type V = EditableRestV;

    open spec fn deep_view(&self) -> EditableRestV {
        match self {
            EditableRest::GroupRest { id, owner, recipients, last_message_id, permissions } => {
                EditableRestV::GroupRest {
                    id: id@,
                    owner: owner@,
                    recipients: recipients.deep_view(),
                    last_message_id: last_message_id.deep_view(),
                    permissions: *permissions,
                }
            },
            EditableRest::TextRest { id, server, role_overrides } => EditableRestV::TextRest {
                id: id@,
                server: server@,
                role_overrides: role_overrides.deep_view(),
            },
            EditableRest::VoiceRest { id, server, role_overrides } => EditableRestV::VoiceRest {
                id: id@,
                server: server@,
                role_overrides: role_overrides.deep_view(),
            },
        }
    }
}

/// The mutable part of an editable channel.
pub open spec fn common_of(c: ChannelV) -> EditableCommonV
    recommends
        c.editable(),
{
    match c {
        ChannelV::Group { name, description, icon, banner, nsfw, password, .. } => {
            EditableCommonV { name, description, icon, banner, nsfw, password }
        },
        ChannelV::TextChannel { name, description, icon, banner, nsfw, password, .. } => {
            EditableCommonV { name, description, icon, banner, nsfw, password }
        },
        ChannelV::VoiceChannel { name, description, icon, banner, nsfw, password, .. } => {
            EditableCommonV { name, description, icon, banner, nsfw, password }
        },
        _ => EditableCommonV {
            name: Seq::empty(),
            description: None,
            icon: None,
            banner: Seq::empty(),
            nsfw: false,
            password: None,
        },
    }
}

/// The fixed part of an editable channel.
pub open spec fn rest_of(c: ChannelV) -> EditableRestV
    recommends
        c.editable(),
{
    match c {
        ChannelV::Group { id, owner, recipients, last_message_id, permissions, .. } => {
            EditableRestV::GroupRest { id, owner, recipients, last_message_id, permissions }
        },
        ChannelV::TextChannel { id, server, role_overrides, .. } => EditableRestV::TextRest {
            id,
            server,
            role_overrides,
        },
        ChannelV::VoiceChannel { id, server, role_overrides, .. } => EditableRestV::VoiceRest {
            id,
            server,
            role_overrides,
        },
        _ => EditableRestV::TextRest {
            id: Seq::empty(),
            server: Seq::empty(),
            role_overrides: Seq::empty(),
        },
    }
}

/// Reassemble a channel from its mutable and fixed parts.
pub open spec fn join_v(m: EditableCommonV, rest: EditableRestV) -> ChannelV {
    match rest {
        EditableRestV::GroupRest { id, owner, recipients, last_message_id, permissions } => {
            ChannelV::Group {
                id,
                name: m.name,
                owner,
                description: m.description,
                recipients,
                icon: m.icon,
                banner: m.banner,
                last_message_id,
                permissions,
                nsfw: m.nsfw,
                password: m.password,
            }
        },
        EditableRestV::TextRest { id, server, role_overrides } => ChannelV::TextChannel {
            id,
            server,
            name: m.name,
            description: m.description,
            icon: m.icon,
            banner: m.banner,
            nsfw: m.nsfw,
            password: m.password,
            role_overrides,
        },
        EditableRestV::VoiceRest { id, server, role_overrides } => ChannelV::VoiceChannel {
            id,
            server,
            name: m.name,
            description: m.description,
            icon: m.icon,
            banner: m.banner,
            nsfw: m.nsfw,
            password: m.password,
            role_overrides,
        },
    }
}

/// Replace the owner on a group's fixed part; other shapes are untouched.
pub open spec fn rest_with_owner(rest: EditableRestV, owner: Option<Seq<char>>) -> EditableRestV {
    match (rest, owner) {
        (
            EditableRestV::GroupRest { id, recipients, last_message_id, permissions, .. },
            Some(new_owner),
        ) => EditableRestV::GroupRest {
            id,
            owner: new_owner,
            recipients,
            last_message_id,
            permissions,
        },
        _ => rest,
    }
}

/// Split an editable channel into its mutable and fixed parts; refuse the
/// other shapes.
fn split_editable(c: &Channel) -> (r: Option<(EditableCommon, EditableRest)>)
    ensures
        r is Some <==> c.deep_view().editable(),
        r matches Some((m, rest)) ==> m.deep_view() == common_of(c.deep_view()) && rest.deep_view()
            == rest_of(c.deep_view()),
{
    match c {
        Channel::Group {
            id,
            name,
            owner,
            description,
            recipients,
            icon,
            banner,
            last_message_id,
            permissions,
            nsfw,
            password,
        } => Some(
            (
                EditableCommon {
                    name: name.clone(),
                    description: clone_opt_string(description),
                    icon: clone_opt_file(icon),
                    banner: clone_banners(banner),
                    nsfw: *nsfw,
                    password: clone_opt_string(password),
                },
                EditableRest::GroupRest {
                    id: id.clone(),
                    owner: owner.clone(),
                    recipients: clone_strings(recipients),
                    last_message_id: clone_opt_string(last_message_id),
                    permissions: *permissions,
                },
            ),
        ),
        Channel::TextChannel {
            id,
            server,
            name,
            description,
            icon,
            banner,
            nsfw,
            password,
            role_overrides,
        } => Some(
            (
                EditableCommon {
                    name: name.clone(),
                    description: clone_opt_string(description),
                    icon: clone_opt_file(icon),
                    banner: clone_banners(banner),
                    nsfw: *nsfw,
                    password: clone_opt_string(password),
                },
                EditableRest::TextRest {
                    id: id.clone(),
                    server: server.clone(),
                    role_overrides: clone_overrides(role_overrides),
                },
            ),
        ),
        Channel::VoiceChannel {
            id,
            server,
            name,
            description,
            icon,
            banner,
            nsfw,
            password,
            role_overrides,
        } => Some(
            (
                EditableCommon {
                    name: name.clone(),
                    description: clone_opt_string(description),
                    icon: clone_opt_file(icon),
                    banner: clone_banners(banner),
                    nsfw: *nsfw,
                    password: clone_opt_string(password),
                },
                EditableRest::VoiceRest {
                    id: id.clone(),
                    server: server.clone(),
                    role_overrides: clone_overrides(role_overrides),
                },
            ),
        ),
        _ => None,
    }
}

/// Reassemble a channel from its mutable and fixed parts.
fn join_editable(m: EditableCommon, rest: EditableRest) -> (c: Channel)
    ensures
        c.deep_view() == join_v(m.deep_view(), rest.deep_view()),
{
    match rest {
        EditableRest::GroupRest { id, owner, recipients, last_message_id, permissions } => {
            Channel::Group {
                id,
                name: m.name,
                owner,
                description: m.description,
                recipients,
                icon: m.icon,
                banner: m.banner,
                last_message_id,
                permissions,
                nsfw: m.nsfw,
                password: m.password,
            }
        },
        EditableRest::TextRest { id, server, role_overrides } => Channel::TextChannel {
            id,
            server,
            name: m.name,
            description: m.description,
            icon: m.icon,
            banner: m.banner,
            nsfw: m.nsfw,
            password: m.password,
            role_overrides,
        },
        EditableRest::VoiceRest { id, server, role_overrides } => Channel::VoiceChannel {
            id,
            server,
            name: m.name,
            description: m.description,
            icon: m.icon,
            banner: m.banner,
            nsfw: m.nsfw,
            password: m.password,
            role_overrides,
        },
    }
}

// ---------------------------------------------------------------------------
// Asset resolution
// ---------------------------------------------------------------------------

/// Resolving an asset id against the stored attachments: the id itself when
/// an attachment carries it and is not scheduled for deletion.
pub open spec fn resolve_attachment(atts: Seq<AttachmentV>, id: Seq<char>) -> Option<Seq<char>>
    decreases atts.len(),
{
    if atts.len() == 0 {
        None
    } else if atts[0].id == id {
        if !atts[0].deleted {
            Some(id)
        } else {
            None
        }
    } else {
        resolve_attachment(atts.drop_first(), id)
    }
}

/// Resolve an asset id to a usable file reference.
pub fn resolve_attachment_exec(atts: &Vec<Attachment>, id: &String) -> (r: Option<File>)
    ensures
        r.deep_view() == resolve_attachment(atts.deep_view(), id@),
{
    let ghost dv = atts.deep_view();
    proof {
        assert(dv.skip(0) =~= dv);
    }
    let mut i: usize = 0;
    while i < atts.len()
        invariant
            i <= atts.len(),
            dv == atts.deep_view(),
            resolve_attachment(dv, id@) == resolve_attachment(dv.skip(i as int), id@),
        decreases atts.len() - i,
    {
        proof {
            assert(dv[i as int] == atts@[i as int].deep_view());
            assert(dv.skip(i as int)[0] == dv[i as int]);
            assert(dv.skip(i as int).drop_first() =~= dv.skip(i as int + 1));
        }
        if atts[i].id == *id {
            if !atts[i].deleted {
                return Some(File { id: id.clone() });
            } else {
                return None;
            }
        }
        i = i + 1;
    }
    proof {
        assert(dv.skip(i as int) =~= Seq::<AttachmentV>::empty());
    }
    None
}

/// A successful resolution hands back exactly the queried id.
pub proof fn lemma_resolve_attachment_id(atts: Seq<AttachmentV>, id: Seq<char>)
    ensures
        resolve_attachment(atts, id) is Some ==> resolve_attachment(atts, id) == Some(id),
    decreases atts.len(),
{
    if atts.len() > 0 && atts[0].id != id {
        lemma_resolve_attachment_id(atts.drop_first(), id);
    }
}

/// Resolving a requested banner list: entries without an image are skipped;
/// an entry whose image cannot be resolved fails the whole list.
pub open spec fn resolve_banners(atts: Seq<AttachmentV>, banners: Seq<BannerFieldV>) -> Option<
    Seq<BannerV>,
>
    decreases banners.len(),
{
    if banners.len() == 0 {
        Some(Seq::empty())
    } else {
        match banners[0].icon {
            None => resolve_banners(atts, banners.drop_first()),
            Some(icon_id) => {
                if resolve_attachment(atts, icon_id) is Some {
                    match resolve_banners(atts, banners.drop_first()) {
                        Some(tail) => Some(
                            seq![BannerV { icon: Some(icon_id), link: banners[0].link }] + tail,
                        ),
                        None => None,
                    }
                } else {
                    None
                }
            },
        }
    }
}

/// Resolve each requested banner's image, skipping entries without one.
pub fn resolve_banners_exec(atts: &Vec<Attachment>, banners: Vec<ChannelBannerField>) -> (r: Result<
    Vec<ChannelBanner>,
    Error,
>)
    ensures
        match resolve_banners(atts.deep_view(), banners.deep_view()) {
            Some(bs) => r matches Ok(v) && v.deep_view() == bs,
            None => r == Err::<Vec<ChannelBanner>, Error>(Error::NotFound),
        },
{
    let ghost dv = banners.deep_view();
    proof {
        assert(dv.skip(0) =~= dv);
    }
    let mut out: Vec<ChannelBanner> = Vec::new();
    let mut i: usize = 0;
    while i < banners.len()
        invariant
            i <= banners.len(),
            dv == banners.deep_view(),
            match resolve_banners(atts.deep_view(), dv.skip(i as int)) {
                Some(tail) => resolve_banners(atts.deep_view(), dv) == Some(
                    out.deep_view() + tail,
                ),
                None => resolve_banners(atts.deep_view(), dv) is None,
            },
        decreases banners.len() - i,
    {
        proof {
            assert(dv[i as int] == banners@[i as int].deep_view());
            assert(dv.skip(i as int)[0] == dv[i as int]);
            assert(dv.skip(i as int).drop_first() =~= dv.skip(i as int + 1));
        }
        match &banners[i].icon {
            Some(icon_id) => {
                match resolve_attachment_exec(atts, icon_id) {
                    Some(file) => {
                        let ghost out_before = out.deep_view();
                        let ghost pushed = BannerV {
                            icon: Some(icon_id@),
                            link: dv[i as int].link,
                        };
                        let link = clone_opt_string(&banners[i].link);
                        out.push(ChannelBanner { icon: Some(file), link });
                        proof {
                            lemma_resolve_attachment_id(atts.deep_view(), icon_id@);
                            assert(out.deep_view() =~= out_before + seq![pushed]);
                            match resolve_banners(atts.deep_view(), dv.skip(i as int + 1)) {
                                Some(tail) => {
                                    assert((out_before + seq![pushed]) + tail =~= out_before + (
                                    seq![pushed] + tail));
                                },
                                None => {},
                            }
                        }
                    },
                    None => {
                        return Err(Error::NotFound);
                    },
                }
            },
            None => {},
        }
        i = i + 1;
    }
    proof {
        assert(dv.skip(i as int) =~= Seq::<BannerFieldV>::empty());
        assert(out.deep_view() + Seq::<BannerV>::empty() =~= out.deep_view());
    }
    Ok(out)
}

// ---------------------------------------------------------------------------
// The mutation engine
// ---------------------------------------------------------------------------

/// Everything a validated edit request resolves to: the updated channel, the
/// applied partial that mirrors every written field, the removal list to
/// persist alongside it, the assets to schedule for deletion, and the system
/// messages the mutation gives rise to.
pub struct EditPlan {
    pub channel: Channel,
    pub partial: PartialChannel,
    pub remove: Vec<FieldsChannel>,
    pub delete_assets: Vec<String>,
    pub messages: Vec<SystemMessage>,
}

/// Mathematical value of an `EditPlan`.
#[verifier::ext_equal]
pub struct EditPlanV {
    pub channel: ChannelV,
    pub partial: PartialChannelV,
    pub remove: Seq<FieldsChannel>,
    pub delete_assets: Seq<Seq<char>>,
    pub messages: Seq<SystemMessageV>,
}

impl DeepView for EditPlan {
    type V = EditPlanV;

    open spec fn deep_view(&self) -> EditPlanV {
        EditPlanV {
            channel: self.channel.deep_view(),
            partial: self.partial.deep_view(),
            remove: self.remove@,
            delete_assets: self.delete_assets.deep_view(),
            messages: self.messages.deep_view(),
        }
    }
}

/// The removal list of a request, empty when absent.
pub open spec fn edit_remove_list(d: DataEditChannelV) -> Seq<FieldsChannel> {
    match d.remove {
        Some(r) => r,
        None => Seq::empty(),
    }
}

/// The first reason a non-empty edit of `c` by `caller` is refused, in the
/// engine's fixed processing order, or `None` when it goes through:
/// the channel shape must accept edits; a requested icon and every requested
/// banner image must resolve; an ownership transfer demands a group whose
/// current owner is the caller and whose recipients include the proposed
/// owner.
pub open spec fn edit_error(
    c: ChannelV,
    caller: Seq<char>,
    d: DataEditChannelV,
    atts: Seq<AttachmentV>,
) -> Option<Error> {
    if d.is_empty() {
        None
    } else if !c.editable() {
        Some(Error::InvalidOperation)
    } else if d.icon is Some && resolve_attachment(atts, d.icon->0) is None {
        Some(Error::NotFound)
    } else if d.banner is Some && resolve_banners(atts, d.banner->0) is None {
        Some(Error::NotFound)
    } else if d.owner is Some && !(c is Group) {
        Some(Error::InvalidOperation)
    } else if d.owner is Some && c->Group_owner != caller {
        Some(Error::NotOwner)
    } else if d.owner is Some && !c->Group_recipients.contains(d.owner->0) {
        Some(Error::NotInGroup)
    } else {
        None
    }
}

/// The mutable fields of `c` after a successful edit: removal is processed
/// first, and a set value always wins over a removal of the same field.
pub open spec fn edit_common_result(
    c: ChannelV,
    d: DataEditChannelV,
    atts: Seq<AttachmentV>,
) -> EditableCommonV {
    let remove = edit_remove_list(d);
    let m0 = common_of(c);
    EditableCommonV {
        name: if d.name is Some {
            d.name->0
        } else {
            m0.name
        },
        description: if d.description is Some {
            Some(d.description->0)
        } else if remove.contains(FieldsChannel::Description) {
            None
        } else {
            m0.description
        },
        icon: if d.icon is Some {
            Some(d.icon->0)
        } else if remove.contains(FieldsChannel::Icon) {
            None
        } else {
            m0.icon
        },
        banner: if d.banner is Some {
            resolve_banners(atts, d.banner->0)->0
        } else {
            m0.banner
        },
        nsfw: if d.nsfw is Some {
            d.nsfw->0
        } else {
            m0.nsfw
        },
        password: if d.password is Some {
            Some(d.password->0)
        } else {
            m0.password
        },
    }
}

/// The applied partial of a successful edit: exactly the requested fields,
/// with asset references resolved.
pub open spec fn edit_partial(d: DataEditChannelV, atts: Seq<AttachmentV>) -> PartialChannelV {
    PartialChannelV {
        name: d.name,
        owner: d.owner,
        description: d.description,
        icon: d.icon,
        banner: match d.banner {
            Some(bs) => Some(resolve_banners(atts, bs)->0),
            None => None,
        },
        nsfw: d.nsfw,
        active: None,
        password: d.password,
    }
}

/// The assets a successful edit schedules for deletion: the channel's
/// current icon, exactly when the removal list names the icon field and an
/// icon is set — even if a new icon is set in the same request.
pub open spec fn edit_deletes(c: ChannelV, d: DataEditChannelV) -> Seq<Seq<char>> {
    if edit_remove_list(d).contains(FieldsChannel::Icon) && common_of(c).icon is Some {
        seq![common_of(c).icon->0]
    } else {
        Seq::empty()
    }
}

/// What applying an edit request resolves to: an error per `edit_error`; the
/// unmodified channel and an empty plan for an empty request; otherwise the
/// updated channel, the mirrored partial, the removal list, the scheduled
/// asset deletions, and the derived system messages.
pub open spec fn edit_outcome(
    c: ChannelV,
    caller: Seq<char>,
    d: DataEditChannelV,
    atts: Seq<AttachmentV>,
) -> Result<EditPlanV, Error> {
    match edit_error(c, caller, d, atts) {
        Some(e) => Err(e),
        None => if d.is_empty() {
            Ok(
                EditPlanV {
                    channel: c,
                    partial: PartialChannelV::empty(),
                    remove: Seq::empty(),
                    delete_assets: Seq::empty(),
                    messages: Seq::empty(),
                },
            )
        } else {
            let partial = edit_partial(d, atts);
            Ok(
                EditPlanV {
                    channel: join_v(
                        edit_common_result(c, d, atts),
                        rest_with_owner(rest_of(c), d.owner),
                    ),
                    partial,
                    remove: edit_remove_list(d),
                    delete_assets: edit_deletes(c, d),
                    messages: emitted_messages(c, partial, caller),
                },
            )
        },
    }
}

/// Whether a removal list names a field.
pub fn remove_contains(v: &Vec<FieldsChannel>, f: FieldsChannel) -> (b: bool)
    ensures
        b == v@.contains(f),
{
    let mut i: usize = 0;
    while i < v.len()
        invariant
            i <= v.len(),
            forall|j: int| 0 <= j < i ==> v@[j] != f,
        decreases v.len() - i,
    {
        if v[i] == f {
            return true;
        }
        i = i + 1;
    }
    false
}

/// Apply a sparse update (set + remove) to a channel, enforcing field
/// invariants. Pure planning: nothing is persisted here. The channel is
/// handed back unmodified for an empty request; a request the rules refuse
/// produces the error `edit_error` names and no plan at all.
pub fn apply_edit(
    channel: &Channel,
    caller_id: &String,
    data: DataEditChannel,
    attachments: &Vec<Attachment>,
) -> (r: Result<EditPlan, Error>)
    ensures
        match r {
            Ok(plan) => edit_outcome(
                channel.deep_view(),
                caller_id@,
                data.deep_view(),
                attachments.deep_view(),
            ) == Ok::<EditPlanV, Error>(plan.deep_view()),
            Err(e) => edit_outcome(
                channel.deep_view(),
                caller_id@,
                data.deep_view(),
                attachments.deep_view(),
            ) == Err::<EditPlanV, Error>(e),
        },
{
    let ghost cv = channel.deep_view();
    let ghost ddv = data.deep_view();
    let ghost av = attachments.deep_view();

    let is_empty = data.name.is_none() && data.description.is_none() && data.icon.is_none()
        && data.banner.is_none() && data.nsfw.is_none() && data.owner.is_none()
        && data.remove.is_none() && data.password.is_none();
    if is_empty {
        let plan = EditPlan {
            channel: channel.duplicate(),
            partial: PartialChannel::default(),
            remove: Vec::new(),
            delete_assets: Vec::new(),
            messages: Vec::new(),
        };
        proof {
            assert(plan.remove@ =~= Seq::<FieldsChannel>::empty());
            assert(plan.delete_assets.deep_view() =~= Seq::<Seq<char>>::empty());
            assert(plan.messages.deep_view() =~= Seq::<SystemMessageV>::empty());
            assert(plan.deep_view() =~= edit_outcome(cv, caller_id@, ddv, av)->Ok_0);
        }
        return Ok(plan);
    }

    let split = split_editable(channel);
    let (mut common, rest) = match split {
        Some(pair) => pair,
        None => {
            return Err(Error::InvalidOperation);
        },
    };

    // Removals come first; the icon asset is scheduled for deletion even if
    // a later set replaces it.
    let remove_vec: Vec<FieldsChannel> = match data.remove {
        Some(v) => v,
        None => Vec::new(),
    };
    proof {
        assert(remove_vec@ == edit_remove_list(ddv));
    }
    let mut delete_assets: Vec<String> = Vec::new();
    if remove_contains(&remove_vec, FieldsChannel::Icon) {
        match &common.icon {
            Some(f) => {
                delete_assets.push(f.id.clone());
            },
            None => {},
        }
    }
    proof {
        assert(delete_assets.deep_view() =~= edit_deletes(cv, ddv));
    }
    if remove_contains(&remove_vec, FieldsChannel::Description) {
        common.description = None;
    }
    if remove_contains(&remove_vec, FieldsChannel::Icon) {
        common.icon = None;
    }

    let mut partial = PartialChannel::default();

    // Sets, in the engine's fixed order: icon, banner, name, description,
    // nsfw, password, owner.
    match data.icon {
        Some(icon_id) => {
            match resolve_attachment_exec(attachments, &icon_id) {
                Some(file) => {
                    proof {
                        lemma_resolve_attachment_id(av, icon_id@);
                    }
                    common.icon = Some(crate::channel::clone_file(&file));
                    partial.icon = Some(file);
                },
                None => {
                    return Err(Error::NotFound);
                },
            }
        },
        None => {},
    }

    match data.banner {
        Some(banner_fields) => {
            match resolve_banners_exec(attachments, banner_fields) {
                Ok(banners) => {
                    common.banner = clone_banners(&banners);
                    partial.banner = Some(banners);
                },
                Err(e) => {
                    return Err(e);
                },
            }
        },
        None => {},
    }

    match data.name {
        Some(name) => {
            partial.name = Some(name.clone());
            common.name = name;
        },
        None => {},
    }

    match data.description {
        Some(description) => {
            partial.description = Some(description.clone());
            common.description = Some(description);
        },
        None => {},
    }

    match data.nsfw {
        Some(nsfw) => {
            partial.nsfw = Some(nsfw);
            common.nsfw = nsfw;
        },
        None => {},
    }

    match data.password {
        Some(password) => {
            partial.password = Some(password.clone());
            common.password = Some(password);
        },
        None => {},
    }

    // Ownership transfer: a group whose current owner is the caller, to a
    // proposed owner among the recipients.
    let rest_final = match data.owner {
        Some(new_owner) => {
            match rest {
                EditableRest::GroupRest { id, owner, recipients, last_message_id, permissions } => {
                    if !(owner == *caller_id) {
                        return Err(Error::NotOwner);
                    }
                    if !contains_string(&recipients, &new_owner) {
                        return Err(Error::NotInGroup);
                    }
                    partial.owner = Some(new_owner.clone());
                    EditableRest::GroupRest {
                        id,
                        owner: new_owner,
                        recipients,
                        last_message_id,
                        permissions,
                    }
                },
                _ => {
                    return Err(Error::InvalidOperation);
                },
            }
        },
        None => rest,
    };

    let messages = derive_system_messages(channel, &partial, caller_id);
    let ghost common_dv = common.deep_view();
    let ghost rest_dv = rest_final.deep_view();
    let new_channel = join_editable(common, rest_final);
    let plan = EditPlan {
        channel: new_channel,
        partial,
        remove: remove_vec,
        delete_assets,
        messages,
    };
    proof {
        assert(edit_error(cv, caller_id@, ddv, av) is None);
        assert(plan.partial.deep_view() =~= edit_partial(ddv, av));
        assert(common_dv =~= edit_common_result(cv, ddv, av));
        assert(rest_dv =~= rest_with_owner(rest_of(cv), ddv.owner));
        assert(plan.channel.deep_view() =~= join_v(
            edit_common_result(cv, ddv, av),
            rest_with_owner(rest_of(cv), ddv.owner),
        ));
        assert(plan.messages.deep_view() == emitted_messages(cv, edit_partial(ddv, av), caller_id@));
        assert(plan.deep_view() =~= edit_outcome(cv, caller_id@, ddv, av)->Ok_0);
    }
    Ok(plan)
}

// ---------------------------------------------------------------------------
// Laws of the mutation engine
// ---------------------------------------------------------------------------

/// Reassembling a channel exposes exactly the mutable fields it was built
/// from.
pub proof fn lemma_common_of_join(m: EditableCommonV, rest: EditableRestV)
    ensures
        common_of(join_v(m, rest)) == m,
{
    assert(common_of(join_v(m, rest)) =~= m);
}

/// A field that the set payload leaves absent and the removal list names is
/// cleared exactly once and never re-populated: the updated channel holds no
/// value for it, and the applied partial does not set it either. (Stated for
/// the two clearable fields, description and icon.)
pub proof fn lemma_removal_clears_field(
    c: ChannelV,
    caller: Seq<char>,
    d: DataEditChannelV,
    atts: Seq<AttachmentV>,
)
    requires
        edit_outcome(c, caller, d, atts) is Ok,
        !d.is_empty(),
    ensures
        d.description is None && edit_remove_list(d).contains(FieldsChannel::Description)
            ==> common_of(edit_outcome(c, caller, d, atts)->Ok_0.channel).description is None
            && edit_outcome(c, caller, d, atts)->Ok_0.partial.description is None,
        d.icon is None && edit_remove_list(d).contains(FieldsChannel::Icon) ==> common_of(
            edit_outcome(c, caller, d, atts)->Ok_0.channel,
        ).icon is None && edit_outcome(c, caller, d, atts)->Ok_0.partial.icon is None,
{
    lemma_common_of_join(edit_common_result(c, d, atts), rest_with_owner(rest_of(c), d.owner));
}

/// A group ownership transfer succeeds exactly when the caller is the
/// current owner and the proposed owner is a current recipient; otherwise it
/// fails with `NotOwner` or `NotInGroup` respectively, and no plan — hence
/// no change to the stored owner — is produced. On success the updated
/// channel carries the proposed owner. (Asset references are left out of the
/// request so that their resolution cannot fail first.)
pub proof fn lemma_ownership_transfer(
    c: ChannelV,
    caller: Seq<char>,
    d: DataEditChannelV,
    atts: Seq<AttachmentV>,
)
    requires
        c is Group,
        d.owner is Some,
        d.icon is None,
        d.banner is None,
    ensures
        edit_outcome(c, caller, d, atts) is Ok <==> (c->Group_owner == caller
            && c->Group_recipients.contains(d.owner->0)),
        edit_outcome(c, caller, d, atts) matches Ok(plan) ==> plan.channel is Group
            && plan.channel->Group_owner == d.owner->0,
        c->Group_owner != caller ==> edit_outcome(c, caller, d, atts) == Err::<
            EditPlanV,
            Error,
        >(Error::NotOwner),
        c->Group_owner == caller && !c->Group_recipients.contains(d.owner->0) ==> edit_outcome(
            c,
            caller,
            d,
            atts,
        ) == Err::<EditPlanV, Error>(Error::NotInGroup),
{
}

/// An edit request with every optional field absent is an idempotent no-op:
/// it succeeds with the unmodified channel, an empty applied partial, no
/// removal, no scheduled deletion and no system message. (That it also
/// issues zero storage writes is stated by the edit operation itself.)
pub proof fn lemma_empty_edit_is_noop(
    c: ChannelV,
    caller: Seq<char>,
    d: DataEditChannelV,
    atts: Seq<AttachmentV>,
)
    requires
        d.is_empty(),
    ensures
        edit_outcome(c, caller, d, atts) matches Ok(plan) && plan.channel == c && plan.partial
            == PartialChannelV::empty() && plan.remove == Seq::<FieldsChannel>::empty()
            && plan.delete_assets == Seq::<Seq<char>>::empty() && plan.messages == Seq::<
            SystemMessageV,
        >::empty(),
{
}

/// An edit never changes the channel's identifier.
pub proof fn lemma_edit_preserves_id(
    c: ChannelV,
    caller: Seq<char>,
    d: DataEditChannelV,
    atts: Seq<AttachmentV>,
)
    requires
        edit_outcome(c, caller, d, atts) is Ok,
    ensures
        edit_outcome(c, caller, d, atts)->Ok_0.channel.id() == c.id(),
{
}

/// A non-empty edit request aimed at a direct-message channel — for
/// instance one that sets the name — is refused with `InvalidOperation`,
/// and no plan is produced: the channel stays as it was.
pub proof fn lemma_direct_message_edit_rejected(
    c: ChannelV,
    caller: Seq<char>,
    d: DataEditChannelV,
    atts: Seq<AttachmentV>,
)
    requires
        c is DirectMessage,
        !d.is_empty(),
    ensures
        edit_outcome(c, caller, d, atts) == Err::<EditPlanV, Error>(Error::InvalidOperation),
{
}

} // verus!
