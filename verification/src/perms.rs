use vstd::prelude::*;

use crate::channel::{Channel, ChannelV, RoleOverride, RoleOverrideV};
use crate::error::{Error, Permission};
use crate::users::User;

verus! {

/// Every capability bit set.
pub const ALL_CAPABILITIES: u64 = 511;

/// Baseline capabilities of a direct-message participant: view, send,
/// manage the conversation itself, embeds, uploads, masquerade, react.
pub const DEFAULT_DIRECT_MESSAGE: u64 = 1 | 2 | 4 | 16 | 32 | 64 | 256;

/// Baseline capabilities of a group member: view, send, embeds, uploads,
/// invite, react.
pub const DEFAULT_GROUP: u64 = 1 | 2 | 16 | 32 | 128 | 256;

impl Permission {
    /// The bit position this capability occupies in a capability set.
    pub open spec fn spec_bit(self) -> u64 {
        match self {
            Permission::ViewChannel => 1,
            Permission::SendMessage => 2,
            Permission::ManageChannel => 4,
            Permission::ManageRole => 8,
            Permission::SendEmbeds => 16,
            Permission::UploadFiles => 32,
            Permission::Masquerade => 64,
            Permission::InviteOthers => 128,
            Permission::React => 256,
        }
    }

    /// The bit this capability occupies in a capability set.
    pub fn bit(&self) -> (b: u64)
        ensures
            b == self.spec_bit(),
    {
        match self {
            Permission::ViewChannel => 1,
            Permission::SendMessage => 2,
            Permission::ManageChannel => 4,
            Permission::ManageRole => 8,
            Permission::SendEmbeds => 16,
            Permission::UploadFiles => 32,
            Permission::Masquerade => 64,
            Permission::InviteOthers => 128,
            Permission::React => 256,
        }
    }
}

/// A resolved, immutable bitset of capabilities for one (user, channel)
/// pair, computed once per request and reused for its later checks.
#[derive(Debug, Clone, Copy, PartialEq, Eq, Structural)]
pub struct CapabilitySet {
    pub bits: u64,
}

impl CapabilitySet {
    /// Whether the set grants the capability.
    pub open spec fn spec_has(self, p: Permission) -> bool {
        self.bits & p.spec_bit() != 0
    }

    /// Whether the set grants the capability.
    pub fn has(&self, p: Permission) -> (b: bool)
        ensures
            b == self.spec_has(p),
    {
        self.bits & p.bit() != 0
    }

    /// Fail closed: any missing bit yields a denial, and no capability is
    /// ever inferred from the absence of a deny.
    pub fn require(&self, p: Permission) -> (r: Result<(), Error>)
        ensures
            r is Ok <==> self.spec_has(p),
            r matches Err(e) ==> e == (Error::PermissionDenied { permission: p }),
    {
        if self.has(p) {
            Ok(())
        } else {
            Err(Error::PermissionDenied { permission: p })
        }
    }

    /// Demand both the baseline `ViewChannel` capability and `p`.
    pub fn require_with_view(&self, p: Permission) -> (r: Result<(), Error>)
        ensures
            r is Ok <==> self.spec_has(Permission::ViewChannel) && self.spec_has(p),
            r matches Err(e) ==> if !self.spec_has(Permission::ViewChannel) {
                e == (Error::PermissionDenied { permission: Permission::ViewChannel })
            } else {
                e == (Error::PermissionDenied { permission: p })
            },
    {
        match self.require(Permission::ViewChannel) {
            Ok(()) => self.require(p),
            Err(e) => Err(e),
        }
    }
}

// ---------------------------------------------------------------------------
// Server context
// ---------------------------------------------------------------------------

/// One server role held by the requesting user, with the capability bits
/// that role grants server-wide.
pub struct RoleGrant {
    pub role_id: String,
    pub allow: u64,
}

/// Mathematical value of a `RoleGrant`.
#[verifier::ext_equal]
pub struct RoleGrantV {
    pub role_id: Seq<char>,
    pub allow: u64,
}

impl DeepView for RoleGrant {
    type V = RoleGrantV;

    open spec fn deep_view(&self) -> RoleGrantV {
        RoleGrantV { role_id: self.role_id@, allow: self.allow }
    }
}

/// The requesting user's standing in a channel's parent server: the
/// server-wide default capability bits and the roles the user holds there.
pub struct ServerContext {
    pub default_allow: u64,
    pub roles: Vec<RoleGrant>,
}

impl ServerContext {
    /// A context that grants nothing, for channels without a parent server.
    pub fn none() -> (r: ServerContext)
        ensures
            r.default_allow == 0,
            r.roles.deep_view() == Seq::<RoleGrantV>::empty(),
    {
        let r = ServerContext { default_allow: 0, roles: Vec::new() };
        proof {
            assert(r.roles.deep_view() =~= Seq::<RoleGrantV>::empty());
        }
        r
    }
}

// ---------------------------------------------------------------------------
// Resolution
// ---------------------------------------------------------------------------

/// Server-wide aggregation: the bitwise OR of the bits each held role
/// grants, on top of `acc`.
pub open spec fn aggregate_roles(roles: Seq<RoleGrantV>, acc: u64) -> u64
    decreases roles.len(),
{
    if roles.len() == 0 {
        acc
    } else {
        aggregate_roles(roles.drop_first(), acc | roles[0].allow)
    }
}

/// The channel-level override for a role: the first entry naming it.
pub open spec fn find_override(overrides: Seq<RoleOverrideV>, role_id: Seq<char>) -> Option<
    RoleOverrideV,
>
    decreases overrides.len(),
{
    if overrides.len() == 0 {
        None
    } else if overrides[0].role_id == role_id {
        Some(overrides[0])
    } else {
        find_override(overrides.drop_first(), role_id)
    }
}

/// Channel-level overrides applied after role aggregation, overrides taking
/// precedence: for each held role with an override, its allow bits are
/// granted and then its deny bits withdrawn.
pub open spec fn apply_overrides(
    bits: u64,
    roles: Seq<RoleGrantV>,
    overrides: Seq<RoleOverrideV>,
) -> u64
    decreases roles.len(),
{
    if roles.len() == 0 {
        bits
    } else {
        let next = match find_override(overrides, roles[0].role_id) {
            Some(o) => (bits | o.allow) & !o.deny,
            None => bits,
        };
        apply_overrides(next, roles.drop_first(), overrides)
    }
}

/// What a server channel resolves to for the user: default bits, role
/// aggregation, then channel-level overrides.
pub open spec fn server_channel_bits(
    ctx_default: u64,
    roles: Seq<RoleGrantV>,
    overrides: Seq<RoleOverrideV>,
) -> u64 {
    apply_overrides(aggregate_roles(roles, ctx_default), roles, overrides)
}

/// The capability bits `evaluate` resolves for a user and a channel.
///
/// Resolution order: membership in the recipient list gates every
/// direct-message shape; server role bits are aggregated by OR and channel
/// overrides applied on top for server channels; a `Group` owner holds every
/// capability unconditionally.
pub open spec fn evaluate_bits(
    user_id: Seq<char>,
    c: ChannelV,
    ctx_default: u64,
    roles: Seq<RoleGrantV>,
) -> u64 {
    match c {
        ChannelV::SavedMessages { user, .. } => if user == user_id {
            ALL_CAPABILITIES as u64
        } else {
            0
        },
        ChannelV::DirectMessage { recipients, .. } => if recipients.contains(user_id) {
            DEFAULT_DIRECT_MESSAGE as u64
        } else {
            0
        },
        ChannelV::Group { owner, recipients, permissions, .. } => if owner == user_id {
            ALL_CAPABILITIES as u64
        } else if recipients.contains(user_id) {
            match permissions {
                Some(p) => p | Permission::ViewChannel.spec_bit(),
                None => DEFAULT_GROUP as u64,
            }
        } else {
            0
        },
        ChannelV::TextChannel { role_overrides, .. } => server_channel_bits(
            ctx_default,
            roles,
            role_overrides,
        ),
        ChannelV::VoiceChannel { role_overrides, .. } => server_channel_bits(
            ctx_default,
            roles,
            role_overrides,
        ),
        ChannelV::MarketplaceDM { recipients, .. } => if recipients.contains(user_id) {
            DEFAULT_DIRECT_MESSAGE as u64
        } else {
            0
        },
        ChannelV::AdminDM { admin, user, .. } => if admin == user_id || user == user_id {
            DEFAULT_DIRECT_MESSAGE as u64
        } else {
            0
        },
        ChannelV::ExperienceDM { user, host, .. } => if user == user_id || host == user_id {
            DEFAULT_DIRECT_MESSAGE as u64
        } else {
            0
        },
    }
}

/// Whether a list of strings contains `s`, compared by contents.
pub fn contains_string(v: &Vec<String>, s: &String) -> (b: bool)
    ensures
        b == v.deep_view().contains(s@),
{
    let ghost dv = v.deep_view();
    let mut i: usize = 0;
    while i < v.len()
        invariant
            i <= v.len(),
            dv == v.deep_view(),
            forall|j: int| 0 <= j < i ==> dv[j] != s@,
        decreases v.len() - i,
    {
        proof {
            assert(dv[i as int] == v@[i as int]@);
        }
        if v[i] == *s {
            proof {
                assert(dv[i as int] == s@);
            }
            return true;
        }
        i = i + 1;
    }
    false
}

/// OR together the server-wide bits of the held roles.
fn exec_aggregate_roles(roles: &Vec<RoleGrant>, acc: u64) -> (r: u64)
    ensures
        r == aggregate_roles(roles.deep_view(), acc),
{
    let ghost dv = roles.deep_view();
    proof {
        assert(dv.skip(0) =~= dv);
    }
    let mut bits: u64 = acc;
    let mut i: usize = 0;
    while i < roles.len()
        invariant
            i <= roles.len(),
            dv == roles.deep_view(),
            aggregate_roles(dv, acc) == aggregate_roles(dv.skip(i as int), bits),
        decreases roles.len() - i,
    {
        proof {
            assert(dv[i as int] == roles@[i as int].deep_view());
            assert(dv.skip(i as int)[0] == dv[i as int]);
            assert(dv.skip(i as int).drop_first() =~= dv.skip(i as int + 1));
        }
        bits = bits | roles[i].allow;
        i = i + 1;
    }
    proof {
        assert(dv.skip(i as int) =~= Seq::<RoleGrantV>::empty());
    }
    bits
}

/// Find the channel-level override for a role; hand back its allow and deny
/// bits.
fn exec_find_override(overrides: &Vec<RoleOverride>, role_id: &String) -> (r: Option<(u64, u64)>)
    ensures
        match find_override(overrides.deep_view(), role_id@) {
            Some(o) => r == Some((o.allow, o.deny)),
            None => r is None,
        },
{
    let ghost dv = overrides.deep_view();
    proof {
        assert(dv.skip(0) =~= dv);
    }
    let mut i: usize = 0;
    while i < overrides.len()
        invariant
            i <= overrides.len(),
            dv == overrides.deep_view(),
            find_override(dv, role_id@) == find_override(dv.skip(i as int), role_id@),
        decreases overrides.len() - i,
    {
        proof {
            assert(dv[i as int] == overrides@[i as int].deep_view());
            assert(dv.skip(i as int)[0] == dv[i as int]);
            assert(dv.skip(i as int).drop_first() =~= dv.skip(i as int + 1));
        }
        if overrides[i].role_id == *role_id {
            return Some((overrides[i].allow, overrides[i].deny));
        }
        i = i + 1;
    }
    proof {
        assert(dv.skip(i as int) =~= Seq::<RoleOverrideV>::empty());
    }
    None
}

/// Apply the channel-level overrides of every held role on top of `bits`.
fn exec_apply_overrides(bits: u64, roles: &Vec<RoleGrant>, overrides: &Vec<RoleOverride>) -> (r:
    u64)
    ensures
        r == apply_overrides(bits, roles.deep_view(), overrides.deep_view()),
{
    let ghost dv = roles.deep_view();
    proof {
        assert(dv.skip(0) =~= dv);
    }
    let mut cur: u64 = bits;
    let mut i: usize = 0;
    while i < roles.len()
        invariant
            i <= roles.len(),
            dv == roles.deep_view(),
            apply_overrides(bits, dv, overrides.deep_view()) == apply_overrides(
                cur,
                dv.skip(i as int),
                overrides.deep_view(),
            ),
        decreases roles.len() - i,
    {
        proof {
            assert(dv[i as int] == roles@[i as int].deep_view());
            assert(dv.skip(i as int)[0] == dv[i as int]);
            assert(dv.skip(i as int).drop_first() =~= dv.skip(i as int + 1));
        }
        match exec_find_override(overrides, &roles[i].role_id) {
            Some((allow, deny)) => {
                cur = (cur | allow) & !deny;
            },
            None => {},
        }
        i = i + 1;
    }
    proof {
        assert(dv.skip(i as int) =~= Seq::<RoleGrantV>::empty());
    }
    cur
}

/// Resolve the capability set of `user` on `channel`, with `ctx` describing
/// the user's standing in the channel's parent server (ignored for shapes
/// without one). Resolution is computed once per request; `require` checks
/// reuse the result.
pub fn evaluate(user: &User, channel: &Channel, ctx: &ServerContext) -> (cap: CapabilitySet)
    ensures
        cap.bits == evaluate_bits(
            user.id@,
            channel.deep_view(),
            ctx.default_allow,
            ctx.roles.deep_view(),
        ),
{
    match channel {
        Channel::SavedMessages { user: owner, .. } => {
            if *owner == user.id {
                CapabilitySet { bits: ALL_CAPABILITIES }
            } else {
                CapabilitySet { bits: 0 }
            }
        },
        Channel::DirectMessage { recipients, .. } => {
            if contains_string(recipients, &user.id) {
                CapabilitySet { bits: DEFAULT_DIRECT_MESSAGE }
            } else {
                CapabilitySet { bits: 0 }
            }
        },
        Channel::Group { owner, recipients, permissions, .. } => {
            if *owner == user.id {
                CapabilitySet { bits: ALL_CAPABILITIES }
            } else if contains_string(recipients, &user.id) {
                match permissions {
                    Some(p) => CapabilitySet { bits: *p | Permission::ViewChannel.bit() },
                    None => CapabilitySet { bits: DEFAULT_GROUP },
                }
            } else {
                CapabilitySet { bits: 0 }
            }
        },
        Channel::TextChannel { role_overrides, .. } => {
            let base = exec_aggregate_roles(&ctx.roles, ctx.default_allow);
            CapabilitySet { bits: exec_apply_overrides(base, &ctx.roles, role_overrides) }
        },
        Channel::VoiceChannel { role_overrides, .. } => {
            let base = exec_aggregate_roles(&ctx.roles, ctx.default_allow);
            CapabilitySet { bits: exec_apply_overrides(base, &ctx.roles, role_overrides) }
        },
        Channel::MarketplaceDM { recipients, .. } => {
            if contains_string(recipients, &user.id) {
                CapabilitySet { bits: DEFAULT_DIRECT_MESSAGE }
            } else {
                CapabilitySet { bits: 0 }
            }
        },
        Channel::AdminDM { admin, user: target, .. } => {
            if *admin == user.id || *target == user.id {
                CapabilitySet { bits: DEFAULT_DIRECT_MESSAGE }
            } else {
                CapabilitySet { bits: 0 }
            }
        },
        Channel::ExperienceDM { user: opener, host, .. } => {
            if *opener == user.id || *host == user.id {
                CapabilitySet { bits: DEFAULT_DIRECT_MESSAGE }
            } else {
                CapabilitySet { bits: 0 }
            }
        },
    }
}

} // verus!
