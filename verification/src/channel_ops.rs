use vstd::prelude::*;

use crate::channel::{AttachmentV, Channel, ChannelV, DataEditChannel, DataEditChannelV};
use crate::error::{Error, Permission};
use crate::message::{Author, AuthorV, Message, MessageV};
use crate::mutation::{apply_edit, edit_outcome, lemma_edit_preserves_id};
use crate::perms::{CapabilitySet, RoleGrantV, ServerContext, evaluate, evaluate_bits};
use crate::store::{Database, StoreV, channel_by_id, mark_attachment, put_channel_spec};
use crate::system_message::{SystemMessage, SystemMessageV};
use crate::users::User;

verus! {

/// The attachments after scheduling every named asset for deletion.
pub open spec fn mark_all(atts: Seq<AttachmentV>, ids: Seq<Seq<char>>) -> Seq<AttachmentV>
    decreases ids.len(),
{
    if ids.len() == 0 {
        atts
    } else {
        mark_all(mark_attachment(atts, ids[0]), ids.drop_first())
    }
}

/// Open a direct conversation around an experience: the requester must be
/// its host or one of its attendees.
pub fn open_experience_dm(
    db: &mut Database,
    user: &User,
    experience_id: String,
    new_id: String,
) -> (r: Result<Channel, Error>)
    ensures
        *old(db) is Stub ==> *final(db) == *old(db) && (r matches Err(e) && e
            == Error::NotSupported),
        old(db).deep_view() matches Some(s) ==> match crate::store::experience_by_id(
            s.experiences,
            experience_id@,
        ) {
            None => *final(db) == *old(db) && (r matches Err(e) && e == Error::NotFound),
            Some(exp) => {
                if exp.host != user.id@ && !exp.attendees.contains(user.id@) {
                    &&& *final(db) == *old(db)
                    &&& (r matches Err(e) && e == Error::NotAllowed)
                } else {
                    let ch = ChannelV::ExperienceDM {
                        id: new_id@,
                        user: user.id@,
                        host: exp.host,
                        experience_id: experience_id@,
                        last_message_id: None,
                    };
                    &&& final(db).deep_view() == Some(
                        crate::store::StoreV { channels: s.channels.push(ch), ..s },
                    )
                    &&& (r matches Ok(c) && c.deep_view() == ch)
                }
            },
        },
{
    let experience = match db.fetch_experience(&experience_id) {
        Ok(x) => x,
        Err(e) => {
            return Err(e);
        },
    };
    if !(user.id == experience.host) && !crate::perms::contains_string(
        &experience.attendees,
        &user.id,
    ) {
        return Err(Error::NotAllowed);
    }
    let channel = Channel::ExperienceDM {
        id: new_id,
        user: user.id.clone(),
        host: experience.host,
        experience_id,
        last_message_id: None,
    };
    let out = channel.duplicate();
    match db.insert_channel(channel) {
        Ok(()) => Ok(out),
        Err(e) => Err(e),
    }
}

/// Open an administrative conversation with a user on a server: the
/// requester must hold the administrator role there.
pub fn open_admin_dm(
    db: &mut Database,
    user: &User,
    server_id: String,
    target_id: String,
    admin_role_id: &String,
    new_id: String,
) -> (r: Result<Channel, Error>)
    ensures
        *old(db) is Stub ==> *final(db) == *old(db) && (r matches Err(e) && e
            == Error::NotSupported),
        old(db).deep_view() matches Some(s) ==> match crate::store::member_by(
            s.members,
            server_id@,
            user.id@,
        ) {
            None => *final(db) == *old(db) && (r matches Err(e) && e == Error::NotFound),
            Some(member) => {
                if !member.roles.contains(admin_role_id@) {
                    &&& *final(db) == *old(db)
                    &&& (r matches Err(e) && e == Error::MissingPermission)
                } else {
                    let ch = ChannelV::AdminDM {
                        id: new_id@,
                        server: server_id@,
                        admin: user.id@,
                        user: target_id@,
                        last_message_id: None,
                    };
                    &&& final(db).deep_view() == Some(
                        crate::store::StoreV { channels: s.channels.push(ch), ..s },
                    )
                    &&& (r matches Ok(c) && c.deep_view() == ch)
                }
            },
        },
{
    let member = match db.fetch_member(&server_id, &user.id) {
        Ok(m) => m,
        Err(e) => {
            return Err(e);
        },
    };
    if !crate::perms::contains_string(&member.roles, admin_role_id) {
        return Err(Error::MissingPermission);
    }
    let channel = Channel::AdminDM {
        id: new_id,
        server: server_id,
        admin: user.id.clone(),
        user: target_id,
        last_message_id: None,
    };
    let out = channel.duplicate();
    match db.insert_channel(channel) {
        Ok(()) => Ok(out),
        Err(e) => Err(e),
    }
}

/// Open a marketplace conversation for a listing between the requesting
/// buyer and a seller: a conversation with oneself is refused, and an
/// existing conversation for the listing is returned rather than duplicated.
pub fn open_marketplace_dm(
    db: &mut Database,
    user: &User,
    listing_id: String,
    seller: &String,
    new_id: String,
) -> (r: Result<Channel, Error>)
    ensures
        *old(db) is Stub ==> *final(db) == *old(db) && (r matches Err(e) && e
            == Error::NotSupported),
        old(db).deep_view() matches Some(s) ==> match crate::store::user_by_id(
            s.users,
            seller@,
        ) {
            None => *final(db) == *old(db) && (r matches Err(e) && e == Error::NotFound),
            Some(seller_user) => {
                if seller_user.id == user.id@ {
                    &&& *final(db) == *old(db)
                    &&& (r matches Err(e) && e == Error::InvalidOperation)
                } else {
                    match crate::store::marketplace_dm_of(
                        s.channels,
                        listing_id@,
                        user.id@,
                        seller_user.id,
                    ) {
                        Some(existing) => {
                            &&& *final(db) == *old(db)
                            &&& (r matches Ok(c) && c.deep_view() == existing)
                        },
                        None => {
                            let ch = ChannelV::MarketplaceDM {
                                id: new_id@,
                                buyer: user.id@,
                                seller: seller_user.id,
                                listing_id: listing_id@,
                                recipients: seq![user.id@, seller_user.id],
                                last_message_id: None,
                            };
                            &&& final(db).deep_view() == Some(
                                crate::store::StoreV { channels: s.channels.push(ch), ..s },
                            )
                            &&& (r matches Ok(c) && c.deep_view() == ch)
                        },
                    }
                }
            },
        },
{
    let seller_user = match db.fetch_user(seller) {
        Ok(u) => u,
        Err(e) => {
            return Err(e);
        },
    };
    if seller_user.id == user.id {
        return Err(Error::InvalidOperation);
    }
    match db.find_marketplace_dm(&listing_id, &user.id, &seller_user.id) {
        Ok(existing) => {
            return Ok(existing);
        },
        Err(Error::NotFound) => {},
        Err(e) => {
            return Err(e);
        },
    }
    let channel = Channel::MarketplaceDM {
        id: new_id,
        buyer: user.id.clone(),
        seller: seller_user.id.clone(),
        listing_id,
        recipients: vec![user.id.clone(), seller_user.id],
        last_message_id: None,
    };
    let ghost chv = channel.deep_view();
    proof {
        assert(chv matches ChannelV::MarketplaceDM { recipients, .. } && recipients =~= seq![
            user.id@,
            seller_user.id@,
        ]);
    }
    let out = channel.duplicate();
    match db.insert_channel(channel) {
        Ok(()) => Ok(out),
        Err(e) => Err(e),
    }
}

/// Marking one more asset extends the fold by one step.
proof fn lemma_mark_all_snoc(atts: Seq<AttachmentV>, ids: Seq<Seq<char>>, i: int)
    requires
        0 <= i < ids.len(),
    ensures
        mark_attachment(mark_all(atts, ids.take(i)), ids[i]) == mark_all(atts, ids.take(i + 1)),
    decreases i,
{
    if i == 0 {
        assert(ids.take(0) =~= Seq::<Seq<char>>::empty());
        assert(mark_all(atts, ids.take(0)) == atts);
        assert(ids.take(1) =~= seq![ids[0]]);
        assert(ids.take(1).drop_first() =~= Seq::<Seq<char>>::empty());
        assert(mark_all(mark_attachment(atts, ids.take(1)[0]), ids.take(1).drop_first())
            == mark_attachment(atts, ids[0]));
    } else {
        assert(ids.take(i).drop_first() =~= ids.drop_first().take(i - 1));
        assert(ids.take(i + 1).drop_first() =~= ids.drop_first().take(i));
        assert(ids.take(i)[0] == ids[0]);
        assert(ids.take(i + 1)[0] == ids[0]);
        lemma_mark_all_snoc(mark_attachment(atts, ids[0]), ids.drop_first(), i - 1);
        assert(ids.drop_first()[i - 1] == ids[i]);
        assert(mark_all(atts, ids.take(i)) == mark_all(
            mark_attachment(atts, ids[0]),
            ids.drop_first().take(i - 1),
        ));
        assert(mark_all(atts, ids.take(i + 1)) == mark_all(
            mark_attachment(atts, ids[0]),
            ids.drop_first().take(i),
        ));
    }
}

/// The stored form of one derived system message.
pub open spec fn sys_message_record(
    m: SystemMessageV,
    id: Seq<char>,
    channel_id: Seq<char>,
) -> MessageV {
    MessageV {
        id,
        channel: channel_id,
        author: AuthorV::System,
        content: None,
        system: Some(m),
        attachments: None,
        embeds: None,
        masquerade: None,
    }
}

/// The stored form of a list of derived system messages, one fresh
/// identifier each.
pub open spec fn sys_message_records(
    msgs: Seq<SystemMessageV>,
    ids: Seq<Seq<char>>,
    channel_id: Seq<char>,
) -> Seq<MessageV> {
    Seq::new(msgs.len(), |i: int| sys_message_record(msgs[i], ids[i], channel_id))
}

/// What the edit-channel operation resolves to, over the whole store: an
/// absent target is `NotFound`; the caller needs `ViewChannel` and
/// `ManageChannel`; the mutation engine then plans the edit; an empty
/// request returns the unmodified channel with zero storage writes;
/// otherwise cleared assets are scheduled for deletion, the channel is
/// persisted in one atomic update, and the derived system messages are
/// appended, in order, as system-authored messages.
pub open spec fn edit_channel_outcome(
    s: StoreV,
    caller: Seq<char>,
    ctx_default: u64,
    roles: Seq<RoleGrantV>,
    target: Seq<char>,
    d: DataEditChannelV,
    msg_ids: Seq<Seq<char>>,
) -> (StoreV, Result<ChannelV, Error>) {
    match channel_by_id(s.channels, target) {
        None => (s, Err(Error::NotFound)),
        Some(ch) => {
            let cap = CapabilitySet { bits: evaluate_bits(caller, ch, ctx_default, roles) };
            if !cap.spec_has(Permission::ViewChannel) {
                (s, Err(Error::PermissionDenied { permission: Permission::ViewChannel }))
            } else if !cap.spec_has(Permission::ManageChannel) {
                (s, Err(Error::PermissionDenied { permission: Permission::ManageChannel }))
            } else {
                match edit_outcome(ch, caller, d, s.attachments) {
                    Err(e) => (s, Err(e)),
                    Ok(plan) => if d.is_empty() {
                        (s, Ok(ch))
                    } else {
                        let s1 = StoreV {
                            attachments: mark_all(s.attachments, plan.delete_assets),
                            ..s
                        };
                        let s2 = StoreV {
                            channels: put_channel_spec(s1.channels, plan.channel),
                            ..s1
                        };
                        let s3 = StoreV {
                            messages: s2.messages + sys_message_records(
                                plan.messages,
                                msg_ids,
                                ch.id(),
                            ),
                            ..s2
                        };
                        (s3, Ok(plan.channel))
                    },
                }
            }
        },
    }
}

/// Turn one derived system message into a storable, system-authored message.
fn sys_to_message(m: &SystemMessage, id: String, channel_id: &String) -> (r: Message)
    ensures
        r.deep_view() == sys_message_record(m.deep_view(), id@, channel_id@),
{
    let copied = match m {
        SystemMessage::ChannelOwnershipChanged { from, to } => {
            SystemMessage::ChannelOwnershipChanged { from: from.clone(), to: to.clone() }
        },
        SystemMessage::ChannelRenamed { name, by } => SystemMessage::ChannelRenamed {
            name: name.clone(),
            by: by.clone(),
        },
        SystemMessage::ChannelDescriptionChanged { by } => {
            SystemMessage::ChannelDescriptionChanged { by: by.clone() }
        },
        SystemMessage::ChannelIconChanged { by } => SystemMessage::ChannelIconChanged {
            by: by.clone(),
        },
    };
    Message {
        id,
        channel: channel_id.clone(),
        author: Author::System,
        content: None,
        system: Some(copied),
        attachments: None,
        embeds: None,
        masquerade: None,
    }
}

/// Edit a channel object by its id: gate on `ViewChannel` and
/// `ManageChannel`, plan the mutation, persist it in one atomic update, and
/// emit the derived system messages after the primary write. `msg_ids`
/// supplies one fresh identifier for each system message that may be
/// emitted.
pub fn edit_channel(
    db: &mut Database,
    user: &User,
    ctx: &ServerContext,
    target: &String,
    data: DataEditChannel,
    msg_ids: Vec<String>,
) -> (r: Result<Channel, Error>)
    requires
        msg_ids@.len() >= 4,
    ensures
        old(db).deep_view() is None ==> *final(db) == *old(db) && r == Err::<Channel, Error>(
            Error::NotSupported,
        ),
        old(db).deep_view() matches Some(s) ==> {
            let (s2, res) = edit_channel_outcome(
                s,
                user.id@,
                ctx.default_allow,
                ctx.roles.deep_view(),
                target@,
                data.deep_view(),
                msg_ids.deep_view(),
            );
            &&& final(db).deep_view() == Some(s2)
            &&& (match (r, res) {
                (Ok(c), Ok(cv)) => c.deep_view() == cv,
                (Err(e), Err(ev)) => e == ev,
                _ => false,
            })
        },
{
    let ghost ddv = data.deep_view();
    let channel = match db.find_channel(target) {
        Ok(c) => c,
        Err(e) => {
            return Err(e);
        },
    };
    let ghost s_entry = old(db).deep_view()->0;
    let ghost chv = channel.deep_view();
    let cap = evaluate(user, &channel, ctx);
    match cap.require_with_view(Permission::ManageChannel) {
        Err(e) => {
            return Err(e);
        },
        Ok(()) => {},
    }

    let is_empty = data.name.is_none() && data.description.is_none() && data.icon.is_none()
        && data.banner.is_none() && data.nsfw.is_none() && data.owner.is_none()
        && data.remove.is_none() && data.password.is_none();

    let attachments = match db.attachments_snapshot() {
        Ok(a) => a,
        Err(e) => {
            return Err(e);
        },
    };
    let plan = match apply_edit(&channel, &user.id, data, &attachments) {
        Ok(p) => p,
        Err(e) => {
            return Err(e);
        },
    };
    let ghost plan_dv = plan.deep_view();
    if is_empty {
        return Ok(channel);
    }

    // Schedule cleared assets for deletion.
    let ghost deletes = plan_dv.delete_assets;
    proof {
        assert(deletes.take(0) =~= Seq::<Seq<char>>::empty());
        assert((StoreV { attachments: mark_all(s_entry.attachments, deletes.take(0)), ..s_entry })
            =~= s_entry);
    }
    let mut i: usize = 0;
    while i < plan.delete_assets.len()
        invariant
            i <= plan.delete_assets.len(),
            deletes == plan.delete_assets.deep_view(),
            db.deep_view() matches Some(cur) && cur == (StoreV {
                attachments: mark_all(s_entry.attachments, deletes.take(i as int)),
                ..s_entry
            }),
        decreases plan.delete_assets.len() - i,
    {
        proof {
            assert(deletes[i as int] == plan.delete_assets@[i as int]@);
        }
        match db.mark_attachment_deleted(&plan.delete_assets[i]) {
            Ok(()) => {},
            Err(e) => {
                return Err(e);
            },
        }
        proof {
            lemma_mark_all_snoc(s_entry.attachments, deletes, i as int);
        }
        i = i + 1;
    }
    proof {
        assert(deletes.take(deletes.len() as int) =~= deletes);
    }

    // Persist the mutation in one atomic update.
    let updated = plan.channel.duplicate();
    proof {
        lemma_edit_preserves_id(chv, user.id@, ddv, s_entry.attachments);
        crate::store::lemma_channel_by_id_found(s_entry.channels, target@);
        assert(plan_dv.channel.id() == chv.id());
        assert(chv.id() == target@);
    }
    match db.put_channel(plan.channel) {
        Ok(()) => {},
        Err(e) => {
            return Err(e);
        },
    }

    // Emit the derived system messages after the primary write, in order.
    let ghost s_marked = StoreV {
        attachments: mark_all(s_entry.attachments, deletes),
        ..s_entry
    };
    let ghost s_put = StoreV { channels: put_channel_spec(s_marked.channels, plan_dv.channel), ..s_marked };
    let ghost msgs = plan_dv.messages;
    let ghost all_records = sys_message_records(msgs, msg_ids.deep_view(), chv.id());
    proof {
        assert(db.deep_view() == Some(s_put));
        assert(msgs.len() <= 4);
        assert(all_records.take(0) =~= Seq::<MessageV>::empty());
        assert((StoreV { messages: s_put.messages + all_records.take(0), ..s_put }) =~= s_put);
    }
    let mut k: usize = 0;
    while k < plan.messages.len()
        invariant
            k <= plan.messages.len(),
            msgs == plan.messages.deep_view(),
            msgs.len() <= 4,
            msg_ids@.len() >= 4,
            all_records == sys_message_records(msgs, msg_ids.deep_view(), chv.id()),
            chv.id() == channel.deep_view().id(),
            db.deep_view() matches Some(cur) && cur == (StoreV {
                messages: s_put.messages + all_records.take(k as int),
                ..s_put
            }),
        decreases plan.messages.len() - k,
    {
        proof {
            assert(msgs[k as int] == plan.messages@[k as int].deep_view());
            assert(msg_ids.deep_view()[k as int] == msg_ids@[k as int]@);
        }
        let record = sys_to_message(&plan.messages[k], msg_ids[k].clone(), channel.id());
        match db.insert_message(record) {
            Ok(()) => {},
            Err(e) => {
                return Err(e);
            },
        }
        proof {
            assert(all_records[k as int] == sys_message_record(
                msgs[k as int],
                msg_ids.deep_view()[k as int],
                chv.id(),
            ));
            assert(all_records.take(k as int).push(all_records[k as int]) =~= all_records.take(
                k as int + 1,
            ));
            assert((s_put.messages + all_records.take(k as int)).push(all_records[k as int])
                =~= s_put.messages + all_records.take(k as int + 1));
        }
        k = k + 1;
    }
    proof {
        assert(all_records.take(msgs.len() as int) =~= all_records);
        let (s_spec, res) = edit_channel_outcome(
            s_entry,
            user.id@,
            ctx.default_allow,
            ctx.roles.deep_view(),
            target@,
            ddv,
            msg_ids.deep_view(),
        );
        assert(db.deep_view()->0 =~= s_spec);
    }
    Ok(updated)
}

} // verus!
