use vstd::prelude::*;

use crate::channel::Channel;
use crate::error::{Error, Permission};
use crate::message::{
    Author, AuthorV, DataMessageSend, DataMessageSendV, IdempotencyRecord, IdempotencyRecordV,
    Message, MessageV,
};
use crate::perms::CapabilitySet;
use crate::store::{Database, StoreV, idem_find, message_by_id, replay_of};
use crate::users::User;

verus! {

/// Dispatcher configuration: how long an idempotency record deduplicates
/// retries, in milliseconds.
pub struct DispatcherConfig {
    pub expiry_window_ms: u64,
}

/// Whether a record created at `created_at` still deduplicates at `now`.
pub open spec fn record_fresh(created_at: u64, window: u64, now: u64) -> bool {
    now as int <= created_at as int + window as int
}

/// The first capability gate a send request fails, or `None` when every
/// gate passes: `ViewChannel` and `SendMessage` always; `SendEmbeds` for
/// non-empty embeds; `UploadFiles` for non-empty attachments; `Masquerade`
/// for a masquerade, plus `ManageRole` when it overrides the colour — two
/// independent, sequentially checked gates. An interaction payload asking to
/// restrict reactions without naming any is refused as an invalid property.
pub open spec fn send_gate_error(cap: CapabilitySet, d: DataMessageSendV) -> Option<Error> {
    if !cap.spec_has(Permission::ViewChannel) {
        Some(Error::PermissionDenied { permission: Permission::ViewChannel })
    } else if !cap.spec_has(Permission::SendMessage) {
        Some(Error::PermissionDenied { permission: Permission::SendMessage })
    } else if d.masquerade is Some && !cap.spec_has(Permission::Masquerade) {
        Some(Error::PermissionDenied { permission: Permission::Masquerade })
    } else if d.masquerade matches Some(m) && m.colour is Some && !cap.spec_has(
        Permission::ManageRole,
    ) {
        Some(Error::PermissionDenied { permission: Permission::ManageRole })
    } else if d.embeds matches Some(e) && e.len() > 0 && !cap.spec_has(Permission::SendEmbeds) {
        Some(Error::PermissionDenied { permission: Permission::SendEmbeds })
    } else if d.attachments matches Some(a) && a.len() > 0 && !cap.spec_has(
        Permission::UploadFiles,
    ) {
        Some(Error::PermissionDenied { permission: Permission::UploadFiles })
    } else if d.interactions matches Some(i) && !i.valid() {
        Some(Error::InvalidProperty)
    } else {
        None
    }
}

/// The message a fresh send persists.
pub open spec fn built_message(
    channel_id: Seq<char>,
    author_id: Seq<char>,
    d: DataMessageSendV,
    new_id: Seq<char>,
) -> MessageV {
    MessageV {
        id: new_id,
        channel: channel_id,
        author: AuthorV::User(author_id),
        content: d.content,
        system: None,
        attachments: d.attachments,
        embeds: d.embeds,
        masquerade: d.masquerade,
    }
}

/// A fresh (non-replayed) send: gate errors leave the store untouched; an
/// accepted send persists the message and then records the idempotency key.
pub open spec fn send_fresh(
    s: StoreV,
    channel_id: Seq<char>,
    author_id: Seq<char>,
    d: DataMessageSendV,
    token: Seq<char>,
    cap: CapabilitySet,
    new_id: Seq<char>,
    now: u64,
) -> (StoreV, Result<MessageV, Error>) {
    match send_gate_error(cap, d) {
        Some(e) => (s, Err(e)),
        None => {
            let m = built_message(channel_id, author_id, d, new_id);
            let rec = IdempotencyRecordV {
                author: author_id,
                token,
                message_id: new_id,
                created_at: now,
            };
            (
                StoreV {
                    messages: s.messages.push(m),
                    idempotency: s.idempotency.push(rec),
                    ..s
                },
                Ok(m),
            )
        },
    }
}

/// What a send request resolves to: an unexpired idempotency record for
/// (author, token) replays the previously created message with no storage
/// write at all; otherwise the request passes the capability gates and is
/// persisted as a fresh message.
pub open spec fn send_outcome(
    s: StoreV,
    channel_id: Seq<char>,
    author_id: Seq<char>,
    d: DataMessageSendV,
    token: Seq<char>,
    cap: CapabilitySet,
    new_id: Seq<char>,
    now: u64,
    window: u64,
) -> (StoreV, Result<MessageV, Error>) {
    match replay_of(s, author_id, token) {
        Some((m, created_at)) => if record_fresh(created_at, window, now) {
            (s, Ok(m))
        } else {
            send_fresh(s, channel_id, author_id, d, token, cap, new_id, now)
        },
        None => send_fresh(s, channel_id, author_id, d, token, cap, new_id, now),
    }
}

/// Wrap message creation in the deduplication guarantee keyed by the
/// client-supplied idempotency token, and coordinate the per-capability
/// checks of the send. `new_id` is the identifier a fresh message gets;
/// `now` the request's timestamp.
///
/// If this request is cancelled between the message write and the
/// idempotency record write, a retry may create a duplicate message: an
/// accepted, bounded risk, as the two writes are not one transaction.
pub fn send_message(
    db: &mut Database,
    channel: &Channel,
    author: &User,
    data: DataMessageSend,
    token: &String,
    cap: &CapabilitySet,
    new_id: String,
    now: u64,
    config: &DispatcherConfig,
) -> (r: Result<Message, Error>)
    ensures
        old(db).deep_view() is None ==> *final(db) == *old(db) && r == Err::<Message, Error>(
            Error::NotSupported,
        ),
        old(db).deep_view() matches Some(s) ==> {
            let (s2, res) = send_outcome(
                s,
                channel.deep_view().id(),
                author.id@,
                data.deep_view(),
                token@,
                *cap,
                new_id@,
                now,
                config.expiry_window_ms,
            );
            &&& final(db).deep_view() == Some(s2)
            &&& (match (r, res) {
                (Ok(m), Ok(mv)) => m.deep_view() == mv,
                (Err(e), Err(ev)) => e == ev,
                _ => false,
            })
        },
        // A capability set lacking `SendMessage` can never produce a fresh
        // message: without a replayed record the send fails with a
        // permission denial and performs no storage write.
        (old(db).deep_view() matches Some(s) && replay_of(s, author.id@, token@) is None
            && !cap.spec_has(Permission::SendMessage)) ==> *final(db) == *old(db) && (
        r matches Err(e) && e is PermissionDenied),
{
    let ghost s0 = old(db).deep_view();
    let replay = match db.find_idempotency(&author.id, token) {
        Err(e) => {
            return Err(e);
        },
        Ok(x) => x,
    };
    match replay {
        Some((m, created_at)) => {
            let still_fresh = (now as u128) <= (created_at as u128) + (
            config.expiry_window_ms as u128);
            if still_fresh {
                return Ok(m);
            }
        },
        None => {},
    }

    match cap.require(Permission::ViewChannel) {
        Err(e) => {
            return Err(e);
        },
        Ok(()) => {},
    }
    match cap.require(Permission::SendMessage) {
        Err(e) => {
            return Err(e);
        },
        Ok(()) => {},
    }
    match &data.masquerade {
        Some(masq) => {
            match cap.require(Permission::Masquerade) {
                Err(e) => {
                    return Err(e);
                },
                Ok(()) => {},
            }
            if masq.colour.is_some() {
                match cap.require(Permission::ManageRole) {
                    Err(e) => {
                        return Err(e);
                    },
                    Ok(()) => {},
                }
            }
        },
        None => {},
    }
    match &data.embeds {
        Some(embeds) => {
            if embeds.len() > 0 {
                match cap.require(Permission::SendEmbeds) {
                    Err(e) => {
                        return Err(e);
                    },
                    Ok(()) => {},
                }
            }
        },
        None => {},
    }
    match &data.attachments {
        Some(attachments) => {
            if attachments.len() > 0 {
                match cap.require(Permission::UploadFiles) {
                    Err(e) => {
                        return Err(e);
                    },
                    Ok(()) => {},
                }
            }
        },
        None => {},
    }
    match &data.interactions {
        Some(interactions) => {
            if interactions.restrict_reactions {
                let ok = match &interactions.reactions {
                    Some(reactions) => reactions.len() > 0,
                    None => false,
                };
                if !ok {
                    return Err(Error::InvalidProperty);
                }
            }
        },
        None => {},
    }

    let message = Message {
        id: new_id.clone(),
        channel: channel.id().clone(),
        author: Author::User(author.id.clone()),
        content: data.content,
        system: None,
        attachments: data.attachments,
        embeds: data.embeds,
        masquerade: data.masquerade,
    };
    let result = message.duplicate();
    match db.insert_message(message) {
        Err(e) => {
            return Err(e);
        },
        Ok(()) => {},
    }
    let record = IdempotencyRecord {
        author: author.id.clone(),
        token: token.clone(),
        message_id: new_id,
        created_at: now,
    };
    match db.insert_idempotency(record) {
        Err(e) => {
            return Err(e);
        },
        Ok(()) => {},
    }
    proof {
        let s = s0->0;
        let (s2, res) = send_outcome(
            s,
            channel.deep_view().id(),
            author.id@,
            data.deep_view(),
            token@,
            *cap,
            new_id@,
            now,
            config.expiry_window_ms,
        );
        assert(final(db).deep_view()->0 =~= s2);
    }
    Ok(result)
}

/// What the send-message operation resolves to over the whole store: an
/// absent target is `NotFound`; otherwise the dispatcher runs with the
/// capability set resolved for the caller on that channel.
pub open spec fn message_send_outcome(
    s: StoreV,
    caller: crate::users::UserV,
    ctx_default: u64,
    roles: Seq<crate::perms::RoleGrantV>,
    target: Seq<char>,
    d: DataMessageSendV,
    token: Seq<char>,
    new_id: Seq<char>,
    now: u64,
    window: u64,
) -> (StoreV, Result<MessageV, Error>) {
    match crate::store::channel_by_id(s.channels, target) {
        None => (s, Err(Error::NotFound)),
        Some(ch) => {
            let cap = CapabilitySet {
                bits: crate::perms::evaluate_bits(caller.id, ch, ctx_default, roles),
            };
            send_outcome(s, ch.id(), caller.id, d, token, cap, new_id, now, window)
        },
    }
}

/// Send a message to the given channel: resolve the caller's capability set
/// once, then dispatch with the idempotency guarantee. `new_id` is the
/// identifier a fresh message gets; `now` the request's timestamp.
pub fn message_send(
    db: &mut Database,
    user: &User,
    ctx: &crate::perms::ServerContext,
    target: &String,
    data: DataMessageSend,
    idempotency_token: &String,
    new_id: String,
    now: u64,
    config: &DispatcherConfig,
) -> (r: Result<Message, Error>)
    ensures
        old(db).deep_view() is None ==> *final(db) == *old(db) && r == Err::<Message, Error>(
            Error::NotSupported,
        ),
        old(db).deep_view() matches Some(s) ==> {
            let (s2, res) = message_send_outcome(
                s,
                user.deep_view(),
                ctx.default_allow,
                ctx.roles.deep_view(),
                target@,
                data.deep_view(),
                idempotency_token@,
                new_id@,
                now,
                config.expiry_window_ms,
            );
            &&& final(db).deep_view() == Some(s2)
            &&& (match (r, res) {
                (Ok(m), Ok(mv)) => m.deep_view() == mv,
                (Err(e), Err(ev)) => e == ev,
                _ => false,
            })
        },
{
    let channel = match db.find_channel(target) {
        Ok(c) => c,
        Err(e) => {
            return Err(e);
        },
    };
    let cap = crate::perms::evaluate(user, &channel, ctx);
    send_message(db, &channel, user, data, idempotency_token, &cap, new_id, now, config)
}

/// The other participant of a direct-message channel, if the sender is in a
/// direct message at all: the first recipient that is not the sender. Used
/// to address the out-of-band notification for unread messages.
pub open spec fn dm_other_recipient(c: crate::channel::ChannelV, sender: Seq<char>) -> Option<
    Seq<char>,
>
    decreases (match c {
        crate::channel::ChannelV::DirectMessage { recipients, .. } => recipients.len(),
        _ => 0,
    }),
{
    match c {
        crate::channel::ChannelV::DirectMessage { id, active, recipients, last_message_id } => {
            if recipients.len() == 0 {
                None
            } else if recipients[0] != sender {
                Some(recipients[0])
            } else {
                dm_other_recipient(
                    crate::channel::ChannelV::DirectMessage {
                        id,
                        active,
                        recipients: recipients.drop_first(),
                        last_message_id,
                    },
                    sender,
                )
            }
        },
        _ => None,
    }
}

/// Find the recipient of a direct message that is not the sender.
pub fn dm_notification_target(channel: &Channel, sender: &User) -> (r: Option<String>)
    ensures
        r.deep_view() == dm_other_recipient(channel.deep_view(), sender.id@),
{
    match channel {
        Channel::DirectMessage { recipients, .. } => {
            let ghost dv = recipients.deep_view();
            let ghost chv = channel.deep_view();
            proof {
                assert(dm_rest(chv, 0) =~= chv);
            }
            let mut i: usize = 0;
            while i < recipients.len()
                invariant
                    i <= recipients.len(),
                    dv == recipients.deep_view(),
                    chv == channel.deep_view(),
                    chv matches crate::channel::ChannelV::DirectMessage { recipients: rs, .. }
                        && rs == dv,
                    dm_other_recipient(chv, sender.id@) == dm_other_recipient(
                        dm_rest(chv, i as int),
                        sender.id@,
                    ),
                    forall|j: int| 0 <= j < i ==> dv[j] == sender.id@,
                decreases recipients.len() - i,
            {
                proof {
                    assert(dv[i as int] == recipients@[i as int]@);
                    assert(dm_rest(chv, i as int)
                        matches crate::channel::ChannelV::DirectMessage { recipients: rs, .. }
                        && rs =~= dv.skip(i as int));
                    assert(dv.skip(i as int)[0] == dv[i as int]);
                    assert(dv.skip(i as int).drop_first() =~= dv.skip(i as int + 1));
                    assert(dm_rest(chv, i as int + 1)
                        matches crate::channel::ChannelV::DirectMessage { recipients: rs, .. }
                        && rs =~= dv.skip(i as int + 1));
                }
                if !(recipients[i] == sender.id) {
                    return Some(recipients[i].clone());
                }
                proof {
                    let next = dm_rest(chv, i as int);
                    let after = dm_rest(chv, i as int + 1);
                    assert(dm_other_recipient(next, sender.id@) == dm_other_recipient(
                        after,
                        sender.id@,
                    ));
                }
                i = i + 1;
            }
            proof {
                assert(dm_rest(chv, i as int)
                    matches crate::channel::ChannelV::DirectMessage { recipients: rs, .. }
                    && rs =~= Seq::<Seq<char>>::empty());
            }
            None
        },
        _ => None,
    }
}

/// The direct-message view with its first `i` recipients dropped.
pub open spec fn dm_rest(c: crate::channel::ChannelV, i: int) -> crate::channel::ChannelV {
    match c {
        crate::channel::ChannelV::DirectMessage { id, active, recipients, last_message_id } => {
            crate::channel::ChannelV::DirectMessage {
                id,
                active,
                recipients: recipients.skip(i),
                last_message_id,
            }
        },
        _ => c,
    }
}

// ---------------------------------------------------------------------------
// Laws of the dispatcher
// ---------------------------------------------------------------------------

/// Appending a record for a pair no earlier record names makes it the pair's
/// record.
proof fn lemma_idem_find_push(
    recs: Seq<IdempotencyRecordV>,
    rec: IdempotencyRecordV,
    author: Seq<char>,
    token: Seq<char>,
)
    requires
        idem_find(recs, author, token) is None,
        rec.author == author,
        rec.token == token,
    ensures
        idem_find(recs.push(rec), author, token) == Some(rec),
    decreases recs.len(),
{
    if recs.len() == 0 {
        assert(recs.push(rec).drop_first() =~= Seq::<IdempotencyRecordV>::empty().push(
            rec,
        ).drop_first());
    } else {
        assert(recs.push(rec).drop_first() =~= recs.drop_first().push(rec));
        lemma_idem_find_push(recs.drop_first(), rec, author, token);
    }
}

/// Appending a message under an id no earlier message carries makes it the
/// id's message.
proof fn lemma_message_by_id_push(msgs: Seq<MessageV>, m: MessageV, id: Seq<char>)
    requires
        message_by_id(msgs, id) is None,
        m.id == id,
    ensures
        message_by_id(msgs.push(m), id) == Some(m),
    decreases msgs.len(),
{
    if msgs.len() == 0 {
    } else {
        assert(msgs.push(m).drop_first() =~= msgs.drop_first().push(m));
        lemma_message_by_id_push(msgs.drop_first(), m, id);
    }
}

/// Sending twice with the same (author, token) pair returns the same message
/// both times, and storage holds exactly one message for that pair: the
/// first accepted send appends one message and records the token, and an
/// unexpired retry replays that very message with no storage write.
pub proof fn lemma_send_idempotent(
    s: StoreV,
    channel_id: Seq<char>,
    author_id: Seq<char>,
    d1: DataMessageSendV,
    d2: DataMessageSendV,
    token: Seq<char>,
    cap1: CapabilitySet,
    cap2: CapabilitySet,
    id1: Seq<char>,
    id2: Seq<char>,
    now1: u64,
    now2: u64,
    window: u64,
)
    requires
        idem_find(s.idempotency, author_id, token) is None,
        message_by_id(s.messages, id1) is None,
        send_outcome(s, channel_id, author_id, d1, token, cap1, id1, now1, window).1 is Ok,
        record_fresh(now1, window, now2),
    ensures
        ({
            let (s1, r1) = send_outcome(s, channel_id, author_id, d1, token, cap1, id1, now1, window);
            let (s2, r2) = send_outcome(
                s1,
                channel_id,
                author_id,
                d2,
                token,
                cap2,
                id2,
                now2,
                window,
            );
            &&& r2 == r1
            &&& s2 == s1
            &&& s1.messages.len() == s.messages.len() + 1
        }),
{
    let (s1, r1) = send_outcome(s, channel_id, author_id, d1, token, cap1, id1, now1, window);
    let m = built_message(channel_id, author_id, d1, id1);
    let rec = IdempotencyRecordV { author: author_id, token, message_id: id1, created_at: now1 };
    lemma_idem_find_push(s.idempotency, rec, author_id, token);
    lemma_message_by_id_push(s.messages, m, id1);
    assert(replay_of(s1, author_id, token) == Some((m, now1)));
}

} // verus!
