use vstd::prelude::*;

use crate::channel::{Channel, ChannelV};
use crate::error::Error;
use crate::events::{EventGuest, EventGuestV, EventV, GuestStatus};
use crate::message::{Author, AuthorV, Message, MessageV};
use crate::store::{
    Database, StoreV, account_by_id, dm_channel_between, event_by_id, guest_by, guests_of,
    set_guest_status_spec, user_by_id,
};
use crate::users::User;

verus! {

// ---------------------------------------------------------------------------
// Request and response shapes
// ---------------------------------------------------------------------------

/// A request to register one guest.
pub struct DataCreateGuest {
    pub name: String,
    pub email: String,
    pub phone: String,
    pub associated_user_id: Option<String>,
    pub plus_one_of: Option<String>,
    pub parent_guest_id: Option<String>,
}

/// Mathematical value of a `DataCreateGuest`.
#[verifier::ext_equal]
pub struct DataCreateGuestV {
    pub name: Seq<char>,
    pub email: Seq<char>,
    pub phone: Seq<char>,
    pub associated_user_id: Option<Seq<char>>,
    pub plus_one_of: Option<Seq<char>>,
    pub parent_guest_id: Option<Seq<char>>,
}

impl DeepView for DataCreateGuest {
    type V = DataCreateGuestV;

    open spec fn deep_view(&self) -> DataCreateGuestV {
        DataCreateGuestV {
            name: self.name@,
            email: self.email@,
            phone: self.phone@,
            associated_user_id: self.associated_user_id.deep_view(),
            plus_one_of: self.plus_one_of.deep_view(),
            parent_guest_id: self.parent_guest_id.deep_view(),
        }
    }
}

/// A request to register a main contact and their additional guests.
pub struct DataCreateBulkGuests {
    pub main_contact: DataCreateGuest,
    pub additional_guests: Vec<DataCreateGuest>,
}

/// A single registered guest, as the interface answers it.
pub struct GuestResponse {
    pub guest: EventGuest,
}

/// Every guest a bulk registration created, as the interface answers it.
pub struct BulkGuestResponse {
    pub guests: Vec<EventGuest>,
}

/// A user found by a directory search.
pub struct UserSearchResponse {
    pub id: String,
    pub username: String,
    pub email: String,
}

/// One guest status change.
pub struct GuestStatusUpdate {
    pub guest_id: String,
    pub status: GuestStatus,
}

/// Mathematical value of a `GuestStatusUpdate`.
#[verifier::ext_equal]
pub struct GuestStatusUpdateV {
    pub guest_id: Seq<char>,
    pub status: GuestStatus,
}

impl DeepView for GuestStatusUpdate {
    type V = GuestStatusUpdateV;

    open spec fn deep_view(&self) -> GuestStatusUpdateV {
        GuestStatusUpdateV { guest_id: self.guest_id@, status: self.status }
    }
}

/// A batch of guest status changes.
pub struct BulkStatusUpdate {
    pub updates: Vec<GuestStatusUpdate>,
}

/// One direct message to send to a user.
pub struct UserMessage {
    pub user_id: String,
    pub content: Option<String>,
}

/// Mathematical value of a `UserMessage`.
#[verifier::ext_equal]
pub struct UserMessageV {
    pub user_id: Seq<char>,
    pub content: Option<Seq<char>>,
}

impl DeepView for UserMessage {
    type V = UserMessageV;

    open spec fn deep_view(&self) -> UserMessageV {
        UserMessageV { user_id: self.user_id@, content: self.content.deep_view() }
    }
}

/// A batch of direct messages to send.
pub struct BulkMessageData {
    pub messages: Vec<UserMessage>,
}

/// A notification to send to guests filtered by status.
pub struct GuestMessageData {
    pub content: String,
    pub statuses: Vec<GuestStatus>,
}

// ---------------------------------------------------------------------------
// Outbound email notices
// ---------------------------------------------------------------------------

/// Which template an outbound email uses.
#[derive(Debug, Clone, Copy, PartialEq, Eq, Structural)]
pub enum EmailKind {
    GuestApproved,
    GuestRejected,
    GuestWelcome,
    HostNewGuests,
    MessageFromHost,
    EventNotification,
}

/// One outbound email, computed by the core and rendered and delivered by
/// the caller. Delivery is best effort: a failed delivery never fails the
/// operation that produced the notice.
pub struct EmailNotice {
    pub to: String,
    pub kind: EmailKind,
    pub event_id: String,
    pub event_title: String,
    pub count: usize,
    pub content: Option<String>,
}

/// Mathematical value of an `EmailNotice`.
#[verifier::ext_equal]
pub struct EmailNoticeV {
    pub to: Seq<char>,
    pub kind: EmailKind,
    pub event_id: Seq<char>,
    pub event_title: Seq<char>,
    pub count: usize,
    pub content: Option<Seq<char>>,
}

impl DeepView for EmailNotice {
    type V = EmailNoticeV;

    open spec fn deep_view(&self) -> EmailNoticeV {
        EmailNoticeV {
            to: self.to@,
            kind: self.kind,
            event_id: self.event_id@,
            event_title: self.event_title@,
            count: self.count,
            content: self.content.deep_view(),
        }
    }
}

// ---------------------------------------------------------------------------
// Registering guests
// ---------------------------------------------------------------------------

/// The guest record a single registration creates: pending, attributed to
/// the requesting user, flagged as a plus-one exactly when it names a guest
/// it accompanies.
pub open spec fn built_guest(
    d: DataCreateGuestV,
    event_id: Seq<char>,
    user_id: Option<Seq<char>>,
    id: Seq<char>,
    now: Seq<char>,
) -> EventGuestV {
    EventGuestV {
        id,
        event_id,
        parent_guest_id: d.parent_guest_id,
        plus_one_of: d.plus_one_of,
        user_id,
        name: d.name,
        email: d.email,
        phone: d.phone,
        status: GuestStatus::Pending,
        is_plus_one: Some(d.plus_one_of is Some),
        created_at: now,
    }
}

/// Add a guest to an event: a pending registration under a fresh identifier,
/// attributed to the requesting user.
pub fn add_guest(
    db: &mut Database,
    user: &User,
    event_id: &String,
    data: DataCreateGuest,
    new_id: String,
    now: String,
) -> (r: Result<GuestResponse, Error>)
    ensures
        old(db).deep_view() is None ==> *final(db) == *old(db) && (r matches Err(e) && e
            == Error::NotSupported),
        old(db).deep_view() matches Some(s) ==> {
            let g = built_guest(data.deep_view(), event_id@, Some(user.id@), new_id@, now@);
            &&& final(db).deep_view() == Some(StoreV { guests: s.guests.push(g), ..s })
            &&& r matches Ok(resp) && resp.guest.deep_view() == g
        },
{
    let guest = EventGuest {
        id: new_id,
        event_id: event_id.clone(),
        parent_guest_id: data.parent_guest_id,
        plus_one_of: match &data.plus_one_of {
            Some(p) => Some(p.clone()),
            None => None,
        },
        user_id: Some(user.id.clone()),
        name: data.name,
        email: data.email,
        phone: data.phone,
        status: GuestStatus::Pending,
        is_plus_one: Some(data.plus_one_of.is_some()),
        created_at: now,
    };
    let out = guest.duplicate();
    match db.add_guest(guest) {
        Ok(()) => Ok(GuestResponse { guest: out }),
        Err(e) => Err(e),
    }
}

// ---------------------------------------------------------------------------
// Direct-message fan-out
// ---------------------------------------------------------------------------

/// The stored form of one fan-out direct message.
pub open spec fn dm_message(
    id: Seq<char>,
    channel: Seq<char>,
    author: Seq<char>,
    content: Seq<char>,
) -> MessageV {
    MessageV {
        id,
        channel,
        author: AuthorV::User(author),
        content: Some(content),
        system: None,
        attachments: None,
        embeds: None,
        masquerade: None,
    }
}

/// One step of a direct-message fan-out: reuse the conversation between the
/// two users when one exists, otherwise create it under `channel_id` with
/// the given activity flag; then append the message under `msg_id`.
pub open spec fn dm_step(
    s: StoreV,
    caller: Seq<char>,
    recipient: Seq<char>,
    content: Seq<char>,
    channel_id: Seq<char>,
    msg_id: Seq<char>,
    active: bool,
) -> StoreV {
    match dm_channel_between(s.channels, caller, recipient) {
        Some(ch) => StoreV {
            messages: s.messages.push(dm_message(msg_id, ch.id(), caller, content)),
            ..s
        },
        None => StoreV {
            channels: s.channels.push(
                ChannelV::DirectMessage {
                    id: channel_id,
                    active,
                    recipients: seq![caller, recipient],
                    last_message_id: None,
                },
            ),
            messages: s.messages.push(dm_message(msg_id, channel_id, caller, content)),
            ..s
        },
    }
}

/// Send one direct message: find or create the conversation, then persist
/// the message.
pub fn send_dm(
    db: &mut Database,
    caller_id: &String,
    recipient: &String,
    content: &String,
    channel_id: String,
    msg_id: String,
    active: bool,
) -> (r: Result<(), Error>)
    ensures
        *old(db) is Stub ==> *final(db) == *old(db) && (r matches Err(e) && e
            == Error::NotSupported),
        old(db).deep_view() matches Some(s) ==> r is Ok && final(db).deep_view() == Some(
            dm_step(s, caller_id@, recipient@, content@, channel_id@, msg_id@, active),
        ),
{
    let channel_ref: String = match db.find_direct_message_channel(caller_id, recipient) {
        Ok(existing) => existing.id().clone(),
        Err(Error::NotFound) => {
            let fresh = Channel::DirectMessage {
                id: channel_id.clone(),
                active,
                recipients: vec![caller_id.clone(), recipient.clone()],
                last_message_id: None,
            };
            proof {
                assert(fresh.deep_view() =~= (ChannelV::DirectMessage {
                    id: channel_id@,
                    active,
                    recipients: seq![caller_id@, recipient@],
                    last_message_id: None,
                }));
            }
            match db.insert_channel(fresh) {
                Ok(()) => {},
                Err(e) => {
                    return Err(e);
                },
            }
            channel_id
        },
        Err(e) => {
            return Err(e);
        },
    };
    let message = Message {
        id: msg_id,
        channel: channel_ref,
        author: Author::User(caller_id.clone()),
        content: Some(content.clone()),
        system: None,
        attachments: None,
        embeds: None,
        masquerade: None,
    };
    match db.insert_message(message) {
        Ok(()) => Ok(()),
        Err(e) => Err(e),
    }
}

/// A whole direct-message fan-out, one `dm_step` per recipient, under the
/// given fresh (channel id, message id) pairs.
pub open spec fn dm_fanout(
    s: StoreV,
    caller: Seq<char>,
    recipients: Seq<Seq<char>>,
    content: Seq<char>,
    ids: Seq<(Seq<char>, Seq<char>)>,
    active: bool,
) -> StoreV
    decreases recipients.len(),
{
    if recipients.len() == 0 || ids.len() == 0 {
        s
    } else {
        dm_fanout(
            dm_step(s, caller, recipients[0], content, ids[0].0, ids[0].1, active),
            caller,
            recipients.drop_first(),
            content,
            ids.drop_first(),
            active,
        )
    }
}

/// Extending a fan-out by one recipient appends one step.
proof fn lemma_dm_fanout_snoc(
    s: StoreV,
    caller: Seq<char>,
    recipients: Seq<Seq<char>>,
    content: Seq<char>,
    ids: Seq<(Seq<char>, Seq<char>)>,
    x: Seq<char>,
    p: (Seq<char>, Seq<char>),
    active: bool,
)
    requires
        recipients.len() == ids.len(),
    ensures
        dm_fanout(s, caller, recipients.push(x), content, ids.push(p), active) == dm_step(
            dm_fanout(s, caller, recipients, content, ids, active),
            caller,
            x,
            content,
            p.0,
            p.1,
            active,
        ),
    decreases recipients.len(),
{
    if recipients.len() == 0 {
        assert(recipients.push(x)[0] == x);
        assert(ids.push(p)[0] == p);
        assert(recipients.push(x).drop_first() =~= Seq::<Seq<char>>::empty());
        assert(ids.push(p).drop_first() =~= Seq::<(Seq<char>, Seq<char>)>::empty());
        assert(dm_fanout(
            dm_step(s, caller, x, content, p.0, p.1, active),
            caller,
            recipients.push(x).drop_first(),
            content,
            ids.push(p).drop_first(),
            active,
        ) == dm_step(s, caller, x, content, p.0, p.1, active));
    } else {
        assert(recipients.push(x)[0] == recipients[0]);
        assert(ids.push(p)[0] == ids[0]);
        assert(recipients.push(x).drop_first() =~= recipients.drop_first().push(x));
        assert(ids.push(p).drop_first() =~= ids.drop_first().push(p));
        lemma_dm_fanout_snoc(
            dm_step(s, caller, recipients[0], content, ids[0].0, ids[0].1, active),
            caller,
            recipients.drop_first(),
            content,
            ids.drop_first(),
            x,
            p,
            active,
        );
    }
}

/// Whether `s2` is `s` after a direct-message fan-out to the given
/// recipients, under some choice of fresh identifiers.
pub open spec fn dm_fanout_reachable(
    s: StoreV,
    caller: Seq<char>,
    recipients: Seq<Seq<char>>,
    content: Seq<char>,
    active: bool,
    s2: StoreV,
) -> bool {
    exists|ids: Seq<(Seq<char>, Seq<char>)>|
        ids.len() == recipients.len() && s2 == dm_fanout(s, caller, recipients, content, ids, active)
}

/// Send one direct message to each recipient, minting fresh channel and
/// message identifiers as needed.
pub fn dm_broadcast(
    db: &mut Database,
    caller_id: &String,
    recipients: &Vec<String>,
    content: &String,
    active: bool,
) -> (r: Result<(), Error>)
    ensures
        *old(db) is Stub && recipients@.len() > 0 ==> *final(db) == *old(db) && (r matches Err(e)
            && e == Error::NotSupported),
        *old(db) is Stub && recipients@.len() == 0 ==> *final(db) == *old(db) && r is Ok,
        old(db).deep_view() matches Some(s) ==> r is Ok && (final(db).deep_view() matches Some(
            s2,
        ) && dm_fanout_reachable(s, caller_id@, recipients.deep_view(), content@, active, s2)),
{
    let ghost s0opt = old(db).deep_view();
    let ghost rv = recipients.deep_view();
    let ghost mut used: Seq<(Seq<char>, Seq<char>)> = Seq::empty();
    proof {
        assert(rv.take(0) =~= Seq::<Seq<char>>::empty());
    }
    let mut k: usize = 0;
    while k < recipients.len()
        invariant
            k <= recipients.len(),
            rv == recipients.deep_view(),
            s0opt == old(db).deep_view(),
            used.len() == k,
            old(db).deep_view() is None ==> k == 0 && *db == *old(db),
            old(db).deep_view() matches Some(s) ==> db.deep_view() == Some(
                dm_fanout(s, caller_id@, rv.take(k as int), content@, used, active),
            ),
        decreases recipients.len() - k,
    {
        let channel_id = crate::external::ulid_new();
        let msg_id = crate::external::ulid_new();
        let ghost pair = (channel_id@, msg_id@);
        let ghost before = used;
        proof {
            assert(rv[k as int] == recipients@[k as int]@);
        }
        match send_dm(db, caller_id, &recipients[k], content, channel_id, msg_id, active) {
            Ok(()) => {},
            Err(e) => {
                return Err(e);
            },
        }
        proof {
            used = used.push(pair);
            if s0opt is Some {
                lemma_dm_fanout_snoc(
                    s0opt->0,
                    caller_id@,
                    rv.take(k as int),
                    content@,
                    before,
                    rv[k as int],
                    pair,
                    active,
                );
                assert(rv.take(k as int).push(rv[k as int]) =~= rv.take(k as int + 1));
            }
        }
        k = k + 1;
    }
    proof {
        assert(rv.take(rv.len() as int) =~= rv);
        if s0opt is Some {
            let s = s0opt->0;
            assert(db.deep_view()->0 == dm_fanout(s, caller_id@, rv, content@, used, active));
        }
    }
    Ok(())
}

// ---------------------------------------------------------------------------
// Bulk registration
// ---------------------------------------------------------------------------

/// The guests a bulk registration creates: the main contact first, pending
/// and attributed to the requesting user when one is known, then each
/// additional guest as an anonymous plus-one of the main contact.
pub open spec fn bulk_built_guests(
    main: DataCreateGuestV,
    adds: Seq<DataCreateGuestV>,
    event_id: Seq<char>,
    user: Option<Seq<char>>,
    ids: Seq<Seq<char>>,
    now: Seq<char>,
) -> Seq<EventGuestV> {
    seq![
        EventGuestV {
            id: ids[0],
            event_id,
            parent_guest_id: None,
            plus_one_of: None,
            user_id: user,
            name: main.name,
            email: main.email,
            phone: main.phone,
            status: GuestStatus::Pending,
            is_plus_one: None,
            created_at: now,
        },
    ] + Seq::new(
        adds.len(),
        |k: int|
            EventGuestV {
                id: ids[k + 1],
                event_id,
                parent_guest_id: adds[k].parent_guest_id,
                plus_one_of: Some(ids[0]),
                user_id: None,
                name: adds[k].name,
                email: adds[k].email,
                phone: adds[k].phone,
                status: GuestStatus::Pending,
                is_plus_one: Some(true),
                created_at: now,
            },
    )
}

/// An event's hosts together with its creator, if it records one.
pub open spec fn hosts_and_creator(ev: EventV) -> Seq<Seq<char>> {
    ev.hosts + (match ev.created_by {
        Some(c) => seq![c],
        None => Seq::<Seq<char>>::empty(),
    })
}

/// The contact email of every listed user that has both a user record and
/// an account.
pub open spec fn host_emails(s: StoreV, ids: Seq<Seq<char>>) -> Seq<Seq<char>>
    decreases ids.len(),
{
    if ids.len() == 0 {
        Seq::empty()
    } else {
        let rest = host_emails(s, ids.drop_first());
        match user_by_id(s.users, ids[0]) {
            Some(u) => match account_by_id(s.accounts, u.id) {
                Some(a) => seq![a.email] + rest,
                None => rest,
            },
            None => rest,
        }
    }
}

/// One welcome notice per created guest.
pub open spec fn welcome_notices(
    guests: Seq<EventGuestV>,
    event_id: Seq<char>,
    title: Seq<char>,
) -> Seq<EmailNoticeV> {
    Seq::new(
        guests.len(),
        |i: int|
            EmailNoticeV {
                to: guests[i].email,
                kind: EmailKind::GuestWelcome,
                event_id,
                event_title: title,
                count: 0,
                content: None,
            },
    )
}

/// One new-registrations notice per reachable host or creator email.
pub open spec fn host_notices(
    emails: Seq<Seq<char>>,
    event_id: Seq<char>,
    title: Seq<char>,
    count: usize,
) -> Seq<EmailNoticeV> {
    Seq::new(
        emails.len(),
        |i: int|
            EmailNoticeV {
                to: emails[i],
                kind: EmailKind::HostNewGuests,
                event_id,
                event_title: title,
                count,
                content: None,
            },
    )
}

/// What a bulk registration resolves to: the new guests are persisted first;
/// the notification phase then demands the event and produces one welcome
/// notice per guest and one notice per reachable host or creator email.
pub open spec fn add_bulk_outcome(
    s: StoreV,
    user: Option<Seq<char>>,
    event_id: Seq<char>,
    main: DataCreateGuestV,
    adds: Seq<DataCreateGuestV>,
    ids: Seq<Seq<char>>,
    now: Seq<char>,
) -> (StoreV, Result<(Seq<EventGuestV>, Seq<EmailNoticeV>), Error>) {
    let created = bulk_built_guests(main, adds, event_id, user, ids, now);
    let s1 = StoreV { guests: s.guests + created, ..s };
    match event_by_id(s.events, event_id) {
        None => (s1, Err(Error::NotFound)),
        Some(ev) => {
            let notices = welcome_notices(created, event_id, ev.title) + host_notices(
                host_emails(s, hosts_and_creator(ev)),
                event_id,
                ev.title,
                created.len() as usize,
            );
            (s1, Ok((created, notices)))
        },
    }
}

/// Register a main contact and their additional guests in one request, then
/// derive the notification emails: a welcome per guest, and a registration
/// summary per reachable host or creator email. `ids` supplies one fresh
/// identifier per guest, main contact first.
pub fn add_bulk_guests(
    db: &mut Database,
    user: Option<&User>,
    event_id: &String,
    data: DataCreateBulkGuests,
    ids: Vec<String>,
    now: String,
) -> (r: Result<(BulkGuestResponse, Vec<EmailNotice>), Error>)
    requires
        ids@.len() == 1 + data.additional_guests@.len(),
        data.additional_guests@.len() < usize::MAX,
    ensures
        *old(db) is Stub ==> *final(db) == *old(db) && (r matches Err(e) && e
            == Error::NotSupported),
        old(db).deep_view() matches Some(s) ==> {
            let (s2, res) = add_bulk_outcome(
                s,
                match user {
                    Some(u) => Some(u.id@),
                    None => None,
                },
                event_id@,
                data.main_contact.deep_view(),
                data.additional_guests.deep_view(),
                ids.deep_view(),
                now@,
            );
            &&& final(db).deep_view() == Some(s2)
            &&& (match (r, res) {
                (Ok((resp, notices)), Ok((gs, ns))) => resp.guests.deep_view() == gs
                    && notices.deep_view() == ns,
                (Err(e), Err(ev)) => e == ev,
                _ => false,
            })
        },
{
    let ghost s0opt = old(db).deep_view();
    let ghost uopt: Option<Seq<char>> = match user {
        Some(u) => Some(u.id@),
        None => None,
    };
    let ghost all = bulk_built_guests(
        data.main_contact.deep_view(),
        data.additional_guests.deep_view(),
        event_id@,
        uopt,
        ids.deep_view(),
        now@,
    );

    let main_guest = EventGuest {
        id: ids[0].clone(),
        event_id: event_id.clone(),
        parent_guest_id: None,
        plus_one_of: None,
        user_id: match user {
            Some(u) => Some(u.id.clone()),
            None => None,
        },
        name: data.main_contact.name,
        email: data.main_contact.email,
        phone: data.main_contact.phone,
        status: GuestStatus::Pending,
        is_plus_one: None,
        created_at: now.clone(),
    };
    let main_id = main_guest.id.clone();
    let mut created: Vec<EventGuest> = Vec::new();
    created.push(main_guest.duplicate());
    match db.add_guest(main_guest) {
        Ok(()) => {},
        Err(e) => {
            return Err(e);
        },
    }
    proof {
        assert(created.deep_view() =~= all.take(1));
        if s0opt is Some {
            assert((s0opt->0).guests.push(all[0]) =~= (s0opt->0).guests + all.take(1));
        }
    }

    let additional = data.additional_guests;
    let mut k: usize = 0;
    while k < additional.len()
        invariant
            k <= additional.len(),
            ids@.len() == 1 + additional@.len(),
            now@ == now@,
            main_id@ == ids.deep_view()[0],
            all == bulk_built_guests(
                data.main_contact.deep_view(),
                additional.deep_view(),
                event_id@,
                uopt,
                ids.deep_view(),
                now@,
            ),
            created.deep_view() == all.take(k as int + 1),
            *old(db) is Stub ==> false,
            s0opt == old(db).deep_view(),
            s0opt matches Some(s) ==> db.deep_view() == Some(
                StoreV { guests: s.guests + all.take(k as int + 1), ..s },
            ),
        decreases additional.len() - k,
    {
        proof {
            assert(additional.deep_view()[k as int] == additional@[k as int].deep_view());
            assert(ids.deep_view()[k as int + 1] == ids@[k as int + 1]@);
        }
        let guest = EventGuest {
            id: ids[k + 1].clone(),
            event_id: event_id.clone(),
            parent_guest_id: crate::channel::clone_opt_string(&additional[k].parent_guest_id),
            plus_one_of: Some(main_id.clone()),
            user_id: None,
            name: additional[k].name.clone(),
            email: additional[k].email.clone(),
            phone: additional[k].phone.clone(),
            status: GuestStatus::Pending,
            is_plus_one: Some(true),
            created_at: now.clone(),
        };
        let ghost gdv = guest.deep_view();
        let ghost created_before = created.deep_view();
        created.push(guest.duplicate());
        match db.add_guest(guest) {
            Ok(()) => {},
            Err(e) => {
                return Err(e);
            },
        }
        proof {
            assert(gdv =~= all[k as int + 1]);
            assert(created.deep_view() =~= created_before.push(gdv));
            assert(all.take(k as int + 1).push(all[k as int + 1]) =~= all.take(k as int + 2));
            if s0opt is Some {
                let s = s0opt->0;
                assert((s.guests + all.take(k as int + 1)).push(all[k as int + 1]) =~= s.guests
                    + all.take(k as int + 2));
            }
        }
        k = k + 1;
    }
    proof {
        assert(all.take(all.len() as int) =~= all);
        assert(all.len() == 1 + additional@.len());
    }

    // Notification phase: the event must exist.
    let event = match db.fetch_event(None, event_id) {
        Ok(e) => e,
        Err(e) => {
            return Err(e);
        },
    };
    let ghost ev = event_by_id((s0opt->0).events, event_id@)->0;

    let mut notices: Vec<EmailNotice> = Vec::new();
    let mut i: usize = 0;
    while i < created.len()
        invariant
            i <= created.len(),
            created.deep_view() == all,
            event.title@ == ev.title,
            notices.len() == i,
            forall|j: int|
                0 <= j < i ==> notices.deep_view()[j] == welcome_notices(all, event_id@, ev.title)[j],
        decreases created.len() - i,
    {
        let ghost prev_dv = notices.deep_view();
        notices.push(
            EmailNotice {
                to: created[i].email.clone(),
                kind: EmailKind::GuestWelcome,
                event_id: event_id.clone(),
                event_title: event.title.clone(),
                count: 0,
                content: None,
            },
        );
        proof {
            assert(forall|j: int| 0 <= j < i ==> #[trigger] notices.deep_view()[j] == prev_dv[j]);
            assert(notices.deep_view()[i as int] == notices@[i as int].deep_view());
            assert(created.deep_view()[i as int] == created@[i as int].deep_view());
        }
        i = i + 1;
    }

    // Collect the host and creator emails.
    let mut recipients: Vec<String> = crate::channel::clone_strings(&event.hosts);
    match &event.created_by {
        Some(c) => {
            recipients.push(c.clone());
        },
        None => {},
    }
    proof {
        assert(event.deep_view().hosts == ev.hosts);
        assert(event.deep_view().created_by == ev.created_by);
        assert(recipients.deep_view() =~= hosts_and_creator(ev));
    }
    let ghost s0 = s0opt->0;
    let ghost remails = host_emails(s0, recipients.deep_view());
    let mut emails: Vec<String> = Vec::new();
    proof {
        assert(recipients.deep_view().skip(0) =~= recipients.deep_view());
    }
    let mut h: usize = 0;
    while h < recipients.len()
        invariant
            h <= recipients.len(),
            s0opt == old(db).deep_view(),
            s0 == s0opt->0,
            db.deep_view() matches Some(cur) && cur.users == s0.users && cur.accounts
                == s0.accounts,
            remails == host_emails(s0, recipients.deep_view()),
            remails == emails.deep_view() + host_emails(
                s0,
                recipients.deep_view().skip(h as int),
            ),
        decreases recipients.len() - h,
    {
        proof {
            let rdv = recipients.deep_view();
            assert(rdv[h as int] == recipients@[h as int]@);
            assert(rdv.skip(h as int)[0] == rdv[h as int]);
            assert(rdv.skip(h as int).drop_first() =~= rdv.skip(h as int + 1));
        }
        match db.fetch_user(&recipients[h]) {
            Ok(found_user) => {
                match db.find_account(&found_user.id) {
                    Ok(account) => {
                        let ghost emails_before = emails.deep_view();
                        let ghost pushed = account.email@;
                        emails.push(account.email);
                        proof {
                            assert(emails.deep_view() =~= emails_before + seq![pushed]);
                            assert((emails_before + seq![pushed]) + host_emails(
                                s0,
                                recipients.deep_view().skip(h as int + 1),
                            ) =~= emails_before + (seq![pushed] + host_emails(
                                s0,
                                recipients.deep_view().skip(h as int + 1),
                            )));
                        }
                    },
                    Err(_) => {},
                }
            },
            Err(_) => {},
        }
        h = h + 1;
    }
    proof {
        assert(recipients.deep_view().skip(h as int) =~= Seq::<Seq<char>>::empty());
        assert(emails.deep_view() + Seq::<Seq<char>>::empty() =~= emails.deep_view());
    }

    let guest_count = created.len();
    let ghost hn = host_notices(remails, event_id@, ev.title, all.len() as usize);
    let ghost notices_so_far = notices.deep_view();
    let mut e: usize = 0;
    while e < emails.len()
        invariant
            e <= emails.len(),
            emails.deep_view() == remails,
            guest_count == all.len(),
            event.title@ == ev.title,
            hn == host_notices(remails, event_id@, ev.title, all.len() as usize),
            notices_so_far == welcome_notices(all, event_id@, ev.title),
            notices.len() == notices_so_far.len() + e,
            notices.deep_view() == notices_so_far + hn.take(e as int),
        decreases emails.len() - e,
    {
        let ghost prev_dv = notices.deep_view();
        notices.push(
            EmailNotice {
                to: emails[e].clone(),
                kind: EmailKind::HostNewGuests,
                event_id: event_id.clone(),
                event_title: event.title.clone(),
                count: guest_count,
                content: None,
            },
        );
        proof {
            assert(emails.deep_view()[e as int] == emails@[e as int]@);
            assert(notices.deep_view() =~= prev_dv.push(hn[e as int]));
            assert(hn.take(e as int).push(hn[e as int]) =~= hn.take(e as int + 1));
            assert((notices_so_far + hn.take(e as int)).push(hn[e as int]) =~= notices_so_far
                + hn.take(e as int + 1));
        }
        e = e + 1;
    }
    proof {
        assert(hn.take(hn.len() as int) =~= hn);
        assert(notices.deep_view() =~= welcome_notices(all, event_id@, ev.title) + hn);
    }

    Ok((BulkGuestResponse { guests: created }, notices))
}

// ---------------------------------------------------------------------------
// Bulk status updates
// ---------------------------------------------------------------------------

/// Apply a batch of status changes in order; collect, after each change,
/// the freshly looked-up guest into the approved or rejected list when the
/// change set that status.
pub open spec fn bulk_status_fold(
    guests: Seq<EventGuestV>,
    event_id: Seq<char>,
    updates: Seq<GuestStatusUpdateV>,
) -> (Seq<EventGuestV>, Seq<EventGuestV>, Seq<EventGuestV>)
    decreases updates.len(),
{
    if updates.len() == 0 {
        (guests, Seq::empty(), Seq::empty())
    } else {
        let g1 = set_guest_status_spec(guests, event_id, updates[0].guest_id, updates[0].status);
        let found = guest_by(g1, event_id, updates[0].guest_id);
        let rest = bulk_status_fold(g1, event_id, updates.drop_first());
        let approved_here: Seq<EventGuestV> = if found is Some && updates[0].status
            == GuestStatus::Approved {
            seq![found->0]
        } else {
            Seq::empty()
        };
        let rejected_here: Seq<EventGuestV> = if found is Some && updates[0].status
            == GuestStatus::Rejected {
            seq![found->0]
        } else {
            Seq::empty()
        };
        (rest.0, approved_here + rest.1, rejected_here + rest.2)
    }
}

/// One notice of the given kind per listed guest.
pub open spec fn guest_notices(
    guests: Seq<EventGuestV>,
    kind: EmailKind,
    event_id: Seq<char>,
    title: Seq<char>,
) -> Seq<EmailNoticeV> {
    Seq::new(
        guests.len(),
        |i: int|
            EmailNoticeV {
                to: guests[i].email,
                kind,
                event_id,
                event_title: title,
                count: 0,
                content: None,
            },
    )
}

/// The summary sent to hosts after a batch of status changes.
pub open spec fn status_summary(title: Seq<char>, approved: nat, rejected: nat) -> Seq<char> {
    "Guest status updates for "@ + title + ":\n\nApproved: "@ + crate::text::dec_str(approved)
        + "\nRejected: "@ + crate::text::dec_str(rejected)
}

/// Render the status summary for hosts.
pub fn build_status_summary(title: &String, approved: usize, rejected: usize) -> (r: String)
    ensures
        r@ == status_summary(title@, approved as nat, rejected as nat),
{
    let mut s: String = "Guest status updates for ".to_owned();
    s.append(title.as_str());
    s.append(":\n\nApproved: ");
    let a = crate::text::decimal_string(approved);
    s.append(a.as_str());
    s.append("\nRejected: ");
    let b = crate::text::decimal_string(rejected);
    s.append(b.as_str());
    s
}

/// One notice of the given kind per listed guest.
pub fn guest_email_notices(
    guests: &Vec<EventGuest>,
    kind: EmailKind,
    event_id: &String,
    title: &String,
) -> (r: Vec<EmailNotice>)
    ensures
        r.deep_view() == guest_notices(guests.deep_view(), kind, event_id@, title@),
{
    let mut out: Vec<EmailNotice> = Vec::new();
    let mut i: usize = 0;
    while i < guests.len()
        invariant
            i <= guests.len(),
            out.len() == i,
            forall|j: int|
                0 <= j < i ==> out.deep_view()[j] == guest_notices(
                    guests.deep_view(),
                    kind,
                    event_id@,
                    title@,
                )[j],
        decreases guests.len() - i,
    {
        let ghost prev_dv = out.deep_view();
        out.push(
            EmailNotice {
                to: guests[i].email.clone(),
                kind,
                event_id: event_id.clone(),
                event_title: title.clone(),
                count: 0,
                content: None,
            },
        );
        proof {
            assert(forall|j: int| 0 <= j < i ==> #[trigger] out.deep_view()[j] == prev_dv[j]);
            assert(out.deep_view()[i as int] == out@[i as int].deep_view());
            assert(guests.deep_view()[i as int] == guests@[i as int].deep_view());
        }
        i = i + 1;
    }
    proof {
        assert(out.deep_view() =~= guest_notices(guests.deep_view(), kind, event_id@, title@));
    }
    out
}

/// Update the status of several guests in one request, then notify: every
/// guest approved here gets an approval email, every guest rejected here a
/// rejection email, and each host and the creator receive a direct message
/// summarizing the counts. The status updates are persisted first; the
/// notification phase demands the event only when there is something to
/// tell.
pub fn update_bulk_guest_status(
    db: &mut Database,
    user: &User,
    event_id: &String,
    data: BulkStatusUpdate,
) -> (r: Result<Vec<EmailNotice>, Error>)
    ensures
        *old(db) is Stub ==> *final(db) == *old(db) && (r matches Err(e) && e
            == Error::NotSupported),
        old(db).deep_view() matches Some(s) ==> {
            let (gf, appr, rej) = bulk_status_fold(s.guests, event_id@, data.updates.deep_view());
            let s1 = StoreV { guests: gf, ..s };
            if appr.len() == 0 && rej.len() == 0 {
                &&& final(db).deep_view() == Some(s1)
                &&& (r matches Ok(n) && n.deep_view() == Seq::<EmailNoticeV>::empty())
            } else {
                match event_by_id(s.events, event_id@) {
                    None => final(db).deep_view() == Some(s1) && (r matches Err(e) && e
                        == Error::NotFound),
                    Some(ev) => {
                        &&& (final(db).deep_view() matches Some(s2) && dm_fanout_reachable(
                            s1,
                            user.id@,
                            hosts_and_creator(ev),
                            status_summary(ev.title, appr.len(), rej.len()),
                            true,
                            s2,
                        ))
                        &&& (r matches Ok(n) && n.deep_view() == guest_notices(
                            appr,
                            EmailKind::GuestApproved,
                            event_id@,
                            ev.title,
                        ) + guest_notices(rej, EmailKind::GuestRejected, event_id@, ev.title))
                    },
                }
            }
        },
{
    match db {
        Database::Stub => {
            return Err(Error::NotSupported);
        },
        Database::Memory(_) => {},
    }
    let ghost s0 = old(db).deep_view()->0;
    let ghost updatesv = data.updates.deep_view();
    let ghost folded = bulk_status_fold(s0.guests, event_id@, updatesv);

    let updates = data.updates;
    let mut approved: Vec<EventGuest> = Vec::new();
    let mut rejected: Vec<EventGuest> = Vec::new();
    proof {
        assert(updatesv.skip(0) =~= updatesv);
    }
    let mut k: usize = 0;
    while k < updates.len()
        invariant
            k <= updates.len(),
            updatesv == updates.deep_view(),
            old(db).deep_view() == Some(s0),
            folded == bulk_status_fold(s0.guests, event_id@, updatesv),
            db.deep_view() matches Some(cur) && cur == (StoreV { guests: cur.guests, ..s0 })
                && ({
                let rest = bulk_status_fold(cur.guests, event_id@, updatesv.skip(k as int));
                &&& folded.0 == rest.0
                &&& folded.1 == approved.deep_view() + rest.1
                &&& folded.2 == rejected.deep_view() + rest.2
            }),
        decreases updates.len() - k,
    {
        proof {
            assert(updatesv[k as int] == updates@[k as int].deep_view());
            assert(updatesv.skip(k as int)[0] == updatesv[k as int]);
            assert(updatesv.skip(k as int).drop_first() =~= updatesv.skip(k as int + 1));
        }
        match db.update_guest_status(event_id, &updates[k].guest_id, updates[k].status) {
            Ok(()) => {},
            Err(e) => {
                return Err(e);
            },
        }
        match db.get_guest(event_id, &updates[k].guest_id) {
            Ok(guest) => {
                let ghost gdv = guest.deep_view();
                match updates[k].status {
                    GuestStatus::Approved => {
                        let ghost before = approved.deep_view();
                        approved.push(guest);
                        proof {
                            assert(approved.deep_view() =~= before.push(gdv));
                            let rest = bulk_status_fold(
                                db.deep_view()->0.guests,
                                event_id@,
                                updatesv.skip(k as int + 1),
                            );
                            assert((before + (seq![gdv] + rest.1)) =~= (before.push(gdv) + rest.1));
                        }
                    },
                    GuestStatus::Rejected => {
                        let ghost before = rejected.deep_view();
                        rejected.push(guest);
                        proof {
                            assert(rejected.deep_view() =~= before.push(gdv));
                            let rest = bulk_status_fold(
                                db.deep_view()->0.guests,
                                event_id@,
                                updatesv.skip(k as int + 1),
                            );
                            assert((before + (seq![gdv] + rest.2)) =~= (before.push(gdv) + rest.2));
                        }
                    },
                    GuestStatus::Pending => {},
                }
            },
            Err(Error::NotFound) => {},
            Err(e) => {
                return Err(e);
            },
        }
        k = k + 1;
    }
    proof {
        assert(updatesv.skip(k as int) =~= Seq::<GuestStatusUpdateV>::empty());
        assert(folded.1 =~= approved.deep_view() + Seq::<EventGuestV>::empty());
        assert(folded.2 =~= rejected.deep_view() + Seq::<EventGuestV>::empty());
        assert(folded.1 == approved.deep_view());
        assert(folded.2 == rejected.deep_view());
    }

    if approved.len() == 0 && rejected.len() == 0 {
        let empty_notices: Vec<EmailNotice> = Vec::new();
        proof {
            assert(empty_notices.deep_view() =~= Seq::<EmailNoticeV>::empty());
        }
        return Ok(empty_notices);
    }

    let event = match db.fetch_event(None, event_id) {
        Ok(e) => e,
        Err(e) => {
            return Err(e);
        },
    };
    let ghost ev = event_by_id(s0.events, event_id@)->0;

    let mut notices = guest_email_notices(
        &approved,
        EmailKind::GuestApproved,
        event_id,
        &event.title,
    );
    let mut rejected_notices = guest_email_notices(
        &rejected,
        EmailKind::GuestRejected,
        event_id,
        &event.title,
    );
    notices.append(&mut rejected_notices);

    let mut recipients: Vec<String> = crate::channel::clone_strings(&event.hosts);
    match &event.created_by {
        Some(c) => {
            recipients.push(c.clone());
        },
        None => {},
    }
    proof {
        assert(event.deep_view().hosts == ev.hosts);
        assert(event.deep_view().created_by == ev.created_by);
        assert(recipients.deep_view() =~= hosts_and_creator(ev));
    }
    let content = build_status_summary(&event.title, approved.len(), rejected.len());
    match dm_broadcast(db, &user.id, &recipients, &content, true) {
        Ok(()) => {},
        Err(e) => {
            return Err(e);
        },
    }
    Ok(notices)
}

// ---------------------------------------------------------------------------
// Bulk direct messages
// ---------------------------------------------------------------------------

/// The invitation a bulk message carries, with the sender's optional extra
/// text appended.
pub open spec fn invite_content(
    username: Seq<char>,
    title: Seq<char>,
    app_url: Seq<char>,
    event_id: Seq<char>,
    extra: Option<Seq<char>>,
) -> Seq<char> {
    username + " is inviting you to "@ + title + " event:\n\n"@ + app_url + "/events/view/"@
        + event_id + (match extra {
        Some(c) => "\n\n"@ + c,
        None => Seq::<char>::empty(),
    })
}

/// Render the invitation a bulk message carries.
pub fn build_invite_content(
    username: &String,
    title: &String,
    app_url: &String,
    event_id: &String,
    extra: &Option<String>,
) -> (r: String)
    ensures
        r@ == invite_content(username@, title@, app_url@, event_id@, extra.deep_view()),
{
    let mut s: String = username.clone();
    s.append(" is inviting you to ");
    s.append(title.as_str());
    s.append(" event:\n\n");
    s.append(app_url.as_str());
    s.append("/events/view/");
    s.append(event_id.as_str());
    match extra {
        Some(c) => {
            s.append("\n\n");
            s.append(c.as_str());
        },
        None => {},
    }
    proof {
        assert(s@ =~= invite_content(username@, title@, app_url@, event_id@, extra.deep_view()));
    }
    s
}

/// One step of a bulk-message fan-out: reuse the conversation when one
/// exists — raising its activity flag if it was inactive — or create it
/// active; then append the message.
pub open spec fn dm_activate_step(
    s: StoreV,
    caller: Seq<char>,
    recipient: Seq<char>,
    content: Seq<char>,
    channel_id: Seq<char>,
    msg_id: Seq<char>,
) -> StoreV {
    match dm_channel_between(s.channels, caller, recipient) {
        Some(ch) => {
            let activated = if ch matches ChannelV::DirectMessage { active: false, .. } {
                StoreV { channels: crate::store::set_dm_active_spec(s.channels, ch.id()), ..s }
            } else {
                s
            };
            StoreV {
                messages: activated.messages.push(dm_message(msg_id, ch.id(), caller, content)),
                ..activated
            }
        },
        None => StoreV {
            channels: s.channels.push(
                ChannelV::DirectMessage {
                    id: channel_id,
                    active: true,
                    recipients: seq![caller, recipient],
                    last_message_id: None,
                },
            ),
            messages: s.messages.push(dm_message(msg_id, channel_id, caller, content)),
            ..s
        },
    }
}

/// Send one bulk direct message, activating a dormant conversation.
pub fn send_dm_activate(
    db: &mut Database,
    caller_id: &String,
    recipient: &String,
    content: &String,
    channel_id: String,
    msg_id: String,
) -> (r: Result<(), Error>)
    ensures
        *old(db) is Stub ==> *final(db) == *old(db) && (r matches Err(e) && e
            == Error::NotSupported),
        old(db).deep_view() matches Some(s) ==> r is Ok && final(db).deep_view() == Some(
            dm_activate_step(s, caller_id@, recipient@, content@, channel_id@, msg_id@),
        ),
{
    let channel_ref: String = match db.find_direct_message_channel(caller_id, recipient) {
        Ok(existing) => {
            let needs_activation = match &existing {
                Channel::DirectMessage { active, .. } => !*active,
                _ => false,
            };
            if needs_activation {
                match db.activate_dm_channel(existing.id()) {
                    Ok(()) => {},
                    Err(e) => {
                        return Err(e);
                    },
                }
            }
            existing.id().clone()
        },
        Err(Error::NotFound) => {
            let fresh = Channel::DirectMessage {
                id: channel_id.clone(),
                active: true,
                recipients: vec![caller_id.clone(), recipient.clone()],
                last_message_id: None,
            };
            proof {
                assert(fresh.deep_view() =~= (ChannelV::DirectMessage {
                    id: channel_id@,
                    active: true,
                    recipients: seq![caller_id@, recipient@],
                    last_message_id: None,
                }));
            }
            match db.insert_channel(fresh) {
                Ok(()) => {},
                Err(e) => {
                    return Err(e);
                },
            }
            channel_id
        },
        Err(e) => {
            return Err(e);
        },
    };
    let message = Message {
        id: msg_id,
        channel: channel_ref,
        author: Author::User(caller_id.clone()),
        content: Some(content.clone()),
        system: None,
        attachments: None,
        embeds: None,
        masquerade: None,
    };
    match db.insert_message(message) {
        Ok(()) => Ok(()),
        Err(e) => Err(e),
    }
}

/// A whole bulk-message fan-out: one step per requested message, each with
/// its own invitation text.
pub open spec fn bulk_message_fanout(
    s: StoreV,
    caller: crate::users::UserV,
    title: Seq<char>,
    app_url: Seq<char>,
    event_id: Seq<char>,
    msgs: Seq<UserMessageV>,
    ids: Seq<(Seq<char>, Seq<char>)>,
) -> StoreV
    decreases msgs.len(),
{
    if msgs.len() == 0 || ids.len() == 0 {
        s
    } else {
        bulk_message_fanout(
            dm_activate_step(
                s,
                caller.id,
                msgs[0].user_id,
                invite_content(caller.username, title, app_url, event_id, msgs[0].content),
                ids[0].0,
                ids[0].1,
            ),
            caller,
            title,
            app_url,
            event_id,
            msgs.drop_first(),
            ids.drop_first(),
        )
    }
}

/// Extending a bulk-message fan-out by one message appends one step.
proof fn lemma_bulk_message_fanout_snoc(
    s: StoreV,
    caller: crate::users::UserV,
    title: Seq<char>,
    app_url: Seq<char>,
    event_id: Seq<char>,
    msgs: Seq<UserMessageV>,
    ids: Seq<(Seq<char>, Seq<char>)>,
    x: UserMessageV,
    p: (Seq<char>, Seq<char>),
)
    requires
        msgs.len() == ids.len(),
    ensures
        bulk_message_fanout(s, caller, title, app_url, event_id, msgs.push(x), ids.push(p))
            == dm_activate_step(
            bulk_message_fanout(s, caller, title, app_url, event_id, msgs, ids),
            caller.id,
            x.user_id,
            invite_content(caller.username, title, app_url, event_id, x.content),
            p.0,
            p.1,
        ),
    decreases msgs.len(),
{
    if msgs.len() == 0 {
        assert(msgs.push(x)[0] == x);
        assert(ids.push(p)[0] == p);
        assert(msgs.push(x).drop_first() =~= Seq::<UserMessageV>::empty());
        assert(ids.push(p).drop_first() =~= Seq::<(Seq<char>, Seq<char>)>::empty());
        assert(bulk_message_fanout(
            dm_activate_step(
                s,
                caller.id,
                x.user_id,
                invite_content(caller.username, title, app_url, event_id, x.content),
                p.0,
                p.1,
            ),
            caller,
            title,
            app_url,
            event_id,
            msgs.push(x).drop_first(),
            ids.push(p).drop_first(),
        ) == dm_activate_step(
            s,
            caller.id,
            x.user_id,
            invite_content(caller.username, title, app_url, event_id, x.content),
            p.0,
            p.1,
        ));
    } else {
        assert(msgs.push(x)[0] == msgs[0]);
        assert(ids.push(p)[0] == ids[0]);
        assert(msgs.push(x).drop_first() =~= msgs.drop_first().push(x));
        assert(ids.push(p).drop_first() =~= ids.drop_first().push(p));
        lemma_bulk_message_fanout_snoc(
            dm_activate_step(
                s,
                caller.id,
                msgs[0].user_id,
                invite_content(caller.username, title, app_url, event_id, msgs[0].content),
                ids[0].0,
                ids[0].1,
            ),
            caller,
            title,
            app_url,
            event_id,
            msgs.drop_first(),
            ids.drop_first(),
            x,
            p,
        );
    }
}

/// Whether `s2` is `s` after a bulk-message fan-out, under some choice of
/// fresh identifiers.
pub open spec fn bulk_message_fanout_reachable(
    s: StoreV,
    caller: crate::users::UserV,
    title: Seq<char>,
    app_url: Seq<char>,
    event_id: Seq<char>,
    msgs: Seq<UserMessageV>,
    s2: StoreV,
) -> bool {
    exists|ids: Seq<(Seq<char>, Seq<char>)>|
        ids.len() == msgs.len() && s2 == bulk_message_fanout(
            s,
            caller,
            title,
            app_url,
            event_id,
            msgs,
            ids,
        )
}

/// One notice per requested message whose recipient has both a user record
/// and an account: the mail mirrors the direct message.
pub open spec fn invite_notices(
    s: StoreV,
    msgs: Seq<UserMessageV>,
    event_id: Seq<char>,
    title: Seq<char>,
) -> Seq<EmailNoticeV>
    decreases msgs.len(),
{
    if msgs.len() == 0 {
        Seq::empty()
    } else {
        let rest = invite_notices(s, msgs.drop_first(), event_id, title);
        match user_by_id(s.users, msgs[0].user_id) {
            Some(u) => match account_by_id(s.accounts, u.id) {
                Some(a) => seq![
                    EmailNoticeV {
                        to: a.email,
                        kind: EmailKind::MessageFromHost,
                        event_id,
                        event_title: title,
                        count: 0,
                        content: msgs[0].content,
                    },
                ] + rest,
                None => rest,
            },
            None => rest,
        }
    }
}

/// The invitation counter after a batch of messages, clamped at the top of
/// its range.
pub open spec fn bumped_invited(count: Option<i32>, n: int) -> i32 {
    let base = (match count {
        Some(c) => c,
        None => 0,
    }) as int;
    if base + n <= i32::MAX as int {
        (base + n) as i32
    } else {
        i32::MAX
    }
}

/// Send a direct message to several users in one request: each message
/// carries the sender's invitation to the event with the request's extra
/// text; a dormant conversation is re-activated; each reachable recipient
/// also gets a mirroring email notice; and the event's invitation counter
/// grows by the number of messages. Only the event's creator and hosts may
/// do this; anyone else is told the event does not exist.
pub fn send_bulk_messages(
    db: &mut Database,
    user: &User,
    event_id: &String,
    data: BulkMessageData,
    app_url: &String,
) -> (r: Result<Vec<EmailNotice>, Error>)
    requires
        data.messages@.len() <= i32::MAX,
    ensures
        *old(db) is Stub ==> *final(db) == *old(db) && (r matches Err(e) && e
            == Error::NotSupported),
        old(db).deep_view() matches Some(s) ==> match event_by_id(s.events, event_id@) {
            None => *final(db) == *old(db) && (r matches Err(e) && e == Error::NotFound),
            Some(ev) => {
                if ev.created_by != Some(user.id@) && !ev.hosts.contains(user.id@) {
                    &&& *final(db) == *old(db)
                    &&& (r matches Err(e) && e == Error::NotFound)
                } else {
                    let msgs = data.messages.deep_view();
                    &&& (final(db).deep_view() matches Some(s2) && exists|mid: StoreV|
                        bulk_message_fanout_reachable(
                            s,
                            user.deep_view(),
                            ev.title,
                            app_url@,
                            event_id@,
                            msgs,
                            mid,
                        ) && s2 == (StoreV {
                            events: crate::store::update_event_spec(
                                mid.events,
                                event_id@,
                                crate::events::PartialEventV {
                                    title: None,
                                    description: None,
                                    invited_count: Some(
                                        bumped_invited(ev.invited_count, msgs.len() as int),
                                    ),
                                },
                            ),
                            ..mid
                        }))
                    &&& (r matches Ok(n) && n.deep_view() == invite_notices(
                        s,
                        msgs,
                        event_id@,
                        ev.title,
                    ))
                }
            },
        },
{
    match db {
        Database::Stub => {
            return Err(Error::NotSupported);
        },
        Database::Memory(_) => {},
    }
    let ghost s0 = old(db).deep_view()->0;
    let event = match db.fetch_event(Some(&user.id), event_id) {
        Ok(e) => e,
        Err(e) => {
            return Err(e);
        },
    };
    let ghost ev = event_by_id(s0.events, event_id@)->0;

    // Only the creator or a host may send.
    let is_creator = match &event.created_by {
        Some(c) => *c == user.id,
        None => false,
    };
    let is_host = crate::perms::contains_string(&event.hosts, &user.id);
    if !is_creator && !is_host {
        return Err(Error::NotFound);
    }

    let messages = data.messages;
    let ghost msgsv = messages.deep_view();

    // Collect the mirroring email notices first: the fan-out does not touch
    // users or accounts, so the two phases commute.
    let ghost notices_spec = invite_notices(s0, msgsv, event_id@, ev.title);
    proof {
        assert(msgsv.skip(0) =~= msgsv);
    }
    let mut notices: Vec<EmailNotice> = Vec::new();
    let mut i: usize = 0;
    while i < messages.len()
        invariant
            i <= messages.len(),
            msgsv == messages.deep_view(),
            event.title@ == ev.title,
            old(db).deep_view() == Some(s0),
            db.deep_view() matches Some(cur) && cur.users == s0.users && cur.accounts
                == s0.accounts,
            notices_spec == invite_notices(s0, msgsv, event_id@, ev.title),
            notices_spec == notices.deep_view() + invite_notices(
                s0,
                msgsv.skip(i as int),
                event_id@,
                ev.title,
            ),
        decreases messages.len() - i,
    {
        proof {
            assert(msgsv[i as int] == messages@[i as int].deep_view());
            assert(msgsv.skip(i as int)[0] == msgsv[i as int]);
            assert(msgsv.skip(i as int).drop_first() =~= msgsv.skip(i as int + 1));
        }
        match db.fetch_user(&messages[i].user_id) {
            Ok(found_user) => {
                match db.find_account(&found_user.id) {
                    Ok(account) => {
                        let ghost before = notices.deep_view();
                        let ghost pushed = EmailNoticeV {
                            to: account.email@,
                            kind: EmailKind::MessageFromHost,
                            event_id: event_id@,
                            event_title: ev.title,
                            count: 0,
                            content: msgsv[i as int].content,
                        };
                        notices.push(
                            EmailNotice {
                                to: account.email,
                                kind: EmailKind::MessageFromHost,
                                event_id: event_id.clone(),
                                event_title: event.title.clone(),
                                count: 0,
                                content: crate::channel::clone_opt_string(&messages[i].content),
                            },
                        );
                        proof {
                            assert(notices.deep_view() =~= before + seq![pushed]);
                            assert((before + seq![pushed]) + invite_notices(
                                s0,
                                msgsv.skip(i as int + 1),
                                event_id@,
                                ev.title,
                            ) =~= before + (seq![pushed] + invite_notices(
                                s0,
                                msgsv.skip(i as int + 1),
                                event_id@,
                                ev.title,
                            )));
                        }
                    },
                    Err(_) => {},
                }
            },
            Err(_) => {},
        }
        i = i + 1;
    }
    proof {
        assert(msgsv.skip(i as int) =~= Seq::<UserMessageV>::empty());
        assert(notices.deep_view() + Seq::<EmailNoticeV>::empty() =~= notices.deep_view());
    }

    // The fan-out itself, minting fresh identifiers per message.
    let ghost mut used: Seq<(Seq<char>, Seq<char>)> = Seq::empty();
    proof {
        assert(msgsv.take(0) =~= Seq::<UserMessageV>::empty());
    }
    let mut k: usize = 0;
    while k < messages.len()
        invariant
            k <= messages.len(),
            msgsv == messages.deep_view(),
            event.title@ == ev.title,
            old(db).deep_view() == Some(s0),
            used.len() == k,
            db.deep_view() == Some(
                bulk_message_fanout(
                    s0,
                    user.deep_view(),
                    ev.title,
                    app_url@,
                    event_id@,
                    msgsv.take(k as int),
                    used,
                ),
            ),
        decreases messages.len() - k,
    {
        proof {
            assert(msgsv[k as int] == messages@[k as int].deep_view());
        }
        let channel_id = crate::external::ulid_new();
        let msg_id = crate::external::ulid_new();
        let ghost pair = (channel_id@, msg_id@);
        let ghost before = used;
        let content = build_invite_content(
            &user.username,
            &event.title,
            app_url,
            event_id,
            &messages[k].content,
        );
        match send_dm_activate(db, &user.id, &messages[k].user_id, &content, channel_id, msg_id) {
            Ok(()) => {},
            Err(e) => {
                return Err(e);
            },
        }
        proof {
            used = used.push(pair);
            lemma_bulk_message_fanout_snoc(
                s0,
                user.deep_view(),
                ev.title,
                app_url@,
                event_id@,
                msgsv.take(k as int),
                before,
                msgsv[k as int],
                pair,
            );
            assert(msgsv.take(k as int).push(msgsv[k as int]) =~= msgsv.take(k as int + 1));
        }
        k = k + 1;
    }
    proof {
        assert(msgsv.take(msgsv.len() as int) =~= msgsv);
    }

    // Grow the invitation counter by the number of messages sent.
    let base: i32 = match event.invited_count {
        Some(c) => c,
        None => 0,
    };
    let n: i32 = messages.len() as i32;
    let new_count: i32 = if base <= i32::MAX - n {
        base + n
    } else {
        i32::MAX
    };
    let partial = crate::events::PartialEvent {
        title: None,
        description: None,
        invited_count: Some(new_count),
    };
    let ghost mid_store = db.deep_view()->0;
    match db.update_event(event_id, &partial) {
        Ok(()) => {},
        Err(e) => {
            return Err(e);
        },
    }
    proof {
        assert(event.deep_view().invited_count == ev.invited_count);
        assert(new_count == bumped_invited(ev.invited_count, msgsv.len() as int));
        assert(bulk_message_fanout_reachable(
            s0,
            user.deep_view(),
            ev.title,
            app_url@,
            event_id@,
            msgsv,
            mid_store,
        ));
    }
    Ok(notices)
}

// ---------------------------------------------------------------------------
// Notifying guests by status
// ---------------------------------------------------------------------------

/// The invitation line a status-filtered notification carries.
pub open spec fn notify_message_content(
    username: Seq<char>,
    app_url: Seq<char>,
    event_id: Seq<char>,
) -> Seq<char> {
    username + " is inviting you to this event: "@ + app_url + "/events/view/"@ + event_id
}

/// Render the invitation line of a notification.
pub fn build_notify_content(username: &String, app_url: &String, event_id: &String) -> (r: String)
    ensures
        r@ == notify_message_content(username@, app_url@, event_id@),
{
    let mut s: String = username.clone();
    s.append(" is inviting you to this event: ");
    s.append(app_url.as_str());
    s.append("/events/view/");
    s.append(event_id.as_str());
    s
}

/// The guests whose status is among the requested ones.
pub open spec fn guests_with_statuses(
    guests: Seq<EventGuestV>,
    statuses: Seq<GuestStatus>,
) -> Seq<EventGuestV>
    decreases guests.len(),
{
    if guests.len() == 0 {
        Seq::empty()
    } else if statuses.contains(guests[0].status) {
        seq![guests[0]] + guests_with_statuses(guests.drop_first(), statuses)
    } else {
        guests_with_statuses(guests.drop_first(), statuses)
    }
}

/// The registered user ids among a guest list.
pub open spec fn guest_user_ids(guests: Seq<EventGuestV>) -> Seq<Seq<char>>
    decreases guests.len(),
{
    if guests.len() == 0 {
        Seq::empty()
    } else {
        (match guests[0].user_id {
            Some(u) => seq![u],
            None => Seq::<Seq<char>>::empty(),
        }) + guest_user_ids(guests.drop_first())
    }
}

/// One notification notice per filtered guest, carrying the request's text.
pub open spec fn notify_notices(
    guests: Seq<EventGuestV>,
    event_id: Seq<char>,
    title: Seq<char>,
    content: Seq<char>,
) -> Seq<EmailNoticeV> {
    Seq::new(
        guests.len(),
        |i: int|
            EmailNoticeV {
                to: guests[i].email,
                kind: EmailKind::EventNotification,
                event_id,
                event_title: title,
                count: 0,
                content: Some(content),
            },
    )
}

/// Send a notification to every guest holding one of the requested
/// statuses: a direct message to each guest that is a registered user, and
/// an email notice for every filtered guest. Only the event's creator and
/// hosts may do this; anyone else is told the event does not exist.
pub fn notify_guests(
    db: &mut Database,
    user: &User,
    event_id: &String,
    data: GuestMessageData,
    app_url: &String,
) -> (r: Result<Vec<EmailNotice>, Error>)
    ensures
        *old(db) is Stub ==> *final(db) == *old(db) && (r matches Err(e) && e
            == Error::NotSupported),
        old(db).deep_view() matches Some(s) ==> match event_by_id(s.events, event_id@) {
            None => *final(db) == *old(db) && (r matches Err(e) && e == Error::NotFound),
            Some(ev) => {
                if ev.created_by != Some(user.id@) && !ev.hosts.contains(user.id@) {
                    &&& *final(db) == *old(db)
                    &&& (r matches Err(e) && e == Error::NotFound)
                } else {
                    let filtered = guests_with_statuses(
                        guests_of(s.guests, event_id@),
                        data.statuses@,
                    );
                    &&& (final(db).deep_view() matches Some(s2) && dm_fanout_reachable(
                        s,
                        user.id@,
                        guest_user_ids(filtered),
                        notify_message_content(user.username@, app_url@, event_id@),
                        false,
                        s2,
                    ))
                    &&& (r matches Ok(n) && n.deep_view() == notify_notices(
                        filtered,
                        event_id@,
                        ev.title,
                        data.content@,
                    ))
                }
            },
        },
{
    match db {
        Database::Stub => {
            return Err(Error::NotSupported);
        },
        Database::Memory(_) => {},
    }
    let ghost s0 = old(db).deep_view()->0;
    let event = match db.fetch_event(Some(&user.id), event_id) {
        Ok(e) => e,
        Err(e) => {
            return Err(e);
        },
    };
    let ghost ev = event_by_id(s0.events, event_id@)->0;

    // Only the creator or a host may notify.
    let is_creator = match &event.created_by {
        Some(c) => *c == user.id,
        None => false,
    };
    let is_host = crate::perms::contains_string(&event.hosts, &user.id);
    if !is_creator && !is_host {
        return Err(Error::NotFound);
    }

    let all_guests = match db.get_event_guests(event_id) {
        Ok(g) => g,
        Err(e) => {
            return Err(e);
        },
    };
    let ghost filtered = guests_with_statuses(all_guests.deep_view(), data.statuses@);

    // Filter by requested status.
    let ghost adv = all_guests.deep_view();
    proof {
        assert(adv.skip(0) =~= adv);
    }
    let mut picked: Vec<EventGuest> = Vec::new();
    let mut i: usize = 0;
    while i < all_guests.len()
        invariant
            i <= all_guests.len(),
            adv == all_guests.deep_view(),
            filtered == guests_with_statuses(adv, data.statuses@),
            guests_with_statuses(adv, data.statuses@) == picked.deep_view()
                + guests_with_statuses(adv.skip(i as int), data.statuses@),
        decreases all_guests.len() - i,
    {
        proof {
            assert(adv[i as int] == all_guests@[i as int].deep_view());
            assert(adv.skip(i as int)[0] == adv[i as int]);
            assert(adv.skip(i as int).drop_first() =~= adv.skip(i as int + 1));
        }
        let mut matched = false;
        let mut t: usize = 0;
        while t < data.statuses.len()
            invariant
                t <= data.statuses.len(),
                i < all_guests.len(),
                adv == all_guests.deep_view(),
                adv[i as int] == all_guests@[i as int].deep_view(),
                matched ==> data.statuses@.contains(adv[i as int].status),
                !matched ==> forall|u: int| 0 <= u < t ==> data.statuses@[u] != adv[i as int].status,
            decreases data.statuses.len() - t,
        {
            if data.statuses[t] == all_guests[i].status {
                matched = true;
            }
            t = t + 1;
        }
        if matched {
            let ghost before = picked.deep_view();
            picked.push(all_guests[i].duplicate());
            proof {
                assert(picked.deep_view() =~= before.push(adv[i as int]));
                assert((before + (seq![adv[i as int]] + guests_with_statuses(
                    adv.skip(i as int + 1),
                    data.statuses@,
                ))) =~= (before.push(adv[i as int]) + guests_with_statuses(
                    adv.skip(i as int + 1),
                    data.statuses@,
                )));
            }
        }
        i = i + 1;
    }
    proof {
        assert(adv.skip(i as int) =~= Seq::<EventGuestV>::empty());
        assert(picked.deep_view() + Seq::<EventGuestV>::empty() =~= picked.deep_view());
        assert(picked.deep_view() == filtered);
    }

    // The registered users among them get a direct message.
    let ghost pdv = picked.deep_view();
    proof {
        assert(pdv.skip(0) =~= pdv);
    }
    let mut dm_targets: Vec<String> = Vec::new();
    let mut g: usize = 0;
    while g < picked.len()
        invariant
            g <= picked.len(),
            pdv == picked.deep_view(),
            guest_user_ids(pdv) == dm_targets.deep_view() + guest_user_ids(pdv.skip(g as int)),
        decreases picked.len() - g,
    {
        proof {
            assert(pdv[g as int] == picked@[g as int].deep_view());
            assert(pdv.skip(g as int)[0] == pdv[g as int]);
            assert(pdv.skip(g as int).drop_first() =~= pdv.skip(g as int + 1));
        }
        match &picked[g].user_id {
            Some(uid) => {
                let ghost before = dm_targets.deep_view();
                dm_targets.push(uid.clone());
                proof {
                    assert(dm_targets.deep_view() =~= before.push(pdv[g as int].user_id->0));
                    assert((before + (seq![pdv[g as int].user_id->0] + guest_user_ids(
                        pdv.skip(g as int + 1),
                    ))) =~= (before.push(pdv[g as int].user_id->0) + guest_user_ids(
                        pdv.skip(g as int + 1),
                    )));
                }
            },
            None => {},
        }
        g = g + 1;
    }
    proof {
        assert(pdv.skip(g as int) =~= Seq::<EventGuestV>::empty());
        assert(dm_targets.deep_view() + Seq::<Seq<char>>::empty() =~= dm_targets.deep_view());
    }

    let content = build_notify_content(&user.username, app_url, event_id);
    let ghost before_broadcast = db.deep_view()->0;
    proof {
        assert(before_broadcast =~= s0);
    }
    match dm_broadcast(db, &user.id, &dm_targets, &content, false) {
        Ok(()) => {},
        Err(e) => {
            return Err(e);
        },
    }

    // Every filtered guest gets an email notice with the request's text.
    let mut notices: Vec<EmailNotice> = Vec::new();
    let mut n: usize = 0;
    while n < picked.len()
        invariant
            n <= picked.len(),
            pdv == picked.deep_view(),
            event.title@ == ev.title,
            notices.len() == n,
            forall|j: int|
                0 <= j < n ==> notices.deep_view()[j] == notify_notices(
                    pdv,
                    event_id@,
                    ev.title,
                    data.content@,
                )[j],
        decreases picked.len() - n,
    {
        let ghost prev_dv = notices.deep_view();
        notices.push(
            EmailNotice {
                to: picked[n].email.clone(),
                kind: EmailKind::EventNotification,
                event_id: event_id.clone(),
                event_title: event.title.clone(),
                count: 0,
                content: Some(data.content.clone()),
            },
        );
        proof {
            assert(forall|j: int| 0 <= j < n ==> #[trigger] notices.deep_view()[j] == prev_dv[j]);
            assert(notices.deep_view()[n as int] == notices@[n as int].deep_view());
            assert(pdv[n as int] == picked@[n as int].deep_view());
        }
        n = n + 1;
    }
    proof {
        assert(notices.deep_view() =~= notify_notices(pdv, event_id@, ev.title, data.content@));
    }
    Ok(notices)
}

} // verus!
