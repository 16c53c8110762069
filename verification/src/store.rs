use vstd::prelude::*;

use crate::channel::{Attachment, AttachmentV, Channel, ChannelV};
use crate::error::Error;
use crate::events::{Event, EventGuest, EventGuestV, EventV, SavedEvent, SavedEventV};
use crate::invite::{InvitationToken, InvitationTokenV};
use crate::message::{IdempotencyRecord, IdempotencyRecordV, Message, MessageV};
use crate::server::{Experience, ExperienceV, Member, MemberV};
use crate::trips::{Trip, TripComment, TripCommentV, TripV};
use crate::users::{Account, AccountV, User, UserV};

verus! {

// ---------------------------------------------------------------------------
// The verified in-memory backend
// ---------------------------------------------------------------------------

/// The in-memory storage backend: one growable collection per logical
/// collection name. Concurrent callers must serialize access to a store;
/// in particular the idempotency check-then-record pair is exposed only
/// through operations that perform both steps under one mutable borrow.
pub struct MemoryStore {
    pub channels: Vec<Channel>,
    pub attachments: Vec<Attachment>,
    pub messages: Vec<Message>,
    pub idempotency: Vec<IdempotencyRecord>,
    pub users: Vec<User>,
    pub accounts: Vec<Account>,
    pub events: Vec<Event>,
    pub guests: Vec<EventGuest>,
    pub saved_events: Vec<SavedEvent>,
    pub trips: Vec<Trip>,
    pub trip_comments: Vec<TripComment>,
    pub invite_tokens: Vec<InvitationToken>,
    pub experiences: Vec<Experience>,
    pub members: Vec<Member>,
}

/// Mathematical value of a `MemoryStore`.
#[verifier::ext_equal]
pub struct StoreV {
    pub channels: Seq<ChannelV>,
    pub attachments: Seq<AttachmentV>,
    pub messages: Seq<MessageV>,
    pub idempotency: Seq<IdempotencyRecordV>,
    pub users: Seq<UserV>,
    pub accounts: Seq<AccountV>,
    pub events: Seq<EventV>,
    pub guests: Seq<EventGuestV>,
    pub saved_events: Seq<SavedEventV>,
    pub trips: Seq<TripV>,
    pub trip_comments: Seq<TripCommentV>,
    pub invite_tokens: Seq<InvitationTokenV>,
    pub experiences: Seq<ExperienceV>,
    pub members: Seq<MemberV>,
}

impl DeepView for MemoryStore {
    type V = StoreV;

    open spec fn deep_view(&self) -> StoreV {
        StoreV {
            channels: self.channels.deep_view(),
            attachments: self.attachments.deep_view(),
            messages: self.messages.deep_view(),
            idempotency: self.idempotency.deep_view(),
            users: self.users.deep_view(),
            accounts: self.accounts.deep_view(),
            events: self.events.deep_view(),
            guests: self.guests.deep_view(),
            saved_events: self.saved_events.deep_view(),
            trips: self.trips.deep_view(),
            trip_comments: self.trip_comments.deep_view(),
            invite_tokens: self.invite_tokens.deep_view(),
            experiences: self.experiences.deep_view(),
            members: self.members.deep_view(),
        }
    }
}

impl MemoryStore {
    /// A store with every collection empty.
    pub fn empty() -> (r: MemoryStore)
        ensures
            r.deep_view() == StoreV::empty(),
    {
        let r = MemoryStore {
            channels: Vec::new(),
            attachments: Vec::new(),
            messages: Vec::new(),
            idempotency: Vec::new(),
            users: Vec::new(),
            accounts: Vec::new(),
            events: Vec::new(),
            guests: Vec::new(),
            saved_events: Vec::new(),
            trips: Vec::new(),
            trip_comments: Vec::new(),
            invite_tokens: Vec::new(),
            experiences: Vec::new(),
            members: Vec::new(),
        };
        proof {
            assert(r.deep_view() =~= StoreV::empty());
        }
        r
    }
}

impl StoreV {
    /// The store value with every collection empty.
    pub open spec fn empty() -> StoreV {
        StoreV {
            channels: Seq::empty(),
            attachments: Seq::empty(),
            messages: Seq::empty(),
            idempotency: Seq::empty(),
            users: Seq::empty(),
            accounts: Seq::empty(),
            events: Seq::empty(),
            guests: Seq::empty(),
            saved_events: Seq::empty(),
            trips: Seq::empty(),
            trip_comments: Seq::empty(),
            invite_tokens: Seq::empty(),
            experiences: Seq::empty(),
            members: Seq::empty(),
        }
    }
}

// ---------------------------------------------------------------------------
// Lookups over stored collections
// ---------------------------------------------------------------------------

/// The first stored channel with the given id.
pub open spec fn channel_by_id(chs: Seq<ChannelV>, id: Seq<char>) -> Option<ChannelV>
    decreases chs.len(),
{
    if chs.len() == 0 {
        None
    } else if chs[0].id() == id {
        Some(chs[0])
    } else {
        channel_by_id(chs.drop_first(), id)
    }
}

/// A found channel carries the queried id.
pub proof fn lemma_channel_by_id_found(chs: Seq<ChannelV>, id: Seq<char>)
    ensures
        channel_by_id(chs, id) matches Some(c) ==> c.id() == id,
    decreases chs.len(),
{
    if chs.len() > 0 && chs[0].id() != id {
        lemma_channel_by_id_found(chs.drop_first(), id);
    }
}

/// The stored channels with the first channel of `c`'s id replaced by `c`;
/// unchanged when no channel has that id.
pub open spec fn put_channel_spec(chs: Seq<ChannelV>, c: ChannelV) -> Seq<ChannelV>
    decreases chs.len(),
{
    if chs.len() == 0 {
        chs
    } else if chs[0].id() == c.id() {
        seq![c] + chs.drop_first()
    } else {
        seq![chs[0]] + put_channel_spec(chs.drop_first(), c)
    }
}

/// Replacing the first match is updating at its index.
proof fn lemma_put_channel_at(chs: Seq<ChannelV>, c: ChannelV, i: int)
    requires
        0 <= i < chs.len(),
        chs[i].id() == c.id(),
        forall|j: int| 0 <= j < i ==> chs[j].id() != c.id(),
    ensures
        put_channel_spec(chs, c) =~= chs.update(i, c),
    decreases i,
{
    if i == 0 {
        assert(put_channel_spec(chs, c) =~= chs.update(0, c));
    } else {
        let rest = chs.drop_first();
        assert(forall|j: int| 0 <= j < i - 1 ==> rest[j] == chs[j + 1]);
        lemma_put_channel_at(rest, c, i - 1);
        assert(seq![chs[0]] + rest.update(i - 1, c) =~= chs.update(i, c));
    }
}

/// The attachments with the first record of the given id marked deleted;
/// unchanged when no record has that id.
pub open spec fn mark_attachment(atts: Seq<AttachmentV>, id: Seq<char>) -> Seq<AttachmentV>
    decreases atts.len(),
{
    if atts.len() == 0 {
        atts
    } else if atts[0].id == id {
        seq![AttachmentV { id: atts[0].id, deleted: true }] + atts.drop_first()
    } else {
        seq![atts[0]] + mark_attachment(atts.drop_first(), id)
    }
}

/// Marking the first match is updating at its index.
proof fn lemma_mark_attachment_at(atts: Seq<AttachmentV>, id: Seq<char>, i: int)
    requires
        0 <= i < atts.len(),
        atts[i].id == id,
        forall|j: int| 0 <= j < i ==> atts[j].id != id,
    ensures
        mark_attachment(atts, id) =~= atts.update(i, AttachmentV { id: atts[i].id, deleted: true }),
    decreases i,
{
    if i == 0 {
        assert(mark_attachment(atts, id) =~= atts.update(
            0,
            AttachmentV { id: atts[0].id, deleted: true },
        ));
    } else {
        let rest = atts.drop_first();
        assert(forall|j: int| 0 <= j < i - 1 ==> rest[j] == atts[j + 1]);
        lemma_mark_attachment_at(rest, id, i - 1);
        assert(seq![atts[0]] + rest.update(i - 1, AttachmentV { id: atts[i].id, deleted: true })
            =~= atts.update(i, AttachmentV { id: atts[i].id, deleted: true }));
    }
}

/// When no record has the id, marking changes nothing.
proof fn lemma_mark_attachment_absent(atts: Seq<AttachmentV>, id: Seq<char>)
    requires
        forall|j: int| 0 <= j < atts.len() ==> atts[j].id != id,
    ensures
        mark_attachment(atts, id) =~= atts,
    decreases atts.len(),
{
    if atts.len() > 0 {
        let rest = atts.drop_first();
        assert(forall|j: int| 0 <= j < rest.len() ==> rest[j] == atts[j + 1]);
        lemma_mark_attachment_absent(rest, id);
        assert(seq![atts[0]] + rest =~= atts);
    }
}

/// The first stored message with the given id.
pub open spec fn message_by_id(msgs: Seq<MessageV>, id: Seq<char>) -> Option<MessageV>
    decreases msgs.len(),
{
    if msgs.len() == 0 {
        None
    } else if msgs[0].id == id {
        Some(msgs[0])
    } else {
        message_by_id(msgs.drop_first(), id)
    }
}

/// The first idempotency record for an (author, token) pair.
pub open spec fn idem_find(
    recs: Seq<IdempotencyRecordV>,
    author: Seq<char>,
    token: Seq<char>,
) -> Option<IdempotencyRecordV>
    decreases recs.len(),
{
    if recs.len() == 0 {
        None
    } else if recs[0].author == author && recs[0].token == token {
        Some(recs[0])
    } else {
        idem_find(recs.drop_first(), author, token)
    }
}

/// What a replay lookup for (author, token) yields: the recorded message and
/// the record's creation time.
pub open spec fn replay_of(s: StoreV, author: Seq<char>, token: Seq<char>) -> Option<
    (MessageV, u64),
> {
    match idem_find(s.idempotency, author, token) {
        Some(rec) => match message_by_id(s.messages, rec.message_id) {
            Some(m) => Some((m, rec.created_at)),
            None => None,
        },
        None => None,
    }
}

/// The first stored user with the given id.
pub open spec fn user_by_id(users: Seq<UserV>, id: Seq<char>) -> Option<UserV>
    decreases users.len(),
{
    if users.len() == 0 {
        None
    } else if users[0].id == id {
        Some(users[0])
    } else {
        user_by_id(users.drop_first(), id)
    }
}

/// The first stored user with the given username.
pub open spec fn user_by_username(users: Seq<UserV>, username: Seq<char>) -> Option<UserV>
    decreases users.len(),
{
    if users.len() == 0 {
        None
    } else if users[0].username == username {
        Some(users[0])
    } else {
        user_by_username(users.drop_first(), username)
    }
}

/// The first stored account of the given user.
pub open spec fn account_by_id(accounts: Seq<AccountV>, id: Seq<char>) -> Option<AccountV>
    decreases accounts.len(),
{
    if accounts.len() == 0 {
        None
    } else if accounts[0].id == id {
        Some(accounts[0])
    } else {
        account_by_id(accounts.drop_first(), id)
    }
}

/// The first stored event with the given id.
pub open spec fn event_by_id(events: Seq<EventV>, id: Seq<char>) -> Option<EventV>
    decreases events.len(),
{
    if events.len() == 0 {
        None
    } else if events[0].id == id {
        Some(events[0])
    } else {
        event_by_id(events.drop_first(), id)
    }
}

/// The stored events with a sparse update merged into the first event of
/// the given id; unchanged when no event has that id.
pub open spec fn update_event_spec(
    events: Seq<EventV>,
    id: Seq<char>,
    p: crate::events::PartialEventV,
) -> Seq<EventV>
    decreases events.len(),
{
    if events.len() == 0 {
        events
    } else if events[0].id == id {
        seq![crate::events::merge_partial_event(events[0], p)] + events.drop_first()
    } else {
        seq![events[0]] + update_event_spec(events.drop_first(), id, p)
    }
}

/// Merging into the first match is updating at its index.
proof fn lemma_update_event_at(
    events: Seq<EventV>,
    id: Seq<char>,
    p: crate::events::PartialEventV,
    i: int,
)
    requires
        0 <= i < events.len(),
        events[i].id == id,
        forall|j: int| 0 <= j < i ==> events[j].id != id,
    ensures
        update_event_spec(events, id, p) =~= events.update(
            i,
            crate::events::merge_partial_event(events[i], p),
        ),
    decreases i,
{
    if i == 0 {
    } else {
        let rest = events.drop_first();
        assert(forall|j: int| 0 <= j < i - 1 ==> rest[j] == events[j + 1]);
        lemma_update_event_at(rest, id, p, i - 1);
        assert(seq![events[0]] + rest.update(
            i - 1,
            crate::events::merge_partial_event(events[i], p),
        ) =~= events.update(i, crate::events::merge_partial_event(events[i], p)));
    }
}

/// When no event has the id, merging changes nothing.
proof fn lemma_update_event_absent(
    events: Seq<EventV>,
    id: Seq<char>,
    p: crate::events::PartialEventV,
)
    requires
        forall|j: int| 0 <= j < events.len() ==> events[j].id != id,
    ensures
        update_event_spec(events, id, p) =~= events,
    decreases events.len(),
{
    if events.len() > 0 {
        let rest = events.drop_first();
        assert(forall|j: int| 0 <= j < rest.len() ==> rest[j] == events[j + 1]);
        lemma_update_event_absent(rest, id, p);
        assert(seq![events[0]] + rest =~= events);
    }
}

/// The guests registered for an event, in insertion order.
pub open spec fn guests_of(guests: Seq<EventGuestV>, event_id: Seq<char>) -> Seq<EventGuestV>
    decreases guests.len(),
{
    if guests.len() == 0 {
        Seq::empty()
    } else if guests[0].event_id == event_id {
        seq![guests[0]] + guests_of(guests.drop_first(), event_id)
    } else {
        guests_of(guests.drop_first(), event_id)
    }
}

/// The first guest of an event with the given guest id.
pub open spec fn guest_by(
    guests: Seq<EventGuestV>,
    event_id: Seq<char>,
    guest_id: Seq<char>,
) -> Option<EventGuestV>
    decreases guests.len(),
{
    if guests.len() == 0 {
        None
    } else if guests[0].event_id == event_id && guests[0].id == guest_id {
        Some(guests[0])
    } else {
        guest_by(guests.drop_first(), event_id, guest_id)
    }
}

/// The guest list with the first guest matching both ids set to the given
/// status; unchanged when no guest matches.
pub open spec fn set_guest_status_spec(
    guests: Seq<EventGuestV>,
    event_id: Seq<char>,
    guest_id: Seq<char>,
    status: crate::events::GuestStatus,
) -> Seq<EventGuestV>
    decreases guests.len(),
{
    if guests.len() == 0 {
        guests
    } else if guests[0].event_id == event_id && guests[0].id == guest_id {
        seq![EventGuestV { status, ..guests[0] }] + guests.drop_first()
    } else {
        seq![guests[0]] + set_guest_status_spec(guests.drop_first(), event_id, guest_id, status)
    }
}

/// Setting the first match's status is updating at its index.
proof fn lemma_set_guest_status_at(
    guests: Seq<EventGuestV>,
    event_id: Seq<char>,
    guest_id: Seq<char>,
    status: crate::events::GuestStatus,
    i: int,
)
    requires
        0 <= i < guests.len(),
        guests[i].event_id == event_id && guests[i].id == guest_id,
        forall|j: int| 0 <= j < i ==> !(guests[j].event_id == event_id && guests[j].id == guest_id),
    ensures
        set_guest_status_spec(guests, event_id, guest_id, status) =~= guests.update(
            i,
            EventGuestV { status, ..guests[i] },
        ),
    decreases i,
{
    if i == 0 {
    } else {
        let rest = guests.drop_first();
        assert(forall|j: int| 0 <= j < i - 1 ==> rest[j] == guests[j + 1]);
        lemma_set_guest_status_at(rest, event_id, guest_id, status, i - 1);
        assert(seq![guests[0]] + rest.update(i - 1, EventGuestV { status, ..guests[i] })
            =~= guests.update(i, EventGuestV { status, ..guests[i] }));
    }
}

/// When no guest matches, setting a status changes nothing.
proof fn lemma_set_guest_status_absent(
    guests: Seq<EventGuestV>,
    event_id: Seq<char>,
    guest_id: Seq<char>,
    status: crate::events::GuestStatus,
)
    requires
        forall|j: int|
            0 <= j < guests.len() ==> !(guests[j].event_id == event_id && guests[j].id
                == guest_id),
    ensures
        set_guest_status_spec(guests, event_id, guest_id, status) =~= guests,
    decreases guests.len(),
{
    if guests.len() > 0 {
        let rest = guests.drop_first();
        assert(forall|j: int| 0 <= j < rest.len() ==> rest[j] == guests[j + 1]);
        lemma_set_guest_status_absent(rest, event_id, guest_id, status);
        assert(seq![guests[0]] + rest =~= guests);
    }
}

/// Whether a saved-event bookmark with the given key exists.
pub open spec fn saved_exists(saved: Seq<SavedEventV>, id: Seq<char>) -> bool
    decreases saved.len(),
{
    if saved.len() == 0 {
        false
    } else if saved[0].id == id {
        true
    } else {
        saved_exists(saved.drop_first(), id)
    }
}

/// The bookmarks with the first record of the given key removed.
pub open spec fn remove_saved_spec(saved: Seq<SavedEventV>, id: Seq<char>) -> Seq<SavedEventV>
    decreases saved.len(),
{
    if saved.len() == 0 {
        saved
    } else if saved[0].id == id {
        saved.drop_first()
    } else {
        seq![saved[0]] + remove_saved_spec(saved.drop_first(), id)
    }
}

/// Removing the first match is removing at its index.
proof fn lemma_remove_saved_at(saved: Seq<SavedEventV>, id: Seq<char>, i: int)
    requires
        0 <= i < saved.len(),
        saved[i].id == id,
        forall|j: int| 0 <= j < i ==> saved[j].id != id,
    ensures
        remove_saved_spec(saved, id) =~= saved.remove(i),
    decreases i,
{
    if i == 0 {
        assert(saved.drop_first() =~= saved.remove(0));
    } else {
        let rest = saved.drop_first();
        assert(forall|j: int| 0 <= j < i - 1 ==> rest[j] == saved[j + 1]);
        lemma_remove_saved_at(rest, id, i - 1);
        assert(seq![saved[0]] + rest.remove(i - 1) =~= saved.remove(i));
    }
}

/// When no bookmark matches, removal changes nothing.
proof fn lemma_remove_saved_absent(saved: Seq<SavedEventV>, id: Seq<char>)
    requires
        forall|j: int| 0 <= j < saved.len() ==> saved[j].id != id,
    ensures
        remove_saved_spec(saved, id) =~= saved,
    decreases saved.len(),
{
    if saved.len() > 0 {
        let rest = saved.drop_first();
        assert(forall|j: int| 0 <= j < rest.len() ==> rest[j] == saved[j + 1]);
        lemma_remove_saved_absent(rest, id);
        assert(seq![saved[0]] + rest =~= saved);
    }
}

/// The first stored membership of a user in a server.
pub open spec fn member_by(members: Seq<MemberV>, server: Seq<char>, user: Seq<char>) -> Option<
    MemberV,
>
    decreases members.len(),
{
    if members.len() == 0 {
        None
    } else if members[0].server == server && members[0].user == user {
        Some(members[0])
    } else {
        member_by(members.drop_first(), server, user)
    }
}

/// The first stored experience with the given id.
pub open spec fn experience_by_id(exps: Seq<ExperienceV>, id: Seq<char>) -> Option<ExperienceV>
    decreases exps.len(),
{
    if exps.len() == 0 {
        None
    } else if exps[0].id == id {
        Some(exps[0])
    } else {
        experience_by_id(exps.drop_first(), id)
    }
}

/// The first stored direct-message channel whose recipients include both
/// users.
pub open spec fn dm_channel_between(chs: Seq<ChannelV>, a: Seq<char>, b: Seq<char>) -> Option<
    ChannelV,
>
    decreases chs.len(),
{
    if chs.len() == 0 {
        None
    } else if chs[0] matches ChannelV::DirectMessage { recipients, .. } && recipients.contains(a)
        && recipients.contains(b) {
        Some(chs[0])
    } else {
        dm_channel_between(chs.drop_first(), a, b)
    }
}

/// A direct-message channel with its activity flag raised.
pub open spec fn dm_activated(c: ChannelV) -> ChannelV {
    match c {
        ChannelV::DirectMessage { id, recipients, last_message_id, .. } => {
            ChannelV::DirectMessage { id, active: true, recipients, last_message_id }
        },
        _ => c,
    }
}

/// The channels with the first channel of the given id marked active, when
/// it is a direct message; anything else — including a missing id — is left
/// unchanged.
pub open spec fn set_dm_active_spec(chs: Seq<ChannelV>, id: Seq<char>) -> Seq<ChannelV>
    decreases chs.len(),
{
    if chs.len() == 0 {
        chs
    } else if chs[0].id() == id {
        seq![dm_activated(chs[0])] + chs.drop_first()
    } else {
        seq![chs[0]] + set_dm_active_spec(chs.drop_first(), id)
    }
}

/// Activating the first match is updating at its index.
proof fn lemma_set_dm_active_at(chs: Seq<ChannelV>, id: Seq<char>, i: int)
    requires
        0 <= i < chs.len(),
        chs[i].id() == id,
        forall|j: int| 0 <= j < i ==> chs[j].id() != id,
    ensures
        set_dm_active_spec(chs, id) =~= chs.update(i, dm_activated(chs[i])),
    decreases i,
{
    if i == 0 {
    } else {
        let rest = chs.drop_first();
        assert(forall|j: int| 0 <= j < i - 1 ==> rest[j] == chs[j + 1]);
        lemma_set_dm_active_at(rest, id, i - 1);
        assert(seq![chs[0]] + rest.update(i - 1, dm_activated(chs[i])) =~= chs.update(
            i,
            dm_activated(chs[i]),
        ));
    }
}

/// When no channel has the id, activation changes nothing.
proof fn lemma_set_dm_active_absent(chs: Seq<ChannelV>, id: Seq<char>)
    requires
        forall|j: int| 0 <= j < chs.len() ==> chs[j].id() != id,
    ensures
        set_dm_active_spec(chs, id) =~= chs,
    decreases chs.len(),
{
    if chs.len() > 0 {
        let rest = chs.drop_first();
        assert(forall|j: int| 0 <= j < rest.len() ==> rest[j] == chs[j + 1]);
        lemma_set_dm_active_absent(rest, id);
        assert(seq![chs[0]] + rest =~= chs);
    }
}

/// The first stored marketplace conversation for a listing between a buyer
/// and a seller.
pub open spec fn marketplace_dm_of(
    chs: Seq<ChannelV>,
    listing: Seq<char>,
    buyer: Seq<char>,
    seller: Seq<char>,
) -> Option<ChannelV>
    decreases chs.len(),
{
    if chs.len() == 0 {
        None
    } else if chs[0] matches ChannelV::MarketplaceDM { listing_id, buyer: b, seller: s, .. }
        && listing_id == listing && b == buyer && s == seller {
        Some(chs[0])
    } else {
        marketplace_dm_of(chs.drop_first(), listing, buyer, seller)
    }
}

// ---------------------------------------------------------------------------
// Backend operations
// ---------------------------------------------------------------------------

impl MemoryStore {
    /// Find one channel by id.
    pub fn find_channel(&self, id: &String) -> (r: Option<Channel>)
        ensures
            r.deep_view() == channel_by_id(self.deep_view().channels, id@),
    {
        let ghost dv = self.channels.deep_view();
        proof {
            assert(dv.skip(0) =~= dv);
        }
        let mut i: usize = 0;
        while i < self.channels.len()
            invariant
                i <= self.channels.len(),
                dv == self.channels.deep_view(),
                channel_by_id(dv, id@) == channel_by_id(dv.skip(i as int), id@),
            decreases self.channels.len() - i,
        {
            proof {
                assert(dv[i as int] == self.channels@[i as int].deep_view());
                assert(dv.skip(i as int)[0] == dv[i as int]);
                assert(dv.skip(i as int).drop_first() =~= dv.skip(i as int + 1));
            }
            if *self.channels[i].id() == *id {
                return Some(self.channels[i].duplicate());
            }
            i = i + 1;
        }
        proof {
            assert(dv.skip(i as int) =~= Seq::<ChannelV>::empty());
        }
        None
    }

    /// Replace the stored channel that has `c`'s id, in one update.
    pub fn put_channel(&mut self, c: Channel) -> (r: Result<(), Error>)
        ensures
            r is Ok <==> channel_by_id(old(self).deep_view().channels, c.deep_view().id())
                is Some,
            r is Ok ==> final(self).deep_view() == (StoreV {
                channels: put_channel_spec(old(self).deep_view().channels, c.deep_view()),
                ..old(self).deep_view()
            }),
            r is Err ==> *final(self) == *old(self) && r == Err::<(), Error>(Error::NotFound),
    {
        let ghost dv = self.channels.deep_view();
        let ghost cdv = c.deep_view();
        proof {
            assert(dv.skip(0) =~= dv);
        }
        let cid = c.id().clone();
        let mut i: usize = 0;
        while i < self.channels.len()
            invariant
                i <= self.channels.len(),
                *self == *old(self),
                dv == self.channels.deep_view(),
                cdv == c.deep_view(),
                cid@ == cdv.id(),
                channel_by_id(dv, cdv.id()) == channel_by_id(dv.skip(i as int), cdv.id()),
                forall|j: int| 0 <= j < i ==> dv[j].id() != cdv.id(),
            decreases self.channels.len() - i,
        {
            proof {
                assert(dv[i as int] == self.channels@[i as int].deep_view());
                assert(dv.skip(i as int)[0] == dv[i as int]);
                assert(dv.skip(i as int).drop_first() =~= dv.skip(i as int + 1));
            }
            if *self.channels[i].id() == cid {
                let ghost cq = self.channels@;
                proof {
                    assert(dv.len() == cq.len());
                    assert(forall|j: int|
                        0 <= j < cq.len() ==> #[trigger] dv[j] == cq[j].deep_view());
                }
                self.channels.remove(i);
                self.channels.insert(i, c);
                proof {
                    lemma_put_channel_at(dv, cdv, i as int);
                    assert(self.channels@ =~= cq.update(i as int, c));
                    assert(self.channels.deep_view().len() == self.channels@.len());
                    assert(forall|j: int|
                        0 <= j < self.channels@.len() ==> #[trigger] self.channels.deep_view()[j]
                            == self.channels@[j].deep_view());
                    assert(dv.update(i as int, cdv)[i as int] == cdv);
                    assert(self.channels.deep_view()[i as int] == cdv);
                    assert forall|j: int|
                        0 <= j < dv.len() && j != i as int implies self.channels.deep_view()[j]
                        == dv[j] by {
                        assert(self.channels@[j] == cq[j]);
                        assert(self.channels.deep_view()[j] == cq[j].deep_view());
                        assert(dv[j] == cq[j].deep_view());
                    }
                    assert(self.channels.deep_view() =~= dv.update(i as int, cdv));
                    assert(self.deep_view() =~= (StoreV {
                        channels: put_channel_spec(dv, cdv),
                        ..old(self).deep_view()
                    }));
                }
                return Ok(());
            }
            i = i + 1;
        }
        proof {
            assert(dv.skip(i as int) =~= Seq::<ChannelV>::empty());
        }
        Err(Error::NotFound)
    }

    /// Add a newly created channel.
    pub fn insert_channel(&mut self, c: Channel)
        ensures
            final(self).deep_view() == (StoreV {
                channels: old(self).deep_view().channels.push(c.deep_view()),
                ..old(self).deep_view()
            }),
    {
        let ghost cdv = c.deep_view();
        self.channels.push(c);
        proof {
            assert(self.channels.deep_view() =~= old(self).deep_view().channels.push(cdv));
            assert(self.deep_view() =~= (StoreV {
                channels: old(self).deep_view().channels.push(cdv),
                ..old(self).deep_view()
            }));
        }
    }

    /// Schedule the attachment with the given id for deletion; a missing id
    /// is a no-op, as the underlying update matches zero documents.
    pub fn mark_attachment_deleted(&mut self, id: &String)
        ensures
            final(self).deep_view() == (StoreV {
                attachments: mark_attachment(old(self).deep_view().attachments, id@),
                ..old(self).deep_view()
            }),
    {
        let ghost dv = self.attachments.deep_view();
        proof {
            assert(dv.skip(0) =~= dv);
        }
        let mut i: usize = 0;
        while i < self.attachments.len()
            invariant
                i <= self.attachments.len(),
                dv == self.attachments.deep_view(),
                self.attachments == old(self).attachments,
                self.channels == old(self).channels,
                self.messages == old(self).messages,
                self.idempotency == old(self).idempotency,
                self.users == old(self).users,
                self.accounts == old(self).accounts,
                self.events == old(self).events,
                self.guests == old(self).guests,
                self.saved_events == old(self).saved_events,
                self.trips == old(self).trips,
                self.trip_comments == old(self).trip_comments,
                self.invite_tokens == old(self).invite_tokens,
                self.experiences == old(self).experiences,
                self.members == old(self).members,
                forall|j: int| 0 <= j < i ==> dv[j].id != id@,
            decreases self.attachments.len() - i,
        {
            proof {
                assert(dv[i as int] == self.attachments@[i as int].deep_view());
            }
            if self.attachments[i].id == *id {
                let ghost aq = self.attachments@;
                proof {
                    assert(dv.len() == aq.len());
                    assert(forall|j: int|
                        0 <= j < aq.len() ==> #[trigger] dv[j] == aq[j].deep_view());
                }
                let found = self.attachments.remove(i);
                let replacement = Attachment { id: found.id, deleted: true };
                self.attachments.insert(i, replacement);
                proof {
                    lemma_mark_attachment_at(dv, id@, i as int);
                    assert(self.attachments@ =~= aq.update(
                        i as int,
                        Attachment { id: aq[i as int].id, deleted: true },
                    ));
                    assert(self.attachments.deep_view().len() == self.attachments@.len());
                    assert(forall|j: int|
                        0 <= j < self.attachments@.len() ==> #[trigger] self.attachments.deep_view()[j]
                            == self.attachments@[j].deep_view());
                    assert(self.attachments.deep_view() =~= dv.update(
                        i as int,
                        AttachmentV { id: dv[i as int].id, deleted: true },
                    ));
                    assert(self.deep_view() =~= (StoreV {
                        attachments: mark_attachment(dv, id@),
                        ..old(self).deep_view()
                    }));
                }
                return ;
            }
            i = i + 1;
        }
        proof {
            lemma_mark_attachment_absent(dv, id@);
            assert(self.deep_view() =~= (StoreV {
                attachments: mark_attachment(dv, id@),
                ..old(self).deep_view()
            }));
        }
    }

    /// A copy of the attachment collection, for asset resolution.
    pub fn attachments_snapshot(&self) -> (r: Vec<Attachment>)
        ensures
            r.deep_view() == self.deep_view().attachments,
    {
        let mut out: Vec<Attachment> = Vec::new();
        let mut i: usize = 0;
        while i < self.attachments.len()
            invariant
                i <= self.attachments.len(),
                out.len() == i,
                forall|j: int|
                    0 <= j < i ==> out.deep_view()[j] == self.attachments.deep_view()[j],
            decreases self.attachments.len() - i,
        {
            let id_copy = self.attachments[i].id.clone();
            let deleted = self.attachments[i].deleted;
            let ghost prev_dv = out.deep_view();
            out.push(Attachment { id: id_copy, deleted });
            proof {
                assert(forall|j: int|
                    0 <= j < i ==> #[trigger] out.deep_view()[j] == prev_dv[j]);
                assert(out@[i as int].id@ == self.attachments@[i as int].id@);
                assert(out.deep_view()[i as int] == out@[i as int].deep_view());
                assert(self.attachments.deep_view()[i as int]
                    == self.attachments@[i as int].deep_view());
                assert(out.deep_view()[i as int] == self.attachments.deep_view()[i as int]);
            }
            i = i + 1;
        }
        proof {
            assert(out.deep_view() =~= self.attachments.deep_view());
        }
        out
    }

    /// Persist a newly created message.
    pub fn insert_message(&mut self, m: Message)
        ensures
            final(self).deep_view() == (StoreV {
                messages: old(self).deep_view().messages.push(m.deep_view()),
                ..old(self).deep_view()
            }),
    {
        let ghost mdv = m.deep_view();
        self.messages.push(m);
        proof {
            assert(self.messages.deep_view() =~= old(self).deep_view().messages.push(mdv));
            assert(self.deep_view() =~= (StoreV {
                messages: old(self).deep_view().messages.push(mdv),
                ..old(self).deep_view()
            }));
        }
    }

    /// Persist a newly issued invitation token.
    pub fn insert_invite_token(&mut self, t: InvitationToken)
        ensures
            final(self).deep_view() == (StoreV {
                invite_tokens: old(self).deep_view().invite_tokens.push(t.deep_view()),
                ..old(self).deep_view()
            }),
    {
        let ghost tdv = t.deep_view();
        self.invite_tokens.push(t);
        proof {
            assert(self.invite_tokens.deep_view() =~= old(self).deep_view().invite_tokens.push(
                tdv,
            ));
            assert(self.deep_view() =~= (StoreV {
                invite_tokens: old(self).deep_view().invite_tokens.push(tdv),
                ..old(self).deep_view()
            }));
        }
    }

    /// Persist an idempotency record.
    pub fn insert_idempotency(&mut self, rec: IdempotencyRecord)
        ensures
            final(self).deep_view() == (StoreV {
                idempotency: old(self).deep_view().idempotency.push(rec.deep_view()),
                ..old(self).deep_view()
            }),
    {
        let ghost rdv = rec.deep_view();
        self.idempotency.push(rec);
        proof {
            assert(self.idempotency.deep_view() =~= old(self).deep_view().idempotency.push(rdv));
            assert(self.deep_view() =~= (StoreV {
                idempotency: old(self).deep_view().idempotency.push(rdv),
                ..old(self).deep_view()
            }));
        }
    }

    /// Look up the message previously produced for an (author, token) pair,
    /// with the record's creation time.
    pub fn find_idempotency(&self, author: &String, token: &String) -> (r: Option<(Message, u64)>)
        ensures
            match replay_of(self.deep_view(), author@, token@) {
                Some((m, t)) => r matches Some((rm, rt)) && rm.deep_view() == m && rt == t,
                None => r is None,
            },
    {
        let ghost dv = self.idempotency.deep_view();
        proof {
            assert(dv.skip(0) =~= dv);
        }
        let mut i: usize = 0;
        while i < self.idempotency.len()
            invariant
                i <= self.idempotency.len(),
                dv == self.idempotency.deep_view(),
                idem_find(dv, author@, token@) == idem_find(dv.skip(i as int), author@, token@),
            decreases self.idempotency.len() - i,
        {
            proof {
                assert(dv[i as int] == self.idempotency@[i as int].deep_view());
                assert(dv.skip(i as int)[0] == dv[i as int]);
                assert(dv.skip(i as int).drop_first() =~= dv.skip(i as int + 1));
            }
            if self.idempotency[i].author == *author && self.idempotency[i].token == *token {
                let created_at = self.idempotency[i].created_at;
                match self.find_message(&self.idempotency[i].message_id) {
                    Some(m) => {
                        return Some((m, created_at));
                    },
                    None => {
                        return None;
                    },
                }
            }
            i = i + 1;
        }
        proof {
            assert(dv.skip(i as int) =~= Seq::<IdempotencyRecordV>::empty());
        }
        None
    }

    /// Find one message by id.
    pub fn find_message(&self, id: &String) -> (r: Option<Message>)
        ensures
            r.deep_view() == message_by_id(self.deep_view().messages, id@),
    {
        let ghost dv = self.messages.deep_view();
        proof {
            assert(dv.skip(0) =~= dv);
        }
        let mut i: usize = 0;
        while i < self.messages.len()
            invariant
                i <= self.messages.len(),
                dv == self.messages.deep_view(),
                message_by_id(dv, id@) == message_by_id(dv.skip(i as int), id@),
            decreases self.messages.len() - i,
        {
            proof {
                assert(dv[i as int] == self.messages@[i as int].deep_view());
                assert(dv.skip(i as int)[0] == dv[i as int]);
                assert(dv.skip(i as int).drop_first() =~= dv.skip(i as int + 1));
            }
            if self.messages[i].id == *id {
                return Some(self.messages[i].duplicate());
            }
            i = i + 1;
        }
        proof {
            assert(dv.skip(i as int) =~= Seq::<MessageV>::empty());
        }
        None
    }
}

/// The events with the first record of the given id removed; unchanged when
/// no event has that id.
pub open spec fn remove_event_spec(events: Seq<EventV>, id: Seq<char>) -> Seq<EventV>
    decreases events.len(),
{
    if events.len() == 0 {
        events
    } else if events[0].id == id {
        events.drop_first()
    } else {
        seq![events[0]] + remove_event_spec(events.drop_first(), id)
    }
}

/// Removing the first match is removing at its index.
proof fn lemma_remove_event_at(events: Seq<EventV>, id: Seq<char>, i: int)
    requires
        0 <= i < events.len(),
        events[i].id == id,
        forall|j: int| 0 <= j < i ==> events[j].id != id,
    ensures
        remove_event_spec(events, id) =~= events.remove(i),
    decreases i,
{
    if i == 0 {
        assert(events.drop_first() =~= events.remove(0));
    } else {
        let rest = events.drop_first();
        assert(forall|j: int| 0 <= j < i - 1 ==> rest[j] == events[j + 1]);
        lemma_remove_event_at(rest, id, i - 1);
        assert(seq![events[0]] + rest.remove(i - 1) =~= events.remove(i));
    }
}

/// When no event matches, removal changes nothing.
proof fn lemma_remove_event_absent(events: Seq<EventV>, id: Seq<char>)
    requires
        forall|j: int| 0 <= j < events.len() ==> events[j].id != id,
    ensures
        remove_event_spec(events, id) =~= events,
    decreases events.len(),
{
    if events.len() > 0 {
        let rest = events.drop_first();
        assert(forall|j: int| 0 <= j < rest.len() ==> rest[j] == events[j + 1]);
        lemma_remove_event_absent(rest, id);
        assert(seq![events[0]] + rest =~= events);
    }
}

/// The key under which a user's bookmark of an event is stored.
pub open spec fn saved_key(user: Seq<char>, event: Seq<char>) -> Seq<char> {
    user + ":"@ + event
}

impl MemoryStore {
    /// Find one user by id.
    pub fn fetch_user(&self, id: &String) -> (r: Option<User>)
        ensures
            r.deep_view() == user_by_id(self.deep_view().users, id@),
    {
        let ghost dv = self.users.deep_view();
        proof {
            assert(dv.skip(0) =~= dv);
        }
        let mut i: usize = 0;
        while i < self.users.len()
            invariant
                i <= self.users.len(),
                dv == self.users.deep_view(),
                user_by_id(dv, id@) == user_by_id(dv.skip(i as int), id@),
            decreases self.users.len() - i,
        {
            proof {
                assert(dv[i as int] == self.users@[i as int].deep_view());
                assert(dv.skip(i as int)[0] == dv[i as int]);
                assert(dv.skip(i as int).drop_first() =~= dv.skip(i as int + 1));
            }
            if self.users[i].id == *id {
                return Some(self.users[i].duplicate());
            }
            i = i + 1;
        }
        proof {
            assert(dv.skip(i as int) =~= Seq::<UserV>::empty());
        }
        None
    }

    /// Find one user by username.
    pub fn fetch_user_by_username(&self, username: &String) -> (r: Option<User>)
        ensures
            r.deep_view() == user_by_username(self.deep_view().users, username@),
    {
        let ghost dv = self.users.deep_view();
        proof {
            assert(dv.skip(0) =~= dv);
        }
        let mut i: usize = 0;
        while i < self.users.len()
            invariant
                i <= self.users.len(),
                dv == self.users.deep_view(),
                user_by_username(dv, username@) == user_by_username(dv.skip(i as int), username@),
            decreases self.users.len() - i,
        {
            proof {
                assert(dv[i as int] == self.users@[i as int].deep_view());
                assert(dv.skip(i as int)[0] == dv[i as int]);
                assert(dv.skip(i as int).drop_first() =~= dv.skip(i as int + 1));
            }
            if self.users[i].username == *username {
                return Some(self.users[i].duplicate());
            }
            i = i + 1;
        }
        proof {
            assert(dv.skip(i as int) =~= Seq::<UserV>::empty());
        }
        None
    }

    /// Find one account by the owning user's id.
    pub fn find_account(&self, id: &String) -> (r: Option<Account>)
        ensures
            r.deep_view() == account_by_id(self.deep_view().accounts, id@),
    {
        let ghost dv = self.accounts.deep_view();
        proof {
            assert(dv.skip(0) =~= dv);
        }
        let mut i: usize = 0;
        while i < self.accounts.len()
            invariant
                i <= self.accounts.len(),
                dv == self.accounts.deep_view(),
                account_by_id(dv, id@) == account_by_id(dv.skip(i as int), id@),
            decreases self.accounts.len() - i,
        {
            proof {
                assert(dv[i as int] == self.accounts@[i as int].deep_view());
                assert(dv.skip(i as int)[0] == dv[i as int]);
                assert(dv.skip(i as int).drop_first() =~= dv.skip(i as int + 1));
            }
            if self.accounts[i].id == *id {
                return Some(
                    Account {
                        id: self.accounts[i].id.clone(),
                        email: self.accounts[i].email.clone(),
                    },
                );
            }
            i = i + 1;
        }
        proof {
            assert(dv.skip(i as int) =~= Seq::<AccountV>::empty());
        }
        None
    }

    /// Persist a newly created event.
    pub fn insert_event(&mut self, e: Event)
        ensures
            final(self).deep_view() == (StoreV {
                events: old(self).deep_view().events.push(e.deep_view()),
                ..old(self).deep_view()
            }),
    {
        let ghost edv = e.deep_view();
        self.events.push(e);
        proof {
            assert(self.events.deep_view() =~= old(self).deep_view().events.push(edv));
            assert(self.deep_view() =~= (StoreV {
                events: old(self).deep_view().events.push(edv),
                ..old(self).deep_view()
            }));
        }
    }

    /// Merge a sparse update into the stored event with the given id; a
    /// missing id is a no-op, as the underlying update matches zero
    /// documents.
    pub fn update_event(&mut self, id: &String, p: &crate::events::PartialEvent)
        ensures
            final(self).deep_view() == (StoreV {
                events: update_event_spec(old(self).deep_view().events, id@, p.deep_view()),
                ..old(self).deep_view()
            }),
    {
        let ghost dv = self.events.deep_view();
        proof {
            assert(dv.skip(0) =~= dv);
        }
        let mut i: usize = 0;
        while i < self.events.len()
            invariant
                i <= self.events.len(),
                *self == *old(self),
                dv == self.events.deep_view(),
                forall|j: int| 0 <= j < i ==> dv[j].id != id@,
            decreases self.events.len() - i,
        {
            proof {
                assert(dv[i as int] == self.events@[i as int].deep_view());
            }
            if self.events[i].id == *id {
                let ghost eq = self.events@;
                proof {
                    assert(dv.len() == eq.len());
                    assert(forall|j: int|
                        0 <= j < eq.len() ==> #[trigger] dv[j] == eq[j].deep_view());
                }
                let found = self.events.remove(i);
                let ghost fdv = found.deep_view();
                let merged = Event {
                    title: match &p.title {
                        Some(t) => t.clone(),
                        None => found.title,
                    },
                    description: match &p.description {
                        Some(d) => Some(d.clone()),
                        None => found.description,
                    },
                    invited_count: match p.invited_count {
                        Some(c) => Some(c),
                        None => found.invited_count,
                    },
                    ..found
                };
                proof {
                    assert(merged.deep_view() =~= crate::events::merge_partial_event(
                        fdv,
                        p.deep_view(),
                    ));
                }
                self.events.insert(i, merged);
                proof {
                    lemma_update_event_at(dv, id@, p.deep_view(), i as int);
                    assert(self.events@ =~= eq.update(
                        i as int,
                        self.events@[i as int],
                    ));
                    assert(self.events.deep_view().len() == self.events@.len());
                    assert(forall|j: int|
                        0 <= j < self.events@.len() ==> #[trigger] self.events.deep_view()[j]
                            == self.events@[j].deep_view());
                    assert(self.events.deep_view() =~= dv.update(
                        i as int,
                        crate::events::merge_partial_event(dv[i as int], p.deep_view()),
                    ));
                    assert(self.deep_view() =~= (StoreV {
                        events: update_event_spec(dv, id@, p.deep_view()),
                        ..old(self).deep_view()
                    }));
                }
                return ;
            }
            i = i + 1;
        }
        proof {
            lemma_update_event_absent(dv, id@, p.deep_view());
            assert(self.deep_view() =~= (StoreV {
                events: update_event_spec(dv, id@, p.deep_view()),
                ..old(self).deep_view()
            }));
        }
    }

    /// Remove the stored event with the given id; a missing id is a no-op.
    pub fn delete_event(&mut self, id: &String)
        ensures
            final(self).deep_view() == (StoreV {
                events: remove_event_spec(old(self).deep_view().events, id@),
                ..old(self).deep_view()
            }),
    {
        let ghost dv = self.events.deep_view();
        proof {
            assert(dv.skip(0) =~= dv);
        }
        let mut i: usize = 0;
        while i < self.events.len()
            invariant
                i <= self.events.len(),
                *self == *old(self),
                dv == self.events.deep_view(),
                forall|j: int| 0 <= j < i ==> dv[j].id != id@,
            decreases self.events.len() - i,
        {
            proof {
                assert(dv[i as int] == self.events@[i as int].deep_view());
            }
            if self.events[i].id == *id {
                let ghost eq = self.events@;
                proof {
                    assert(dv.len() == eq.len());
                    assert(forall|j: int|
                        0 <= j < eq.len() ==> #[trigger] dv[j] == eq[j].deep_view());
                }
                self.events.remove(i);
                proof {
                    lemma_remove_event_at(dv, id@, i as int);
                    assert(self.events.deep_view().len() == self.events@.len());
                    assert(forall|j: int|
                        0 <= j < self.events@.len() ==> #[trigger] self.events.deep_view()[j]
                            == self.events@[j].deep_view());
                    assert(self.events.deep_view() =~= dv.remove(i as int));
                    assert(self.deep_view() =~= (StoreV {
                        events: remove_event_spec(dv, id@),
                        ..old(self).deep_view()
                    }));
                }
                return ;
            }
            i = i + 1;
        }
        proof {
            lemma_remove_event_absent(dv, id@);
            assert(self.deep_view() =~= (StoreV {
                events: remove_event_spec(dv, id@),
                ..old(self).deep_view()
            }));
        }
    }

    /// Register a guest.
    pub fn add_guest(&mut self, g: EventGuest)
        ensures
            final(self).deep_view() == (StoreV {
                guests: old(self).deep_view().guests.push(g.deep_view()),
                ..old(self).deep_view()
            }),
    {
        let ghost gdv = g.deep_view();
        self.guests.push(g);
        proof {
            assert(self.guests.deep_view() =~= old(self).deep_view().guests.push(gdv));
            assert(self.deep_view() =~= (StoreV {
                guests: old(self).deep_view().guests.push(gdv),
                ..old(self).deep_view()
            }));
        }
    }

    /// Set the status of the guest matching both ids; a missing guest is a
    /// no-op, as the underlying update matches zero documents.
    pub fn update_guest_status(
        &mut self,
        event_id: &String,
        guest_id: &String,
        status: crate::events::GuestStatus,
    )
        ensures
            final(self).deep_view() == (StoreV {
                guests: set_guest_status_spec(
                    old(self).deep_view().guests,
                    event_id@,
                    guest_id@,
                    status,
                ),
                ..old(self).deep_view()
            }),
    {
        let ghost dv = self.guests.deep_view();
        proof {
            assert(dv.skip(0) =~= dv);
        }
        let mut i: usize = 0;
        while i < self.guests.len()
            invariant
                i <= self.guests.len(),
                *self == *old(self),
                dv == self.guests.deep_view(),
                forall|j: int|
                    0 <= j < i ==> !(dv[j].event_id == event_id@ && dv[j].id == guest_id@),
            decreases self.guests.len() - i,
        {
            proof {
                assert(dv[i as int] == self.guests@[i as int].deep_view());
            }
            if self.guests[i].event_id == *event_id && self.guests[i].id == *guest_id {
                let ghost gq = self.guests@;
                proof {
                    assert(dv.len() == gq.len());
                    assert(forall|j: int|
                        0 <= j < gq.len() ==> #[trigger] dv[j] == gq[j].deep_view());
                }
                let found = self.guests.remove(i);
                let ghost fdv = found.deep_view();
                let replaced = EventGuest { status, ..found };
                proof {
                    assert(replaced.deep_view() =~= (EventGuestV { status, ..fdv }));
                }
                self.guests.insert(i, replaced);
                proof {
                    lemma_set_guest_status_at(dv, event_id@, guest_id@, status, i as int);
                    assert(self.guests.deep_view().len() == self.guests@.len());
                    assert(forall|j: int|
                        0 <= j < self.guests@.len() ==> #[trigger] self.guests.deep_view()[j]
                            == self.guests@[j].deep_view());
                    assert(self.guests.deep_view() =~= dv.update(
                        i as int,
                        EventGuestV { status, ..dv[i as int] },
                    ));
                    assert(self.deep_view() =~= (StoreV {
                        guests: set_guest_status_spec(dv, event_id@, guest_id@, status),
                        ..old(self).deep_view()
                    }));
                }
                return ;
            }
            i = i + 1;
        }
        proof {
            lemma_set_guest_status_absent(dv, event_id@, guest_id@, status);
            assert(self.deep_view() =~= (StoreV {
                guests: set_guest_status_spec(dv, event_id@, guest_id@, status),
                ..old(self).deep_view()
            }));
        }
    }

    /// The guests registered for an event, in insertion order.
    pub fn get_event_guests(&self, event_id: &String) -> (r: Vec<EventGuest>)
        ensures
            r.deep_view() == guests_of(self.deep_view().guests, event_id@),
    {
        let ghost dv = self.guests.deep_view();
        proof {
            assert(dv.skip(0) =~= dv);
        }
        let mut out: Vec<EventGuest> = Vec::new();
        let mut i: usize = 0;
        while i < self.guests.len()
            invariant
                i <= self.guests.len(),
                dv == self.guests.deep_view(),
                guests_of(dv, event_id@) == out.deep_view() + guests_of(
                    dv.skip(i as int),
                    event_id@,
                ),
            decreases self.guests.len() - i,
        {
            proof {
                assert(dv[i as int] == self.guests@[i as int].deep_view());
                assert(dv.skip(i as int)[0] == dv[i as int]);
                assert(dv.skip(i as int).drop_first() =~= dv.skip(i as int + 1));
            }
            if self.guests[i].event_id == *event_id {
                let ghost out_before = out.deep_view();
                out.push(self.guests[i].duplicate());
                proof {
                    assert(out.deep_view() =~= out_before + seq![dv[i as int]]);
                    assert((out_before + seq![dv[i as int]]) + guests_of(
                        dv.skip(i as int + 1),
                        event_id@,
                    ) =~= out_before + (seq![dv[i as int]] + guests_of(
                        dv.skip(i as int + 1),
                        event_id@,
                    )));
                }
            }
            i = i + 1;
        }
        proof {
            assert(dv.skip(i as int) =~= Seq::<EventGuestV>::empty());
            assert(out.deep_view() + Seq::<EventGuestV>::empty() =~= out.deep_view());
        }
        out
    }

    /// Find one guest of an event.
    pub fn get_guest(&self, event_id: &String, guest_id: &String) -> (r: Option<EventGuest>)
        ensures
            r.deep_view() == guest_by(self.deep_view().guests, event_id@, guest_id@),
    {
        let ghost dv = self.guests.deep_view();
        proof {
            assert(dv.skip(0) =~= dv);
        }
        let mut i: usize = 0;
        while i < self.guests.len()
            invariant
                i <= self.guests.len(),
                dv == self.guests.deep_view(),
                guest_by(dv, event_id@, guest_id@) == guest_by(
                    dv.skip(i as int),
                    event_id@,
                    guest_id@,
                ),
            decreases self.guests.len() - i,
        {
            proof {
                assert(dv[i as int] == self.guests@[i as int].deep_view());
                assert(dv.skip(i as int)[0] == dv[i as int]);
                assert(dv.skip(i as int).drop_first() =~= dv.skip(i as int + 1));
            }
            if self.guests[i].event_id == *event_id && self.guests[i].id == *guest_id {
                return Some(self.guests[i].duplicate());
            }
            i = i + 1;
        }
        proof {
            assert(dv.skip(i as int) =~= Seq::<EventGuestV>::empty());
        }
        None
    }
}

/// The host entry a stored user resolves to.
pub open spec fn event_host_of(u: UserV) -> crate::events::EventHostV {
    crate::events::EventHostV { id: u.id, username: u.username, avatar: u.avatar }
}

/// Resolve a list of user ids to host entries, skipping unknown users.
pub open spec fn user_details(users: Seq<UserV>, ids: Seq<Seq<char>>) -> Seq<
    crate::events::EventHostV,
>
    decreases ids.len(),
{
    if ids.len() == 0 {
        Seq::empty()
    } else {
        match user_by_id(users, ids[0]) {
            Some(u) => seq![event_host_of(u)] + user_details(users, ids.drop_first()),
            None => user_details(users, ids.drop_first()),
        }
    }
}

/// An event with its host and sponsor details resolved against the stored
/// users, and — when a requesting user is known — its saved flag resolved
/// against the stored bookmarks.
pub open spec fn resolved_event(s: StoreV, e: EventV, user: Option<Seq<char>>) -> EventV {
    EventV {
        host_details: Some(user_details(s.users, e.hosts)),
        sponsor_details: Some(user_details(s.users, e.sponsors)),
        is_saved: match user {
            Some(u) => Some(saved_exists(s.saved_events, saved_key(u, e.id))),
            None => e.is_saved,
        },
        ..e
    }
}

/// What fetching one event resolves to.
pub open spec fn fetch_event_spec(s: StoreV, user: Option<Seq<char>>, id: Seq<char>) -> Result<
    EventV,
    Error,
> {
    match event_by_id(s.events, id) {
        Some(e) => Ok(resolved_event(s, e, user)),
        None => Err(Error::NotFound),
    }
}

/// Every stored event, resolved.
pub open spec fn events_resolved(s: StoreV, user: Option<Seq<char>>) -> Seq<EventV> {
    Seq::new(s.events.len(), |i: int| resolved_event(s, s.events[i], user))
}

/// The events a user created, resolved for that user.
pub open spec fn user_events_of(s: StoreV, events: Seq<EventV>, user: Seq<char>) -> Seq<EventV>
    decreases events.len(),
{
    if events.len() == 0 {
        Seq::empty()
    } else if events[0].created_by == Some(user) {
        seq![resolved_event(s, events[0], Some(user))] + user_events_of(
            s,
            events.drop_first(),
            user,
        )
    } else {
        user_events_of(s, events.drop_first(), user)
    }
}

/// The events a user has bookmarked, resolved, each flagged as saved.
pub open spec fn saved_events_of(s: StoreV, saved: Seq<SavedEventV>, user: Seq<char>) -> Seq<
    EventV,
>
    decreases saved.len(),
{
    if saved.len() == 0 {
        Seq::empty()
    } else if saved[0].user_id == user {
        match event_by_id(s.events, saved[0].event_id) {
            Some(e) => seq![
                EventV { is_saved: Some(true), ..resolved_event(s, e, None) },
            ] + saved_events_of(s, saved.drop_first(), user),
            None => saved_events_of(s, saved.drop_first(), user),
        }
    } else {
        saved_events_of(s, saved.drop_first(), user)
    }
}

/// What toggling a bookmark resolves to: the event is fetched for the
/// user; a kept event loses its bookmark, an unkept one gains it.
pub open spec fn toggle_saved_spec(
    s: StoreV,
    user: Seq<char>,
    event_id: Seq<char>,
    now: Seq<char>,
) -> (StoreV, Result<(EventV, bool), Error>) {
    match fetch_event_spec(s, Some(user), event_id) {
        Err(e) => (s, Err(e)),
        Ok(ev) => if ev.is_saved == Some(true) {
            (
                StoreV {
                    saved_events: remove_saved_spec(s.saved_events, saved_key(user, event_id)),
                    ..s
                },
                Ok((ev, false)),
            )
        } else {
            (
                StoreV {
                    saved_events: s.saved_events.push(
                        SavedEventV {
                            id: saved_key(user, event_id),
                            user_id: user,
                            event_id,
                            created_at: now,
                        },
                    ),
                    ..s
                },
                Ok((ev, true)),
            )
        },
    }
}

impl MemoryStore {
    /// Resolve a list of user ids to host entries, skipping unknown users.
    pub fn fetch_user_details(&self, ids: &Vec<String>) -> (r: Vec<crate::events::EventHost>)
        ensures
            r.deep_view() == user_details(self.deep_view().users, ids.deep_view()),
    {
        let ghost dv = ids.deep_view();
        let ghost uv = self.deep_view().users;
        proof {
            assert(dv.skip(0) =~= dv);
        }
        let mut out: Vec<crate::events::EventHost> = Vec::new();
        let mut i: usize = 0;
        while i < ids.len()
            invariant
                i <= ids.len(),
                dv == ids.deep_view(),
                uv == self.deep_view().users,
                user_details(uv, dv) == out.deep_view() + user_details(uv, dv.skip(i as int)),
            decreases ids.len() - i,
        {
            proof {
                assert(dv[i as int] == ids@[i as int]@);
                assert(dv.skip(i as int)[0] == dv[i as int]);
                assert(dv.skip(i as int).drop_first() =~= dv.skip(i as int + 1));
            }
            match self.fetch_user(&ids[i]) {
                Some(user) => {
                    let ghost out_before = out.deep_view();
                    let ghost pushed = event_host_of(user_by_id(uv, dv[i as int])->0);
                    out.push(
                        crate::events::EventHost {
                            id: user.id,
                            username: user.username,
                            avatar: user.avatar,
                        },
                    );
                    proof {
                        assert(out.deep_view() =~= out_before + seq![pushed]);
                        assert((out_before + seq![pushed]) + user_details(
                            uv,
                            dv.skip(i as int + 1),
                        ) =~= out_before + (seq![pushed] + user_details(uv, dv.skip(i as int + 1))));
                    }
                },
                None => {},
            }
            i = i + 1;
        }
        proof {
            assert(dv.skip(i as int) =~= Seq::<Seq<char>>::empty());
            assert(out.deep_view() + Seq::<crate::events::EventHostV>::empty() =~= out.deep_view());
        }
        out
    }

    /// Whether a user has bookmarked an event.
    pub fn is_event_saved(&self, user_id: &String, event_id: &String) -> (r: bool)
        ensures
            r == saved_exists(self.deep_view().saved_events, saved_key(user_id@, event_id@)),
    {
        let key = user_id.clone().concat(":").concat(event_id.as_str());
        proof {
            assert(key@ == saved_key(user_id@, event_id@));
        }
        let ghost dv = self.saved_events.deep_view();
        proof {
            assert(dv.skip(0) =~= dv);
        }
        let mut i: usize = 0;
        while i < self.saved_events.len()
            invariant
                i <= self.saved_events.len(),
                dv == self.saved_events.deep_view(),
                key@ == saved_key(user_id@, event_id@),
                saved_exists(dv, key@) == saved_exists(dv.skip(i as int), key@),
            decreases self.saved_events.len() - i,
        {
            proof {
                assert(dv[i as int] == self.saved_events@[i as int].deep_view());
                assert(dv.skip(i as int)[0] == dv[i as int]);
                assert(dv.skip(i as int).drop_first() =~= dv.skip(i as int + 1));
            }
            if self.saved_events[i].id == key {
                return true;
            }
            i = i + 1;
        }
        proof {
            assert(dv.skip(i as int) =~= Seq::<SavedEventV>::empty());
        }
        false
    }

    /// Resolve an event's details for an optional requesting user.
    pub fn resolve_event(&self, e: Event, user_id: Option<&String>) -> (r: Event)
        ensures
            r.deep_view() == resolved_event(
                self.deep_view(),
                e.deep_view(),
                match user_id {
                    Some(u) => Some(u@),
                    None => None,
                },
            ),
    {
        let host_details = Some(self.fetch_user_details(&e.hosts));
        let sponsor_details = Some(self.fetch_user_details(&e.sponsors));
        let is_saved = match user_id {
            Some(u) => Some(self.is_event_saved(u, &e.id)),
            None => e.is_saved,
        };
        let r = Event { host_details, sponsor_details, is_saved, ..e };
        proof {
            assert(r.deep_view() =~= resolved_event(
                self.deep_view(),
                e.deep_view(),
                match user_id {
                    Some(u) => Some(u@),
                    None => None,
                },
            ));
        }
        r
    }

    /// Find one event by id and resolve its details.
    pub fn fetch_event(&self, user_id: Option<&String>, id: &String) -> (r: Result<Event, Error>)
        ensures
            match fetch_event_spec(
                self.deep_view(),
                match user_id {
                    Some(u) => Some(u@),
                    None => None,
                },
                id@,
            ) {
                Ok(ev) => r matches Ok(e) && e.deep_view() == ev,
                Err(err) => r == Err::<Event, Error>(err),
            },
    {
        let found = self.find_event(id);
        match found {
            Some(e) => Ok(self.resolve_event(e, user_id)),
            None => Err(Error::NotFound),
        }
    }

    /// Find one event by id, unresolved.
    pub fn find_event(&self, id: &String) -> (r: Option<Event>)
        ensures
            r.deep_view() == event_by_id(self.deep_view().events, id@),
    {
        let ghost dv = self.events.deep_view();
        proof {
            assert(dv.skip(0) =~= dv);
        }
        let mut i: usize = 0;
        while i < self.events.len()
            invariant
                i <= self.events.len(),
                dv == self.events.deep_view(),
                event_by_id(dv, id@) == event_by_id(dv.skip(i as int), id@),
            decreases self.events.len() - i,
        {
            proof {
                assert(dv[i as int] == self.events@[i as int].deep_view());
                assert(dv.skip(i as int)[0] == dv[i as int]);
                assert(dv.skip(i as int).drop_first() =~= dv.skip(i as int + 1));
            }
            if self.events[i].id == *id {
                return Some(self.events[i].duplicate());
            }
            i = i + 1;
        }
        proof {
            assert(dv.skip(i as int) =~= Seq::<EventV>::empty());
        }
        None
    }

    /// Every stored event, resolved for an optional requesting user.
    pub fn fetch_events(&self, user_id: Option<&String>) -> (r: Vec<Event>)
        ensures
            r.deep_view() == events_resolved(
                self.deep_view(),
                match user_id {
                    Some(u) => Some(u@),
                    None => None,
                },
            ),
    {
        let ghost uopt: Option<Seq<char>> = match user_id {
            Some(u) => Some(u@),
            None => None,
        };
        let mut out: Vec<Event> = Vec::new();
        let mut i: usize = 0;
        while i < self.events.len()
            invariant
                i <= self.events.len(),
                uopt == (match user_id {
                    Some(u) => Some(u@),
                    None => None,
                }),
                out.len() == i,
                forall|j: int|
                    0 <= j < i ==> out.deep_view()[j] == resolved_event(
                        self.deep_view(),
                        self.deep_view().events[j],
                        uopt,
                    ),
            decreases self.events.len() - i,
        {
            let ghost prev_dv = out.deep_view();
            let e = self.events[i].duplicate();
            out.push(self.resolve_event(e, user_id));
            proof {
                assert(forall|j: int| 0 <= j < i ==> #[trigger] out.deep_view()[j] == prev_dv[j]);
                assert(out.deep_view()[i as int] == out@[i as int].deep_view());
                assert(self.deep_view().events[i as int] == self.events@[i as int].deep_view());
            }
            i = i + 1;
        }
        proof {
            assert(out.deep_view() =~= events_resolved(self.deep_view(), uopt));
        }
        out
    }

    /// The events a user created, resolved for that user.
    pub fn get_user_events(&self, user_id: &String) -> (r: Vec<Event>)
        ensures
            r.deep_view() == user_events_of(
                self.deep_view(),
                self.deep_view().events,
                user_id@,
            ),
    {
        let ghost s = self.deep_view();
        let ghost dv = self.events.deep_view();
        proof {
            assert(dv.skip(0) =~= dv);
        }
        let mut out: Vec<Event> = Vec::new();
        let mut i: usize = 0;
        while i < self.events.len()
            invariant
                i <= self.events.len(),
                s == self.deep_view(),
                dv == self.events.deep_view(),
                user_events_of(s, dv, user_id@) == out.deep_view() + user_events_of(
                    s,
                    dv.skip(i as int),
                    user_id@,
                ),
            decreases self.events.len() - i,
        {
            proof {
                assert(dv[i as int] == self.events@[i as int].deep_view());
                assert(dv.skip(i as int)[0] == dv[i as int]);
                assert(dv.skip(i as int).drop_first() =~= dv.skip(i as int + 1));
            }
            let matches_creator = match &self.events[i].created_by {
                Some(c) => *c == *user_id,
                None => false,
            };
            if matches_creator {
                let ghost out_before = out.deep_view();
                let e = self.events[i].duplicate();
                let resolved = self.resolve_event(e, Some(user_id));
                let ghost pushed = resolved.deep_view();
                out.push(resolved);
                proof {
                    assert(out.deep_view() =~= out_before + seq![pushed]);
                    assert((out_before + seq![pushed]) + user_events_of(
                        s,
                        dv.skip(i as int + 1),
                        user_id@,
                    ) =~= out_before + (seq![pushed] + user_events_of(
                        s,
                        dv.skip(i as int + 1),
                        user_id@,
                    )));
                }
            }
            i = i + 1;
        }
        proof {
            assert(dv.skip(i as int) =~= Seq::<EventV>::empty());
            assert(out.deep_view() + Seq::<EventV>::empty() =~= out.deep_view());
        }
        out
    }

    /// The events a user has bookmarked, resolved, each flagged as saved.
    pub fn get_saved_events(&self, user_id: &String) -> (r: Vec<Event>)
        ensures
            r.deep_view() == saved_events_of(
                self.deep_view(),
                self.deep_view().saved_events,
                user_id@,
            ),
    {
        let ghost s = self.deep_view();
        let ghost dv = self.saved_events.deep_view();
        proof {
            assert(dv.skip(0) =~= dv);
        }
        let mut out: Vec<Event> = Vec::new();
        let mut i: usize = 0;
        while i < self.saved_events.len()
            invariant
                i <= self.saved_events.len(),
                s == self.deep_view(),
                dv == self.saved_events.deep_view(),
                saved_events_of(s, dv, user_id@) == out.deep_view() + saved_events_of(
                    s,
                    dv.skip(i as int),
                    user_id@,
                ),
            decreases self.saved_events.len() - i,
        {
            proof {
                assert(dv[i as int] == self.saved_events@[i as int].deep_view());
                assert(dv.skip(i as int)[0] == dv[i as int]);
                assert(dv.skip(i as int).drop_first() =~= dv.skip(i as int + 1));
            }
            if self.saved_events[i].user_id == *user_id {
                match self.find_event(&self.saved_events[i].event_id) {
                    Some(e) => {
                        let ghost out_before = out.deep_view();
                        let resolved = self.resolve_event(e, None);
                        let flagged = Event { is_saved: Some(true), ..resolved };
                        let ghost pushed = flagged.deep_view();
                        out.push(flagged);
                        proof {
                            assert(pushed =~= (EventV {
                                is_saved: Some(true),
                                ..resolved_event(s, event_by_id(s.events, dv[i as int].event_id)->0, None)
                            }));
                            assert(out.deep_view() =~= out_before + seq![pushed]);
                            assert((out_before + seq![pushed]) + saved_events_of(
                                s,
                                dv.skip(i as int + 1),
                                user_id@,
                            ) =~= out_before + (seq![pushed] + saved_events_of(
                                s,
                                dv.skip(i as int + 1),
                                user_id@,
                            )));
                        }
                    },
                    None => {},
                }
            }
            i = i + 1;
        }
        proof {
            assert(dv.skip(i as int) =~= Seq::<SavedEventV>::empty());
            assert(out.deep_view() + Seq::<EventV>::empty() =~= out.deep_view());
        }
        out
    }

    /// Toggle whether the user keeps the event: a kept event is released, an
    /// unkept one is bookmarked under the request's timestamp. Hands back the
    /// event as it was fetched, and whether it is now kept.
    pub fn toggle_saved_event(&mut self, user_id: &String, event_id: &String, now: String) -> (r:
        Result<(Event, bool), Error>)
        ensures
            ({
                let (s2, res) = toggle_saved_spec(
                    old(self).deep_view(),
                    user_id@,
                    event_id@,
                    now@,
                );
                &&& final(self).deep_view() == s2
                &&& (match (r, res) {
                    (Ok((e, kept)), Ok((ev, k2))) => e.deep_view() == ev && kept == k2,
                    (Err(e), Err(e2)) => e == e2,
                    _ => false,
                })
            }),
    {
        let event = match self.fetch_event(Some(user_id), event_id) {
            Ok(e) => e,
            Err(e) => {
                return Err(e);
            },
        };
        let key = user_id.clone().concat(":").concat(event_id.as_str());
        proof {
            assert(key@ == saved_key(user_id@, event_id@));
        }
        let was_saved = match event.is_saved {
            Some(true) => true,
            _ => false,
        };
        if was_saved {
            self.remove_saved(&key);
            Ok((event, false))
        } else {
            let record = SavedEvent {
                id: key,
                user_id: user_id.clone(),
                event_id: event_id.clone(),
                created_at: now,
            };
            self.insert_saved(record);
            Ok((event, true))
        }
    }

    /// Record a bookmark.
    pub fn insert_saved(&mut self, s: SavedEvent)
        ensures
            final(self).deep_view() == (StoreV {
                saved_events: old(self).deep_view().saved_events.push(s.deep_view()),
                ..old(self).deep_view()
            }),
    {
        let ghost sdv = s.deep_view();
        self.saved_events.push(s);
        proof {
            assert(self.saved_events.deep_view() =~= old(self).deep_view().saved_events.push(sdv));
            assert(self.deep_view() =~= (StoreV {
                saved_events: old(self).deep_view().saved_events.push(sdv),
                ..old(self).deep_view()
            }));
        }
    }

    /// Remove the bookmark with the given key; a missing key is a no-op.
    pub fn remove_saved(&mut self, id: &String)
        ensures
            final(self).deep_view() == (StoreV {
                saved_events: remove_saved_spec(old(self).deep_view().saved_events, id@),
                ..old(self).deep_view()
            }),
    {
        let ghost dv = self.saved_events.deep_view();
        proof {
            assert(dv.skip(0) =~= dv);
        }
        let mut i: usize = 0;
        while i < self.saved_events.len()
            invariant
                i <= self.saved_events.len(),
                *self == *old(self),
                dv == self.saved_events.deep_view(),
                forall|j: int| 0 <= j < i ==> dv[j].id != id@,
            decreases self.saved_events.len() - i,
        {
            proof {
                assert(dv[i as int] == self.saved_events@[i as int].deep_view());
            }
            if self.saved_events[i].id == *id {
                let ghost sq = self.saved_events@;
                proof {
                    assert(dv.len() == sq.len());
                    assert(forall|j: int|
                        0 <= j < sq.len() ==> #[trigger] dv[j] == sq[j].deep_view());
                }
                self.saved_events.remove(i);
                proof {
                    lemma_remove_saved_at(dv, id@, i as int);
                    assert(self.saved_events.deep_view().len() == self.saved_events@.len());
                    assert(forall|j: int|
                        0 <= j < self.saved_events@.len()
                            ==> #[trigger] self.saved_events.deep_view()[j]
                            == self.saved_events@[j].deep_view());
                    assert(self.saved_events.deep_view() =~= dv.remove(i as int));
                    assert(self.deep_view() =~= (StoreV {
                        saved_events: remove_saved_spec(dv, id@),
                        ..old(self).deep_view()
                    }));
                }
                return ;
            }
            i = i + 1;
        }
        proof {
            lemma_remove_saved_absent(dv, id@);
            assert(self.deep_view() =~= (StoreV {
                saved_events: remove_saved_spec(dv, id@),
                ..old(self).deep_view()
            }));
        }
    }

    /// Mark the direct-message channel with the given id active; a missing
    /// id or another channel shape is a no-op.
    pub fn activate_dm_channel(&mut self, id: &String)
        ensures
            final(self).deep_view() == (StoreV {
                channels: set_dm_active_spec(old(self).deep_view().channels, id@),
                ..old(self).deep_view()
            }),
    {
        let ghost dv = self.channels.deep_view();
        proof {
            assert(dv.skip(0) =~= dv);
        }
        let mut i: usize = 0;
        while i < self.channels.len()
            invariant
                i <= self.channels.len(),
                *self == *old(self),
                dv == self.channels.deep_view(),
                forall|j: int| 0 <= j < i ==> dv[j].id() != id@,
            decreases self.channels.len() - i,
        {
            proof {
                assert(dv[i as int] == self.channels@[i as int].deep_view());
            }
            if *self.channels[i].id() == *id {
                let ghost cq = self.channels@;
                proof {
                    assert(dv.len() == cq.len());
                    assert(forall|j: int|
                        0 <= j < cq.len() ==> #[trigger] dv[j] == cq[j].deep_view());
                }
                let found = self.channels.remove(i);
                let replacement = match found {
                    Channel::DirectMessage { id: cid, recipients, last_message_id, .. } => {
                        Channel::DirectMessage { id: cid, active: true, recipients, last_message_id }
                    },
                    other => other,
                };
                proof {
                    assert(replacement.deep_view() =~= dm_activated(dv[i as int]));
                }
                self.channels.insert(i, replacement);
                proof {
                    lemma_set_dm_active_at(dv, id@, i as int);
                    assert(self.channels.deep_view().len() == self.channels@.len());
                    assert(forall|j: int|
                        0 <= j < self.channels@.len() ==> #[trigger] self.channels.deep_view()[j]
                            == self.channels@[j].deep_view());
                    assert(self.channels.deep_view() =~= dv.update(
                        i as int,
                        dm_activated(dv[i as int]),
                    ));
                    assert(self.deep_view() =~= (StoreV {
                        channels: set_dm_active_spec(dv, id@),
                        ..old(self).deep_view()
                    }));
                }
                return ;
            }
            i = i + 1;
        }
        proof {
            lemma_set_dm_active_absent(dv, id@);
            assert(self.deep_view() =~= (StoreV {
                channels: set_dm_active_spec(dv, id@),
                ..old(self).deep_view()
            }));
        }
    }

    /// Find the stored direct-message conversation between two users.
    pub fn find_direct_message_channel(&self, a: &String, b: &String) -> (r: Option<Channel>)
        ensures
            r.deep_view() == dm_channel_between(self.deep_view().channels, a@, b@),
    {
        let ghost dv = self.channels.deep_view();
        proof {
            assert(dv.skip(0) =~= dv);
        }
        let mut i: usize = 0;
        while i < self.channels.len()
            invariant
                i <= self.channels.len(),
                dv == self.channels.deep_view(),
                dm_channel_between(dv, a@, b@) == dm_channel_between(dv.skip(i as int), a@, b@),
            decreases self.channels.len() - i,
        {
            proof {
                assert(dv[i as int] == self.channels@[i as int].deep_view());
                assert(dv.skip(i as int)[0] == dv[i as int]);
                assert(dv.skip(i as int).drop_first() =~= dv.skip(i as int + 1));
            }
            let found = match &self.channels[i] {
                Channel::DirectMessage { recipients, .. } => {
                    crate::perms::contains_string(recipients, a) && crate::perms::contains_string(
                        recipients,
                        b,
                    )
                },
                _ => false,
            };
            if found {
                return Some(self.channels[i].duplicate());
            }
            i = i + 1;
        }
        proof {
            assert(dv.skip(i as int) =~= Seq::<ChannelV>::empty());
        }
        None
    }

    /// Find the stored marketplace conversation for a listing between a
    /// buyer and a seller.
    pub fn find_marketplace_dm(&self, listing: &String, buyer: &String, seller: &String) -> (r:
        Option<Channel>)
        ensures
            r.deep_view() == marketplace_dm_of(
                self.deep_view().channels,
                listing@,
                buyer@,
                seller@,
            ),
    {
        let ghost dv = self.channels.deep_view();
        proof {
            assert(dv.skip(0) =~= dv);
        }
        let mut i: usize = 0;
        while i < self.channels.len()
            invariant
                i <= self.channels.len(),
                dv == self.channels.deep_view(),
                marketplace_dm_of(dv, listing@, buyer@, seller@) == marketplace_dm_of(
                    dv.skip(i as int),
                    listing@,
                    buyer@,
                    seller@,
                ),
            decreases self.channels.len() - i,
        {
            proof {
                assert(dv[i as int] == self.channels@[i as int].deep_view());
                assert(dv.skip(i as int)[0] == dv[i as int]);
                assert(dv.skip(i as int).drop_first() =~= dv.skip(i as int + 1));
            }
            let found = match &self.channels[i] {
                Channel::MarketplaceDM { listing_id, buyer: b, seller: s, .. } => {
                    *listing_id == *listing && *b == *buyer && *s == *seller
                },
                _ => false,
            };
            if found {
                return Some(self.channels[i].duplicate());
            }
            i = i + 1;
        }
        proof {
            assert(dv.skip(i as int) =~= Seq::<ChannelV>::empty());
        }
        None
    }

    /// Find a user's membership in a server.
    pub fn fetch_member(&self, server: &String, user: &String) -> (r: Option<Member>)
        ensures
            r.deep_view() == member_by(self.deep_view().members, server@, user@),
    {
        let ghost dv = self.members.deep_view();
        proof {
            assert(dv.skip(0) =~= dv);
        }
        let mut i: usize = 0;
        while i < self.members.len()
            invariant
                i <= self.members.len(),
                dv == self.members.deep_view(),
                member_by(dv, server@, user@) == member_by(dv.skip(i as int), server@, user@),
            decreases self.members.len() - i,
        {
            proof {
                assert(dv[i as int] == self.members@[i as int].deep_view());
                assert(dv.skip(i as int)[0] == dv[i as int]);
                assert(dv.skip(i as int).drop_first() =~= dv.skip(i as int + 1));
            }
            if self.members[i].server == *server && self.members[i].user == *user {
                return Some(
                    Member {
                        server: self.members[i].server.clone(),
                        user: self.members[i].user.clone(),
                        roles: crate::channel::clone_strings(&self.members[i].roles),
                    },
                );
            }
            i = i + 1;
        }
        proof {
            assert(dv.skip(i as int) =~= Seq::<MemberV>::empty());
        }
        None
    }

    /// Find one experience by id.
    pub fn fetch_experience(&self, id: &String) -> (r: Option<Experience>)
        ensures
            r.deep_view() == experience_by_id(self.deep_view().experiences, id@),
    {
        let ghost dv = self.experiences.deep_view();
        proof {
            assert(dv.skip(0) =~= dv);
        }
        let mut i: usize = 0;
        while i < self.experiences.len()
            invariant
                i <= self.experiences.len(),
                dv == self.experiences.deep_view(),
                experience_by_id(dv, id@) == experience_by_id(dv.skip(i as int), id@),
            decreases self.experiences.len() - i,
        {
            proof {
                assert(dv[i as int] == self.experiences@[i as int].deep_view());
                assert(dv.skip(i as int)[0] == dv[i as int]);
                assert(dv.skip(i as int).drop_first() =~= dv.skip(i as int + 1));
            }
            if self.experiences[i].id == *id {
                return Some(
                    Experience {
                        id: self.experiences[i].id.clone(),
                        host: self.experiences[i].host.clone(),
                        attendees: crate::channel::clone_strings(&self.experiences[i].attendees),
                    },
                );
            }
            i = i + 1;
        }
        proof {
            assert(dv.skip(i as int) =~= Seq::<ExperienceV>::empty());
        }
        None
    }
}

// ---------------------------------------------------------------------------
// The storage gateway
// ---------------------------------------------------------------------------

/// The capability-tagged dispatch surface that routes all reads and writes
/// to exactly one backend implementation, selected at process start. A
/// backend that does not implement a verb answers with an explicit
/// `NotSupported` error rather than silently doing nothing.
pub enum Database {
    /// The verified in-memory backend.
    Memory(MemoryStore),
    /// A placeholder backend that supports no operation.
    Stub,
}

impl DeepView for Database {
    type V = Option<StoreV>;

    open spec fn deep_view(&self) -> Option<StoreV> {
        match self {
            Database::Memory(s) => Some(s.deep_view()),
            Database::Stub => None,
        }
    }
}

impl Database {
    /// Find one channel by id.
    pub fn find_channel(&self, id: &String) -> (r: Result<Channel, Error>)
        ensures
            match self.deep_view() {
                Some(s) => match channel_by_id(s.channels, id@) {
                    Some(cv) => r matches Ok(c) && c.deep_view() == cv,
                    None => r == Err::<Channel, Error>(Error::NotFound),
                },
                None => r == Err::<Channel, Error>(Error::NotSupported),
            },
    {
        match self {
            Database::Memory(store) => match store.find_channel(id) {
                Some(c) => Ok(c),
                None => Err(Error::NotFound),
            },
            Database::Stub => Err(Error::NotSupported),
        }
    }

    /// Replace the stored channel that shares `c`'s id, in one atomic
    /// update.
    pub fn put_channel(&mut self, c: Channel) -> (r: Result<(), Error>)
        ensures
            *old(self) is Stub ==> r == Err::<(), Error>(Error::NotSupported) && *final(self)
                == *old(self),
            old(self).deep_view() matches Some(s) ==> {
                &&& (r is Ok <==> channel_by_id(s.channels, c.deep_view().id()) is Some)
                &&& r is Ok ==> final(self).deep_view() == Some(
                    StoreV { channels: put_channel_spec(s.channels, c.deep_view()), ..s },
                )
                &&& r is Err ==> *final(self) == *old(self) && r == Err::<(), Error>(
                    Error::NotFound,
                )
            },
    {
        match self {
            Database::Memory(store) => store.put_channel(c),
            Database::Stub => Err(Error::NotSupported),
        }
    }

    /// Add a newly created channel.
    pub fn insert_channel(&mut self, c: Channel) -> (r: Result<(), Error>)
        ensures
            *old(self) is Stub ==> r == Err::<(), Error>(Error::NotSupported) && *final(self)
                == *old(self),
            old(self).deep_view() matches Some(s) ==> r is Ok && final(self).deep_view() == Some(
                StoreV { channels: s.channels.push(c.deep_view()), ..s },
            ),
    {
        match self {
            Database::Memory(store) => {
                store.insert_channel(c);
                Ok(())
            },
            Database::Stub => Err(Error::NotSupported),
        }
    }

    /// Schedule an attachment for deletion.
    pub fn mark_attachment_deleted(&mut self, id: &String) -> (r: Result<(), Error>)
        ensures
            *old(self) is Stub ==> r == Err::<(), Error>(Error::NotSupported) && *final(self)
                == *old(self),
            old(self).deep_view() matches Some(s) ==> r is Ok && final(self).deep_view() == Some(
                StoreV { attachments: mark_attachment(s.attachments, id@), ..s },
            ),
    {
        match self {
            Database::Memory(store) => {
                store.mark_attachment_deleted(id);
                Ok(())
            },
            Database::Stub => Err(Error::NotSupported),
        }
    }

    /// Persist a newly created message.
    pub fn insert_message(&mut self, m: Message) -> (r: Result<(), Error>)
        ensures
            *old(self) is Stub ==> r == Err::<(), Error>(Error::NotSupported) && *final(self)
                == *old(self),
            old(self).deep_view() matches Some(s) ==> r is Ok && final(self).deep_view() == Some(
                StoreV { messages: s.messages.push(m.deep_view()), ..s },
            ),
    {
        match self {
            Database::Memory(store) => {
                store.insert_message(m);
                Ok(())
            },
            Database::Stub => Err(Error::NotSupported),
        }
    }

    /// Persist a newly issued invitation token.
    pub fn insert_invite_token(&mut self, t: InvitationToken) -> (r: Result<(), Error>)
        ensures
            *old(self) is Stub ==> r == Err::<(), Error>(Error::NotSupported) && *final(self)
                == *old(self),
            old(self).deep_view() matches Some(s) ==> r is Ok && final(self).deep_view() == Some(
                StoreV { invite_tokens: s.invite_tokens.push(t.deep_view()), ..s },
            ),
    {
        match self {
            Database::Memory(store) => {
                store.insert_invite_token(t);
                Ok(())
            },
            Database::Stub => Err(Error::NotSupported),
        }
    }

    /// Persist an idempotency record.
    pub fn insert_idempotency(&mut self, rec: IdempotencyRecord) -> (r: Result<(), Error>)
        ensures
            *old(self) is Stub ==> r == Err::<(), Error>(Error::NotSupported) && *final(self)
                == *old(self),
            old(self).deep_view() matches Some(s) ==> r is Ok && final(self).deep_view() == Some(
                StoreV { idempotency: s.idempotency.push(rec.deep_view()), ..s },
            ),
    {
        match self {
            Database::Memory(store) => {
                store.insert_idempotency(rec);
                Ok(())
            },
            Database::Stub => Err(Error::NotSupported),
        }
    }

    /// A copy of the attachment collection, for asset resolution.
    pub fn attachments_snapshot(&self) -> (r: Result<Vec<Attachment>, Error>)
        ensures
            match self.deep_view() {
                Some(s) => r matches Ok(v) && v.deep_view() == s.attachments,
                None => r == Err::<Vec<Attachment>, Error>(Error::NotSupported),
            },
    {
        match self {
            Database::Memory(store) => Ok(store.attachments_snapshot()),
            Database::Stub => Err(Error::NotSupported),
        }
    }

    /// Find one event by id and resolve its details.
    pub fn fetch_event(&self, user_id: Option<&String>, id: &String) -> (r: Result<Event, Error>)
        ensures
            match self.deep_view() {
                Some(s) => match fetch_event_spec(
                    s,
                    match user_id {
                        Some(u) => Some(u@),
                        None => None,
                    },
                    id@,
                ) {
                    Ok(ev) => r matches Ok(e) && e.deep_view() == ev,
                    Err(err) => r == Err::<Event, Error>(err),
                },
                None => r == Err::<Event, Error>(Error::NotSupported),
            },
    {
        match self {
            Database::Memory(store) => store.fetch_event(user_id, id),
            Database::Stub => Err(Error::NotSupported),
        }
    }

    /// Persist a newly created event.
    pub fn insert_event(&mut self, e: Event) -> (r: Result<(), Error>)
        ensures
            *old(self) is Stub ==> r == Err::<(), Error>(Error::NotSupported) && *final(self)
                == *old(self),
            old(self).deep_view() matches Some(s) ==> r is Ok && final(self).deep_view() == Some(
                StoreV { events: s.events.push(e.deep_view()), ..s },
            ),
    {
        match self {
            Database::Memory(store) => {
                store.insert_event(e);
                Ok(())
            },
            Database::Stub => Err(Error::NotSupported),
        }
    }

    /// Merge a sparse update into the stored event with the given id.
    pub fn update_event(&mut self, id: &String, p: &crate::events::PartialEvent) -> (r: Result<
        (),
        Error,
    >)
        ensures
            *old(self) is Stub ==> r == Err::<(), Error>(Error::NotSupported) && *final(self)
                == *old(self),
            old(self).deep_view() matches Some(s) ==> r is Ok && final(self).deep_view() == Some(
                StoreV { events: update_event_spec(s.events, id@, p.deep_view()), ..s },
            ),
    {
        match self {
            Database::Memory(store) => {
                store.update_event(id, p);
                Ok(())
            },
            Database::Stub => Err(Error::NotSupported),
        }
    }

    /// Register a guest.
    pub fn add_guest(&mut self, g: EventGuest) -> (r: Result<(), Error>)
        ensures
            *old(self) is Stub ==> r == Err::<(), Error>(Error::NotSupported) && *final(self)
                == *old(self),
            old(self).deep_view() matches Some(s) ==> r is Ok && final(self).deep_view() == Some(
                StoreV { guests: s.guests.push(g.deep_view()), ..s },
            ),
    {
        match self {
            Database::Memory(store) => {
                store.add_guest(g);
                Ok(())
            },
            Database::Stub => Err(Error::NotSupported),
        }
    }

    /// Set the status of the guest matching both ids.
    pub fn update_guest_status(
        &mut self,
        event_id: &String,
        guest_id: &String,
        status: crate::events::GuestStatus,
    ) -> (r: Result<(), Error>)
        ensures
            *old(self) is Stub ==> r == Err::<(), Error>(Error::NotSupported) && *final(self)
                == *old(self),
            old(self).deep_view() matches Some(s) ==> r is Ok && final(self).deep_view() == Some(
                StoreV {
                    guests: set_guest_status_spec(s.guests, event_id@, guest_id@, status),
                    ..s
                },
            ),
    {
        match self {
            Database::Memory(store) => {
                store.update_guest_status(event_id, guest_id, status);
                Ok(())
            },
            Database::Stub => Err(Error::NotSupported),
        }
    }

    /// The guests registered for an event, in insertion order.
    pub fn get_event_guests(&self, event_id: &String) -> (r: Result<Vec<EventGuest>, Error>)
        ensures
            match self.deep_view() {
                Some(s) => r matches Ok(v) && v.deep_view() == guests_of(s.guests, event_id@),
                None => r == Err::<Vec<EventGuest>, Error>(Error::NotSupported),
            },
    {
        match self {
            Database::Memory(store) => Ok(store.get_event_guests(event_id)),
            Database::Stub => Err(Error::NotSupported),
        }
    }

    /// Find one guest of an event.
    pub fn get_guest(&self, event_id: &String, guest_id: &String) -> (r: Result<EventGuest, Error>)
        ensures
            match self.deep_view() {
                Some(s) => match guest_by(s.guests, event_id@, guest_id@) {
                    Some(gv) => r matches Ok(g) && g.deep_view() == gv,
                    None => r == Err::<EventGuest, Error>(Error::NotFound),
                },
                None => r == Err::<EventGuest, Error>(Error::NotSupported),
            },
    {
        match self {
            Database::Memory(store) => match store.get_guest(event_id, guest_id) {
                Some(g) => Ok(g),
                None => Err(Error::NotFound),
            },
            Database::Stub => Err(Error::NotSupported),
        }
    }

    /// Find one user by id.
    pub fn fetch_user(&self, id: &String) -> (r: Result<User, Error>)
        ensures
            match self.deep_view() {
                Some(s) => match user_by_id(s.users, id@) {
                    Some(uv) => r matches Ok(u) && u.deep_view() == uv,
                    None => r == Err::<User, Error>(Error::NotFound),
                },
                None => r == Err::<User, Error>(Error::NotSupported),
            },
    {
        match self {
            Database::Memory(store) => match store.fetch_user(id) {
                Some(u) => Ok(u),
                None => Err(Error::NotFound),
            },
            Database::Stub => Err(Error::NotSupported),
        }
    }

    /// Find one user by username.
    pub fn fetch_user_by_username(&self, username: &String) -> (r: Result<User, Error>)
        ensures
            match self.deep_view() {
                Some(s) => match user_by_username(s.users, username@) {
                    Some(uv) => r matches Ok(u) && u.deep_view() == uv,
                    None => r == Err::<User, Error>(Error::NotFound),
                },
                None => r == Err::<User, Error>(Error::NotSupported),
            },
    {
        match self {
            Database::Memory(store) => match store.fetch_user_by_username(username) {
                Some(u) => Ok(u),
                None => Err(Error::NotFound),
            },
            Database::Stub => Err(Error::NotSupported),
        }
    }

    /// Find one account by the owning user's id.
    pub fn find_account(&self, id: &String) -> (r: Result<Account, Error>)
        ensures
            match self.deep_view() {
                Some(s) => match account_by_id(s.accounts, id@) {
                    Some(av) => r matches Ok(a) && a.deep_view() == av,
                    None => r == Err::<Account, Error>(Error::NotFound),
                },
                None => r == Err::<Account, Error>(Error::NotSupported),
            },
    {
        match self {
            Database::Memory(store) => match store.find_account(id) {
                Some(a) => Ok(a),
                None => Err(Error::NotFound),
            },
            Database::Stub => Err(Error::NotSupported),
        }
    }

    /// Mark the direct-message channel with the given id active.
    pub fn activate_dm_channel(&mut self, id: &String) -> (r: Result<(), Error>)
        ensures
            *old(self) is Stub ==> r == Err::<(), Error>(Error::NotSupported) && *final(self)
                == *old(self),
            old(self).deep_view() matches Some(s) ==> r is Ok && final(self).deep_view() == Some(
                StoreV { channels: set_dm_active_spec(s.channels, id@), ..s },
            ),
    {
        match self {
            Database::Memory(store) => {
                store.activate_dm_channel(id);
                Ok(())
            },
            Database::Stub => Err(Error::NotSupported),
        }
    }

    /// Find the stored direct-message conversation between two users.
    pub fn find_direct_message_channel(&self, a: &String, b: &String) -> (r: Result<Channel, Error>)
        ensures
            match self.deep_view() {
                Some(s) => match dm_channel_between(s.channels, a@, b@) {
                    Some(cv) => r matches Ok(c) && c.deep_view() == cv,
                    None => r == Err::<Channel, Error>(Error::NotFound),
                },
                None => r == Err::<Channel, Error>(Error::NotSupported),
            },
    {
        match self {
            Database::Memory(store) => match store.find_direct_message_channel(a, b) {
                Some(c) => Ok(c),
                None => Err(Error::NotFound),
            },
            Database::Stub => Err(Error::NotSupported),
        }
    }

    /// Find the stored marketplace conversation for a listing between a
    /// buyer and a seller.
    pub fn find_marketplace_dm(&self, listing: &String, buyer: &String, seller: &String) -> (r:
        Result<Channel, Error>)
        ensures
            match self.deep_view() {
                Some(s) => match marketplace_dm_of(s.channels, listing@, buyer@, seller@) {
                    Some(cv) => r matches Ok(c) && c.deep_view() == cv,
                    None => r == Err::<Channel, Error>(Error::NotFound),
                },
                None => r == Err::<Channel, Error>(Error::NotSupported),
            },
    {
        match self {
            Database::Memory(store) => match store.find_marketplace_dm(listing, buyer, seller) {
                Some(c) => Ok(c),
                None => Err(Error::NotFound),
            },
            Database::Stub => Err(Error::NotSupported),
        }
    }

    /// Find a user's membership in a server.
    pub fn fetch_member(&self, server: &String, user: &String) -> (r: Result<Member, Error>)
        ensures
            match self.deep_view() {
                Some(s) => match member_by(s.members, server@, user@) {
                    Some(mv) => r matches Ok(m) && m.deep_view() == mv,
                    None => r == Err::<Member, Error>(Error::NotFound),
                },
                None => r == Err::<Member, Error>(Error::NotSupported),
            },
    {
        match self {
            Database::Memory(store) => match store.fetch_member(server, user) {
                Some(m) => Ok(m),
                None => Err(Error::NotFound),
            },
            Database::Stub => Err(Error::NotSupported),
        }
    }

    /// Find one experience by id.
    pub fn fetch_experience(&self, id: &String) -> (r: Result<Experience, Error>)
        ensures
            match self.deep_view() {
                Some(s) => match experience_by_id(s.experiences, id@) {
                    Some(ev) => r matches Ok(x) && x.deep_view() == ev,
                    None => r == Err::<Experience, Error>(Error::NotFound),
                },
                None => r == Err::<Experience, Error>(Error::NotSupported),
            },
    {
        match self {
            Database::Memory(store) => match store.fetch_experience(id) {
                Some(x) => Ok(x),
                None => Err(Error::NotFound),
            },
            Database::Stub => Err(Error::NotSupported),
        }
    }

    /// Look up the message previously produced for an (author, token) pair.
    pub fn find_idempotency(&self, author: &String, token: &String) -> (r: Result<
        Option<(Message, u64)>,
        Error,
    >)
        ensures
            match self.deep_view() {
                Some(s) => match replay_of(s, author@, token@) {
                    Some((m, t)) => r matches Ok(Some((rm, rt))) && rm.deep_view() == m && rt == t,
                    None => r matches Ok(o) && o is None,
                },
                None => r == Err::<Option<(Message, u64)>, Error>(Error::NotSupported),
            },
    {
        match self {
            Database::Memory(store) => Ok(store.find_idempotency(author, token)),
            Database::Stub => Err(Error::NotSupported),
        }
    }
}

} // verus!
