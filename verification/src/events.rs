use vstd::prelude::*;

use crate::channel::{File, clone_opt_file, clone_opt_string, clone_strings};

verus! {

/// What kind of event is being held.
#[derive(Debug, Clone, Copy, PartialEq, Eq, Structural)]
pub enum EventType {
    KimaniEvent,
    MembersEvent,
    Other,
}

/// Ticket configuration of an event.
pub struct TicketConfig {
    pub is_paid: bool,
    pub member_price: Option<String>,
    pub member_max_tickets: Option<i32>,
    pub non_member_price: Option<String>,
    pub non_member_max_tickets: Option<i32>,
    pub allow_multiple_tickets: bool,
    pub processing_fee_percentage: Option<String>,
}

/// Mathematical value of a `TicketConfig`.
#[verifier::ext_equal]
pub struct TicketConfigV {
    pub is_paid: bool,
    pub member_price: Option<Seq<char>>,
    pub member_max_tickets: Option<i32>,
    pub non_member_price: Option<Seq<char>>,
    pub non_member_max_tickets: Option<i32>,
    pub allow_multiple_tickets: bool,
    pub processing_fee_percentage: Option<Seq<char>>,
}

impl DeepView for TicketConfig {
    type V = TicketConfigV;

    open spec fn deep_view(&self) -> TicketConfigV {
        TicketConfigV {
            is_paid: self.is_paid,
            member_price: self.member_price.deep_view(),
            member_max_tickets: self.member_max_tickets,
            non_member_price: self.non_member_price.deep_view(),
            non_member_max_tickets: self.non_member_max_tickets,
            allow_multiple_tickets: self.allow_multiple_tickets,
            processing_fee_percentage: self.processing_fee_percentage.deep_view(),
        }
    }
}

/// A resolved host or sponsor of an event.
pub struct EventHost {
    pub id: String,
    pub username: String,
    pub avatar: Option<File>,
}

/// Mathematical value of an `EventHost`.
#[verifier::ext_equal]
pub struct EventHostV {
    pub id: Seq<char>,
    pub username: Seq<char>,
    pub avatar: Option<Seq<char>>,
}

impl DeepView for EventHost {
    type V = EventHostV;

    open spec fn deep_view(&self) -> EventHostV {
        EventHostV {
            id: self.id@,
            username: self.username@,
            avatar: self.avatar.deep_view(),
        }
    }
}

/// Guest approval state.
#[derive(Debug, Clone, Copy, PartialEq, Eq, Structural)]
pub enum GuestStatus {
    Pending,
    Approved,
    Rejected,
}

/// The canonical text of a guest status.
pub open spec fn guest_status_text(s: GuestStatus) -> Seq<char> {
    match s {
        GuestStatus::Pending => "Pending"@,
        GuestStatus::Approved => "Approved"@,
        GuestStatus::Rejected => "Rejected"@,
    }
}

/// The guest status a text names; unknown text falls back to `Pending`.
pub open spec fn guest_status_of(s: Seq<char>) -> GuestStatus {
    if s == "Pending"@ {
        GuestStatus::Pending
    } else if s == "Approved"@ {
        GuestStatus::Approved
    } else if s == "Rejected"@ {
        GuestStatus::Rejected
    } else {
        GuestStatus::Pending
    }
}

impl GuestStatus {
    /// The canonical text of this status.
    pub fn as_text(&self) -> (r: String)
        ensures
            r@ == guest_status_text(*self),
    {
        match self {
            GuestStatus::Pending => "Pending".to_owned(),
            GuestStatus::Approved => "Approved".to_owned(),
            GuestStatus::Rejected => "Rejected".to_owned(),
        }
    }

    /// Parse a status from its text; unknown text falls back to `Pending`.
    pub fn from_text(s: &String) -> (r: GuestStatus)
        ensures
            r == guest_status_of(s@),
    {
        let pending: String = "Pending".to_owned();
        let approved: String = "Approved".to_owned();
        let rejected: String = "Rejected".to_owned();
        if *s == pending {
            GuestStatus::Pending
        } else if *s == approved {
            GuestStatus::Approved
        } else if *s == rejected {
            GuestStatus::Rejected
        } else {
            GuestStatus::Pending
        }
    }
}

/// A guest registered for an event.
pub struct EventGuest {
    pub id: String,
    pub event_id: String,
    pub parent_guest_id: Option<String>,
    pub plus_one_of: Option<String>,
    pub user_id: Option<String>,
    pub name: String,
    pub email: String,
    pub phone: String,
    pub status: GuestStatus,
    pub is_plus_one: Option<bool>,
    pub created_at: String,
}

/// Mathematical value of an `EventGuest`.
#[verifier::ext_equal]
pub struct EventGuestV {
    pub id: Seq<char>,
    pub event_id: Seq<char>,
    pub parent_guest_id: Option<Seq<char>>,
    pub plus_one_of: Option<Seq<char>>,
    pub user_id: Option<Seq<char>>,
    pub name: Seq<char>,
    pub email: Seq<char>,
    pub phone: Seq<char>,
    pub status: GuestStatus,
    pub is_plus_one: Option<bool>,
    pub created_at: Seq<char>,
}

impl DeepView for EventGuest {
    type V = EventGuestV;

    open spec fn deep_view(&self) -> EventGuestV {
        EventGuestV {
            id: self.id@,
            event_id: self.event_id@,
            parent_guest_id: self.parent_guest_id.deep_view(),
            plus_one_of: self.plus_one_of.deep_view(),
            user_id: self.user_id.deep_view(),
            name: self.name@,
            email: self.email@,
            phone: self.phone@,
            status: self.status,
            is_plus_one: self.is_plus_one,
            created_at: self.created_at@,
        }
    }
}

/// Counts of guests by status.
#[derive(Debug, Clone, Copy, PartialEq, Eq, Structural)]
pub struct EventGuestStats {
    pub total_invited: i32,
    pub total_going: i32,
    pub total_pending: i32,
    pub total_rejected: i32,
}

/// A saved-event bookmark: one user keeping one event.
pub struct SavedEvent {
    pub id: String,
    pub user_id: String,
    pub event_id: String,
    pub created_at: String,
}

/// Mathematical value of a `SavedEvent`.
#[verifier::ext_equal]
pub struct SavedEventV {
    pub id: Seq<char>,
    pub user_id: Seq<char>,
    pub event_id: Seq<char>,
    pub created_at: Seq<char>,
}

impl DeepView for SavedEvent {
    type V = SavedEventV;

    open spec fn deep_view(&self) -> SavedEventV {
        SavedEventV {
            id: self.id@,
            user_id: self.user_id@,
            event_id: self.event_id@,
            created_at: self.created_at@,
        }
    }
}

/// An event.
pub struct Event {
    pub id: String,
    pub created_by: Option<String>,
    pub title: String,
    pub event_type: Option<EventType>,
    pub start_date: String,
    pub end_date: String,
    pub timezone: Option<String>,
    pub city: String,
    pub country: Option<String>,
    pub hide_address: bool,
    pub area: String,
    pub address: String,
    pub description: Option<String>,
    pub allow_plus_one: bool,
    pub allow_plus_one_amount: Option<i32>,
    pub requires_plus_one_info: bool,
    pub requires_rsvp_approval: bool,
    pub show_to_non_members: bool,
    pub hosts: Vec<String>,
    pub host_details: Option<Vec<EventHost>>,
    pub sponsors: Vec<String>,
    pub sponsor_details: Option<Vec<EventHost>>,
    pub ticket_config: TicketConfig,
    pub currency: Option<String>,
    pub payment_type: Option<String>,
    pub attachments: Vec<String>,
    pub gallery: Vec<String>,
    pub is_saved: Option<bool>,
    pub created_at: String,
    pub guests: Option<Vec<EventGuest>>,
    pub guest_stats: Option<EventGuestStats>,
    pub thumbnail: Option<String>,
    pub invited_count: Option<i32>,
}

/// Mathematical value of an `Event`.
#[verifier::ext_equal]
pub struct EventV {
    pub id: Seq<char>,
    pub created_by: Option<Seq<char>>,
    pub title: Seq<char>,
    pub event_type: Option<EventType>,
    pub start_date: Seq<char>,
    pub end_date: Seq<char>,
    pub timezone: Option<Seq<char>>,
    pub city: Seq<char>,
    pub country: Option<Seq<char>>,
    pub hide_address: bool,
    pub area: Seq<char>,
    pub address: Seq<char>,
    pub description: Option<Seq<char>>,
    pub allow_plus_one: bool,
    pub allow_plus_one_amount: Option<i32>,
    pub requires_plus_one_info: bool,
    pub requires_rsvp_approval: bool,
    pub show_to_non_members: bool,
    pub hosts: Seq<Seq<char>>,
    pub host_details: Option<Seq<EventHostV>>,
    pub sponsors: Seq<Seq<char>>,
    pub sponsor_details: Option<Seq<EventHostV>>,
    pub ticket_config: TicketConfigV,
    pub currency: Option<Seq<char>>,
    pub payment_type: Option<Seq<char>>,
    pub attachments: Seq<Seq<char>>,
    pub gallery: Seq<Seq<char>>,
    pub is_saved: Option<bool>,
    pub created_at: Seq<char>,
    pub guests: Option<Seq<EventGuestV>>,
    pub guest_stats: Option<EventGuestStats>,
    pub thumbnail: Option<Seq<char>>,
    pub invited_count: Option<i32>,
}

impl DeepView for Event {
    type V = EventV;

    open spec fn deep_view(&self) -> EventV {
        EventV {
            id: self.id@,
            created_by: self.created_by.deep_view(),
            title: self.title@,
            event_type: self.event_type,
            start_date: self.start_date@,
            end_date: self.end_date@,
            timezone: self.timezone.deep_view(),
            city: self.city@,
            country: self.country.deep_view(),
            hide_address: self.hide_address,
            area: self.area@,
            address: self.address@,
            description: self.description.deep_view(),
            allow_plus_one: self.allow_plus_one,
            allow_plus_one_amount: self.allow_plus_one_amount,
            requires_plus_one_info: self.requires_plus_one_info,
            requires_rsvp_approval: self.requires_rsvp_approval,
            show_to_non_members: self.show_to_non_members,
            hosts: self.hosts.deep_view(),
            host_details: self.host_details.deep_view(),
            sponsors: self.sponsors.deep_view(),
            sponsor_details: self.sponsor_details.deep_view(),
            ticket_config: self.ticket_config.deep_view(),
            currency: self.currency.deep_view(),
            payment_type: self.payment_type.deep_view(),
            attachments: self.attachments.deep_view(),
            gallery: self.gallery.deep_view(),
            is_saved: self.is_saved,
            created_at: self.created_at@,
            guests: self.guests.deep_view(),
            guest_stats: self.guest_stats,
            thumbnail: self.thumbnail.deep_view(),
            invited_count: self.invited_count,
        }
    }
}

// ---------------------------------------------------------------------------
// Value-preserving copies
// ---------------------------------------------------------------------------

/// Copy a ticket configuration, keeping its contents.
pub fn clone_ticket_config(t: &TicketConfig) -> (r: TicketConfig)
    ensures
        r.deep_view() == t.deep_view(),
{
    TicketConfig {
        is_paid: t.is_paid,
        member_price: clone_opt_string(&t.member_price),
        member_max_tickets: t.member_max_tickets,
        non_member_price: clone_opt_string(&t.non_member_price),
        non_member_max_tickets: t.non_member_max_tickets,
        allow_multiple_tickets: t.allow_multiple_tickets,
        processing_fee_percentage: clone_opt_string(&t.processing_fee_percentage),
    }
}

/// Copy a host entry, keeping its contents.
pub fn clone_event_host(h: &EventHost) -> (r: EventHost)
    ensures
        r.deep_view() == h.deep_view(),
{
    EventHost {
        id: h.id.clone(),
        username: h.username.clone(),
        avatar: clone_opt_file(&h.avatar),
    }
}

/// Copy an optional host list, keeping its contents.
pub fn clone_opt_event_hosts(v: &Option<Vec<EventHost>>) -> (r: Option<Vec<EventHost>>)
    ensures
        r.deep_view() == v.deep_view(),
{
    match v {
        None => None,
        Some(hosts) => {
            let mut out: Vec<EventHost> = Vec::new();
            let mut i: usize = 0;
            while i < hosts.len()
                invariant
                    i <= hosts.len(),
                    out.len() == i,
                    forall|j: int| 0 <= j < i ==> out.deep_view()[j] == hosts.deep_view()[j],
                decreases hosts.len() - i,
            {
                let ghost prev_dv = out.deep_view();
                out.push(clone_event_host(&hosts[i]));
                proof {
                    assert(forall|j: int|
                        0 <= j < i ==> #[trigger] out.deep_view()[j] == prev_dv[j]);
                    assert(out.deep_view()[i as int] == out@[i as int].deep_view());
                    assert(hosts.deep_view()[i as int] == hosts@[i as int].deep_view());
                }
                i = i + 1;
            }
            proof {
                assert(out.deep_view() =~= hosts.deep_view());
            }
            Some(out)
        },
    }
}

impl EventGuest {
    /// Copy a guest record, keeping its contents.
    pub fn duplicate(&self) -> (r: EventGuest)
        ensures
            r.deep_view() == self.deep_view(),
    {
        EventGuest {
            id: self.id.clone(),
            event_id: self.event_id.clone(),
            parent_guest_id: clone_opt_string(&self.parent_guest_id),
            plus_one_of: clone_opt_string(&self.plus_one_of),
            user_id: clone_opt_string(&self.user_id),
            name: self.name.clone(),
            email: self.email.clone(),
            phone: self.phone.clone(),
            status: self.status,
            is_plus_one: self.is_plus_one,
            created_at: self.created_at.clone(),
        }
    }
}

/// Copy an optional guest list, keeping its contents.
pub fn clone_opt_event_guests(v: &Option<Vec<EventGuest>>) -> (r: Option<Vec<EventGuest>>)
    ensures
        r.deep_view() == v.deep_view(),
{
    match v {
        None => None,
        Some(guests) => {
            let mut out: Vec<EventGuest> = Vec::new();
            let mut i: usize = 0;
            while i < guests.len()
                invariant
                    i <= guests.len(),
                    out.len() == i,
                    forall|j: int| 0 <= j < i ==> out.deep_view()[j] == guests.deep_view()[j],
                decreases guests.len() - i,
            {
                let ghost prev_dv = out.deep_view();
                out.push(guests[i].duplicate());
                proof {
                    assert(forall|j: int|
                        0 <= j < i ==> #[trigger] out.deep_view()[j] == prev_dv[j]);
                    assert(out.deep_view()[i as int] == out@[i as int].deep_view());
                    assert(guests.deep_view()[i as int] == guests@[i as int].deep_view());
                }
                i = i + 1;
            }
            proof {
                assert(out.deep_view() =~= guests.deep_view());
            }
            Some(out)
        },
    }
}

impl Event {
    /// Copy an event, keeping its contents.
    pub fn duplicate(&self) -> (r: Event)
        ensures
            r.deep_view() == self.deep_view(),
    {
        Event {
            id: self.id.clone(),
            created_by: clone_opt_string(&self.created_by),
            title: self.title.clone(),
            event_type: self.event_type,
            start_date: self.start_date.clone(),
            end_date: self.end_date.clone(),
            timezone: clone_opt_string(&self.timezone),
            city: self.city.clone(),
            country: clone_opt_string(&self.country),
            hide_address: self.hide_address,
            area: self.area.clone(),
            address: self.address.clone(),
            description: clone_opt_string(&self.description),
            allow_plus_one: self.allow_plus_one,
            allow_plus_one_amount: self.allow_plus_one_amount,
            requires_plus_one_info: self.requires_plus_one_info,
            requires_rsvp_approval: self.requires_rsvp_approval,
            show_to_non_members: self.show_to_non_members,
            hosts: clone_strings(&self.hosts),
            host_details: clone_opt_event_hosts(&self.host_details),
            sponsors: clone_strings(&self.sponsors),
            sponsor_details: clone_opt_event_hosts(&self.sponsor_details),
            ticket_config: clone_ticket_config(&self.ticket_config),
            currency: clone_opt_string(&self.currency),
            payment_type: clone_opt_string(&self.payment_type),
            attachments: clone_strings(&self.attachments),
            gallery: clone_strings(&self.gallery),
            is_saved: self.is_saved,
            created_at: self.created_at.clone(),
            guests: clone_opt_event_guests(&self.guests),
            guest_stats: self.guest_stats,
            thumbnail: clone_opt_string(&self.thumbnail),
            invited_count: self.invited_count,
        }
    }
}

// ---------------------------------------------------------------------------
// Partial events
// ---------------------------------------------------------------------------

/// Sparse projection of an event: the fields this core updates, each
/// optionally present.
pub struct PartialEvent {
    pub title: Option<String>,
    pub description: Option<String>,
    pub invited_count: Option<i32>,
}

/// Mathematical value of a `PartialEvent`.
#[verifier::ext_equal]
pub struct PartialEventV {
    pub title: Option<Seq<char>>,
    pub description: Option<Seq<char>>,
    pub invited_count: Option<i32>,
}

impl DeepView for PartialEvent {
    type V = PartialEventV;

    open spec fn deep_view(&self) -> PartialEventV {
        PartialEventV {
            title: self.title.deep_view(),
            description: self.description.deep_view(),
            invited_count: self.invited_count,
        }
    }
}

impl Default for PartialEvent {
    /// A partial that sets nothing.
    fn default() -> (r: PartialEvent)
        ensures
            r.deep_view() == (PartialEventV { title: None, description: None, invited_count: None }),
    {
        PartialEvent { title: None, description: None, invited_count: None }
    }
}

/// An event with a sparse update applied on top: present fields overwrite,
/// absent fields are left untouched.
pub open spec fn merge_partial_event(e: EventV, p: PartialEventV) -> EventV {
    EventV {
        title: match p.title {
            Some(t) => t,
            None => e.title,
        },
        description: match p.description {
            Some(d) => Some(d),
            None => e.description,
        },
        invited_count: match p.invited_count {
            Some(c) => Some(c),
            None => e.invited_count,
        },
        ..e
    }
}

// ---------------------------------------------------------------------------
// Creation
// ---------------------------------------------------------------------------

/// A create-event request.
pub struct DataCreateEvent {
    pub title: String,
    pub event_type: EventType,
    pub start_date: String,
    pub end_date: String,
    pub city: String,
    pub area: String,
    pub address: String,
    pub description: Option<String>,
    pub hide_address: bool,
    pub allow_plus_one: bool,
    pub allow_plus_one_amount: Option<i32>,
    pub requires_plus_one_info: bool,
    pub requires_rsvp_approval: bool,
    pub show_to_non_members: bool,
    pub hosts: Vec<String>,
    pub sponsors: Vec<String>,
    pub currency: Option<String>,
    pub payment_type: Option<String>,
    pub ticket_config: TicketConfig,
    pub attachments: Vec<String>,
    pub gallery: Vec<String>,
    pub thumbnail: Option<String>,
}

/// Mathematical value of a `DataCreateEvent`.
#[verifier::ext_equal]
pub struct DataCreateEventV {
    pub title: Seq<char>,
    pub event_type: EventType,
    pub start_date: Seq<char>,
    pub end_date: Seq<char>,
    pub city: Seq<char>,
    pub area: Seq<char>,
    pub address: Seq<char>,
    pub description: Option<Seq<char>>,
    pub hide_address: bool,
    pub allow_plus_one: bool,
    pub allow_plus_one_amount: Option<i32>,
    pub requires_plus_one_info: bool,
    pub requires_rsvp_approval: bool,
    pub show_to_non_members: bool,
    pub hosts: Seq<Seq<char>>,
    pub sponsors: Seq<Seq<char>>,
    pub currency: Option<Seq<char>>,
    pub payment_type: Option<Seq<char>>,
    pub ticket_config: TicketConfigV,
    pub attachments: Seq<Seq<char>>,
    pub gallery: Seq<Seq<char>>,
    pub thumbnail: Option<Seq<char>>,
}

impl DeepView for DataCreateEvent {
    type V = DataCreateEventV;

    open spec fn deep_view(&self) -> DataCreateEventV {
        DataCreateEventV {
            title: self.title@,
            event_type: self.event_type,
            start_date: self.start_date@,
            end_date: self.end_date@,
            city: self.city@,
            area: self.area@,
            address: self.address@,
            description: self.description.deep_view(),
            hide_address: self.hide_address,
            allow_plus_one: self.allow_plus_one,
            allow_plus_one_amount: self.allow_plus_one_amount,
            requires_plus_one_info: self.requires_plus_one_info,
            requires_rsvp_approval: self.requires_rsvp_approval,
            show_to_non_members: self.show_to_non_members,
            hosts: self.hosts.deep_view(),
            sponsors: self.sponsors.deep_view(),
            currency: self.currency.deep_view(),
            payment_type: self.payment_type.deep_view(),
            ticket_config: self.ticket_config.deep_view(),
            attachments: self.attachments.deep_view(),
            gallery: self.gallery.deep_view(),
            thumbnail: self.thumbnail.deep_view(),
        }
    }
}

/// The event a create request resolves to, attributed to its creator, under
/// a fresh identifier and the request's timestamp. Derived fields (saved
/// flag, resolved details, guests, statistics, invitation counter) start
/// unset.
pub open spec fn built_event(
    d: DataCreateEventV,
    creator: Seq<char>,
    id: Seq<char>,
    now: Seq<char>,
) -> EventV {
    EventV {
        id,
        created_by: Some(creator),
        title: d.title,
        event_type: Some(d.event_type),
        start_date: d.start_date,
        end_date: d.end_date,
        timezone: None,
        city: d.city,
        country: None,
        hide_address: d.hide_address,
        area: d.area,
        address: d.address,
        description: d.description,
        allow_plus_one: d.allow_plus_one,
        allow_plus_one_amount: d.allow_plus_one_amount,
        requires_plus_one_info: d.requires_plus_one_info,
        requires_rsvp_approval: d.requires_rsvp_approval,
        show_to_non_members: d.show_to_non_members,
        hosts: d.hosts,
        host_details: None,
        sponsors: d.sponsors,
        sponsor_details: None,
        ticket_config: d.ticket_config,
        currency: d.currency,
        payment_type: d.payment_type,
        attachments: d.attachments,
        gallery: d.gallery,
        is_saved: None,
        created_at: now,
        guests: None,
        guest_stats: None,
        thumbnail: d.thumbnail,
        invited_count: None,
    }
}

/// Build the event a create request describes.
pub fn build_event(data: DataCreateEvent, creator: String, id: String, now: String) -> (r: Event)
    ensures
        r.deep_view() == built_event(data.deep_view(), creator@, id@, now@),
{
    Event {
        id,
        created_by: Some(creator),
        title: data.title,
        event_type: Some(data.event_type),
        start_date: data.start_date,
        end_date: data.end_date,
        timezone: None,
        city: data.city,
        country: None,
        hide_address: data.hide_address,
        area: data.area,
        address: data.address,
        description: data.description,
        allow_plus_one: data.allow_plus_one,
        allow_plus_one_amount: data.allow_plus_one_amount,
        requires_plus_one_info: data.requires_plus_one_info,
        requires_rsvp_approval: data.requires_rsvp_approval,
        show_to_non_members: data.show_to_non_members,
        hosts: data.hosts,
        host_details: None,
        sponsors: data.sponsors,
        sponsor_details: None,
        ticket_config: data.ticket_config,
        currency: data.currency,
        payment_type: data.payment_type,
        attachments: data.attachments,
        gallery: data.gallery,
        is_saved: None,
        created_at: now,
        guests: None,
        guest_stats: None,
        thumbnail: data.thumbnail,
        invited_count: None,
    }
}

// ---------------------------------------------------------------------------
// Guest statistics
// ---------------------------------------------------------------------------

/// How many guests hold the given status.
pub open spec fn count_status(gs: Seq<EventGuestV>, st: GuestStatus) -> int
    decreases gs.len(),
{
    if gs.len() == 0 {
        0
    } else {
        (if gs[0].status == st {
            1int
        } else {
            0int
        }) + count_status(gs.drop_first(), st)
    }
}

/// Count the guests holding the given status.
pub fn count_guests_with_status(guests: &Vec<EventGuest>, st: GuestStatus) -> (r: usize)
    ensures
        r == count_status(guests.deep_view(), st),
        r <= guests@.len(),
{
    let ghost dv = guests.deep_view();
    proof {
        assert(dv.skip(0) =~= dv);
    }
    let mut acc: usize = 0;
    let mut i: usize = 0;
    while i < guests.len()
        invariant
            i <= guests.len(),
            acc <= i,
            dv == guests.deep_view(),
            count_status(dv, st) == acc + count_status(dv.skip(i as int), st),
        decreases guests.len() - i,
    {
        proof {
            assert(dv[i as int] == guests@[i as int].deep_view());
            assert(dv.skip(i as int)[0] == dv[i as int]);
            assert(dv.skip(i as int).drop_first() =~= dv.skip(i as int + 1));
        }
        if guests[i].status == st {
            acc = acc + 1;
        }
        i = i + 1;
    }
    proof {
        assert(dv.skip(i as int) =~= Seq::<EventGuestV>::empty());
    }
    acc
}

/// The event operations every storage backend answers; a backend that does
/// not support one answers with an explicit error rather than silently
/// doing nothing.
pub trait AbstractEvents {
    fn fetch_event(&self, user_id: Option<&String>, id: &String) -> Result<
        Event,
        crate::error::Error,
    >;

    fn fetch_events(&self, user_id: Option<&String>, ids: &Vec<String>) -> Result<
        Vec<Event>,
        crate::error::Error,
    >;

    fn insert_event(&mut self, event: &Event) -> Result<(), crate::error::Error>;

    fn update_event(&mut self, id: &String, event: &PartialEvent) -> Result<
        (),
        crate::error::Error,
    >;

    fn delete_event(&mut self, id: &String) -> Result<(), crate::error::Error>;

    fn toggle_saved_event(&mut self, user_id: &String, event_id: &String) -> Result<
        (Event, bool),
        crate::error::Error,
    >;

    fn is_event_saved(&self, user_id: &String, event_id: &String) -> Result<
        bool,
        crate::error::Error,
    >;

    fn get_saved_events(&self, user_id: &String) -> Result<Vec<Event>, crate::error::Error>;

    fn get_user_events(&self, user_id: &String) -> Result<Vec<Event>, crate::error::Error>;

    fn add_guest(&mut self, guest: &EventGuest) -> Result<(), crate::error::Error>;

    fn update_guest_status(&mut self, event_id: &String, guest_id: &String, status: GuestStatus)
        -> Result<(), crate::error::Error>;

    fn get_event_guests(&self, event_id: &String) -> Result<Vec<EventGuest>, crate::error::Error>;

    fn get_guest(&self, event_id: &String, guest_id: &String) -> Result<
        EventGuest,
        crate::error::Error,
    >;
}

impl AbstractEvents for crate::store::Database {
    fn fetch_event(&self, user_id: Option<&String>, id: &String) -> Result<
        Event,
        crate::error::Error,
    > {
        crate::store::Database::fetch_event(self, user_id, id)
    }

    fn fetch_events(&self, user_id: Option<&String>, ids: &Vec<String>) -> Result<
        Vec<Event>,
        crate::error::Error,
    > {
        // The id filter is part of the interface but the backend's listing
        // query ignores it and answers every event.
        let _ = ids;
        match self {
            crate::store::Database::Memory(store) => Ok(store.fetch_events(user_id)),
            crate::store::Database::Stub => Err(crate::error::Error::NotSupported),
        }
    }

    fn insert_event(&mut self, event: &Event) -> Result<(), crate::error::Error> {
        crate::store::Database::insert_event(self, event.duplicate())
    }

    fn update_event(&mut self, id: &String, event: &PartialEvent) -> Result<
        (),
        crate::error::Error,
    > {
        crate::store::Database::update_event(self, id, event)
    }

    fn delete_event(&mut self, id: &String) -> Result<(), crate::error::Error> {
        match self {
            crate::store::Database::Memory(store) => {
                store.delete_event(id);
                Ok(())
            },
            crate::store::Database::Stub => Err(crate::error::Error::NotSupported),
        }
    }

    fn toggle_saved_event(&mut self, user_id: &String, event_id: &String) -> Result<
        (Event, bool),
        crate::error::Error,
    > {
        let now = crate::external::now_iso8601();
        match self {
            crate::store::Database::Memory(store) => store.toggle_saved_event(
                user_id,
                event_id,
                now,
            ),
            crate::store::Database::Stub => Err(crate::error::Error::NotSupported),
        }
    }

    fn is_event_saved(&self, user_id: &String, event_id: &String) -> Result<
        bool,
        crate::error::Error,
    > {
        match self {
            crate::store::Database::Memory(store) => Ok(store.is_event_saved(user_id, event_id)),
            crate::store::Database::Stub => Err(crate::error::Error::NotSupported),
        }
    }

    fn get_saved_events(&self, user_id: &String) -> Result<Vec<Event>, crate::error::Error> {
        match self {
            crate::store::Database::Memory(store) => Ok(store.get_saved_events(user_id)),
            crate::store::Database::Stub => Err(crate::error::Error::NotSupported),
        }
    }

    fn get_user_events(&self, user_id: &String) -> Result<Vec<Event>, crate::error::Error> {
        match self {
            crate::store::Database::Memory(store) => Ok(store.get_user_events(user_id)),
            crate::store::Database::Stub => Err(crate::error::Error::NotSupported),
        }
    }

    fn add_guest(&mut self, guest: &EventGuest) -> Result<(), crate::error::Error> {
        crate::store::Database::add_guest(self, guest.duplicate())
    }

    fn update_guest_status(&mut self, event_id: &String, guest_id: &String, status: GuestStatus)
        -> Result<(), crate::error::Error> {
        crate::store::Database::update_guest_status(self, event_id, guest_id, status)
    }

    fn get_event_guests(&self, event_id: &String) -> Result<Vec<EventGuest>, crate::error::Error> {
        crate::store::Database::get_event_guests(self, event_id)
    }

    fn get_guest(&self, event_id: &String, guest_id: &String) -> Result<
        EventGuest,
        crate::error::Error,
    > {
        crate::store::Database::get_guest(self, event_id, guest_id)
    }
}

/// Create a new event from a request, attributed to the requesting user,
/// under a fresh identifier and the request's timestamp.
pub fn create_event(
    db: &mut crate::store::Database,
    user: &crate::users::User,
    data: DataCreateEvent,
    new_id: String,
    now: String,
) -> (r: Result<Event, crate::error::Error>)
    ensures
        *old(db) is Stub ==> *final(db) == *old(db) && (r matches Err(e) && e
            == crate::error::Error::NotSupported),
        old(db).deep_view() matches Some(s) ==> {
            let ev = built_event(data.deep_view(), user.id@, new_id@, now@);
            &&& final(db).deep_view() == Some(
                crate::store::StoreV { events: s.events.push(ev), ..s },
            )
            &&& (r matches Ok(out) && out.deep_view() == ev)
        },
{
    let event = build_event(data, user.id.clone(), new_id, now);
    let out = event.duplicate();
    match db.insert_event(event) {
        Ok(()) => Ok(out),
        Err(e) => Err(e),
    }
}

/// Get an event by id, with its details resolved and its guest statistics
/// computed from the registered guests.
pub fn get_event(
    db: &crate::store::Database,
    user: Option<&crate::users::User>,
    id: &String,
) -> (r: Result<Event, crate::error::Error>)
    ensures
        db.deep_view() is None ==> (r matches Err(e) && e == crate::error::Error::NotSupported),
        db.deep_view() matches Some(s) ==> {
            let uopt: Option<Seq<char>> = match user {
                Some(u) => Some(u.id@),
                None => None,
            };
            match crate::store::fetch_event_spec(s, uopt, id@) {
                Err(err) => r matches Err(e) && e == err,
                Ok(ev) => {
                    let guests = crate::store::guests_of(s.guests, id@);
                    if guests.len() <= i32::MAX {
                        r matches Ok(out) && out.deep_view() == (EventV {
                            guest_stats: Some(
                                EventGuestStats {
                                    total_invited: guests.len() as i32,
                                    total_going: count_status(guests, GuestStatus::Approved) as i32,
                                    total_pending: count_status(guests, GuestStatus::Pending) as i32,
                                    total_rejected: count_status(
                                        guests,
                                        GuestStatus::Rejected,
                                    ) as i32,
                                },
                            ),
                            ..ev
                        })
                    } else {
                        r matches Err(e) && e == crate::error::Error::DatabaseError
                    }
                },
            }
        },
{
    let user_id: Option<&String> = match user {
        Some(u) => Some(&u.id),
        None => None,
    };
    let mut event = match db.fetch_event(user_id, id) {
        Ok(e) => e,
        Err(e) => {
            return Err(e);
        },
    };
    let guests = match db.get_event_guests(id) {
        Ok(g) => g,
        Err(e) => {
            return Err(e);
        },
    };
    if guests.len() > (i32::MAX as usize) {
        return Err(crate::error::Error::DatabaseError);
    }
    let stats = compute_guest_stats(&guests);
    event.guest_stats = Some(stats);
    Ok(event)
}

/// The statistics of a guest list: how many guests in total, and how many
/// approved, pending and rejected.
pub fn compute_guest_stats(guests: &Vec<EventGuest>) -> (r: EventGuestStats)
    requires
        guests@.len() <= i32::MAX,
    ensures
        r.total_invited == guests@.len(),
        r.total_going == count_status(guests.deep_view(), GuestStatus::Approved),
        r.total_pending == count_status(guests.deep_view(), GuestStatus::Pending),
        r.total_rejected == count_status(guests.deep_view(), GuestStatus::Rejected),
{
    EventGuestStats {
        total_invited: guests.len() as i32,
        total_going: count_guests_with_status(guests, GuestStatus::Approved) as i32,
        total_pending: count_guests_with_status(guests, GuestStatus::Pending) as i32,
        total_rejected: count_guests_with_status(guests, GuestStatus::Rejected) as i32,
    }
}

} // verus!
