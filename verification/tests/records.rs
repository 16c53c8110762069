use delta_core::error::Error;
use delta_core::events::{
    compute_guest_stats, create_event, get_event, AbstractEvents, DataCreateEvent, Event,
    EventGuest, GuestStatus, TicketConfig,
};
use delta_core::guests::{
    add_bulk_guests, add_guest, notify_guests, send_bulk_messages, update_bulk_guest_status,
    BulkMessageData, BulkStatusUpdate, DataCreateBulkGuests, DataCreateGuest, EmailKind,
    GuestMessageData, GuestStatusUpdate, UserMessage,
};
use delta_core::notifications::{
    queue, worker_step, Contact, NotificationQueue, NotificationTask, NotificationType, SendAction,
};
use delta_core::store::{Database, MemoryStore};
use delta_core::trips::{DatabaseTrait, Trip, TripComment};
use delta_core::users::{
    accept_friend_request, lookup_relationship, CheckRelationship, DataSendFriendRequest,
    Relationship, RelationshipStatus, User,
};

fn user(id: &str) -> User {
    User {
        id: id.to_string(),
        username: format!("{}_name", id),
        discriminator: "0001".to_string(),
        display_name: None,
        avatar: None,
        relations: Vec::new(),
        badges: 0,
        flags: 0,
        privileged: false,
        bot: None,
        relationship: RelationshipStatus::NoRelation,
        online: true,
    }
}

fn ticket_config() -> TicketConfig {
    TicketConfig {
        is_paid: false,
        member_price: None,
        member_max_tickets: None,
        non_member_price: None,
        non_member_max_tickets: None,
        allow_multiple_tickets: false,
        processing_fee_percentage: None,
    }
}

fn create_event_data(title: &str) -> DataCreateEvent {
    DataCreateEvent {
        title: title.to_string(),
        event_type: delta_core::events::EventType::Other,
        start_date: "2026-01-01".to_string(),
        end_date: "2026-01-02".to_string(),
        city: "Lisbon".to_string(),
        area: "Alfama".to_string(),
        address: "1 Square".to_string(),
        description: None,
        hide_address: false,
        allow_plus_one: true,
        allow_plus_one_amount: Some(1),
        requires_plus_one_info: false,
        requires_rsvp_approval: true,
        show_to_non_members: false,
        hosts: vec!["H".to_string()],
        sponsors: Vec::new(),
        currency: None,
        payment_type: None,
        ticket_config: ticket_config(),
        attachments: Vec::new(),
        gallery: Vec::new(),
        thumbnail: None,
    }
}

fn guest_data(name: &str, email: &str) -> DataCreateGuest {
    DataCreateGuest {
        name: name.to_string(),
        email: email.to_string(),
        phone: "555".to_string(),
        associated_user_id: None,
        plus_one_of: None,
        parent_guest_id: None,
    }
}

fn store(db: &Database) -> &MemoryStore {
    match db {
        Database::Memory(s) => s,
        Database::Stub => panic!("expected the in-memory backend"),
    }
}

#[test]
fn create_event_records_the_request() {
    let alice = user("A");
    let mut db = Database::Memory(MemoryStore::empty());
    let event = create_event(
        &mut db,
        &alice,
        create_event_data("Launch"),
        "E1".to_string(),
        "2025-12-01".to_string(),
    )
    .unwrap();
    assert_eq!(event.id, "E1");
    assert_eq!(event.title, "Launch");
    assert_eq!(event.created_by.as_deref(), Some("A"));
    assert_eq!(event.created_at, "2025-12-01");
    assert_eq!(event.invited_count, None);
    assert_eq!(store(&db).events.len(), 1);
}

#[test]
fn get_event_computes_guest_statistics() {
    let alice = user("A");
    let mut db = Database::Memory(MemoryStore::empty());
    create_event(
        &mut db,
        &alice,
        create_event_data("Launch"),
        "E1".to_string(),
        "now".to_string(),
    )
    .unwrap();
    for (i, status) in [
        GuestStatus::Approved,
        GuestStatus::Approved,
        GuestStatus::Pending,
        GuestStatus::Rejected,
    ]
    .iter()
    .enumerate()
    {
        let g = add_guest(
            &mut db,
            &alice,
            &"E1".to_string(),
            guest_data(&format!("g{}", i), &format!("g{}@mail", i)),
            format!("G{}", i),
            "now".to_string(),
        )
        .unwrap();
        db.update_guest_status(&"E1".to_string(), &g.guest.id, *status).unwrap();
    }
    let event = get_event(&db, Some(&alice), &"E1".to_string()).unwrap();
    let stats = event.guest_stats.unwrap();
    assert_eq!(stats.total_invited, 4);
    assert_eq!(stats.total_going, 2);
    assert_eq!(stats.total_pending, 1);
    assert_eq!(stats.total_rejected, 1);
}

#[test]
fn add_guest_is_pending_and_attributed() {
    let alice = user("A");
    let mut db = Database::Memory(MemoryStore::empty());
    let mut data = guest_data("Grace", "grace@mail");
    data.plus_one_of = Some("G0".to_string());
    let r = add_guest(
        &mut db,
        &alice,
        &"E1".to_string(),
        data,
        "G1".to_string(),
        "now".to_string(),
    )
    .unwrap();
    assert!(matches!(r.guest.status, GuestStatus::Pending));
    assert_eq!(r.guest.user_id.as_deref(), Some("A"));
    assert_eq!(r.guest.is_plus_one, Some(true));
    assert_eq!(store(&db).guests.len(), 1);
}

#[test]
fn bulk_guests_welcome_everyone_and_notify_hosts() {
    let host = user("H");
    let mut db = Database::Memory(MemoryStore::empty());
    match &mut db {
        Database::Memory(s) => {
            s.users.push(host.duplicate());
            s.accounts.push(delta_core::users::Account {
                id: "H".to_string(),
                email: "host@mail".to_string(),
            });
        },
        Database::Stub => unreachable!(),
    }
    let alice = user("A");
    create_event(
        &mut db,
        &alice,
        create_event_data("Launch"),
        "E1".to_string(),
        "now".to_string(),
    )
    .unwrap();

    let data = DataCreateBulkGuests {
        main_contact: guest_data("Main", "main@mail"),
        additional_guests: vec![guest_data("Extra", "extra@mail")],
    };
    let (resp, notices) = add_bulk_guests(
        &mut db,
        Some(&alice),
        &"E1".to_string(),
        data,
        vec!["G1".to_string(), "G2".to_string()],
        "now".to_string(),
    )
    .unwrap();
    assert_eq!(resp.guests.len(), 2);
    assert_eq!(resp.guests[1].plus_one_of.as_deref(), Some("G1"));
    assert_eq!(resp.guests[1].is_plus_one, Some(true));
    assert!(resp.guests[1].user_id.is_none());

    // Two welcomes, then one registration summary for the host and one for
    // the creator (the creator has no account here, so only the host's).
    assert_eq!(notices.len(), 3);
    assert!(matches!(notices[0].kind, EmailKind::GuestWelcome));
    assert_eq!(notices[0].to, "main@mail");
    assert_eq!(notices[1].to, "extra@mail");
    assert!(matches!(notices[2].kind, EmailKind::HostNewGuests));
    assert_eq!(notices[2].to, "host@mail");
    assert_eq!(notices[2].count, 2);
}

#[test]
fn bulk_status_update_notifies_guests_and_hosts() {
    let alice = user("A");
    let mut db = Database::Memory(MemoryStore::empty());
    create_event(
        &mut db,
        &alice,
        create_event_data("Launch"),
        "E1".to_string(),
        "now".to_string(),
    )
    .unwrap();
    for (i, name) in ["one", "two"].iter().enumerate() {
        add_guest(
            &mut db,
            &alice,
            &"E1".to_string(),
            guest_data(name, &format!("{}@mail", name)),
            format!("G{}", i),
            "now".to_string(),
        )
        .unwrap();
    }
    let data = BulkStatusUpdate {
        updates: vec![
            GuestStatusUpdate { guest_id: "G0".to_string(), status: GuestStatus::Approved },
            GuestStatusUpdate { guest_id: "G1".to_string(), status: GuestStatus::Rejected },
        ],
    };
    let notices = update_bulk_guest_status(&mut db, &alice, &"E1".to_string(), data).unwrap();
    assert_eq!(notices.len(), 2);
    assert!(matches!(notices[0].kind, EmailKind::GuestApproved));
    assert_eq!(notices[0].to, "one@mail");
    assert!(matches!(notices[1].kind, EmailKind::GuestRejected));
    assert_eq!(notices[1].to, "two@mail");

    // Statuses are persisted.
    let guests = db.get_event_guests(&"E1".to_string()).unwrap();
    assert!(matches!(guests[0].status, GuestStatus::Approved));
    assert!(matches!(guests[1].status, GuestStatus::Rejected));

    // The host summary names the counts; one direct message went to the
    // creator (hosts list holds "H" with no stored user: channel still
    // created, message still sent).
    let s = store(&db);
    assert_eq!(s.messages.len(), 2);
    let content = s.messages[0].content.as_deref().unwrap();
    assert_eq!(
        content,
        "Guest status updates for Launch:\n\nApproved: 1\nRejected: 1"
    );
}

#[test]
fn send_bulk_messages_requires_host_or_creator() {
    let stranger = user("X");
    let alice = user("A");
    let mut db = Database::Memory(MemoryStore::empty());
    create_event(
        &mut db,
        &alice,
        create_event_data("Launch"),
        "E1".to_string(),
        "now".to_string(),
    )
    .unwrap();
    let data = BulkMessageData {
        messages: vec![UserMessage { user_id: "B".to_string(), content: None }],
    };
    let r = send_bulk_messages(
        &mut db,
        &stranger,
        &"E1".to_string(),
        data,
        &"https://app".to_string(),
    );
    assert!(matches!(r, Err(Error::NotFound)));
}

#[test]
fn send_bulk_messages_delivers_and_counts() {
    let alice = user("A");
    let bob = user("B");
    let mut db = Database::Memory(MemoryStore::empty());
    match &mut db {
        Database::Memory(s) => {
            s.users.push(bob.duplicate());
            s.accounts.push(delta_core::users::Account {
                id: "B".to_string(),
                email: "bob@mail".to_string(),
            });
        },
        Database::Stub => unreachable!(),
    }
    create_event(
        &mut db,
        &alice,
        create_event_data("Launch"),
        "E1".to_string(),
        "now".to_string(),
    )
    .unwrap();
    let data = BulkMessageData {
        messages: vec![UserMessage {
            user_id: "B".to_string(),
            content: Some("see you there".to_string()),
        }],
    };
    let notices = send_bulk_messages(
        &mut db,
        &alice,
        &"E1".to_string(),
        data,
        &"https://app".to_string(),
    )
    .unwrap();
    assert_eq!(notices.len(), 1);
    assert!(matches!(notices[0].kind, EmailKind::MessageFromHost));
    assert_eq!(notices[0].to, "bob@mail");

    let s = store(&db);
    assert_eq!(s.messages.len(), 1);
    assert_eq!(
        s.messages[0].content.as_deref().unwrap(),
        "A_name is inviting you to Launch event:\n\nhttps://app/events/view/E1\n\nsee you there"
    );
    // The conversation was created active, and the counter grew.
    assert!(matches!(
        s.channels[0],
        delta_core::channel::Channel::DirectMessage { active: true, .. }
    ));
    let refreshed = db.fetch_event(None, &"E1".to_string()).unwrap();
    assert_eq!(refreshed.invited_count, Some(1));
}

#[test]
fn notify_guests_filters_by_status() {
    let alice = user("A");
    let bob = user("B");
    let mut db = Database::Memory(MemoryStore::empty());
    match &mut db {
        Database::Memory(s) => {
            s.users.push(bob.duplicate());
        },
        Database::Stub => unreachable!(),
    }
    create_event(
        &mut db,
        &alice,
        create_event_data("Launch"),
        "E1".to_string(),
        "now".to_string(),
    )
    .unwrap();
    // One approved guest that is a registered user, one pending guest.
    add_guest(
        &mut db,
        &bob,
        &"E1".to_string(),
        guest_data("bobg", "bob@mail"),
        "G0".to_string(),
        "now".to_string(),
    )
    .unwrap();
    add_guest(
        &mut db,
        &alice,
        &"E1".to_string(),
        guest_data("anon", "anon@mail"),
        "G1".to_string(),
        "now".to_string(),
    )
    .unwrap();
    db.update_guest_status(&"E1".to_string(), &"G0".to_string(), GuestStatus::Approved)
        .unwrap();

    let data = GuestMessageData {
        content: "doors open at nine".to_string(),
        statuses: vec![GuestStatus::Approved],
    };
    let notices =
        notify_guests(&mut db, &alice, &"E1".to_string(), data, &"https://app".to_string())
            .unwrap();
    assert_eq!(notices.len(), 1);
    assert!(matches!(notices[0].kind, EmailKind::EventNotification));
    assert_eq!(notices[0].to, "bob@mail");
    assert_eq!(notices[0].content.as_deref(), Some("doors open at nine"));

    let s = store(&db);
    assert_eq!(s.messages.len(), 1);
    assert_eq!(
        s.messages[0].content.as_deref().unwrap(),
        "A_name is inviting you to this event: https://app/events/view/E1"
    );
    // The conversation for a notification starts inactive.
    assert!(matches!(
        s.channels[0],
        delta_core::channel::Channel::DirectMessage { active: false, .. }
    ));
}

#[test]
fn toggle_saved_event_flips_the_bookmark() {
    let alice = user("A");
    let mut db = Database::Memory(MemoryStore::empty());
    create_event(
        &mut db,
        &alice,
        create_event_data("Launch"),
        "E1".to_string(),
        "now".to_string(),
    )
    .unwrap();
    let (_, saved) = db.toggle_saved_event(&"A".to_string(), &"E1".to_string()).unwrap();
    assert!(saved);
    assert!(db.is_event_saved(&"A".to_string(), &"E1".to_string()).unwrap());
    let kept = db.get_saved_events(&"A".to_string()).unwrap();
    assert_eq!(kept.len(), 1);
    assert_eq!(kept[0].is_saved, Some(true));
    let (_, saved) = db.toggle_saved_event(&"A".to_string(), &"E1".to_string()).unwrap();
    assert!(!saved);
    assert!(!db.is_event_saved(&"A".to_string(), &"E1".to_string()).unwrap());
}

#[test]
fn trips_query_orders_own_first_then_by_end_date() {
    let mut db = Database::Memory(MemoryStore::empty());
    let mk = |user_id: &str, start: i64, end: i64, dest: &str| Trip {
        id: None,
        user_id: user_id.to_string(),
        destination: dest.to_string(),
        start_date: start,
        end_date: end,
        deletion_date: None,
    };
    match &mut db {
        Database::Memory(s) => {
            s.trips.push(Trip { id: Some("t1".to_string()), ..mk("B", 100, 300, "Lisbon") });
            s.trips.push(Trip { id: Some("t2".to_string()), ..mk("A", 100, 200, "Lisbon") });
            s.trips.push(Trip { id: Some("t3".to_string()), ..mk("B", 100, 150, "Lisbon") });
            s.trips.push(Trip { id: Some("t4".to_string()), ..mk("A", 50, 400, "Lisbon") });
            // Not visible: wrong destination, too early, soft-deleted.
            s.trips.push(Trip { id: Some("t5".to_string()), ..mk("A", 100, 120, "Porto") });
            s.trips.push(Trip { id: Some("t6".to_string()), ..mk("A", 10, 500, "Lisbon") });
            s.trips.push(Trip {
                id: Some("t7".to_string()),
                deletion_date: Some(5),
                ..mk("A", 100, 110, "Lisbon")
            });
        },
        Database::Stub => unreachable!(),
    }
    let trips = db
        .fetch_trips_by_date_and_destination(&"Lisbon".to_string(), &"A".to_string(), 60)
        .unwrap();
    let ids: Vec<&str> = trips.iter().map(|t| t.id.as_deref().unwrap()).collect();
    assert_eq!(ids, vec!["t2", "t3", "t1"]);
}

#[test]
fn insert_trip_retires_other_future_trips() {
    let mut db = Database::Memory(MemoryStore::empty());
    // now is taken from the clock inside insert_trip, so make the old trip
    // far in the future.
    let far = i64::MAX - delta_core::invite::INVITE_VALIDITY_MS;
    match &mut db {
        Database::Memory(s) => {
            s.trips.push(Trip {
                id: Some("old".to_string()),
                user_id: "A".to_string(),
                destination: "Lisbon".to_string(),
                start_date: far,
                end_date: far,
                deletion_date: None,
            });
        },
        Database::Stub => unreachable!(),
    }
    let fresh = Trip {
        id: None,
        user_id: "A".to_string(),
        destination: "Lisbon".to_string(),
        start_date: far,
        end_date: far,
        deletion_date: None,
    };
    db.insert_trip(&fresh).unwrap();
    let s = store(&db);
    assert_eq!(s.trips.len(), 2);
    assert!(s.trips[0].deletion_date.is_some());
    assert!(s.trips[1].deletion_date.is_none());
    assert_eq!(s.trips[1].id.as_ref().unwrap().len(), 24);
}

#[test]
fn delete_trip_distinguishes_missing_from_foreign() {
    let mut db = Database::Memory(MemoryStore::empty());
    match &mut db {
        Database::Memory(s) => {
            s.trips.push(Trip {
                id: Some("t1".to_string()),
                user_id: "A".to_string(),
                destination: "Lisbon".to_string(),
                start_date: 10,
                end_date: 20,
                deletion_date: None,
            });
        },
        Database::Stub => unreachable!(),
    }
    let r = db.delete_trip(&"t1".to_string(), &"B".to_string());
    assert!(matches!(r, Err(Error::NotAllowed)));
    let r = db.delete_trip(&"zzz".to_string(), &"A".to_string());
    assert!(matches!(r, Err(Error::NotFound)));
    db.delete_trip(&"t1".to_string(), &"A".to_string()).unwrap();
    assert!(store(&db).trips[0].deletion_date.is_some());
    // A second deletion finds it already soft-deleted.
    let r = db.delete_trip(&"t1".to_string(), &"A".to_string());
    assert!(matches!(r, Err(Error::NotAllowed)));
}

#[test]
fn trip_comments_come_newest_first() {
    let mut db = Database::Memory(MemoryStore::empty());
    match &mut db {
        Database::Memory(s) => {
            s.trips.push(Trip {
                id: Some("t1".to_string()),
                user_id: "A".to_string(),
                destination: "Lisbon".to_string(),
                start_date: 10,
                end_date: 20,
                deletion_date: None,
            });
        },
        Database::Stub => unreachable!(),
    }
    for (text, _) in [("first", 0), ("second", 0), ("third", 0)] {
        let comment = TripComment {
            id: None,
            trip_id: "t1".to_string(),
            user_id: "A".to_string(),
            content: text.to_string(),
            created_at: 0,
        };
        db.create_trip_comment(&comment).unwrap();
    }
    let comments = db
        .fetch_trip_comments_by_destination(&"t1".to_string(), &"Lisbon".to_string())
        .unwrap();
    assert_eq!(comments.len(), 3);
    // All stamped by the clock at creation; the newest-first order puts the
    // later insertions no later than the earlier ones.
    assert!(comments[0].created_at >= comments[1].created_at);
    assert!(comments[1].created_at >= comments[2].created_at);
    let r = db.fetch_trip_comments_by_destination(&"t1".to_string(), &"Porto".to_string());
    assert!(matches!(r, Err(Error::NotFound)));
}

#[test]
fn invite_token_is_fresh_each_time() {
    let mut db = Database::Memory(MemoryStore::empty());
    let t1 = db.generate_invite_token("A".to_string()).unwrap();
    let t2 = db.generate_invite_token("A".to_string()).unwrap();
    assert_eq!(t1.token.len(), 32);
    assert_eq!(t1.token_type.as_deref(), Some("invite"));
    assert_eq!(t1.creator_id, "A");
    assert!(t1.id.is_none());
    assert_ne!(t1.token, t2.token);
    assert_eq!(store(&db).invite_tokens.len(), 2);
    // Expiry is seven days after issuance, so it lies at least the full
    // validity window after the epoch.
    assert!(t1.expiry_date >= delta_core::invite::INVITE_VALIDITY_MS);
}

#[test]
fn notification_queue_is_bounded_and_ordered() {
    let mut q = NotificationQueue::new(2);
    assert_eq!(q.capacity(), 2);
    queue(
        &mut q,
        vec!["A".to_string()],
        "one".to_string(),
        NotificationType::Email,
    );
    queue(
        &mut q,
        Vec::new(),
        "dropped: no recipients".to_string(),
        NotificationType::Email,
    );
    queue(
        &mut q,
        vec!["B".to_string()],
        "two".to_string(),
        NotificationType::SMS,
    );
    // The queue is full now: the third task is rejected and swallowed.
    queue(
        &mut q,
        vec!["C".to_string()],
        "three".to_string(),
        NotificationType::Email,
    );
    assert_eq!(q.len(), 2);
    let first = q.try_pop().unwrap();
    assert_eq!(first.payload, "one");
    assert_eq!(first.recipients, vec!["A".to_string()]);
    let second = q.try_pop().unwrap();
    assert_eq!(second.payload, "two");
    assert!(q.try_pop().is_none());
}

#[test]
fn worker_step_matches_contact_details() {
    let task = NotificationTask {
        recipients: vec!["A".to_string(), "B".to_string()],
        payload: "hello".to_string(),
        notification_type: NotificationType::Email,
    };
    let contacts = vec![
        Contact { user_id: "A".to_string(), email: Some("a@mail".to_string()), phone: None },
        Contact { user_id: "B".to_string(), email: None, phone: Some("555".to_string()) },
    ];
    let actions = worker_step(&task, &contacts);
    assert_eq!(actions.len(), 1);
    match &actions[0] {
        SendAction::Email { to, payload } => {
            assert_eq!(to, "a@mail");
            assert_eq!(payload, "hello");
        },
        _ => panic!("expected an email"),
    }

    let sms_task = NotificationTask {
        recipients: vec!["B".to_string()],
        payload: "ping".to_string(),
        notification_type: NotificationType::SMS,
    };
    let actions = worker_step(&sms_task, &contacts);
    assert_eq!(actions.len(), 1);
    assert!(matches!(&actions[0], SendAction::Sms { .. }));
}

#[test]
fn relationship_lookup_finds_first_entry() {
    let relations = vec![
        Relationship { user_id: "B".to_string(), status: RelationshipStatus::Friend },
        Relationship { user_id: "C".to_string(), status: RelationshipStatus::Blocked },
    ];
    assert!(matches!(
        lookup_relationship(&relations, "B"),
        RelationshipStatus::Friend
    ));
    assert!(matches!(relations.with("C"), RelationshipStatus::Blocked));
    assert!(matches!(relations.with("Z"), RelationshipStatus::NoRelation));
}

#[test]
fn friend_requests_gate_bots() {
    let mut db = Database::Memory(MemoryStore::empty());
    let mut robot = user("R");
    robot.bot = Some(delta_core::users::BotInformation { owner_id: "A".to_string() });
    match &mut db {
        Database::Memory(s) => {
            s.users.push(user("B"));
            s.users.push(robot);
        },
        Database::Stub => unreachable!(),
    }
    let alice = user("A");
    let (target, text) = delta_core::users::send_friend_request(
        &db,
        &alice,
        &DataSendFriendRequest { username: "B_name".to_string() },
    )
    .unwrap();
    assert_eq!(target.id, "B");
    assert_eq!(text, "You received friend request from A_name");

    let r = delta_core::users::send_friend_request(
        &db,
        &alice,
        &DataSendFriendRequest { username: "R_name".to_string() },
    );
    assert!(matches!(r, Err(Error::IsBot)));

    let (accepted, text) = accept_friend_request(&db, &alice, &"B".to_string()).unwrap();
    assert_eq!(accepted.id, "B");
    assert_eq!(text, "A_name accepted your friend request");
}

#[test]
fn dm_openers_check_their_gates() {
    let alice = user("A");
    let mut db = Database::Memory(MemoryStore::empty());
    match &mut db {
        Database::Memory(s) => {
            s.users.push(user("S"));
            s.experiences.push(delta_core::server::Experience {
                id: "x1".to_string(),
                host: "H".to_string(),
                attendees: vec!["A".to_string()],
            });
            s.members.push(delta_core::server::Member {
                server: "s1".to_string(),
                user: "A".to_string(),
                roles: vec!["admins".to_string()],
            });
        },
        Database::Stub => unreachable!(),
    }

    let c = delta_core::channel_ops::open_experience_dm(
        &mut db,
        &alice,
        "x1".to_string(),
        "c1".to_string(),
    )
    .unwrap();
    assert!(matches!(c, delta_core::channel::Channel::ExperienceDM { .. }));
    let stranger = user("Z");
    let r = delta_core::channel_ops::open_experience_dm(
        &mut db,
        &stranger,
        "x1".to_string(),
        "c2".to_string(),
    );
    assert!(matches!(r, Err(Error::NotAllowed)));

    let c = delta_core::channel_ops::open_admin_dm(
        &mut db,
        &alice,
        "s1".to_string(),
        "B".to_string(),
        &"admins".to_string(),
        "c3".to_string(),
    )
    .unwrap();
    assert!(matches!(c, delta_core::channel::Channel::AdminDM { .. }));
    let r = delta_core::channel_ops::open_admin_dm(
        &mut db,
        &alice,
        "s1".to_string(),
        "B".to_string(),
        &"owners".to_string(),
        "c4".to_string(),
    );
    assert!(matches!(r, Err(Error::MissingPermission)));

    // Marketplace: self-conversations are refused; an existing conversation
    // is returned rather than duplicated.
    let r = delta_core::channel_ops::open_marketplace_dm(
        &mut db,
        &alice,
        "l1".to_string(),
        &"A".to_string(),
        "c5".to_string(),
    );
    assert!(matches!(r, Err(Error::NotFound)));
    match &mut db {
        Database::Memory(s) => s.users.push(user("A")),
        Database::Stub => unreachable!(),
    }
    let r = delta_core::channel_ops::open_marketplace_dm(
        &mut db,
        &alice,
        "l1".to_string(),
        &"A".to_string(),
        "c5".to_string(),
    );
    assert!(matches!(r, Err(Error::InvalidOperation)));
    let first = delta_core::channel_ops::open_marketplace_dm(
        &mut db,
        &alice,
        "l1".to_string(),
        &"S".to_string(),
        "c6".to_string(),
    )
    .unwrap();
    let again = delta_core::channel_ops::open_marketplace_dm(
        &mut db,
        &alice,
        "l1".to_string(),
        &"S".to_string(),
        "c7".to_string(),
    )
    .unwrap();
    assert_eq!(first.id(), again.id());
}

#[test]
fn guest_status_round_trips_through_text() {
    assert_eq!(GuestStatus::Approved.as_text(), "Approved");
    assert!(matches!(
        GuestStatus::from_text(&"Rejected".to_string()),
        GuestStatus::Rejected
    ));
    assert!(matches!(
        GuestStatus::from_text(&"anything else".to_string()),
        GuestStatus::Pending
    ));
}

#[test]
fn fresh_identifiers_have_their_documented_shapes() {
    assert_eq!(delta_core::external::ulid_new().len(), 26);
    assert_eq!(delta_core::external::object_id_new().len(), 24);
    let a = delta_core::external::nano_id(32);
    let b = delta_core::external::nano_id(32);
    assert_eq!(a.len(), 32);
    assert_ne!(a, b);
}

#[test]
fn decimal_rendering_is_exact() {
    assert_eq!(delta_core::text::decimal_string(0), "0");
    assert_eq!(delta_core::text::decimal_string(7), "7");
    assert_eq!(delta_core::text::decimal_string(40321), "40321");
}

#[test]
fn if_false_flips_its_argument() {
    assert!(delta_core::if_false(&false));
    assert!(!delta_core::if_false(&true));
}

#[test]
fn guest_stats_count_each_status() {
    let mk = |status: GuestStatus| EventGuest {
        id: "g".to_string(),
        event_id: "e".to_string(),
        parent_guest_id: None,
        plus_one_of: None,
        user_id: None,
        name: "n".to_string(),
        email: "m".to_string(),
        phone: "p".to_string(),
        status,
        is_plus_one: None,
        created_at: "now".to_string(),
    };
    let guests = vec![
        mk(GuestStatus::Pending),
        mk(GuestStatus::Approved),
        mk(GuestStatus::Pending),
    ];
    let stats = compute_guest_stats(&guests);
    assert_eq!(stats.total_invited, 3);
    assert_eq!(stats.total_going, 1);
    assert_eq!(stats.total_pending, 2);
    assert_eq!(stats.total_rejected, 0);
}

#[test]
fn events_listing_resolves_details() {
    let alice = user("A");
    let mut db = Database::Memory(MemoryStore::empty());
    match &mut db {
        Database::Memory(s) => s.users.push(user("H")),
        Database::Stub => unreachable!(),
    }
    create_event(
        &mut db,
        &alice,
        create_event_data("Launch"),
        "E1".to_string(),
        "now".to_string(),
    )
    .unwrap();
    let all: Vec<Event> = db.fetch_events(Some(&"A".to_string()), &Vec::new()).unwrap();
    assert_eq!(all.len(), 1);
    let details = all[0].host_details.as_ref().unwrap();
    assert_eq!(details.len(), 1);
    assert_eq!(details[0].id, "H");
    assert_eq!(details[0].username, "H_name");
    assert_eq!(all[0].is_saved, Some(false));

    let mine = db.get_user_events(&"A".to_string()).unwrap();
    assert_eq!(mine.len(), 1);
    let theirs = db.get_user_events(&"H".to_string()).unwrap();
    assert_eq!(theirs.len(), 0);
}
