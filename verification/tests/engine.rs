use delta_core::channel::{Channel, ChannelBannerField, DataEditChannel, FieldsChannel};
use delta_core::dispatch::{message_send, send_message, DispatcherConfig};
use delta_core::error::{Error, Permission};
use delta_core::message::{DataMessageSend, Masquerade};
use delta_core::perms::{evaluate, CapabilitySet, ServerContext, ALL_CAPABILITIES};
use delta_core::store::{Database, MemoryStore};
use delta_core::system_message::SystemMessage;
use delta_core::users::{RelationshipStatus, User};

fn user(id: &str) -> User {
    User {
        id: id.to_string(),
        username: format!("{}_name", id),
        discriminator: "0001".to_string(),
        display_name: None,
        avatar: None,
        relations: Vec::new(),
        badges: 0,
        flags: 0,
        privileged: false,
        bot: None,
        relationship: RelationshipStatus::NoRelation,
        online: true,
    }
}

fn group(id: &str, owner: &str, recipients: &[&str], name: &str) -> Channel {
    Channel::Group {
        id: id.to_string(),
        name: name.to_string(),
        owner: owner.to_string(),
        description: Some("about".to_string()),
        recipients: recipients.iter().map(|r| r.to_string()).collect(),
        icon: None,
        banner: Vec::new(),
        last_message_id: None,
        permissions: None,
        nsfw: false,
        password: None,
    }
}

fn empty_edit() -> DataEditChannel {
    DataEditChannel {
        name: None,
        description: None,
        owner: None,
        icon: None,
        banner: None,
        nsfw: None,
        archived: None,
        remove: None,
        password: None,
    }
}

fn empty_send() -> DataMessageSend {
    DataMessageSend {
        content: Some("hello".to_string()),
        attachments: None,
        embeds: None,
        masquerade: None,
        interactions: None,
    }
}

fn ids4() -> Vec<String> {
    vec!["m1".to_string(), "m2".to_string(), "m3".to_string(), "m4".to_string()]
}

fn config() -> DispatcherConfig {
    DispatcherConfig { expiry_window_ms: 60_000 }
}

fn memory_with_channel(c: Channel) -> Database {
    let mut store = MemoryStore::empty();
    store.channels.push(c);
    Database::Memory(store)
}

fn message_count(db: &Database) -> usize {
    match db {
        Database::Memory(s) => s.messages.len(),
        Database::Stub => 0,
    }
}

#[test]
fn send_without_capability_is_denied_and_writes_nothing() {
    let alice = user("A");
    let channel = group("g1", "A", &["A", "B"], "old");
    let mut db = memory_with_channel(channel.duplicate());
    let cap = CapabilitySet { bits: 0 };
    let r = send_message(
        &mut db,
        &channel,
        &alice,
        empty_send(),
        &"T1".to_string(),
        &cap,
        "M1".to_string(),
        1000,
        &config(),
    );
    assert!(matches!(r, Err(Error::PermissionDenied { .. })));
    assert_eq!(message_count(&db), 0);

    // A set granting view but not send is denied on the send gate.
    let cap = CapabilitySet { bits: Permission::ViewChannel.bit() };
    let r = send_message(
        &mut db,
        &channel,
        &alice,
        empty_send(),
        &"T1".to_string(),
        &cap,
        "M1".to_string(),
        1000,
        &config(),
    );
    assert!(
        matches!(r, Err(Error::PermissionDenied { permission: Permission::SendMessage }))
    );
    assert_eq!(message_count(&db), 0);
}

#[test]
fn send_twice_with_one_token_stores_one_message() {
    let alice = user("U");
    let channel = group("g1", "U", &["U", "B"], "general");
    let mut db = memory_with_channel(channel.duplicate());
    let cap = CapabilitySet { bits: ALL_CAPABILITIES };

    let first = send_message(
        &mut db,
        &channel,
        &alice,
        empty_send(),
        &"T1".to_string(),
        &cap,
        "M1".to_string(),
        1000,
        &config(),
    )
    .unwrap();
    assert_eq!(first.id, "M1");
    assert_eq!(message_count(&db), 1);

    // An immediate retry with the same token replays the same message and
    // creates no new record.
    let second = send_message(
        &mut db,
        &channel,
        &alice,
        empty_send(),
        &"T1".to_string(),
        &cap,
        "M2".to_string(),
        2000,
        &config(),
    )
    .unwrap();
    assert_eq!(second.id, "M1");
    assert_eq!(message_count(&db), 1);

    // A different token creates a fresh message.
    let third = send_message(
        &mut db,
        &channel,
        &alice,
        empty_send(),
        &"T2".to_string(),
        &cap,
        "M3".to_string(),
        3000,
        &config(),
    )
    .unwrap();
    assert_eq!(third.id, "M3");
    assert_eq!(message_count(&db), 2);
}

#[test]
fn expired_token_sends_fresh_message() {
    let alice = user("U");
    let channel = group("g1", "U", &["U"], "general");
    let mut db = memory_with_channel(channel.duplicate());
    let cap = CapabilitySet { bits: ALL_CAPABILITIES };
    let cfg = DispatcherConfig { expiry_window_ms: 10 };

    send_message(
        &mut db,
        &channel,
        &alice,
        empty_send(),
        &"T1".to_string(),
        &cap,
        "M1".to_string(),
        1000,
        &cfg,
    )
    .unwrap();
    let late = send_message(
        &mut db,
        &channel,
        &alice,
        empty_send(),
        &"T1".to_string(),
        &cap,
        "M2".to_string(),
        2000,
        &cfg,
    )
    .unwrap();
    assert_eq!(late.id, "M2");
    assert_eq!(message_count(&db), 2);
}

#[test]
fn masquerade_colour_needs_manage_role() {
    let alice = user("U");
    let channel = group("g1", "U", &["U"], "general");
    let mut db = memory_with_channel(channel.duplicate());
    let bits = ALL_CAPABILITIES & !Permission::ManageRole.bit();
    let cap = CapabilitySet { bits };
    let data = DataMessageSend {
        content: Some("hi".to_string()),
        attachments: None,
        embeds: None,
        masquerade: Some(Masquerade {
            name: Some("ghost".to_string()),
            avatar: None,
            colour: Some("#ff0000".to_string()),
        }),
        interactions: None,
    };
    let r = send_message(
        &mut db,
        &channel,
        &alice,
        data,
        &"T1".to_string(),
        &cap,
        "M1".to_string(),
        1000,
        &config(),
    );
    assert!(
        matches!(r, Err(Error::PermissionDenied { permission: Permission::ManageRole }))
    );
    assert_eq!(message_count(&db), 0);
}

#[test]
fn restricted_reactions_need_a_reaction_list() {
    let alice = user("U");
    let channel = group("g1", "U", &["U"], "general");
    let mut db = memory_with_channel(channel.duplicate());
    let cap = CapabilitySet { bits: ALL_CAPABILITIES };
    let data = DataMessageSend {
        content: Some("hi".to_string()),
        attachments: None,
        embeds: None,
        masquerade: None,
        interactions: Some(delta_core::message::Interactions {
            reactions: None,
            restrict_reactions: true,
        }),
    };
    let r = send_message(
        &mut db,
        &channel,
        &alice,
        data,
        &"T1".to_string(),
        &cap,
        "M1".to_string(),
        1000,
        &config(),
    );
    assert!(matches!(r, Err(Error::InvalidProperty)));
    assert_eq!(message_count(&db), 0);
}

#[test]
fn message_send_route_resolves_capabilities() {
    let outsider = user("X");
    let channel = group("g1", "A", &["A", "B"], "general");
    let mut db = memory_with_channel(channel);
    let ctx = ServerContext::none();
    let r = message_send(
        &mut db,
        &outsider,
        &ctx,
        &"g1".to_string(),
        empty_send(),
        &"T1".to_string(),
        "M1".to_string(),
        1000,
        &config(),
    );
    // Not a recipient: no capability at all, starting with the view gate.
    assert!(
        matches!(r, Err(Error::PermissionDenied { permission: Permission::ViewChannel }))
    );

    let r = message_send(
        &mut db,
        &outsider,
        &ctx,
        &"missing".to_string(),
        empty_send(),
        &"T1".to_string(),
        "M1".to_string(),
        1000,
        &config(),
    );
    assert!(matches!(r, Err(Error::NotFound)));
}

#[test]
fn empty_edit_returns_unmodified_channel_without_writes() {
    let alice = user("A");
    let channel = group("g1", "A", &["A", "B"], "old");
    let mut db = memory_with_channel(channel);
    let ctx = ServerContext::none();
    let before_messages = message_count(&db);
    let r = delta_core::channel_ops::edit_channel(
        &mut db,
        &alice,
        &ctx,
        &"g1".to_string(),
        empty_edit(),
        ids4(),
    )
    .unwrap();
    match r {
        Channel::Group { name, owner, .. } => {
            assert_eq!(name, "old");
            assert_eq!(owner, "A");
        },
        _ => panic!("expected a group"),
    }
    assert_eq!(message_count(&db), before_messages);
}

#[test]
fn ownership_transfer_succeeds_for_owner_to_recipient() {
    let alice = user("A");
    let channel = group("g1", "A", &["A", "B"], "old");
    let mut db = memory_with_channel(channel);
    let ctx = ServerContext::none();
    let mut data = empty_edit();
    data.owner = Some("B".to_string());
    data.name = Some("new".to_string());
    let r = delta_core::channel_ops::edit_channel(
        &mut db,
        &alice,
        &ctx,
        &"g1".to_string(),
        data,
        ids4(),
    )
    .unwrap();
    match r {
        Channel::Group { name, owner, .. } => {
            assert_eq!(name, "new");
            assert_eq!(owner, "B");
        },
        _ => panic!("expected a group"),
    }
    // Two system messages, in order: the ownership transfer, then the
    // rename, both authored by the system.
    match &db {
        Database::Memory(s) => {
            assert_eq!(s.messages.len(), 2);
            match &s.messages[0].system {
                Some(SystemMessage::ChannelOwnershipChanged { from, to }) => {
                    assert_eq!(from, "A");
                    assert_eq!(to, "B");
                },
                _ => panic!("expected an ownership notice first"),
            }
            match &s.messages[1].system {
                Some(SystemMessage::ChannelRenamed { name, by }) => {
                    assert_eq!(name, "new");
                    assert_eq!(by, "A");
                },
                _ => panic!("expected a rename notice second"),
            }
            assert!(matches!(
                s.messages[0].author,
                delta_core::message::Author::System
            ));
        },
        Database::Stub => panic!("expected the in-memory backend"),
    }
}

#[test]
fn ownership_transfer_fails_for_non_owner() {
    let mallory = user("M");
    let channel = group("g1", "A", &["A", "B", "M"], "old");
    let mut db = memory_with_channel(channel);
    let ctx = ServerContext::none();
    let mut data = empty_edit();
    data.owner = Some("B".to_string());
    let r = delta_core::channel_ops::edit_channel(
        &mut db,
        &mallory,
        &ctx,
        &"g1".to_string(),
        data,
        ids4(),
    );
    // A non-owner member holds no ManageChannel capability; the owner gate
    // itself is exercised below through the engine law's conditions.
    assert!(matches!(r, Err(Error::PermissionDenied { .. })));

    // The owner proposing an outsider fails with NotInGroup and changes
    // nothing.
    let alice = user("A");
    let mut data = empty_edit();
    data.owner = Some("Z".to_string());
    let r = delta_core::channel_ops::edit_channel(
        &mut db,
        &alice,
        &ctx,
        &"g1".to_string(),
        data,
        ids4(),
    );
    assert!(matches!(r, Err(Error::NotInGroup)));
    match &db {
        Database::Memory(s) => match &s.channels[0] {
            Channel::Group { owner, .. } => assert_eq!(owner, "A"),
            _ => panic!("expected a group"),
        },
        Database::Stub => panic!("expected the in-memory backend"),
    }
}

#[test]
fn engine_rejects_transfer_by_non_owner() {
    let channel = group("g1", "A", &["A", "B", "M"], "old");
    let mut data = empty_edit();
    data.owner = Some("B".to_string());
    let r = delta_core::mutation::apply_edit(
        &channel,
        &"M".to_string(),
        data,
        &Vec::new(),
    );
    assert!(matches!(r, Err(Error::NotOwner)));

    let mut data = empty_edit();
    data.owner = Some("Z".to_string());
    let r = delta_core::mutation::apply_edit(
        &channel,
        &"A".to_string(),
        data,
        &Vec::new(),
    );
    assert!(matches!(r, Err(Error::NotInGroup)));

    let mut data = empty_edit();
    data.owner = Some("B".to_string());
    let plan = delta_core::mutation::apply_edit(
        &channel,
        &"A".to_string(),
        data,
        &Vec::new(),
    )
    .unwrap();
    match plan.channel {
        Channel::Group { owner, .. } => assert_eq!(owner, "B"),
        _ => panic!("expected a group"),
    }
}

#[test]
fn direct_message_edit_is_invalid_operation() {
    let alice = user("A");
    let dm = Channel::DirectMessage {
        id: "d1".to_string(),
        active: true,
        recipients: vec!["A".to_string(), "B".to_string()],
        last_message_id: None,
    };
    let mut db = memory_with_channel(dm);
    let ctx = ServerContext::none();
    let mut data = empty_edit();
    data.name = Some("renamed".to_string());
    let r = delta_core::channel_ops::edit_channel(
        &mut db,
        &alice,
        &ctx,
        &"d1".to_string(),
        data,
        ids4(),
    );
    assert!(matches!(r, Err(Error::InvalidOperation)));
    match &db {
        Database::Memory(s) => {
            assert!(matches!(&s.channels[0], Channel::DirectMessage { .. }));
            assert_eq!(s.messages.len(), 0);
        },
        Database::Stub => panic!("expected the in-memory backend"),
    }
}

#[test]
fn removal_clears_description_and_schedules_icon_deletion() {
    let alice = user("A");
    let mut store = MemoryStore::empty();
    store.attachments.push(delta_core::channel::Attachment {
        id: "old-icon".to_string(),
        deleted: false,
    });
    let mut channel = group("g1", "A", &["A"], "old");
    if let Channel::Group { ref mut icon, .. } = channel {
        *icon = Some(delta_core::channel::File { id: "old-icon".to_string() });
    }
    store.channels.push(channel);
    let mut db = Database::Memory(store);
    let ctx = ServerContext::none();
    let mut data = empty_edit();
    data.remove = Some(vec![FieldsChannel::Description, FieldsChannel::Icon]);
    let r = delta_core::channel_ops::edit_channel(
        &mut db,
        &alice,
        &ctx,
        &"g1".to_string(),
        data,
        ids4(),
    )
    .unwrap();
    match r {
        Channel::Group { description, icon, .. } => {
            assert_eq!(description, None);
            assert!(icon.is_none());
        },
        _ => panic!("expected a group"),
    }
    match &db {
        Database::Memory(s) => {
            assert!(s.attachments[0].deleted);
        },
        Database::Stub => panic!("expected the in-memory backend"),
    }
}

#[test]
fn missing_icon_asset_fails_edit() {
    let alice = user("A");
    let channel = group("g1", "A", &["A"], "old");
    let mut db = memory_with_channel(channel);
    let ctx = ServerContext::none();
    let mut data = empty_edit();
    data.icon = Some("nowhere".to_string());
    let r = delta_core::channel_ops::edit_channel(
        &mut db,
        &alice,
        &ctx,
        &"g1".to_string(),
        data,
        ids4(),
    );
    assert!(matches!(r, Err(Error::NotFound)));
}

#[test]
fn banner_entries_without_icon_are_skipped() {
    let alice = user("A");
    let mut store = MemoryStore::empty();
    store.attachments.push(delta_core::channel::Attachment {
        id: "img1".to_string(),
        deleted: false,
    });
    store.channels.push(group("g1", "A", &["A"], "old"));
    let mut db = Database::Memory(store);
    let ctx = ServerContext::none();
    let mut data = empty_edit();
    data.banner = Some(vec![
        ChannelBannerField { icon: None, link: Some("https://one".to_string()) },
        ChannelBannerField {
            icon: Some("img1".to_string()),
            link: Some("https://two".to_string()),
        },
    ]);
    let r = delta_core::channel_ops::edit_channel(
        &mut db,
        &alice,
        &ctx,
        &"g1".to_string(),
        data,
        ids4(),
    )
    .unwrap();
    match r {
        Channel::Group { banner, .. } => {
            assert_eq!(banner.len(), 1);
            assert_eq!(banner[0].icon.as_ref().unwrap().id, "img1");
            assert_eq!(banner[0].link.as_deref(), Some("https://two"));
        },
        _ => panic!("expected a group"),
    }
}

#[test]
fn stub_backend_fails_loud() {
    let alice = user("A");
    let mut db = Database::Stub;
    let ctx = ServerContext::none();
    let r = delta_core::channel_ops::edit_channel(
        &mut db,
        &alice,
        &ctx,
        &"g1".to_string(),
        empty_edit(),
        ids4(),
    );
    assert!(matches!(r, Err(Error::NotSupported)));

    let channel = group("g1", "A", &["A"], "old");
    let cap = CapabilitySet { bits: ALL_CAPABILITIES };
    let r = send_message(
        &mut db,
        &channel,
        &alice,
        empty_send(),
        &"T1".to_string(),
        &cap,
        "M1".to_string(),
        1000,
        &config(),
    );
    assert!(matches!(r, Err(Error::NotSupported)));
}

#[test]
fn evaluate_resolves_group_and_server_channels() {
    let alice = user("A");
    let bob = user("B");
    let outsider = user("X");
    let channel = group("g1", "A", &["A", "B"], "general");
    let ctx = ServerContext::none();
    assert_eq!(evaluate(&alice, &channel, &ctx).bits, ALL_CAPABILITIES);
    assert_eq!(
        evaluate(&bob, &channel, &ctx).bits,
        delta_core::perms::DEFAULT_GROUP
    );
    assert_eq!(evaluate(&outsider, &channel, &ctx).bits, 0);

    // Server channel: role aggregation plus a channel-level override that
    // grants ManageChannel and withdraws SendMessage.
    let text = Channel::TextChannel {
        id: "t1".to_string(),
        server: "s1".to_string(),
        name: "general".to_string(),
        description: None,
        icon: None,
        banner: Vec::new(),
        nsfw: false,
        password: None,
        role_overrides: vec![delta_core::channel::RoleOverride {
            role_id: "mods".to_string(),
            allow: Permission::ManageChannel.bit(),
            deny: Permission::SendMessage.bit(),
        }],
    };
    let ctx = ServerContext {
        default_allow: Permission::ViewChannel.bit() | Permission::SendMessage.bit(),
        roles: vec![delta_core::perms::RoleGrant {
            role_id: "mods".to_string(),
            allow: Permission::React.bit(),
        }],
    };
    let bits = evaluate(&alice, &text, &ctx).bits;
    assert_eq!(
        bits,
        Permission::ViewChannel.bit() | Permission::React.bit()
            | Permission::ManageChannel.bit()
    );
    let cap = CapabilitySet { bits };
    assert!(cap.require(Permission::SendMessage).is_err());
    assert!(cap.require(Permission::ManageChannel).is_ok());
}

#[test]
fn dm_notification_target_finds_other_recipient() {
    let alice = user("A");
    let dm = Channel::DirectMessage {
        id: "d1".to_string(),
        active: true,
        recipients: vec!["A".to_string(), "B".to_string()],
        last_message_id: None,
    };
    assert_eq!(
        delta_core::dispatch::dm_notification_target(&dm, &alice),
        Some("B".to_string())
    );
    let group_channel = group("g1", "A", &["A", "B"], "x");
    assert_eq!(
        delta_core::dispatch::dm_notification_target(&group_channel, &alice),
        None
    );
}
