use vstd::prelude::*;

use crate::channel::clone_opt_string;
use crate::system_message::{SystemMessage, SystemMessageV};

verus! {

/// Who authored a message: a user, or the system itself. System messages
/// are never attributed to a real user.
pub enum Author {
    User(String),
    System,
}

/// Mathematical value of an `Author`.
#[verifier::ext_equal]
pub enum AuthorV {
    User(Seq<char>),
    System,
}

impl DeepView for Author {
    type V = AuthorV;

    open spec fn deep_view(&self) -> AuthorV {
        match self {
            Author::User(id) => AuthorV::User(id@),
            Author::System => AuthorV::System,
        }
    }
}

/// An embed a client asks to attach to a message.
pub struct SendableEmbed {
    pub icon_url: Option<String>,
    pub url: Option<String>,
    pub title: Option<String>,
    pub description: Option<String>,
    pub colour: Option<String>,
}

/// Mathematical value of a `SendableEmbed`.
#[verifier::ext_equal]
pub struct SendableEmbedV {
    pub icon_url: Option<Seq<char>>,
    pub url: Option<Seq<char>>,
    pub title: Option<Seq<char>>,
    pub description: Option<Seq<char>>,
    pub colour: Option<Seq<char>>,
}

impl DeepView for SendableEmbed {
    type V = SendableEmbedV;

    open spec fn deep_view(&self) -> SendableEmbedV {
        SendableEmbedV {
            icon_url: self.icon_url.deep_view(),
            url: self.url.deep_view(),
            title: self.title.deep_view(),
            description: self.description.deep_view(),
            colour: self.colour.deep_view(),
        }
    }
}

/// A masquerade override: name, avatar and colour a message is displayed
/// with in place of its author's.
pub struct Masquerade {
    pub name: Option<String>,
    pub avatar: Option<String>,
    pub colour: Option<String>,
}

/// Mathematical value of a `Masquerade`.
#[verifier::ext_equal]
pub struct MasqueradeV {
    pub name: Option<Seq<char>>,
    pub avatar: Option<Seq<char>>,
    pub colour: Option<Seq<char>>,
}

impl DeepView for Masquerade {
    type V = MasqueradeV;

    open spec fn deep_view(&self) -> MasqueradeV {
        MasqueradeV {
            name: self.name.deep_view(),
            avatar: self.avatar.deep_view(),
            colour: self.colour.deep_view(),
        }
    }
}

/// Information about how others can interact with a message.
pub struct Interactions {
    pub reactions: Option<Vec<String>>,
    pub restrict_reactions: bool,
}

/// Mathematical value of `Interactions`.
#[verifier::ext_equal]
pub struct InteractionsV {
    pub reactions: Option<Seq<Seq<char>>>,
    pub restrict_reactions: bool,
}

impl DeepView for Interactions {
    type V = InteractionsV;

    open spec fn deep_view(&self) -> InteractionsV {
        InteractionsV {
            reactions: self.reactions.deep_view(),
            restrict_reactions: self.restrict_reactions,
        }
    }
}

impl InteractionsV {
    /// Restricted reactions only make sense over a non-empty reaction list.
    pub open spec fn valid(self) -> bool {
        self.restrict_reactions ==> (self.reactions matches Some(r) && r.len() > 0)
    }
}

/// A send-message request: content, optional embeds, attachments,
/// masquerade and interactions.
pub struct DataMessageSend {
    pub content: Option<String>,
    pub attachments: Option<Vec<String>>,
    pub embeds: Option<Vec<SendableEmbed>>,
    pub masquerade: Option<Masquerade>,
    pub interactions: Option<Interactions>,
}

/// Mathematical value of a `DataMessageSend`.
#[verifier::ext_equal]
pub struct DataMessageSendV {
    pub content: Option<Seq<char>>,
    pub attachments: Option<Seq<Seq<char>>>,
    pub embeds: Option<Seq<SendableEmbedV>>,
    pub masquerade: Option<MasqueradeV>,
    pub interactions: Option<InteractionsV>,
}

impl DeepView for DataMessageSend {
    type V = DataMessageSendV;

    open spec fn deep_view(&self) -> DataMessageSendV {
        DataMessageSendV {
            content: self.content.deep_view(),
            attachments: self.attachments.deep_view(),
            embeds: self.embeds.deep_view(),
            masquerade: self.masquerade.deep_view(),
            interactions: self.interactions.deep_view(),
        }
    }
}

/// A message: created exactly once per accepted send and never mutated.
pub struct Message {
    pub id: String,
    pub channel: String,
    pub author: Author,
    pub content: Option<String>,
    pub system: Option<SystemMessage>,
    pub attachments: Option<Vec<String>>,
    pub embeds: Option<Vec<SendableEmbed>>,
    pub masquerade: Option<Masquerade>,
}

/// Mathematical value of a `Message`.
#[verifier::ext_equal]
pub struct MessageV {
    pub id: Seq<char>,
    pub channel: Seq<char>,
    pub author: AuthorV,
    pub content: Option<Seq<char>>,
    pub system: Option<SystemMessageV>,
    pub attachments: Option<Seq<Seq<char>>>,
    pub embeds: Option<Seq<SendableEmbedV>>,
    pub masquerade: Option<MasqueradeV>,
}

impl DeepView for Message {
    type V = MessageV;

    open spec fn deep_view(&self) -> MessageV {
        MessageV {
            id: self.id@,
            channel: self.channel@,
            author: self.author.deep_view(),
            content: self.content.deep_view(),
            system: self.system.deep_view(),
            attachments: self.attachments.deep_view(),
            embeds: self.embeds.deep_view(),
            masquerade: self.masquerade.deep_view(),
        }
    }
}

/// Maps one (author, idempotency token) pair to the message it produced, so
/// that request retries are deduplicated. Read-only after creation; expires
/// after a bounded window.
pub struct IdempotencyRecord {
    pub author: String,
    pub token: String,
    pub message_id: String,
    pub created_at: u64,
}

/// Mathematical value of an `IdempotencyRecord`.
#[verifier::ext_equal]
pub struct IdempotencyRecordV {
    pub author: Seq<char>,
    pub token: Seq<char>,
    pub message_id: Seq<char>,
    pub created_at: u64,
}

impl DeepView for IdempotencyRecord {
    type V = IdempotencyRecordV;

    open spec fn deep_view(&self) -> IdempotencyRecordV {
        IdempotencyRecordV {
            author: self.author@,
            token: self.token@,
            message_id: self.message_id@,
            created_at: self.created_at,
        }
    }
}

// ---------------------------------------------------------------------------
// Value-preserving copies
// ---------------------------------------------------------------------------

/// Copy an author, keeping its contents.
pub fn clone_author(a: &Author) -> (r: Author)
    ensures
        r.deep_view() == a.deep_view(),
{
    match a {
        Author::User(id) => Author::User(id.clone()),
        Author::System => Author::System,
    }
}

/// Copy an embed, keeping its contents.
pub fn clone_embed(e: &SendableEmbed) -> (r: SendableEmbed)
    ensures
        r.deep_view() == e.deep_view(),
{
    SendableEmbed {
        icon_url: clone_opt_string(&e.icon_url),
        url: clone_opt_string(&e.url),
        title: clone_opt_string(&e.title),
        description: clone_opt_string(&e.description),
        colour: clone_opt_string(&e.colour),
    }
}

/// Copy an optional embed list, keeping its contents.
pub fn clone_opt_embeds(v: &Option<Vec<SendableEmbed>>) -> (r: Option<Vec<SendableEmbed>>)
    ensures
        r.deep_view() == v.deep_view(),
{
    match v {
        None => None,
        Some(embeds) => {
            let mut out: Vec<SendableEmbed> = Vec::new();
            let mut i: usize = 0;
            while i < embeds.len()
                invariant
                    i <= embeds.len(),
                    out.len() == i,
                    forall|j: int| 0 <= j < i ==> out.deep_view()[j] == embeds.deep_view()[j],
                decreases embeds.len() - i,
            {
                out.push(clone_embed(&embeds[i]));
                proof {
                    assert(out.deep_view()[i as int] == out@[i as int].deep_view());
                    assert(embeds.deep_view()[i as int] == embeds@[i as int].deep_view());
                }
                i = i + 1;
            }
            proof {
                assert(out.deep_view() =~= embeds.deep_view());
            }
            Some(out)
        },
    }
}

/// Copy an optional string list, keeping its contents.
pub fn clone_opt_strings(v: &Option<Vec<String>>) -> (r: Option<Vec<String>>)
    ensures
        r.deep_view() == v.deep_view(),
{
    match v {
        None => None,
        Some(strings) => Some(crate::channel::clone_strings(strings)),
    }
}

/// Copy an optional masquerade, keeping its contents.
pub fn clone_opt_masquerade(m: &Option<Masquerade>) -> (r: Option<Masquerade>)
    ensures
        r.deep_view() == m.deep_view(),
{
    match m {
        None => None,
        Some(masq) => Some(
            Masquerade {
                name: clone_opt_string(&masq.name),
                avatar: clone_opt_string(&masq.avatar),
                colour: clone_opt_string(&masq.colour),
            },
        ),
    }
}

/// Copy an optional system message, keeping its contents.
pub fn clone_opt_system(m: &Option<SystemMessage>) -> (r: Option<SystemMessage>)
    ensures
        r.deep_view() == m.deep_view(),
{
    match m {
        None => None,
        Some(SystemMessage::ChannelOwnershipChanged { from, to }) => Some(
            SystemMessage::ChannelOwnershipChanged { from: from.clone(), to: to.clone() },
        ),
        Some(SystemMessage::ChannelRenamed { name, by }) => Some(
            SystemMessage::ChannelRenamed { name: name.clone(), by: by.clone() },
        ),
        Some(SystemMessage::ChannelDescriptionChanged { by }) => Some(
            SystemMessage::ChannelDescriptionChanged { by: by.clone() },
        ),
        Some(SystemMessage::ChannelIconChanged { by }) => Some(
            SystemMessage::ChannelIconChanged { by: by.clone() },
        ),
    }
}

impl Message {
    /// Copy a message, keeping its contents.
    pub fn duplicate(&self) -> (r: Message)
        ensures
            r.deep_view() == self.deep_view(),
    {
        Message {
            id: self.id.clone(),
            channel: self.channel.clone(),
            author: clone_author(&self.author),
            content: clone_opt_string(&self.content),
            system: clone_opt_system(&self.system),
            attachments: clone_opt_strings(&self.attachments),
            embeds: clone_opt_embeds(&self.embeds),
            masquerade: clone_opt_masquerade(&self.masquerade),
        }
    }
}

} // verus!
