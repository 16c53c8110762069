use vstd::prelude::*;

use crate::channel::{Channel, ChannelV, PartialChannel, PartialChannelV};

verus! {

/// A message authored by the system (never a real user) describing a
/// derived state change of a channel.
pub enum SystemMessage {
    ChannelOwnershipChanged { from: String, to: String },
    ChannelRenamed { name: String, by: String },
    ChannelDescriptionChanged { by: String },
    ChannelIconChanged { by: String },
}

/// Mathematical value of a `SystemMessage`.
#[verifier::ext_equal]
pub enum SystemMessageV {
    ChannelOwnershipChanged { from: Seq<char>, to: Seq<char> },
    ChannelRenamed { name: Seq<char>, by: Seq<char> },
    ChannelDescriptionChanged { by: Seq<char> },
    ChannelIconChanged { by: Seq<char> },
}

impl DeepView for SystemMessage {
    type V = SystemMessageV;

    open spec fn deep_view(&self) -> SystemMessageV {
        match self {
            SystemMessage::ChannelOwnershipChanged { from, to } => {
                SystemMessageV::ChannelOwnershipChanged { from: from@, to: to@ }
            },
            SystemMessage::ChannelRenamed { name, by } => SystemMessageV::ChannelRenamed {
                name: name@,
                by: by@,
            },
            SystemMessage::ChannelDescriptionChanged { by } => {
                SystemMessageV::ChannelDescriptionChanged { by: by@ }
            },
            SystemMessage::ChannelIconChanged { by } => SystemMessageV::ChannelIconChanged {
                by: by@,
            },
        }
    }
}

/// The system messages a completed mutation gives rise to.
///
/// Only `Group` channels emit them. In order: an ownership transfer (from
/// the owner before the mutation), a rename, a description change, an icon
/// change — one message for each such field present in the applied partial.
pub open spec fn emitted_messages(
    before: ChannelV,
    partial: PartialChannelV,
    by: Seq<char>,
) -> Seq<SystemMessageV> {
    if !(before is Group) {
        Seq::empty()
    } else {
        (match partial.owner {
            Some(to) => seq![
                SystemMessageV::ChannelOwnershipChanged { from: before->Group_owner, to },
            ],
            None => Seq::empty(),
        }) + (match partial.name {
            Some(name) => seq![SystemMessageV::ChannelRenamed { name, by }],
            None => Seq::empty(),
        }) + (if partial.description is Some {
            seq![SystemMessageV::ChannelDescriptionChanged { by }]
        } else {
            Seq::empty()
        }) + (if partial.icon is Some {
            seq![SystemMessageV::ChannelIconChanged { by }]
        } else {
            Seq::empty()
        })
    }
}

/// Derive the system messages for a mutation of `before` whose applied
/// fields are `partial`, requested by `by`. Pure derivation: persisting the
/// result is the caller's (best-effort) concern.
pub fn derive_system_messages(before: &Channel, partial: &PartialChannel, by: &String) -> (r: Vec<
    SystemMessage,
>)
    ensures
        r.deep_view() == emitted_messages(before.deep_view(), partial.deep_view(), by@),
{
    let mut out: Vec<SystemMessage> = Vec::new();
    let is_group = match before {
        Channel::Group { .. } => true,
        _ => false,
    };
    if is_group {
        match (before, &partial.owner) {
            (Channel::Group { owner, .. }, Some(to)) => {
                out.push(SystemMessage::ChannelOwnershipChanged {
                    from: owner.clone(),
                    to: to.clone(),
                });
            },
            _ => {},
        }
        match &partial.name {
            Some(name) => {
                out.push(SystemMessage::ChannelRenamed { name: name.clone(), by: by.clone() });
            },
            None => {},
        }
        if partial.description.is_some() {
            out.push(SystemMessage::ChannelDescriptionChanged { by: by.clone() });
        }
        if partial.icon.is_some() {
            out.push(SystemMessage::ChannelIconChanged { by: by.clone() });
        }
    }
    proof {
        assert(out.deep_view() =~= emitted_messages(before.deep_view(), partial.deep_view(), by@));
    }
    out
}

} // verus!
