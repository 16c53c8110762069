use vstd::prelude::*;

use crate::channel::File;

verus! {

// ---------------------------------------------------------------------------
// Relationships
// ---------------------------------------------------------------------------

/// A user's relationship with another user (or themselves).
#[derive(Debug, Clone, Copy, PartialEq, Eq, Structural)]
pub enum RelationshipStatus {
    NoRelation,
    User,
    Friend,
    Outgoing,
    Incoming,
    Blocked,
    BlockedOther,
}

impl Default for RelationshipStatus {
    fn default() -> (r: RelationshipStatus)
        ensures
            r == RelationshipStatus::NoRelation,
    {
        RelationshipStatus::NoRelation
    }
}

/// Relationship entry indicating current status with another user.
pub struct Relationship {
    pub user_id: String,
    pub status: RelationshipStatus,
}

/// Mathematical value of a `Relationship`.
#[verifier::ext_equal]
pub struct RelationshipV {
    pub user_id: Seq<char>,
    pub status: RelationshipStatus,
}

impl DeepView for Relationship {
    type V = RelationshipV;

    open spec fn deep_view(&self) -> RelationshipV {
        RelationshipV { user_id: self.user_id@, status: self.status }
    }
}

/// The status that a relationship list records for `user`: the status of the
/// first entry for that user, or `NoRelation` when no entry names the user.
pub open spec fn relationship_with(relations: Seq<RelationshipV>, user: Seq<char>) -> RelationshipStatus
    decreases relations.len(),
{
    if relations.len() == 0 {
        RelationshipStatus::NoRelation
    } else if relations[0].user_id == user {
        relations[0].status
    } else {
        relationship_with(relations.drop_first(), user)
    }
}

/// Look up the recorded relationship with `user` in a relationship list.
pub fn lookup_relationship(relations: &Vec<Relationship>, user: &str) -> (r: RelationshipStatus)
    ensures
        r == relationship_with(relations.deep_view(), user@),
{
    let user_string: String = user.to_owned();
    let ghost dv = relations.deep_view();
    proof {
        assert(dv.skip(0) =~= dv);
    }
    let mut i: usize = 0;
    while i < relations.len()
        invariant
            i <= relations.len(),
            dv == relations.deep_view(),
            user_string@ == user@,
            relationship_with(dv, user@) == relationship_with(dv.skip(i as int), user@),
        decreases relations.len() - i,
    {
        proof {
            assert(dv[i as int] == relations@[i as int].deep_view());
            assert(dv.skip(i as int)[0] == dv[i as int]);
            assert(dv.skip(i as int).drop_first() =~= dv.skip(i as int + 1));
        }
        if relations[i].user_id == user_string {
            return relations[i].status;
        }
        i = i + 1;
    }
    proof {
        assert(dv.skip(i as int) =~= Seq::<RelationshipV>::empty());
    }
    RelationshipStatus::NoRelation
}

/// Query a relationship list for the standing it records with a given user.
pub trait CheckRelationship {
    fn with(&self, user: &str) -> RelationshipStatus;
}

impl CheckRelationship for Vec<Relationship> {
    fn with(&self, user: &str) -> RelationshipStatus {
        lookup_relationship(self, user)
    }
}

// ---------------------------------------------------------------------------
// Users and accounts
// ---------------------------------------------------------------------------

/// Bot information for if the user is a bot.
pub struct BotInformation {
    pub owner_id: String,
}

/// A user, trimmed to the attributes the core logic reads.
pub struct User {
    pub id: String,
    pub username: String,
    pub discriminator: String,
    pub display_name: Option<String>,
    pub avatar: Option<File>,
    pub relations: Vec<Relationship>,
    pub badges: u32,
    pub flags: u32,
    pub privileged: bool,
    pub bot: Option<BotInformation>,
    pub relationship: RelationshipStatus,
    pub online: bool,
}

/// Mathematical value of a `User` (the attributes the logic reads).
#[verifier::ext_equal]
pub struct UserV {
    pub id: Seq<char>,
    pub username: Seq<char>,
    pub avatar: Option<Seq<char>>,
    pub bot: bool,
    pub relations: Seq<RelationshipV>,
}

impl DeepView for User {
    type V = UserV;

    open spec fn deep_view(&self) -> UserV {
        UserV {
            id: self.id@,
            username: self.username@,
            avatar: self.avatar.deep_view(),
            bot: self.bot is Some,
            relations: self.relations.deep_view(),
        }
    }
}

/// Copy a relationship list, keeping its contents.
pub fn clone_relations(v: &Vec<Relationship>) -> (r: Vec<Relationship>)
    ensures
        r.deep_view() == v.deep_view(),
{
    let mut out: Vec<Relationship> = Vec::new();
    let mut i: usize = 0;
    while i < v.len()
        invariant
            i <= v.len(),
            out.len() == i,
            forall|j: int| 0 <= j < i ==> out.deep_view()[j] == v.deep_view()[j],
        decreases v.len() - i,
    {
        let ghost prev_dv = out.deep_view();
        out.push(Relationship { user_id: v[i].user_id.clone(), status: v[i].status });
        proof {
            assert(forall|j: int| 0 <= j < i ==> #[trigger] out.deep_view()[j] == prev_dv[j]);
            assert(out.deep_view()[i as int] == out@[i as int].deep_view());
            assert(v.deep_view()[i as int] == v@[i as int].deep_view());
        }
        i = i + 1;
    }
    proof {
        assert(out.deep_view() =~= v.deep_view());
    }
    out
}

impl User {
    /// Copy a user, keeping the attributes the logic reads.
    pub fn duplicate(&self) -> (r: User)
        ensures
            r.deep_view() == self.deep_view(),
    {
        User {
            id: self.id.clone(),
            username: self.username.clone(),
            discriminator: self.discriminator.clone(),
            display_name: crate::channel::clone_opt_string(&self.display_name),
            avatar: crate::channel::clone_opt_file(&self.avatar),
            relations: clone_relations(&self.relations),
            badges: self.badges,
            flags: self.flags,
            privileged: self.privileged,
            bot: match &self.bot {
                Some(b) => Some(BotInformation { owner_id: b.owner_id.clone() }),
                None => None,
            },
            relationship: self.relationship,
            online: self.online,
        }
    }
}

/// Login account paired with a user: carries the contact email.
pub struct Account {
    pub id: String,
    pub email: String,
}

/// Mathematical value of an `Account`.
#[verifier::ext_equal]
pub struct AccountV {
    pub id: Seq<char>,
    pub email: Seq<char>,
}

impl DeepView for Account {
    type V = AccountV;

    open spec fn deep_view(&self) -> AccountV {
        AccountV { id: self.id@, email: self.email@ }
    }
}

/// A friend request by username.
pub struct DataSendFriendRequest {
    pub username: String,
}

// ---------------------------------------------------------------------------
// Friend requests
// ---------------------------------------------------------------------------

/// The mail text told to a user who receives a friend request.
pub open spec fn friend_request_text(from_username: Seq<char>) -> Seq<char> {
    "You received friend request from "@ + from_username
}

/// The mail text told to a user whose friend request was accepted.
pub open spec fn friend_accept_text(by_username: Seq<char>) -> Seq<char> {
    by_username + " accepted your friend request"@
}

/// Resolve a friend request sent by username: neither a bot may send one
/// nor may one be sent to a bot. On success, hand back the target user and
/// the notification text for them.
pub fn send_friend_request(
    db: &crate::store::Database,
    user: &User,
    data: &DataSendFriendRequest,
) -> (r: Result<(User, String), crate::error::Error>)
    ensures
        db.deep_view() is None ==> (r matches Err(e) && e == crate::error::Error::NotSupported),
        db.deep_view() matches Some(s) ==> match crate::store::user_by_username(
            s.users,
            data.username@,
        ) {
            None => r matches Err(e) && e == crate::error::Error::NotFound,
            Some(target) => {
                if user.bot is Some || target.bot {
                    r matches Err(e) && e == crate::error::Error::IsBot
                } else {
                    r matches Ok((t, text)) && t.deep_view() == target && text@
                        == friend_request_text(user.username@)
                }
            },
        },
{
    let target = match db.fetch_user_by_username(&data.username) {
        Ok(t) => t,
        Err(e) => {
            return Err(e);
        },
    };
    if user.bot.is_some() || target.bot.is_some() {
        return Err(crate::error::Error::IsBot);
    }
    let mut text: String = "You received friend request from ".to_owned();
    text.append(user.username.as_str());
    Ok((target, text))
}

/// Resolve the acceptance of a friend request from a user named by id: the
/// same bot gate, and on success the accepted user and the notification text
/// for them.
pub fn accept_friend_request(db: &crate::store::Database, user: &User, target_id: &String) -> (r:
    Result<(User, String), crate::error::Error>)
    ensures
        db.deep_view() is None ==> (r matches Err(e) && e == crate::error::Error::NotSupported),
        db.deep_view() matches Some(s) ==> match crate::store::user_by_id(s.users, target_id@) {
            None => r matches Err(e) && e == crate::error::Error::NotFound,
            Some(target) => {
                if user.bot is Some || target.bot {
                    r matches Err(e) && e == crate::error::Error::IsBot
                } else {
                    r matches Ok((t, text)) && t.deep_view() == target && text@
                        == friend_accept_text(user.username@)
                }
            },
        },
{
    let target = match db.fetch_user(target_id) {
        Ok(t) => t,
        Err(e) => {
            return Err(e);
        },
    };
    if user.bot.is_some() || target.bot.is_some() {
        return Err(crate::error::Error::IsBot);
    }
    let mut text: String = user.username.clone();
    text.append(" accepted your friend request");
    Ok((target, text))
}

} // verus!
