use vstd::prelude::*;

use crate::error::Error;
use crate::store::{Database, StoreV};

verus! {

/// How long an invitation token stays valid, in milliseconds: seven days.
pub const INVITE_VALIDITY_MS: i64 = 604800000;

/// An invitation token: an opaque random token bound to its creator, valid
/// for a bounded window. `expiry_date` is milliseconds since the epoch.
pub struct InvitationToken {
    pub id: Option<String>,
    pub token_type: Option<String>,
    pub expiry_date: i64,
    pub token: String,
    pub creator_id: String,
}

/// Mathematical value of an `InvitationToken`.
#[verifier::ext_equal]
pub struct InvitationTokenV {
    pub id: Option<Seq<char>>,
    pub token_type: Option<Seq<char>>,
    pub expiry_date: i64,
    pub token: Seq<char>,
    pub creator_id: Seq<char>,
}

impl DeepView for InvitationToken {
    type V = InvitationTokenV;

    open spec fn deep_view(&self) -> InvitationTokenV {
        InvitationTokenV {
            id: self.id.deep_view(),
            token_type: self.token_type.deep_view(),
            expiry_date: self.expiry_date,
            token: self.token@,
            creator_id: self.creator_id@,
        }
    }
}

/// When a token issued at `now` expires: seven days later, clamped at the
/// end of representable time.
pub open spec fn invite_expiry_of(now: i64) -> i64 {
    if now as int + INVITE_VALIDITY_MS as int <= i64::MAX as int {
        (now + INVITE_VALIDITY_MS) as i64
    } else {
        i64::MAX
    }
}

/// The token record an issuance at `now` creates for `creator`.
pub open spec fn built_invite_token(
    creator: Seq<char>,
    token: Seq<char>,
    now: i64,
) -> InvitationTokenV {
    InvitationTokenV {
        id: None,
        token_type: Some("invite"@),
        expiry_date: invite_expiry_of(now),
        token,
        creator_id: creator,
    }
}

/// Copy a token record, keeping its contents.
pub fn clone_invite_token(t: &InvitationToken) -> (r: InvitationToken)
    ensures
        r.deep_view() == t.deep_view(),
{
    InvitationToken {
        id: crate::channel::clone_opt_string(&t.id),
        token_type: crate::channel::clone_opt_string(&t.token_type),
        expiry_date: t.expiry_date,
        token: t.token.clone(),
        creator_id: t.creator_id.clone(),
    }
}

/// Record a new invitation token for `creator_id`, issued at `now` with the
/// given opaque token text: type "invite", expiring seven days after
/// issuance. No idempotency: every call records a new token.
pub fn record_invite_token(
    db: &mut Database,
    creator_id: String,
    token: String,
    now: i64,
) -> (r: Result<InvitationToken, Error>)
    ensures
        old(db).deep_view() is None ==> *final(db) == *old(db) && r == Err::<
            InvitationToken,
            Error,
        >(Error::NotSupported),
        old(db).deep_view() matches Some(s) ==> {
            let t = built_invite_token(creator_id@, token@, now);
            &&& final(db).deep_view() == Some(
                StoreV { invite_tokens: s.invite_tokens.push(t), ..s },
            )
            &&& r matches Ok(out) && out.deep_view() == t
        },
{
    let expiry_date = if now <= i64::MAX - INVITE_VALIDITY_MS {
        now + INVITE_VALIDITY_MS
    } else {
        i64::MAX
    };
    let record = InvitationToken {
        id: None,
        token_type: Some("invite".to_owned()),
        expiry_date,
        token,
        creator_id,
    };
    let out = clone_invite_token(&record);
    match db.insert_invite_token(record) {
        Ok(()) => Ok(out),
        Err(e) => Err(e),
    }
}

/// Generate a new invitation token for `creator_id`: a fresh 32-symbol
/// opaque token, issued now. Always creates a new record.
pub fn generate_invite_token(db: &mut Database, creator_id: String) -> (r: Result<
    InvitationToken,
    Error,
>)
    ensures
        old(db).deep_view() is None ==> *final(db) == *old(db) && r == Err::<
            InvitationToken,
            Error,
        >(Error::NotSupported),
        old(db).deep_view() matches Some(s) ==> (r matches Ok(out) && {
            &&& final(db).deep_view() == Some(
                StoreV { invite_tokens: s.invite_tokens.push(out.deep_view()), ..s },
            )
            &&& out.deep_view().creator_id == creator_id@
            &&& out.deep_view().token.len() == 32
            &&& out.deep_view().token_type == Some("invite"@)
            &&& out.deep_view().id is None
        }),
{
    let token = crate::external::nano_id(32);
    let now = crate::external::now_millis();
    record_invite_token(db, creator_id, token, now)
}

} // verus!
