use vstd::prelude::*;

verus! {

/// A user's membership in a server, with the role ids held there.
pub struct Member {
    pub server: String,
    pub user: String,
    pub roles: Vec<String>,
}

/// Mathematical value of a `Member`.
#[verifier::ext_equal]
pub struct MemberV {
    pub server: Seq<char>,
    pub user: Seq<char>,
    pub roles: Seq<Seq<char>>,
}

impl DeepView for Member {
    type V = MemberV;

    open spec fn deep_view(&self) -> MemberV {
        MemberV { server: self.server@, user: self.user@, roles: self.roles.deep_view() }
    }
}

/// A hosted experience: its host and the users attending it.
pub struct Experience {
    pub id: String,
    pub host: String,
    pub attendees: Vec<String>,
}

/// Mathematical value of an `Experience`.
#[verifier::ext_equal]
pub struct ExperienceV {
    pub id: Seq<char>,
    pub host: Seq<char>,
    pub attendees: Seq<Seq<char>>,
}

impl DeepView for Experience {
    type V = ExperienceV;

    open spec fn deep_view(&self) -> ExperienceV {
        ExperienceV { id: self.id@, host: self.host@, attendees: self.attendees.deep_view() }
    }
}

} // verus!
