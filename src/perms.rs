use vstd::prelude::*;

verus! {

/// Permission tier of a guild member, from the lowest to the highest.
#[derive(Debug, Clone, Copy, PartialEq, Eq, Structural)]
pub enum UserPerm {
    Admin,
    DJ,
    User,
    NoPerms,
}

/// The stored level of each tier.
pub open spec fn level_of(p: UserPerm) -> int {
    match p {
        UserPerm::NoPerms => 0,
        UserPerm::User => 1,
        UserPerm::DJ => 2,
        UserPerm::Admin => 3,
    }
}

impl UserPerm {
    /// Decodes a stored level. A level outside `0..=3` is a broken record, not a user error,
    /// so callers must rule it out.
    pub fn from(i: i16) -> (r: UserPerm)
        requires
            0 <= i <= 3,
        ensures
            level_of(r) == i,
    {
        match i {
            0 => UserPerm::NoPerms,
            1 => UserPerm::User,
            2 => UserPerm::DJ,
            _ => UserPerm::Admin,
        }
    }

    /// The stored level of this tier.
    pub fn into(self) -> (r: i16)
        ensures
            r == level_of(self),
            0 <= r <= 3,
    {
        match self {
            UserPerm::NoPerms => 0,
            UserPerm::User => 1,
            UserPerm::DJ => 2,
            UserPerm::Admin => 3,
        }
    }
}

/// One stored row: a member and the level of their tier.
#[derive(Debug, Clone, Copy, PartialEq, Eq)]
pub struct UserIdPermLevel {
    pub user_id: i64,
    pub perm_level: i16,
}

impl UserIdPermLevel {
    /// The tier of this row; the stored level must be one of the four known ones.
    pub fn perm(&self) -> (r: UserPerm)
        requires
            0 <= self.perm_level <= 3,
        ensures
            level_of(r) == self.perm_level,
    {
        UserPerm::from(self.perm_level)
    }
}

/// Decoding a tier's level gives the tier back, and each known level is the level of one tier.
pub proof fn lemma_level_round_trip(p: UserPerm)
    ensures
        0 <= level_of(p) <= 3,
        forall|q: UserPerm| level_of(q) == level_of(p) ==> q == p,
{
}

} // verus!
