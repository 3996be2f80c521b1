//! Sample users.
use crate::entities::{TimezoneEnum, User};
use crate::ids::{new_v4_id, random_uuid_string, uuid_version};
use crate::time::{current_time, is_clock_reading};
use vstd::prelude::*;

verus! {

/// An active sample user, Lynx Levin in Tokyo, with a fresh version 4 id, a
/// random address at `test.com` and password "password", created now.
pub fn user() -> (r: User)
    ensures
        uuid_version(r.id) == 4,
        r.email@.len() == 45,
        r.email@.subrange(36, 45) == "@test.com"@,
        r.password@ == "password"@,
        r.first_name@ == "Lynx"@,
        r.last_name@ == "Levin"@,
        r.timezone == TimezoneEnum::AsiaTokyo,
        r.is_active,
        r.updated_at == r.created_at,
        is_clock_reading(r.created_at),
{
    let now = current_time();
    let local = random_uuid_string();
    let email = local.concat("@test.com");
    proof {
        reveal_strlit("@test.com");
        assert(email@.subrange(36, 45) =~= "@test.com"@);
    }
    User {
        id: new_v4_id(),
        email,
        password: "password".to_string(),
        first_name: "Lynx".to_string(),
        last_name: "Levin".to_string(),
        timezone: TimezoneEnum::AsiaTokyo,
        is_active: true,
        created_at: now,
        updated_at: now,
    }
}

/// `x` with its is active set to `is_active`.
pub open spec fn user_with_is_active(x: User, is_active: bool) -> User {
    User { is_active, ..x }
}

pub trait UserFactory {
    fn is_active(self, is_active: bool) -> User;
}

impl UserFactory for User {
    /// The user with `is_active` set as given.
    fn is_active(self, is_active: bool) -> (r: User)
        ensures
            r == user_with_is_active(self, is_active),
    {
        User { is_active, ..self }
    }
}

/// Setting a sample's is active gives it the value asked for and changes no other
/// field.
pub proof fn lemma_user_with_is_active_sets_only_it(x: User, is_active: bool)
    ensures
        ({
            let b = user_with_is_active(x, is_active);
            &&& b.is_active == is_active
            &&& b.id == x.id
            &&& b.email == x.email
            &&& b.password == x.password
            &&& b.first_name == x.first_name
            &&& b.last_name == x.last_name
            &&& b.timezone == x.timezone
            &&& b.created_at == x.created_at
            &&& b.updated_at == x.updated_at
        }),
{
}

} // verus!
