//! Registering users, activating them and changing their passwords.
use crate::entities::{TimezoneEnum, User};
use crate::ids::{now_v7_id, uuid_version, Id};
use crate::time::{current_time, is_clock_reading, Timestamp};
use vstd::prelude::*;

verus! {

/// What registration gives to create a user.
#[derive(Clone, Debug, PartialEq, Eq)]
pub struct NewUser {
    pub email: String,
    pub password: String,
    pub first_name: String,
    pub last_name: String,
    pub is_active: bool,
}

/// The user created from `form` under `id` at `now`, in the Tokyo time zone.
pub open spec fn new_user(form: NewUser, id: Id, now: Timestamp) -> User {
    User {
        id,
        email: form.email,
        password: form.password,
        first_name: form.first_name,
        last_name: form.last_name,
        is_active: form.is_active,
        timezone: TimezoneEnum::AsiaTokyo,
        created_at: now,
        updated_at: now,
    }
}

/// `user` activated at `now`.
pub open spec fn activated_user(user: User, now: Timestamp) -> User {
    User { is_active: true, updated_at: now, ..user }
}

/// `user` with password `password`, changed at `now`.
pub open spec fn user_with_password(user: User, password: String, now: Timestamp) -> User {
    User { password, updated_at: now, ..user }
}

pub struct Mutation;

impl Mutation {
    /// The user to insert for `form`, under a fresh version 7 id and stamped with
    /// the current time.
    pub fn create_user(form: NewUser) -> (r: User)
        ensures
            r == new_user(form, r.id, r.created_at),
            uuid_version(r.id) == 7,
            is_clock_reading(r.created_at),
    {
        let now = current_time();
        User {
            id: now_v7_id(),
            email: form.email,
            password: form.password,
            first_name: form.first_name,
            last_name: form.last_name,
            is_active: form.is_active,
            timezone: TimezoneEnum::AsiaTokyo,
            created_at: now,
            updated_at: now,
        }
    }

    /// `user`, activated and stamped with the current time.
    pub fn activate_user_by_id(user: User) -> (r: User)
        ensures
            r == activated_user(user, r.updated_at),
            is_clock_reading(r.updated_at),
    {
        User { is_active: true, updated_at: current_time(), ..user }
    }

    /// `user` with password `password`, stamped with the current time.
    pub fn update_user_password(user: User, password: String) -> (r: User)
        ensures
            r == user_with_password(user, password, r.updated_at),
            is_clock_reading(r.updated_at),
    {
        User { password, updated_at: current_time(), ..user }
    }
}

/// A registered user holds exactly what the form gave: address, password, both
/// names and the active flag; it is created and last updated at the same time.
pub proof fn lemma_new_user_keeps_form(form: NewUser, id: Id, now: Timestamp)
    ensures
        ({
            let u = new_user(form, id, now);
            &&& u.id == id
            &&& u.email == form.email
            &&& u.password == form.password
            &&& u.first_name == form.first_name
            &&& u.last_name == form.last_name
            &&& u.is_active == form.is_active
            &&& u.timezone == TimezoneEnum::AsiaTokyo
            &&& u.created_at == now
            &&& u.updated_at == now
        }),
{
}

/// Activating a user makes it active and changes nothing else but the update
/// time.
pub proof fn lemma_activation_changes_only_the_flag(user: User, now: Timestamp)
    ensures
        ({
            let u = activated_user(user, now);
            &&& u.is_active
            &&& u.updated_at == now
            &&& u.id == user.id
            &&& u.email == user.email
            &&& u.password == user.password
            &&& u.first_name == user.first_name
            &&& u.last_name == user.last_name
            &&& u.timezone == user.timezone
            &&& u.created_at == user.created_at
        }),
{
}

/// A password change sets the given password and changes nothing else but the
/// update time.
pub proof fn lemma_password_change_sets_only_the_password(user: User, password: String, now: Timestamp)
    ensures
        ({
            let u = user_with_password(user, password, now);
            &&& u.password == password
            &&& u.updated_at == now
            &&& u.id == user.id
            &&& u.email == user.email
            &&& u.first_name == user.first_name
            &&& u.last_name == user.last_name
            &&& u.is_active == user.is_active
            &&& u.timezone == user.timezone
            &&& u.created_at == user.created_at
        }),
{
}

} // verus!
