//! One profile per account: created once, then updated or deleted by the
//! account that owns it.
use vstd::prelude::*;
use crate::access::{ensure_signed, Config, Origin};
use crate::account::Key;
use crate::store::KeyedStore;

verus! {

/// What an account shows of itself.
#[derive(Debug, PartialEq, Eq)]
pub struct UserProfile {
    pub name: Vec<u8>,
    pub bio: Vec<u8>,
    pub avatar: Vec<u8>,
}

/// What happened to a profile.
#[derive(Debug, PartialEq, Eq)]
pub enum Event<T: Config> {
    UserProfileCreated(T::AccountId),
    UserProfileUpdated(T::AccountId),
    UserProfileDeleted(T::AccountId),
}

/// Why an operation on profiles was refused.
#[derive(Clone, Copy, Debug, PartialEq, Eq, Structural)]
pub enum Error {
    /// The account already has a profile.
    UserProfileAlreadyExists,
    /// The account has no profile.
    UserProfileNotFound,
    /// The call carries no identity.
    Unauthorized,
}

/// The count after one more profile: it stops at the largest `u32`.
pub open spec fn counted_up(count: u32) -> u32 {
    if count == u32::MAX {
        count
    } else {
        (count + 1) as u32
    }
}

/// The profiles of a deployment, by account, and how many were ever created.
pub struct Pallet<T: Config> {
    user_profiles: KeyedStore<T::AccountId, UserProfile>,
    user_count: u32,
}

impl<T: Config> Pallet<T> {
    /// The profiles by account.
    pub closed spec fn profiles(&self) -> Map<T::AccountId, UserProfile> {
        self.user_profiles@
    }

    /// How many profiles were created, counted up to the largest `u32`.
    pub closed spec fn count(&self) -> u32 {
        self.user_count
    }

    /// No profile yet.
    pub fn new() -> (r: Self)
        ensures
            r.profiles() == Map::<T::AccountId, UserProfile>::empty(),
            r.count() == 0,
    {
        Pallet { user_profiles: KeyedStore::new(), user_count: 0 }
    }

    /// The profile of `who`, if there is one.
    pub fn user_profiles(&self, who: &T::AccountId) -> (r: Option<&UserProfile>)
        ensures
            r == (if self.profiles().contains_key(*who) {
                Some(&self.profiles()[*who])
            } else {
                None
            }),
    {
        self.user_profiles.get(who)
    }

    /// How many profiles were created.
    pub fn user_count(&self) -> (r: u32)
        ensures
            r == self.count(),
    {
        self.user_count
    }

    /// Creates the caller's profile. An account has at most one.
    pub fn create_user_profile(
        &mut self,
        origin: Origin<T::AccountId>,
        name: Vec<u8>,
        bio: Vec<u8>,
        avatar: Vec<u8>,
    ) -> (r: Result<Event<T>, Error>)
        ensures
            match origin {
                Origin::Anonymous => {
                    &&& r == Err::<Event<T>, Error>(Error::Unauthorized)
                    &&& *final(self) == *old(self)
                },
                Origin::Signed(who) => if old(self).profiles().contains_key(who) {
                    &&& r == Err::<Event<T>, Error>(Error::UserProfileAlreadyExists)
                    &&& *final(self) == *old(self)
                } else {
                    &&& r == Ok::<Event<T>, Error>(Event::UserProfileCreated(who))
                    &&& final(self).profiles() == old(self).profiles().insert(
                        who,
                        UserProfile { name, bio, avatar },
                    )
                    &&& final(self).count() == counted_up(old(self).count())
                },
            },
    {
        let who = match ensure_signed(origin) {
            Ok(who) => who,
            Err(_) => {
                return Err(Error::Unauthorized);
            },
        };
        if self.user_profiles.contains_key(&who) {
            return Err(Error::UserProfileAlreadyExists);
        }
        let profile = UserProfile { name, bio, avatar };
        self.user_profiles.insert(who.duplicate(), profile);
        self.user_count = self.user_count.saturating_add(1);
        Ok(Event::UserProfileCreated(who))
    }

    /// Replaces the caller's profile.
    pub fn update_user_profile(
        &mut self,
        origin: Origin<T::AccountId>,
        name: Vec<u8>,
        bio: Vec<u8>,
        avatar: Vec<u8>,
    ) -> (r: Result<Event<T>, Error>)
        ensures
            final(self).count() == old(self).count(),
            match origin {
                Origin::Anonymous => {
                    &&& r == Err::<Event<T>, Error>(Error::Unauthorized)
                    &&& *final(self) == *old(self)
                },
                Origin::Signed(who) => if old(self).profiles().contains_key(who) {
                    &&& r == Ok::<Event<T>, Error>(Event::UserProfileUpdated(who))
                    &&& final(self).profiles() == old(self).profiles().insert(
                        who,
                        UserProfile { name, bio, avatar },
                    )
                } else {
                    &&& r == Err::<Event<T>, Error>(Error::UserProfileNotFound)
                    &&& *final(self) == *old(self)
                },
            },
    {
        let who = match ensure_signed(origin) {
            Ok(who) => who,
            Err(_) => {
                return Err(Error::Unauthorized);
            },
        };
        if !self.user_profiles.contains_key(&who) {
            return Err(Error::UserProfileNotFound);
        }
        let profile = UserProfile { name, bio, avatar };
        self.user_profiles.insert(who.duplicate(), profile);
        Ok(Event::UserProfileUpdated(who))
    }

    /// Deletes the caller's profile.
    pub fn delete_user_profile(&mut self, origin: Origin<T::AccountId>) -> (r: Result<
        Event<T>,
        Error,
    >)
        ensures
            final(self).count() == old(self).count(),
            match origin {
                Origin::Anonymous => {
                    &&& r == Err::<Event<T>, Error>(Error::Unauthorized)
                    &&& *final(self) == *old(self)
                },
                Origin::Signed(who) => if old(self).profiles().contains_key(who) {
                    &&& r == Ok::<Event<T>, Error>(Event::UserProfileDeleted(who))
                    &&& final(self).profiles() == old(self).profiles().remove(who)
                } else {
                    &&& r == Err::<Event<T>, Error>(Error::UserProfileNotFound)
                    &&& *final(self) == *old(self)
                },
            },
    {
        let who = match ensure_signed(origin) {
            Ok(who) => who,
            Err(_) => {
                return Err(Error::Unauthorized);
            },
        };
        if !self.user_profiles.contains_key(&who) {
            return Err(Error::UserProfileNotFound);
        }
        self.user_profiles.remove(&who);
        Ok(Event::UserProfileDeleted(who))
    }
}

/// The charge for each operation on profiles.
pub trait WeightInfo {
    /// The charge for creating a profile.
    fn create_user() -> u64;

    /// The charge for updating a profile.
    fn update_user() -> u64;

    /// The charge for deleting a profile.
    fn delete_user() -> u64;
}

impl WeightInfo for () {
    fn create_user() -> (r: u64)
        ensures
            r == 10_000,
    {
        10_000
    }

    fn update_user() -> (r: u64)
        ensures
            r == 5_000,
    {
        5_000
    }

    fn delete_user() -> (r: u64)
        ensures
            r == 3_000,
    {
        3_000
    }
}

} // verus!
