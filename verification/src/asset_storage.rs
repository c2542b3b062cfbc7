//! One opaque asset per account: stored once, then replaced or removed by
//! the account that owns it.
use vstd::prelude::*;
use crate::access::{ensure_signed, Config, Origin};
use crate::account::Key;
use crate::store::KeyedStore;

verus! {

/// What happened to an asset.
#[derive(Debug, PartialEq, Eq)]
pub enum Event<T: Config> {
    /// The account stored the bytes that follow it.
    AssetStored(T::AccountId, Vec<u8>),
    AssetUpdated(T::AccountId),
    AssetRemoved(T::AccountId),
}

/// Why an operation on assets was refused.
#[derive(Clone, Copy, Debug, PartialEq, Eq, Structural)]
pub enum Error {
    /// The account already has an asset.
    AssetAlreadyExists,
    /// The account has no asset.
    AssetNotFound,
    /// The call carries no identity.
    Unauthorized,
}

/// The assets of a deployment, by account.
pub struct Pallet<T: Config> {
    assets: KeyedStore<T::AccountId, Vec<u8>>,
}

impl<T: Config> Pallet<T> {
    /// The assets by account.
    pub closed spec fn assets(&self) -> Map<T::AccountId, Vec<u8>> {
        self.assets@
    }

    /// No asset yet.
    pub fn new() -> (r: Self)
        ensures
            r.assets() == Map::<T::AccountId, Vec<u8>>::empty(),
    {
        Pallet { assets: KeyedStore::new() }
    }

    /// The asset of `who`, if there is one.
    pub fn get_asset(&self, who: &T::AccountId) -> (r: Option<&Vec<u8>>)
        ensures
            r == (if self.assets().contains_key(*who) {
                Some(&self.assets()[*who])
            } else {
                None
            }),
    {
        self.assets.get(who)
    }

    /// Stores `asset` as the caller's asset. An account has at most one.
    pub fn store_asset(&mut self, origin: Origin<T::AccountId>, asset: Vec<u8>) -> (r: Result<
        Event<T>,
        Error,
    >)
        ensures
            match origin {
                Origin::Anonymous => {
                    &&& r == Err::<Event<T>, Error>(Error::Unauthorized)
                    &&& *final(self) == *old(self)
                },
                Origin::Signed(who) => if old(self).assets().contains_key(who) {
                    &&& r == Err::<Event<T>, Error>(Error::AssetAlreadyExists)
                    &&& *final(self) == *old(self)
                } else {
                    &&& final(self).assets() == old(self).assets().insert(who, asset)
                    &&& match r {
                        Ok(Event::AssetStored(by, bytes)) => by == who && bytes@ == asset@,
                        _ => false,
                    }
                },
            },
    {
        let who = match ensure_signed(origin) {
            Ok(who) => who,
            Err(_) => {
                return Err(Error::Unauthorized);
            },
        };
        if self.assets.contains_key(&who) {
            return Err(Error::AssetAlreadyExists);
        }
        let bytes = asset.clone();
        self.assets.insert(who.duplicate(), asset);
        Ok(Event::AssetStored(who, bytes))
    }

    /// Puts `asset` in place of the caller's asset.
    pub fn update_asset(&mut self, origin: Origin<T::AccountId>, asset: Vec<u8>) -> (r: Result<
        Event<T>,
        Error,
    >)
        ensures
            match origin {
                Origin::Anonymous => {
                    &&& r == Err::<Event<T>, Error>(Error::Unauthorized)
                    &&& *final(self) == *old(self)
                },
                Origin::Signed(who) => if old(self).assets().contains_key(who) {
                    &&& r == Ok::<Event<T>, Error>(Event::AssetUpdated(who))
                    &&& final(self).assets() == old(self).assets().insert(who, asset)
                } else {
                    &&& r == Err::<Event<T>, Error>(Error::AssetNotFound)
                    &&& *final(self) == *old(self)
                },
            },
    {
        let who = match ensure_signed(origin) {
            Ok(who) => who,
            Err(_) => {
                return Err(Error::Unauthorized);
            },
        };
        if !self.assets.contains_key(&who) {
            return Err(Error::AssetNotFound);
        }
        self.assets.insert(who.duplicate(), asset);
        Ok(Event::AssetUpdated(who))
    }

    /// Removes the caller's asset.
    pub fn remove_asset(&mut self, origin: Origin<T::AccountId>) -> (r: Result<Event<T>, Error>)
        ensures
            match origin {
                Origin::Anonymous => {
                    &&& r == Err::<Event<T>, Error>(Error::Unauthorized)
                    &&& *final(self) == *old(self)
                },
                Origin::Signed(who) => if old(self).assets().contains_key(who) {
                    &&& r == Ok::<Event<T>, Error>(Event::AssetRemoved(who))
                    &&& final(self).assets() == old(self).assets().remove(who)
                } else {
                    &&& r == Err::<Event<T>, Error>(Error::AssetNotFound)
                    &&& *final(self) == *old(self)
                },
            },
    {
        let who = match ensure_signed(origin) {
            Ok(who) => who,
            Err(_) => {
                return Err(Error::Unauthorized);
            },
        };
        if !self.assets.contains_key(&who) {
            return Err(Error::AssetNotFound);
        }
        self.assets.remove(&who);
        Ok(Event::AssetRemoved(who))
    }
}

/// The charge for each operation on assets.
pub trait WeightInfo {
    /// The charge for storing an asset.
    fn store_asset() -> u64;

    /// The charge for removing an asset.
    fn remove_asset() -> u64;

    /// The charge for replacing an asset.
    fn update_asset() -> u64;
}

impl WeightInfo for () {
    fn store_asset() -> (r: u64)
        ensures
            r == 10_000,
    {
        10_000
    }

    fn remove_asset() -> (r: u64)
        ensures
            r == 5_000,
    {
        5_000
    }

    fn update_asset() -> (r: u64)
        ensures
            r == 7_500,
    {
        7_500
    }
}

} // verus!
