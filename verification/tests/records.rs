use filter_fund::access::Origin;
use filter_fund::account::{AccountId, Key};
use filter_fund::asset_storage;
use filter_fund::mock::Test;
use filter_fund::store::{KeyedStore, StoreError};
use filter_fund::user_profiles;
use filter_fund::user_profiles::UserProfile;

type AssetStorage = asset_storage::Pallet<Test>;
type UserProfiles = user_profiles::Pallet<Test>;

fn named(name: &[u8]) -> (Vec<u8>, Vec<u8>, Vec<u8>) {
    (name.to_vec(), Vec::new(), Vec::new())
}

#[test]
fn it_stores_assets() {
    let mut assets = AssetStorage::new();
    assert!(assets.get_asset(&1).is_none());
    assert!(assets.store_asset(Origin::Signed(1), vec![9]).is_ok());
    assert_eq!(assets.get_asset(&1), Some(&vec![9]));
}

#[test]
fn test_store_asset() {
    let mut assets = AssetStorage::new();
    let asset_id = 1;
    let asset_data = vec![1, 2, 3, 4];

    assert_eq!(
        assets.store_asset(Origin::Signed(asset_id), asset_data.clone()),
        Ok(asset_storage::Event::AssetStored(asset_id, asset_data.clone()))
    );
    assert_eq!(assets.get_asset(&asset_id), Some(&asset_data));
}

#[test]
fn test_store_asset_already_exists() {
    let mut assets = AssetStorage::new();
    let asset_id = 1;
    let asset_data = vec![1, 2, 3, 4];

    assert!(assets.store_asset(Origin::Signed(asset_id), asset_data.clone()).is_ok());
    assert_eq!(
        assets.store_asset(Origin::Signed(asset_id), vec![5, 6]),
        Err(asset_storage::Error::AssetAlreadyExists)
    );
    assert_eq!(assets.get_asset(&asset_id), Some(&asset_data));
}

#[test]
fn test_remove_asset() {
    let mut assets = AssetStorage::new();
    let asset_id = 1;
    let asset_data = vec![1, 2, 3, 4];

    assert!(assets.store_asset(Origin::Signed(asset_id), asset_data.clone()).is_ok());
    assert_eq!(
        assets.remove_asset(Origin::Signed(asset_id)),
        Ok(asset_storage::Event::AssetRemoved(asset_id))
    );
    assert_eq!(assets.get_asset(&asset_id), None);
}

#[test]
fn test_remove_nonexistent_asset() {
    let mut assets = AssetStorage::new();
    let asset_id = 1;
    assert_eq!(
        assets.remove_asset(Origin::Signed(asset_id)),
        Err(asset_storage::Error::AssetNotFound)
    );
}

#[test]
fn assets_are_replaced_only_where_one_is_stored() {
    let mut assets = AssetStorage::new();
    assert_eq!(
        assets.update_asset(Origin::Signed(4), vec![1]),
        Err(asset_storage::Error::AssetNotFound)
    );
    assert!(assets.get_asset(&4).is_none());
    assert!(assets.store_asset(Origin::Signed(4), vec![1]).is_ok());
    assert_eq!(
        assets.update_asset(Origin::Signed(4), vec![2, 3]),
        Ok(asset_storage::Event::AssetUpdated(4))
    );
    assert_eq!(assets.get_asset(&4), Some(&vec![2, 3]));
}

#[test]
fn assets_of_different_accounts_are_apart() {
    let mut assets = AssetStorage::new();
    assert!(assets.store_asset(Origin::Signed(1), vec![1]).is_ok());
    assert!(assets.store_asset(Origin::Signed(2), vec![2]).is_ok());
    assert!(assets.remove_asset(Origin::Signed(1)).is_ok());
    assert_eq!(assets.get_asset(&1), None);
    assert_eq!(assets.get_asset(&2), Some(&vec![2]));
}

#[test]
fn anonymous_calls_cannot_touch_assets() {
    let mut assets = AssetStorage::new();
    assert_eq!(
        assets.store_asset(Origin::Anonymous, vec![1]),
        Err(asset_storage::Error::Unauthorized)
    );
    assert_eq!(assets.update_asset(Origin::Anonymous, vec![1]), Err(asset_storage::Error::Unauthorized));
    assert_eq!(assets.remove_asset(Origin::Anonymous), Err(asset_storage::Error::Unauthorized));
}

#[test]
fn test_create_user_profile() {
    let mut profiles = UserProfiles::new();
    let user_id = 1;
    let user_name = b"Test User".to_vec();

    assert_eq!(
        profiles.create_user_profile(Origin::Signed(user_id), user_name.clone(), Vec::new(), Vec::new()),
        Ok(user_profiles::Event::UserProfileCreated(user_id))
    );
    let profile = profiles.user_profiles(&user_id).unwrap();
    assert_eq!(profile.name, user_name);
    assert_eq!(profiles.user_count(), 1);
}

#[test]
fn test_create_user_profile_duplicate() {
    let mut profiles = UserProfiles::new();
    let user_id = 1;
    let user_name = b"Test User".to_vec();

    assert!(profiles
        .create_user_profile(Origin::Signed(user_id), user_name.clone(), Vec::new(), Vec::new())
        .is_ok());
    assert_eq!(
        profiles.create_user_profile(Origin::Signed(user_id), user_name.clone(), Vec::new(), Vec::new()),
        Err(user_profiles::Error::UserProfileAlreadyExists)
    );
    assert_eq!(profiles.user_count(), 1);
}

#[test]
fn test_update_user_profile() {
    let mut profiles = UserProfiles::new();
    let user_id = 1;
    let user_name = b"Test User".to_vec();
    let new_user_name = b"Updated User".to_vec();

    assert!(profiles
        .create_user_profile(Origin::Signed(user_id), user_name.clone(), Vec::new(), Vec::new())
        .is_ok());
    assert_eq!(
        profiles.update_user_profile(Origin::Signed(user_id), new_user_name.clone(), b"bio".to_vec(), b"pic".to_vec()),
        Ok(user_profiles::Event::UserProfileUpdated(user_id))
    );
    let profile = profiles.user_profiles(&user_id).unwrap();
    assert_eq!(profile.name, new_user_name);
    assert_eq!(profile.bio, b"bio".to_vec());
    assert_eq!(profile.avatar, b"pic".to_vec());
    assert_eq!(profiles.user_count(), 1);
}

#[test]
fn test_delete_user_profile() {
    let mut profiles = UserProfiles::new();
    let user_id = 1;
    let user_name = b"Test User".to_vec();

    assert!(profiles
        .create_user_profile(Origin::Signed(user_id), user_name.clone(), Vec::new(), Vec::new())
        .is_ok());
    assert_eq!(
        profiles.delete_user_profile(Origin::Signed(user_id)),
        Ok(user_profiles::Event::UserProfileDeleted(user_id))
    );
    assert!(profiles.user_profiles(&user_id).is_none());
}

#[test]
fn test_create_user() {
    let mut profiles = UserProfiles::new();
    let (name, bio, avatar) = named(b"Alice");
    assert!(profiles.create_user_profile(Origin::Signed(1), name, bio, avatar).is_ok());
    assert_eq!(profiles.user_profiles(&1).unwrap().name, b"Alice".to_vec());
}

#[test]
fn test_create_user_duplicate() {
    let mut profiles = UserProfiles::new();
    let (name, bio, avatar) = named(b"Alice");
    let _ = profiles.create_user_profile(Origin::Signed(1), name, bio, avatar);
    let (name, bio, avatar) = named(b"Alice");
    assert_eq!(
        profiles.create_user_profile(Origin::Signed(1), name, bio, avatar),
        Err(user_profiles::Error::UserProfileAlreadyExists)
    );
}

#[test]
fn benchmark_create_user() {
    let mut profiles = UserProfiles::new();
    let user_id = 1;
    let user_data = vec![1u8; 32];
    assert!(profiles.create_user_profile(Origin::Signed(user_id), user_data, Vec::new(), Vec::new()).is_ok());
    assert_eq!(profiles.user_profiles(&user_id).is_some(), true);
}

#[test]
fn benchmark_update_user() {
    let mut profiles = UserProfiles::new();
    let user_id = 1;
    let user_data = vec![1u8; 32];
    profiles
        .create_user_profile(Origin::Signed(user_id), user_data.clone(), Vec::new(), Vec::new())
        .unwrap();
    assert!(profiles
        .update_user_profile(Origin::Signed(user_id), user_data.clone(), Vec::new(), Vec::new())
        .is_ok());
    assert_eq!(profiles.user_profiles(&user_id).unwrap().name, user_data);
}

#[test]
fn benchmark_delete_user() {
    let mut profiles = UserProfiles::new();
    let user_id = 1;
    let user_data = vec![1u8; 32];
    profiles.create_user_profile(Origin::Signed(user_id), user_data, Vec::new(), Vec::new()).unwrap();
    assert!(profiles.delete_user_profile(Origin::Signed(user_id)).is_ok());
    assert_eq!(profiles.user_profiles(&user_id).is_none(), true);
}

#[test]
fn profiles_are_changed_only_where_one_exists() {
    let mut profiles = UserProfiles::new();
    assert_eq!(
        profiles.update_user_profile(Origin::Signed(3), b"x".to_vec(), Vec::new(), Vec::new()),
        Err(user_profiles::Error::UserProfileNotFound)
    );
    assert_eq!(
        profiles.delete_user_profile(Origin::Signed(3)),
        Err(user_profiles::Error::UserProfileNotFound)
    );
    assert!(profiles.user_profiles(&3).is_none());
    assert_eq!(profiles.user_count(), 0);
}

#[test]
fn anonymous_calls_cannot_touch_profiles() {
    let mut profiles = UserProfiles::new();
    assert_eq!(
        profiles.create_user_profile(Origin::Anonymous, b"x".to_vec(), Vec::new(), Vec::new()),
        Err(user_profiles::Error::Unauthorized)
    );
    assert_eq!(
        profiles.update_user_profile(Origin::Anonymous, b"x".to_vec(), Vec::new(), Vec::new()),
        Err(user_profiles::Error::Unauthorized)
    );
    assert_eq!(profiles.delete_user_profile(Origin::Anonymous), Err(user_profiles::Error::Unauthorized));
    assert_eq!(profiles.user_count(), 0);
}

#[test]
fn profile_count_counts_creations() {
    let mut profiles = UserProfiles::new();
    for who in 0..4u64 {
        assert!(profiles
            .create_user_profile(Origin::Signed(who), vec![who as u8], Vec::new(), Vec::new())
            .is_ok());
    }
    assert_eq!(profiles.user_count(), 4);
    assert_eq!(
        profiles.user_profiles(&2),
        Some(&UserProfile { name: vec![2], bio: Vec::new(), avatar: Vec::new() })
    );
}

#[test]
fn charges_for_profiles_and_assets() {
    assert_eq!(<() as user_profiles::WeightInfo>::create_user(), 10_000);
    assert_eq!(<() as user_profiles::WeightInfo>::update_user(), 5_000);
    assert_eq!(<() as user_profiles::WeightInfo>::delete_user(), 3_000);
    assert_eq!(<() as asset_storage::WeightInfo>::store_asset(), 10_000);
    assert_eq!(<() as asset_storage::WeightInfo>::remove_asset(), 5_000);
    assert_eq!(<() as asset_storage::WeightInfo>::update_asset(), 7_500);
}

#[test]
fn store_holds_one_record_per_key() {
    let mut store: KeyedStore<u32, &str> = KeyedStore::new();
    assert!(!store.contains_key(&1));
    assert_eq!(store.get(&1), None);
    store.insert(1, "one");
    store.insert(2, "two");
    store.insert(1, "uno");
    assert!(store.contains_key(&1));
    assert_eq!(store.get(&1), Some(&"uno"));
    assert_eq!(store.get(&2), Some(&"two"));
    assert_eq!(store.remove(&1), Some("uno"));
    assert_eq!(store.remove(&1), None);
    assert_eq!(store.get(&1), None);
    assert_eq!(store.get(&2), Some(&"two"));
}

#[test]
fn store_record_operations() {
    let mut store: KeyedStore<u64, u8> = KeyedStore::new();
    assert_eq!(store.read(&5), Err(StoreError::NotFound));
    assert_eq!(store.update(5, 1), Err(StoreError::NotFound));
    assert_eq!(store.delete(&5), Err(StoreError::NotFound));
    assert_eq!(store.create(5, 1), Ok(()));
    assert_eq!(store.create(5, 2), Err(StoreError::AlreadyExists));
    assert_eq!(store.read(&5), Ok(&1));
    assert_eq!(store.update(5, 3), Ok(()));
    assert_eq!(store.read(&5), Ok(&3));
    assert_eq!(store.delete(&5), Ok(3));
    assert_eq!(store.read(&5), Err(StoreError::NotFound));
    assert_eq!(store.create(5, 4), Ok(()));
    assert_eq!(store.read(&5), Ok(&4));
}

#[test]
fn store_keyed_by_account() {
    let a = AccountId { bytes: [1u8; 32] };
    let mut nearly = [1u8; 32];
    nearly[31] = 2;
    let b = AccountId { bytes: nearly };
    assert!(a.same(&a.duplicate()));
    assert!(!a.same(&b));
    assert!(7u32.same(&7));
    assert!(!7u64.same(&8));
    let mut store: KeyedStore<AccountId, u8> = KeyedStore::new();
    store.insert(a, 1);
    store.insert(b, 2);
    assert_eq!(store.get(&a), Some(&1));
    assert_eq!(store.get(&b), Some(&2));
    assert_eq!(store.remove(&a), Some(1));
    assert_eq!(store.get(&b), Some(&2));
}
