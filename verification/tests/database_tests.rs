use user_directory::database::{Database, SEED_DIGEST, SEED_HR_NAME, SEED_USER_NAME};
use user_directory::user::{UserAccount, UserRole};

fn account(name: &str, digest: &str, phone: &str, role: UserRole) -> UserAccount {
    UserAccount::new(name.to_string(), digest.to_string(), phone.to_string(), role)
}

#[test]
fn insert_then_get_round_trip() {
    let mut db = Database::new();
    db.insert(&account("alice", "digest-a", "0791234567", UserRole::StandardUser));
    let got = db.get("alice").expect("stored account");
    assert_eq!(got.username(), "alice");
    assert_eq!(got.phone_number(), "0791234567");
    assert_eq!(got.password(), "digest-a");
    assert!(matches!(got.role(), UserRole::StandardUser));
    assert!(db.get("bob").is_none());
}

#[test]
fn usernames_compare_case_insensitively() {
    let mut db = Database::new();
    db.insert(&account("Alice", "digest-a", "0791234567", UserRole::HR));
    assert!(db.get("alice").is_some());
    assert!(db.get("ALICE").is_some());
    assert!(db.get("aLiCe").is_some());
    assert!(db.get("alice2").is_none());
}

#[test]
fn insert_overwrites_whole_record_by_key() {
    let mut db = Database::new();
    db.insert(&account("carol", "digest-1", "0791111111", UserRole::StandardUser));
    db.insert(&account("carol", "digest-2", "0792222222", UserRole::HR));
    let got = db.get("carol").expect("stored account");
    assert_eq!(got.phone_number(), "0792222222");
    assert_eq!(got.password(), "digest-2");
    let infos = db.get_all_user_info();
    assert_eq!(infos.len(), 1);
}

#[test]
fn projections_carry_name_and_phone_only() {
    let mut db = Database::new();
    db.insert(&account("dave", "digest-d", "0793333333", UserRole::StandardUser));
    db.insert(&account("erin", "digest-e", "0794444444", UserRole::HR));
    let infos = db.get_all_user_info();
    assert_eq!(infos.len(), 2);
    for info in &infos {
        assert!(!info.username().contains("digest"));
        assert!(!info.phone_number().contains("digest"));
    }
    assert!(infos.iter().any(|i| i.username() == "dave" && i.phone_number() == "0793333333"));
    assert!(infos.iter().any(|i| i.username() == "erin" && i.phone_number() == "0794444444"));
}

#[test]
fn default_store_seeds_two_accounts() {
    let db = Database::default();
    let standard = db.get(SEED_USER_NAME).expect("seeded standard account");
    assert_eq!(standard.phone_number(), "0784539872");
    assert_eq!(standard.password(), SEED_DIGEST);
    assert!(matches!(standard.role(), UserRole::StandardUser));
    let hr = db.get(SEED_HR_NAME).expect("seeded HR account");
    assert_eq!(hr.phone_number(), "0793175289");
    assert!(matches!(hr.role(), UserRole::HR));
    assert_eq!(db.get_all_user_info().len(), 2);
}

#[test]
fn exported_accounts_mirror_the_store() {
    let mut db = Database::new();
    db.insert(&account("frank", "digest-f", "0795555555", UserRole::StandardUser));
    db.insert(&account("grace", "digest-g", "0796666666", UserRole::HR));
    let all = db.export_accounts();
    assert_eq!(all.len(), 2);
    assert!(all.iter().any(|a| a.username() == "frank" && a.password() == "digest-f"));
    assert!(all.iter().any(|a| a.username() == "grace" && a.phone_number() == "0796666666"));
}
