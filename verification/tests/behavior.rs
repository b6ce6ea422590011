//! Edge cases and finer guarantees: every error kind, the failure
//! atomicity of `donate`, identifier monotonicity, verification
//! idempotence, wallet resolution, the initialization lifecycle, and the
//! engine's deliberate permissiveness around treatment dog ids.

use pawchain::state::PawChainContract;
use pawchain::types::{Error, ExpenseCategory};

const ADMIN: u64 = 1001;
const TOKEN: u64 = 1002;
const TS: u64 = 123456789;

fn setup() -> PawChainContract {
    let mut s = PawChainContract::new();
    s.initialize(ADMIN, TOKEN).unwrap();
    s
}

fn register(s: &mut PawChainContract, wallet: u64) -> u64 {
    s.register_feeder(
        wallet,
        "Feeder".to_string(),
        "NGO".to_string(),
        "City".to_string(),
        "N/A".to_string(),
        "feeder@mail.com".to_string(),
        TS,
    )
    .unwrap()
}

fn register_dog(s: &mut PawChainContract, wallet: u64) -> Result<u64, Error> {
    s.register_dog(
        wallet,
        "Rex".to_string(),
        4,
        "Mixed".to_string(),
        "Yard".to_string(),
        "Healthy".to_string(),
        "None".to_string(),
        TS,
    )
}

#[test]
fn test_feeder_ids_strictly_increase() {
    let mut s = setup();
    let id1 = register(&mut s, 2001);
    let id2 = register(&mut s, 2002);
    assert_eq!(id1, 1);
    assert_eq!(id2, 2);
    assert!(id1 < id2);
    assert_eq!(s.get_total_feeders(), 2);
}

#[test]
fn test_verify_feeder_twice_idempotent() {
    let mut s = setup();
    let id = register(&mut s, 2001);
    s.verify_feeder(ADMIN, id).unwrap();
    s.verify_feeder(ADMIN, id).unwrap();
    let profile = s.get_feeder(id).unwrap();
    assert_eq!(profile.is_verified, true);
    assert_eq!(s.get_total_feeders(), 1);
}

#[test]
fn test_verify_feeder_unknown_id() {
    let mut s = setup();
    assert_eq!(s.verify_feeder(ADMIN, 1), Err(Error::NotFound));
    assert_eq!(s.verify_feeder(ADMIN, 0), Err(Error::NotFound));
}

#[test]
fn test_verify_feeder_before_initialize() {
    let mut s = PawChainContract::new();
    assert_eq!(s.verify_feeder(ADMIN, 1), Err(Error::NotFound));
}

#[test]
fn test_donate_transfer_failed_commits_nothing() {
    let mut s = setup();
    let id = register(&mut s, 2001);
    let r = s.donate(3001, id, 500, "General".to_string(), None, false, TS);
    assert_eq!(r, Err(Error::TransferFailed));
    assert_eq!(s.get_total_donations(), 0);
    assert_eq!(s.get_donation(1).unwrap_err(), Error::NotFound);
    assert_eq!(s.get_feeder(id).unwrap().total_received, 0);
}

#[test]
fn test_donate_unknown_feeder() {
    let mut s = setup();
    let r = s.donate(3001, 5, 500, "General".to_string(), None, true, TS);
    assert_eq!(r, Err(Error::NotFound));
    assert_eq!(s.get_total_donations(), 0);
}

#[test]
fn test_donate_before_initialize() {
    let mut s = PawChainContract::new();
    let r = s.donate(3001, 1, 500, "General".to_string(), None, true, TS);
    assert_eq!(r, Err(Error::NotFound));
}

#[test]
fn test_donation_for_specific_dog() {
    let mut s = setup();
    let id = register(&mut s, 2001);
    let dog = register_dog(&mut s, 2001).unwrap();
    let donation_id = s
        .donate(3001, id, 250, "Emergency".to_string(), Some(dog), true, TS)
        .unwrap();
    let donation = s.get_donation(donation_id).unwrap();
    assert_eq!(donation.dog_id, Some(dog));
    assert_eq!(donation.purpose, "Emergency");
    assert_eq!(donation.timestamp, TS);
}

#[test]
fn test_donations_accumulate_in_total_received() {
    let mut s = setup();
    let id = register(&mut s, 2001);
    s.donate(3001, id, 100, "a".to_string(), None, true, TS).unwrap();
    s.donate(3002, id, 250, "b".to_string(), None, true, TS).unwrap();
    s.donate(3001, id, 7, "c".to_string(), None, true, TS).unwrap();
    assert_eq!(s.get_feeder(id).unwrap().total_received, 357);
    assert_eq!(s.get_total_donations(), 3);
}

#[test]
fn test_record_expense_unregistered_wallet() {
    let mut s = setup();
    let r = s.record_expense(
        2999,
        10,
        ExpenseCategory::Food,
        "kibble".to_string(),
        "ipfs://r".to_string(),
        vec![],
        TS,
    );
    assert_eq!(r, Err(Error::FeederNotRegistered));
    assert_eq!(s.get_total_expenses(), 0);
}

#[test]
fn test_record_treatment_unregistered_wallet() {
    let mut s = setup();
    let r = s.record_treatment(
        2999,
        1,
        "Checkup".to_string(),
        "Routine".to_string(),
        30,
        "Dr. A".to_string(),
        "Successful".to_string(),
        TS,
    );
    assert_eq!(r, Err(Error::FeederNotRegistered));
}

#[test]
fn test_expense_unrecognized_category_updates_no_stat() {
    let mut s = setup();
    let id = register(&mut s, 2001);
    let dog = register_dog(&mut s, 2001).unwrap();
    let expense_id = s
        .record_expense(
            2001,
            75,
            ExpenseCategory::Other,
            "Medicine".to_string(),
            "ipfs://m".to_string(),
            vec![dog],
            TS,
        )
        .unwrap();
    assert_eq!(expense_id, 1);
    assert_eq!(s.get_feeder(id).unwrap().total_spent, 75);
    let stats = s.get_feeder_stats(id).unwrap();
    assert_eq!(stats.dogs_fed, 0);
    assert_eq!(stats.dogs_vaccinated, 0);
    assert_eq!(stats.dogs_spayed, 0);
    assert_eq!(stats.dogs_neutered, 0);
    assert_eq!(stats.dogs_treated, 0);
}

#[test]
fn test_expense_with_no_dogs_listed() {
    let mut s = setup();
    let id = register(&mut s, 2001);
    s.record_expense(
        2001,
        40,
        ExpenseCategory::Food,
        "bulk order".to_string(),
        "ipfs://b".to_string(),
        vec![],
        TS,
    )
    .unwrap();
    assert_eq!(s.get_feeder(id).unwrap().total_spent, 40);
    assert_eq!(s.get_feeder_stats(id).unwrap().dogs_fed, 0);
}

#[test]
fn test_spaying_and_neutering_counters() {
    let mut s = setup();
    let id = register(&mut s, 2001);
    let d1 = register_dog(&mut s, 2001).unwrap();
    let d2 = register_dog(&mut s, 2001).unwrap();
    s.record_expense(
        2001,
        90,
        ExpenseCategory::Spaying,
        "clinic".to_string(),
        "ipfs://s".to_string(),
        vec![d1],
        TS,
    )
    .unwrap();
    s.record_expense(
        2001,
        80,
        ExpenseCategory::Neutering,
        "clinic".to_string(),
        "ipfs://n".to_string(),
        vec![d2],
        TS,
    )
    .unwrap();
    let stats = s.get_feeder_stats(id).unwrap();
    assert_eq!(stats.dogs_spayed, 1);
    assert_eq!(stats.dogs_neutered, 1);
    assert_eq!(s.get_feeder(id).unwrap().total_spent, 170);
}

#[test]
fn test_treatment_expense_and_treatment_record_both_count() {
    let mut s = setup();
    let id = register(&mut s, 2001);
    let dog = register_dog(&mut s, 2001).unwrap();
    s.record_expense(
        2001,
        60,
        ExpenseCategory::Treatment,
        "wound care".to_string(),
        "ipfs://t".to_string(),
        vec![dog],
        TS,
    )
    .unwrap();
    s.record_treatment(
        2001,
        dog,
        "Wound".to_string(),
        "Stitches".to_string(),
        60,
        "Dr. B".to_string(),
        "Successful".to_string(),
        TS,
    )
    .unwrap();
    assert_eq!(s.get_feeder_stats(id).unwrap().dogs_treated, 2);
}

#[test]
fn test_treatment_keeps_unchecked_dog_id() {
    // The dog id on a treatment is deliberately not checked for existence
    // or ownership.
    let mut s = setup();
    register(&mut s, 2001);
    let treatment_id = s
        .record_treatment(
            2001,
            99,
            "Checkup".to_string(),
            "Routine".to_string(),
            10,
            "Dr. C".to_string(),
            "Successful".to_string(),
            TS,
        )
        .unwrap();
    assert_eq!(s.get_treatment(treatment_id).unwrap().dog_id, 99);
}

#[test]
fn test_shared_wallet_resolves_to_first_feeder() {
    let mut s = setup();
    let first = register(&mut s, 2001);
    let _second = register(&mut s, 2001);
    assert_eq!(s.get_feeder_id_by_address(2001), first);
}

#[test]
fn test_unknown_wallet_resolves_to_sentinel() {
    let mut s = setup();
    register(&mut s, 2001);
    assert_eq!(s.get_feeder_id_by_address(4242), 0);
}

#[test]
fn test_get_dog_not_found() {
    let s = PawChainContract::new();
    assert_eq!(s.get_dog(1).unwrap_err(), Error::NotFound);
    assert_eq!(s.get_feeder(1).unwrap_err(), Error::NotFound);
    assert_eq!(s.get_feeder_stats(1).unwrap_err(), Error::NotFound);
    assert_eq!(s.get_expense(1).unwrap_err(), Error::NotFound);
    assert_eq!(s.get_treatment(1).unwrap_err(), Error::NotFound);
}

#[test]
fn test_update_dog_health_missing_dog() {
    let mut s = setup();
    register(&mut s, 2001);
    let r = s.update_dog_health(2001, 1, "Sick".to_string(), "Flu".to_string(), TS);
    assert_eq!(r, Err(Error::NotFound));
}

#[test]
fn test_update_dog_health_keeps_other_fields() {
    let mut s = setup();
    register(&mut s, 2001);
    let dog_id = register_dog(&mut s, 2001).unwrap();
    s.update_dog_health(2001, dog_id, "Critical".to_string(), "Injury".to_string(), TS + 10)
        .unwrap();
    let dog = s.get_dog(dog_id).unwrap();
    assert_eq!(dog.name, "Rex");
    assert_eq!(dog.age, 4);
    assert_eq!(dog.breed, "Mixed");
    assert_eq!(dog.registered_date, TS);
    assert_eq!(dog.last_updated, TS + 10);
    assert_eq!(dog.health_status, "Critical");
    assert_eq!(dog.sickness, "Injury");
    assert_eq!(dog.is_active, true);
}

#[test]
fn test_mutations_require_initialization() {
    // The initialization lifecycle is checked at entry to every mutating
    // operation: before `initialize` each fails for the missing
    // administrator singleton, so a successful `initialize` always starts
    // the counters at zero.
    let mut s = PawChainContract::new();
    let r = s.register_feeder(
        2001,
        "Feeder".to_string(),
        "NGO".to_string(),
        "City".to_string(),
        "N/A".to_string(),
        "feeder@mail.com".to_string(),
        TS,
    );
    assert_eq!(r, Err(Error::NotFound));
    assert_eq!(register_dog(&mut s, 2001), Err(Error::NotFound));
    assert_eq!(
        s.update_dog_health(2001, 1, "Sick".to_string(), "Flu".to_string(), TS),
        Err(Error::NotFound)
    );
    assert_eq!(
        s.record_expense(
            2001,
            10,
            ExpenseCategory::Food,
            "kibble".to_string(),
            "ipfs://r".to_string(),
            vec![],
            TS,
        ),
        Err(Error::NotFound)
    );
    assert_eq!(
        s.record_treatment(
            2001,
            1,
            "Checkup".to_string(),
            "Routine".to_string(),
            30,
            "Dr. A".to_string(),
            "Successful".to_string(),
            TS,
        ),
        Err(Error::NotFound)
    );
    assert_eq!(s.get_total_feeders(), 0);
    s.initialize(ADMIN, TOKEN).unwrap();
    assert_eq!(s.get_total_feeders(), 0);
    assert_eq!(register(&mut s, 2001), 1);
}
