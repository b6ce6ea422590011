//! End-to-end engine scenarios: initialization, feeder and dog management,
//! the donation flow, expense and statistics tracking, and treatment records.

use pawchain::state::PawChainContract;
use pawchain::types::{Error, ExpenseCategory};

const ADMIN: u64 = 1001;
const TOKEN: u64 = 1002;
const TS: u64 = 123456789;

/// A fresh engine with the administrator and value-transfer service set.
fn setup_test() -> PawChainContract {
    let mut s = PawChainContract::new();
    s.initialize(ADMIN, TOKEN).unwrap();
    s
}

#[test]
fn test_initialize() {
    let mut s = PawChainContract::new();
    s.initialize(ADMIN, TOKEN).unwrap();
    assert_eq!(s.get_total_dogs(), 0);
    assert_eq!(s.get_total_feeders(), 0);
    assert_eq!(s.get_total_donations(), 0);
}

#[test]
fn test_initialize_twice() {
    let mut s = setup_test();
    assert_eq!(s.initialize(ADMIN, TOKEN), Err(Error::AlreadyInitialized));
}

#[test]
fn test_feeder_management() {
    let mut s = setup_test();
    let feeder_addr: u64 = 2001;

    let feeder_id = s.register_feeder(
        feeder_addr,
        "Happy Paws NGO".to_string(),
        "NGO".to_string(),
        "New York".to_string(),
        "NGO-12345".to_string(),
        "contact@happypaws.org".to_string(),
        TS,
    ).unwrap();

    assert_eq!(feeder_id, 1);
    assert_eq!(s.get_total_feeders(), 1);

    let profile = s.get_feeder(feeder_id).unwrap();
    assert_eq!(profile.name, "Happy Paws NGO");
    assert_eq!(profile.wallet_address, feeder_addr);
    assert_eq!(profile.is_verified, false);
    assert_eq!(profile.total_received, 0);

    s.verify_feeder(ADMIN, feeder_id).unwrap();

    let verified_profile = s.get_feeder(feeder_id).unwrap();
    assert_eq!(verified_profile.is_verified, true);

    let stats = s.get_feeder_stats(feeder_id).unwrap();
    assert_eq!(stats.feeder_id, 1);
    assert_eq!(stats.dogs_rescued, 0);
}

#[test]
fn test_verify_feeder_unauthorized() {
    let mut s = setup_test();
    let feeder_addr: u64 = 2001;
    let imposter_addr: u64 = 2002;

    let feeder_id = s.register_feeder(
        feeder_addr,
        "Happy Paws NGO".to_string(),
        "NGO".to_string(),
        "New York".to_string(),
        "NGO-12345".to_string(),
        "contact@happypaws.org".to_string(),
        TS,
    ).unwrap();

    assert_eq!(s.verify_feeder(imposter_addr, feeder_id), Err(Error::Unauthorized));
}

#[test]
fn test_dog_management() {
    let mut s = setup_test();
    let feeder_addr: u64 = 2001;
    let feeder_id = s.register_feeder(
        feeder_addr,
        "Happy Paws NGO".to_string(),
        "NGO".to_string(),
        "New York".to_string(),
        "NGO-12345".to_string(),
        "contact@happypaws.org".to_string(),
        TS,
    ).unwrap();

    let dog_id = s
        .register_dog(
            feeder_addr,
            "Buddy".to_string(),
            2,
            "Golden Retriever".to_string(),
            "Park Shelter".to_string(),
            "Healthy".to_string(),
            "None".to_string(),
            TS,
        )
        .unwrap();

    assert_eq!(dog_id, 1);
    assert_eq!(s.get_total_dogs(), 1);

    let dog = s.get_dog(dog_id).unwrap();
    assert_eq!(dog.name, "Buddy");
    assert_eq!(dog.feeder_id, feeder_id);
    assert_eq!(dog.is_active, true);

    let stats = s.get_feeder_stats(feeder_id).unwrap();
    assert_eq!(stats.dogs_rescued, 1);

    let later: u64 = 123456999;
    s.update_dog_health(
        feeder_addr,
        dog_id,
        "Recovering".to_string(),
        "Kennel Cough".to_string(),
        later,
    )
    .unwrap();

    let updated_dog = s.get_dog(dog_id).unwrap();
    assert_eq!(updated_dog.health_status, "Recovering");
    assert_eq!(updated_dog.sickness, "Kennel Cough");
    assert_eq!(updated_dog.last_updated, 123456999);
}

#[test]
fn test_register_dog_unregistered_feeder() {
    let mut s = setup_test();
    let unregistered_addr: u64 = 2999;

    let r = s.register_dog(
        unregistered_addr,
        "Ghost Dog".to_string(),
        1,
        "Unknown".to_string(),
        "Street".to_string(),
        "Sick".to_string(),
        "Malnutrition".to_string(),
        TS,
    );
    assert_eq!(r, Err(Error::FeederNotRegistered));
}

#[test]
fn test_update_dog_wrong_feeder() {
    let mut s = setup_test();

    let feeder1_addr: u64 = 2001;
    s.register_feeder(
        feeder1_addr,
        "Feeder One".to_string(),
        "NGO".to_string(),
        "NY".to_string(),
        "1".to_string(),
        "1".to_string(),
        TS,
    ).unwrap();

    let feeder2_addr: u64 = 2002;
    s.register_feeder(
        feeder2_addr,
        "Feeder Two".to_string(),
        "NGO".to_string(),
        "LA".to_string(),
        "2".to_string(),
        "2".to_string(),
        TS,
    ).unwrap();

    let dog_id = s
        .register_dog(
            feeder1_addr,
            "Buddy".to_string(),
            2,
            "Retriever".to_string(),
            "Shelter".to_string(),
            "Healthy".to_string(),
            "None".to_string(),
            TS,
        )
        .unwrap();

    let r = s.update_dog_health(
        feeder2_addr,
        dog_id,
        "Sick".to_string(),
        "Stolen".to_string(),
        TS,
    );
    assert_eq!(r, Err(Error::Unauthorized));
}

#[test]
fn test_donation_flow() {
    let mut s = setup_test();
    let feeder_addr: u64 = 2001;
    let donor_addr: u64 = 3001;

    let feeder_id = s.register_feeder(
        feeder_addr,
        "Happy Paws NGO".to_string(),
        "NGO".to_string(),
        "New York".to_string(),
        "NGO-12345".to_string(),
        "contact@happypaws.org".to_string(),
        TS,
    ).unwrap();
    s.verify_feeder(ADMIN, feeder_id).unwrap();

    // The value-transfer service is external to the engine: the host mints
    // to the donor, performs the transfer, and reports success to `donate`.
    let mut donor_balance: i128 = 0;
    let mut feeder_balance: i128 = 0;
    donor_balance += 10000;
    assert_eq!(donor_balance, 10000);
    assert_eq!(feeder_balance, 0);

    donor_balance -= 7500;
    feeder_balance += 7500;
    let donation_id = s
        .donate(
            donor_addr,
            feeder_id,
            7500,
            "General Fund".to_string(),
            None,
            true,
            TS,
        )
        .unwrap();

    assert_eq!(donation_id, 1);
    assert_eq!(s.get_total_donations(), 1);
    let donation = s.get_donation(donation_id).unwrap();
    assert_eq!(donation.donor_address, donor_addr);
    assert_eq!(donation.feeder_id, feeder_id);
    assert_eq!(donation.amount, 7500);
    assert_eq!(donation.dog_id, None);

    assert_eq!(donor_balance, 2500);
    assert_eq!(feeder_balance, 7500);

    let feeder_profile = s.get_feeder(feeder_id).unwrap();
    assert_eq!(feeder_profile.total_received, 7500);
    assert_eq!(feeder_profile.total_spent, 0);
}

#[test]
fn test_expense_and_stats_tracking() {
    let mut s = setup_test();
    let feeder_addr: u64 = 2001;
    let feeder_id = s.register_feeder(
        feeder_addr,
        "Feeder".to_string(),
        "Individual".to_string(),
        "City".to_string(),
        "N/A".to_string(),
        "feeder@mail.com".to_string(),
        TS,
    ).unwrap();

    let dog1_id = s
        .register_dog(
            feeder_addr,
            "Dog 1".to_string(),
            1,
            "Indie".to_string(),
            "Street".to_string(),
            "Healthy".to_string(),
            "None".to_string(),
            TS,
        )
        .unwrap();
    let dog2_id = s
        .register_dog(
            feeder_addr,
            "Dog 2".to_string(),
            2,
            "Indie".to_string(),
            "Street".to_string(),
            "Healthy".to_string(),
            "None".to_string(),
            TS,
        )
        .unwrap();

    let stats_before = s.get_feeder_stats(feeder_id).unwrap();
    assert_eq!(stats_before.dogs_rescued, 2);
    assert_eq!(stats_before.dogs_fed, 0);
    assert_eq!(stats_before.dogs_vaccinated, 0);

    let food_dogs = vec![dog1_id, dog2_id];
    let expense1_id = s
        .record_expense(
            feeder_addr,
            1000,
            ExpenseCategory::Food,
            "Dog food bags".to_string(),
            "ipfs://hash1".to_string(),
            food_dogs,
            TS,
        )
        .unwrap();

    assert_eq!(expense1_id, 1);
    assert_eq!(s.get_total_expenses(), 1);

    let feeder_profile = s.get_feeder(feeder_id).unwrap();
    assert_eq!(feeder_profile.total_spent, 1000);

    let stats_after_food = s.get_feeder_stats(feeder_id).unwrap();
    assert_eq!(stats_after_food.dogs_fed, 2);
    assert_eq!(stats_after_food.dogs_vaccinated, 0);

    let vacc_dogs = vec![dog1_id];
    let expense2_id = s
        .record_expense(
            feeder_addr,
            300,
            ExpenseCategory::Vaccination,
            "Annual shots".to_string(),
            "ipfs://hash2".to_string(),
            vacc_dogs,
            TS,
        )
        .unwrap();

    assert_eq!(expense2_id, 2);
    let feeder_profile_2 = s.get_feeder(feeder_id).unwrap();
    assert_eq!(feeder_profile_2.total_spent, 1300);

    let stats_after_vacc = s.get_feeder_stats(feeder_id).unwrap();
    assert_eq!(stats_after_vacc.dogs_fed, 2);
    assert_eq!(stats_after_vacc.dogs_vaccinated, 1);
    assert_eq!(stats_after_vacc.dogs_spayed, 0);
    assert_eq!(stats_after_vacc.dogs_neutered, 0);
    assert_eq!(stats_after_vacc.dogs_treated, 0);
}

#[test]
fn test_treatment_record() {
    let mut s = setup_test();
    let feeder_addr: u64 = 2001;
    let feeder_id = s.register_feeder(
        feeder_addr,
        "Feeder".to_string(),
        "Individual".to_string(),
        "City".to_string(),
        "N/A".to_string(),
        "feeder@mail.com".to_string(),
        TS,
    ).unwrap();

    let dog_id = s
        .register_dog(
            feeder_addr,
            "Buddy".to_string(),
            3,
            "Lab".to_string(),
            "Shelter".to_string(),
            "Sick".to_string(),
            "Parvovirus".to_string(),
            TS,
        )
        .unwrap();

    let stats_before = s.get_feeder_stats(feeder_id).unwrap();
    assert_eq!(stats_before.dogs_rescued, 1);
    assert_eq!(stats_before.dogs_treated, 0);

    let treatment_id = s
        .record_treatment(
            feeder_addr,
            dog_id,
            "Parvovirus Treatment".to_string(),
            "IV fluids and medication".to_string(),
            500,
            "Dr. Vet".to_string(),
            "Ongoing".to_string(),
            TS,
        )
        .unwrap();

    assert_eq!(treatment_id, 1);
    let treatment = s.get_treatment(treatment_id).unwrap();
    assert_eq!(treatment.dog_id, dog_id);
    assert_eq!(treatment.cost, 500);
    assert_eq!(treatment.veterinarian, "Dr. Vet");

    let stats_after = s.get_feeder_stats(feeder_id).unwrap();
    assert_eq!(stats_after.dogs_rescued, 1);
    assert_eq!(stats_after.dogs_treated, 1);
}
