//! End-to-end tests of the store: creation, validation, referential checks,
//! the derived stock balance and the aggregation queries.
//!
//! Amounts are integer thousandths of a unit: a weight of `50_000` is 50 kg,
//! a price of `3_500` is 3.5 per kg, and a revenue of `140_000_000`
//! (thousandths times thousandths) is 140.0.

use fishfarm::records::AddFishBatchPayload;
use fishfarm::records::CreateFishpondPayload;
use fishfarm::records::Message;
use fishfarm::records::RecordExpensePayload;
use fishfarm::records::RecordFeedingPayload;
use fishfarm::records::RecordHarvestPayload;
use fishfarm::store::FarmStore;

fn pond_payload(name: &str, contact: &str, total_capacity: u64) -> CreateFishpondPayload {
    CreateFishpondPayload {
        name: name.to_string(),
        location: "north field".to_string(),
        owner: "owner".to_string(),
        contact: contact.to_string(),
        total_capacity,
    }
}

fn batch_payload(fishpond_id: u64, species: &str, weight: u64, quantity: u64) -> AddFishBatchPayload {
    AddFishBatchPayload {
        fishpond_id,
        species: species.to_string(),
        weight,
        quantity,
    }
}

fn harvest_payload(fishpond_id: u64, species: &str, weight: u64, revenue_per_kg: u64) -> RecordHarvestPayload {
    RecordHarvestPayload {
        fishpond_id,
        species: species.to_string(),
        weight,
        revenue_per_kg,
    }
}

#[test]
fn fresh_store_is_empty() {
    let s = FarmStore::new();
    assert_eq!(s.counter, 0);
    assert_eq!(s.ponds.len(), 0);
    assert_eq!(s.batches.len(), 0);
    assert_eq!(s.feedings.len(), 0);
    assert_eq!(s.expenses.len(), 0);
    assert_eq!(s.harvests.len(), 0);
}

#[test]
fn create_fishpond_assigns_first_id() {
    let mut s = FarmStore::new();
    let pond = s.create_fishpond(pond_payload("home pond", "555-0100", 1_000_000), 7).unwrap();
    assert_eq!(pond.id, 1);
    assert_eq!(pond.name, "home pond");
    assert_eq!(pond.location, "north field");
    assert_eq!(pond.owner, "owner");
    assert_eq!(pond.contact, "555-0100");
    assert_eq!(pond.total_capacity, 1_000_000);
    assert_eq!(pond.current_stock, 0);
    assert_eq!(pond.created_at, 7);
    assert_eq!(s.counter, 1);
    assert!(s.pond_exists(1));
    assert!(!s.pond_exists(2));
}

#[test]
fn identifiers_unique_and_increasing_across_kinds() {
    let mut s = FarmStore::new();
    let mut ids: Vec<u64> = Vec::new();
    ids.push(s.create_fishpond(pond_payload("a", "c", 10), 1).unwrap().id);
    ids.push(s.add_fish_batch(batch_payload(1, "tilapia", 5_000, 10), 2).unwrap().id);
    ids.push(
        s.record_feeding(
            RecordFeedingPayload {
                fishpond_id: 1,
                feed_type: "pellets".to_string(),
                quantity: 2_000,
            },
            3,
        )
        .unwrap()
        .id,
    );
    ids.push(
        s.record_expense(
            RecordExpensePayload {
                fishpond_id: 1,
                category: "feed".to_string(),
                amount: 9_500,
                description: "monthly feed".to_string(),
            },
            4,
        )
        .unwrap()
        .id,
    );
    ids.push(s.record_harvest(harvest_payload(1, "tilapia", 1_000, 2_000), 5).unwrap().id);
    ids.push(s.create_fishpond(pond_payload("b", "c", 10), 6).unwrap().id);
    assert_eq!(ids, vec![1, 2, 3, 4, 5, 6]);
    for i in 0..ids.len() {
        for j in (i + 1)..ids.len() {
            assert!(ids[i] < ids[j]);
        }
    }
}

#[test]
fn referential_rejection_adds_nothing() {
    let mut s = FarmStore::new();
    s.create_fishpond(pond_payload("a", "c", 10), 1).unwrap();

    let r = s.add_fish_batch(batch_payload(99, "tilapia", 5_000, 10), 2);
    match r {
        Err(Message::NotFound(t)) => assert_eq!(t, "Fishpond not found"),
        _ => panic!("expected NotFound"),
    }
    let r = s.record_feeding(
        RecordFeedingPayload {
            fishpond_id: 99,
            feed_type: "pellets".to_string(),
            quantity: 2_000,
        },
        3,
    );
    assert!(matches!(r, Err(Message::NotFound(_))));
    let r = s.record_expense(
        RecordExpensePayload {
            fishpond_id: 99,
            category: "feed".to_string(),
            amount: 9_500,
            description: "feed".to_string(),
        },
        4,
    );
    assert!(matches!(r, Err(Message::NotFound(_))));
    let r = s.record_harvest(harvest_payload(99, "tilapia", 1_000, 2_000), 5);
    assert!(matches!(r, Err(Message::NotFound(_))));

    assert_eq!(s.counter, 1);
    assert_eq!(s.batches.len(), 0);
    assert_eq!(s.feedings.len(), 0);
    assert_eq!(s.expenses.len(), 0);
    assert_eq!(s.harvests.len(), 0);
}

#[test]
fn validation_rejection_leaves_storage_unchanged() {
    let mut s = FarmStore::new();
    let r = s.create_fishpond(pond_payload("", "c", 10), 1);
    match r {
        Err(Message::InvalidPayload(t)) => assert_eq!(t, "Missing required fields"),
        _ => panic!("expected InvalidPayload"),
    }
    assert_eq!(s.counter, 0);
    assert_eq!(s.ponds.len(), 0);

    s.create_fishpond(pond_payload("a", "c", 10), 1).unwrap();
    let r = s.add_fish_batch(batch_payload(1, "tilapia", 0, 10), 2);
    match r {
        Err(Message::InvalidPayload(t)) => assert_eq!(t, "Invalid fish batch data"),
        _ => panic!("expected InvalidPayload"),
    }
    assert_eq!(s.counter, 1);
    assert_eq!(s.batches.len(), 0);
}

#[test]
fn contact_required_for_pond() {
    let mut s = FarmStore::new();
    let r = s.create_fishpond(pond_payload("a", "", 10), 1);
    assert!(matches!(r, Err(Message::InvalidPayload(_))));
}

#[test]
fn batch_validation_covers_each_field() {
    let mut s = FarmStore::new();
    s.create_fishpond(pond_payload("a", "c", 10), 1).unwrap();
    assert!(matches!(
        s.add_fish_batch(batch_payload(1, "", 5_000, 10), 2),
        Err(Message::InvalidPayload(_))
    ));
    assert!(matches!(
        s.add_fish_batch(batch_payload(1, "tilapia", 5_000, 0), 2),
        Err(Message::InvalidPayload(_))
    ));
    // validation runs before the referential check, so a bad payload with a
    // bad pond still reports InvalidPayload
    assert!(matches!(
        s.add_fish_batch(batch_payload(99, "tilapia", 0, 10), 2),
        Err(Message::InvalidPayload(_))
    ));
}

#[test]
fn feeding_and_expense_and_harvest_validation() {
    let mut s = FarmStore::new();
    s.create_fishpond(pond_payload("a", "c", 10), 1).unwrap();
    let r = s.record_feeding(
        RecordFeedingPayload {
            fishpond_id: 1,
            feed_type: "".to_string(),
            quantity: 2_000,
        },
        2,
    );
    match r {
        Err(Message::InvalidPayload(t)) => assert_eq!(t, "Invalid feeding data"),
        _ => panic!("expected InvalidPayload"),
    }
    let r = s.record_expense(
        RecordExpensePayload {
            fishpond_id: 1,
            category: "feed".to_string(),
            amount: 0,
            description: "feed".to_string(),
        },
        3,
    );
    match r {
        Err(Message::InvalidPayload(t)) => assert_eq!(t, "Invalid expense amount"),
        _ => panic!("expected InvalidPayload"),
    }
    let r = s.record_harvest(harvest_payload(1, "tilapia", 0, 2_000), 4);
    match r {
        Err(Message::InvalidPayload(t)) => assert_eq!(t, "Invalid harvest data"),
        _ => panic!("expected InvalidPayload"),
    }
    let r = s.record_harvest(harvest_payload(1, "tilapia", 1_000, 0), 4);
    assert!(matches!(r, Err(Message::InvalidPayload(_))));
    assert_eq!(s.counter, 1);
}

#[test]
fn balance_derivation_batch_then_harvest() {
    let mut s = FarmStore::new();
    let pond = s.create_fishpond(pond_payload("a", "c", 1_000_000), 1).unwrap();
    assert_eq!(pond.current_stock, 0);
    s.add_fish_batch(batch_payload(1, "carp", 10_000, 20), 2).unwrap();
    let h = s.record_harvest(harvest_payload(1, "carp", 25_000, 2_000), 3).unwrap();
    // 0 - 10 + 25 = 15 kg
    let stored = s.get_fishpond(1).unwrap();
    assert_eq!(stored.current_stock, 15_000);
    // 25 kg at 2.0 per kg is 50.0
    assert_eq!(h.total_revenue, 50_000_000);
    let rev = s.calculate_total_revenue(1).unwrap();
    assert_eq!(rev, 50_000_000);
    assert_eq!(rev as f64 / 1_000_000.0, 50.0);
}

#[test]
fn aggregation_over_empty_set_is_zero() {
    let mut s = FarmStore::new();
    s.create_fishpond(pond_payload("a", "c", 10), 1).unwrap();
    assert_eq!(s.calculate_total_expenses(1).unwrap(), 0);
    assert_eq!(s.calculate_total_revenue(1).unwrap(), 0);
}

#[test]
fn aggregation_for_missing_pond_is_not_found() {
    let s = FarmStore::new();
    match s.calculate_total_revenue(5) {
        Err(Message::NotFound(t)) => assert_eq!(t, "Fishpond not found"),
        _ => panic!("expected NotFound"),
    }
    match s.calculate_total_expenses(5) {
        Err(Message::NotFound(t)) => assert_eq!(t, "Fishpond not found"),
        _ => panic!("expected NotFound"),
    }
}

#[test]
fn repeated_reads_identical() {
    let mut s = FarmStore::new();
    s.create_fishpond(pond_payload("a", "c", 10), 1).unwrap();
    s.record_harvest(harvest_payload(1, "carp", 25_000, 2_000), 2).unwrap();
    let first = s.calculate_total_revenue(1).unwrap();
    let second = s.calculate_total_revenue(1).unwrap();
    let third = s.calculate_total_revenue(1).unwrap();
    assert_eq!(first, second);
    assert_eq!(second, third);
}

#[test]
fn expenses_sum_only_matching_pond() {
    let mut s = FarmStore::new();
    s.create_fishpond(pond_payload("a", "c", 10), 1).unwrap();
    s.create_fishpond(pond_payload("b", "c", 10), 2).unwrap();
    s.record_expense(
        RecordExpensePayload {
            fishpond_id: 1,
            category: "feed".to_string(),
            amount: 9_500,
            description: "feed".to_string(),
        },
        3,
    )
    .unwrap();
    s.record_expense(
        RecordExpensePayload {
            fishpond_id: 2,
            category: "repairs".to_string(),
            amount: 1_000,
            description: "net".to_string(),
        },
        4,
    )
    .unwrap();
    s.record_expense(
        RecordExpensePayload {
            fishpond_id: 1,
            category: "labour".to_string(),
            amount: 500,
            description: "cleaning".to_string(),
        },
        5,
    )
    .unwrap();
    assert_eq!(s.calculate_total_expenses(1).unwrap(), 10_000);
    assert_eq!(s.calculate_total_expenses(2).unwrap(), 1_000);
}

#[test]
fn scenario_full_lifecycle() {
    let mut s = FarmStore::new();
    // create pond P with capacity 1000 kg; expect stock 0
    let p = s.create_fishpond(pond_payload("P", "c", 1_000_000), 1).unwrap();
    assert_eq!(p.current_stock, 0);
    // add batch: tilapia, 50 kg, 100 fish; stock becomes -50 kg
    s.add_fish_batch(batch_payload(p.id, "tilapia", 50_000, 100), 2).unwrap();
    assert_eq!(s.get_fishpond(p.id).unwrap().current_stock, -50_000);
    // harvest: tilapia, 40 kg at 3.5 per kg; revenue 140.0, stock -50+40 = -10
    let h = s.record_harvest(harvest_payload(p.id, "tilapia", 40_000, 3_500), 3).unwrap();
    assert_eq!(h.total_revenue, 140_000_000);
    assert_eq!(h.total_revenue as f64 / 1_000_000.0, 140.0);
    assert_eq!(s.get_fishpond(p.id).unwrap().current_stock, -10_000);
    assert_eq!(s.calculate_total_revenue(p.id).unwrap(), 140_000_000);
}

#[test]
fn feeding_stored_without_balance_change() {
    let mut s = FarmStore::new();
    s.create_fishpond(pond_payload("a", "c", 10), 1).unwrap();
    let f = s
        .record_feeding(
            RecordFeedingPayload {
                fishpond_id: 1,
                feed_type: "pellets".to_string(),
                quantity: 2_000,
            },
            9,
        )
        .unwrap();
    assert_eq!(f.id, 2);
    assert_eq!(f.feed_type, "pellets");
    assert_eq!(f.schedule_time, 9);
    assert_eq!(s.feedings.len(), 1);
    assert_eq!(s.get_fishpond(1).unwrap().current_stock, 0);
}

#[test]
fn next_id_is_strictly_increasing() {
    let mut s = FarmStore::new();
    let a = s.next_id();
    let b = s.next_id();
    let c = s.next_id();
    assert_eq!((a, b, c), (1, 2, 3));
}

#[test]
fn get_fishpond_missing_is_none() {
    let s = FarmStore::new();
    assert!(s.get_fishpond(1).is_none());
}
