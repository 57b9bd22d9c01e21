use tagged_summaries::identity::Identity;
use tagged_summaries::store::{
    initialize, store_tagged_summary, InitError, Initialize, Ledger, StoreError, StoreSummary,
};

fn wallet(byte: u8) -> Identity {
    Identity::new([byte; 32])
}

fn fresh_ledger(authority: Identity) -> Ledger {
    let mut ledger = Ledger::new();
    initialize(&mut ledger, Initialize { authority }).unwrap();
    ledger
}

#[test]
fn initialize_sets_authority_and_zero_counter() {
    let mut ledger = Ledger::new();
    let r = initialize(&mut ledger, Initialize { authority: wallet(7) });
    assert_eq!(r, Ok(()));
    let registry = ledger.registry.unwrap();
    assert_eq!(registry.authority.bytes, [7u8; 32]);
    assert_eq!(registry.total_summaries, 0);
    assert!(ledger.entries.is_empty());
}

#[test]
fn second_initialize_fails() {
    let mut ledger = fresh_ledger(wallet(7));
    let r = initialize(&mut ledger, Initialize { authority: wallet(9) });
    assert_eq!(r, Err(InitError::RegistryAlreadyInitialized));
    assert_eq!(ledger.registry.unwrap().authority.bytes, [7u8; 32]);
}

#[test]
fn scenario_store_then_duplicate() {
    let mut ledger = fresh_ledger(wallet(1));
    let student = wallet(2);
    let r = store_tagged_summary(
        &mut ledger,
        StoreSummary { student },
        "a".repeat(64),
        "lunch at campus cafe".to_string(),
        vec!["food".to_string(), "campus".to_string()],
        "food".to_string(),
        87,
        1_700_000_000,
    );
    assert_eq!(r, Ok(()));
    assert_eq!(ledger.registry.unwrap().total_summaries, 1);
    assert_eq!(ledger.entries.len(), 1);
    let record = &ledger.entries[0].record;
    assert_eq!(record.id, 0);
    assert_eq!(record.transaction_hash, "a".repeat(64));
    assert_eq!(record.summary, "lunch at campus cafe");
    assert_eq!(record.tags, vec!["food".to_string(), "campus".to_string()]);
    assert_eq!(record.category, "food");
    assert_eq!(record.confidence_score, 87);
    assert_eq!(record.timestamp, 1_700_000_000);
    assert_eq!(record.student_wallet.bytes, [2u8; 32]);

    let repeat = store_tagged_summary(
        &mut ledger,
        StoreSummary { student },
        "a".repeat(64),
        "second attempt".to_string(),
        vec![],
        "food".to_string(),
        50,
        1_700_000_100,
    );
    assert_eq!(repeat, Err(StoreError::DuplicateRecord));
    assert_eq!(ledger.registry.unwrap().total_summaries, 1);
    assert_eq!(ledger.entries.len(), 1);
    assert_eq!(ledger.entries[0].record.summary, "lunch at campus cafe");
}

#[test]
fn same_hash_different_submitter_is_no_duplicate() {
    let mut ledger = fresh_ledger(wallet(1));
    let hash = "b".repeat(64);
    let r1 = store_tagged_summary(
        &mut ledger,
        StoreSummary { student: wallet(2) },
        hash.clone(),
        "first".to_string(),
        vec![],
        "misc".to_string(),
        10,
        1,
    );
    let r2 = store_tagged_summary(
        &mut ledger,
        StoreSummary { student: wallet(3) },
        hash,
        "second".to_string(),
        vec![],
        "misc".to_string(),
        20,
        2,
    );
    assert_eq!(r1, Ok(()));
    assert_eq!(r2, Ok(()));
    assert_eq!(ledger.registry.unwrap().total_summaries, 2);
}

#[test]
fn counter_and_ids_grow_one_per_store() {
    let mut ledger = fresh_ledger(wallet(1));
    let fills: [u8; 3] = [b'x', b'y', b'z'];
    let mut i: usize = 0;
    while i < 3 {
        let hash = String::from_utf8(vec![fills[i]; 64]).unwrap();
        let r = store_tagged_summary(
            &mut ledger,
            StoreSummary { student: wallet(5) },
            hash,
            format!("summary {i}"),
            vec![],
            "misc".to_string(),
            i as u8,
            i as i64,
        );
        assert_eq!(r, Ok(()));
        assert_eq!(ledger.registry.unwrap().total_summaries, (i + 1) as u64);
        i += 1;
    }
    let ids: Vec<u64> = ledger.entries.iter().map(|e| e.record.id).collect();
    assert_eq!(ids, vec![0, 1, 2]);
}

#[test]
fn failed_store_changes_nothing() {
    let mut ledger = fresh_ledger(wallet(1));
    let r = store_tagged_summary(
        &mut ledger,
        StoreSummary { student: wallet(2) },
        "too short".to_string(),
        "summary".to_string(),
        vec![],
        "misc".to_string(),
        5,
        1,
    );
    assert!(matches!(r, Err(StoreError::Validation(_))));
    assert_eq!(ledger.registry.unwrap().total_summaries, 0);
    assert!(ledger.entries.is_empty());
}
