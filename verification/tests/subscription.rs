use trading_ig::streaming::events::CandleScale;
use trading_ig::streaming::protocol::FieldValue;
use trading_ig::streaming::subscription::{kind_wire_params, Registry, SubscriptionKind};

fn make_market_entry(epic: &str) -> Registry {
    let mut registry = Registry::new();
    registry.register(SubscriptionKind::Market {
        epic: epic.to_owned(),
    });
    registry
}

#[test]
fn registry_assigns_sequential_indices() {
    let mut registry = Registry::new();
    let idx1 = registry.register(SubscriptionKind::Market { epic: "A".into() });
    let idx2 = registry.register(SubscriptionKind::Market { epic: "B".into() });
    assert_eq!(idx1, 1);
    assert_eq!(idx2, 2);
}

#[test]
fn apply_update_dispatches_to_correct_channel() {
    let mut registry = make_market_entry("EPIC1");
    let fields = vec![FieldValue::Value("1.0".into())];
    let delivered = registry.apply_update(1, &fields);
    assert!(delivered.is_some());
}

#[test]
fn apply_update_for_unknown_index_is_ignored() {
    let mut registry = make_market_entry("EPIC1");
    let fields = vec![FieldValue::Value("1.0".into())];
    let delivered = registry.apply_update(99, &fields);
    assert!(delivered.is_none(), "no message should be dispatched");
}

#[test]
fn merge_is_applied_across_updates() {
    let mut registry = Registry::new();
    let idx = registry.register(SubscriptionKind::Market { epic: "E".into() });

    let u1 = registry
        .apply_update(idx, &[FieldValue::Value("1.0".into())])
        .unwrap();
    assert_eq!(u1[0], Some("1.0".to_owned()));

    let u2 = registry
        .apply_update(idx, &[FieldValue::Unchanged, FieldValue::Value("1.1".into())])
        .unwrap();
    assert_eq!(u2[0], Some("1.0".to_owned()));
    assert_eq!(u2[1], Some("1.1".to_owned()));
}

#[test]
fn remove_clears_registry_entry() {
    let mut registry = Registry::new();
    let idx = registry.register(SubscriptionKind::Market { epic: "E".into() });
    registry.remove(idx);
    let fields = vec![FieldValue::Value("1.0".into())];
    assert!(registry.apply_update(idx, &fields).is_none(), "removed entry treated as unknown");
}

#[test]
fn snapshot_for_resubscribe_returns_all_entries() {
    let mut registry = Registry::new();
    registry.register(SubscriptionKind::Market { epic: "IX.D.FTSE".into() });
    registry.register(SubscriptionKind::Account { account_id: "ABC123".into() });

    let subs = registry.snapshot_for_resubscribe();
    assert_eq!(subs.len(), 2);

    let names: Vec<&str> = subs.iter().map(|(_, name, _, _)| name.as_str()).collect();
    assert!(names.contains(&"MARKET:IX.D.FTSE"));
    assert!(names.contains(&"ACCOUNT:ABC123"));
}

#[test]
fn kind_wire_params_correct() {
    let (name, fields, mode) = kind_wire_params(&SubscriptionKind::Market { epic: "A".into() });
    assert_eq!(name, "MARKET:A");
    assert!(fields.contains("BID"));
    assert_eq!(mode, "MERGE");

    let (name, _, mode) = kind_wire_params(&SubscriptionKind::ChartTick { epic: "B".into() });
    assert_eq!(name, "CHART:B:TICK");
    assert_eq!(mode, "DISTINCT");

    let (name, _, mode) = kind_wire_params(&SubscriptionKind::ChartCandle {
        epic: "C".into(),
        scale: CandleScale::Hour,
    });
    assert_eq!(name, "CHART:C:HOUR");
    assert_eq!(mode, "MERGE");

    let (name, _, mode) = kind_wire_params(&SubscriptionKind::Trade { account_id: "D".into() });
    assert_eq!(name, "TRADE:D");
    assert_eq!(mode, "DISTINCT");
}

#[test]
fn registered_state_has_one_slot_per_field() {
    let mut registry = Registry::new();
    let idx = registry.register(SubscriptionKind::Market { epic: "E".into() });
    let st = registry.apply_update(idx, &[]).unwrap();
    assert_eq!(st.len(), trading_ig::streaming::events::market_fields().len());
    assert!(st.iter().all(|s| s.is_none()));
}

#[test]
fn snapshot_is_in_index_order() {
    let mut registry = Registry::new();
    registry.register(SubscriptionKind::Trade { account_id: "T".into() });
    let b = registry.register(SubscriptionKind::Market { epic: "M".into() });
    registry.register(SubscriptionKind::Account { account_id: "A".into() });
    registry.remove(b);
    let subs = registry.snapshot_for_resubscribe();
    let idx: Vec<usize> = subs.iter().map(|s| s.0).collect();
    assert_eq!(idx, vec![1, 3]);
    assert_eq!(subs[0].3, "DISTINCT");
}
