use bp7::bundle::new_std_payload_bundle;
use bp7::dtntime::CreationTimestamp;
use bp7::crc::CrcValue;
use bp7::flags::BlockControlFlags;
use bp7::{new_bundle_age_block, Bundle, CanonicalData, EndpointID, BUNDLE_AGE_BLOCK};
use dtn_core::{age_after, BundlePack, Constraint, MemStore, PackStore};
use std::convert::TryFrom;

fn bundle_to(dst: &str, payload: &[u8]) -> Bundle {
    let src = EndpointID::try_from("dtn://sender/outbox").unwrap();
    let dst = EndpointID::try_from(dst).unwrap();
    let mut b = new_std_payload_bundle(src, dst, payload.to_vec());
    b.primary.creation_timestamp = CreationTimestamp::with_time_and_seq(700_000, 3);
    b
}

fn aged_bundle(age: u64) -> Bundle {
    let mut b = bundle_to("dtn://node/mailbox", b"hello");
    b.add_canonical_block(new_bundle_age_block(0, BlockControlFlags::empty(), age));
    b
}

fn age_in(b: &Bundle) -> Option<u64> {
    match b.extension_block_by_type(BUNDLE_AGE_BLOCK).map(|blk| blk.data()) {
        Some(CanonicalData::BundleAge(a)) => Some(*a),
        _ => None,
    }
}

#[test]
fn new_pack_has_no_constraints() {
    let b = bundle_to("dtn://node/mailbox", b"hello");
    let pack = BundlePack::from_bundle_at(b, 42).unwrap();
    assert!(!pack.has_constraints());
    assert_eq!(pack.timestamp(), 42);
    for c in [
        Constraint::DispatchPending,
        Constraint::ForwardPending,
        Constraint::ReassemblyPending,
        Constraint::Contraindicated,
        Constraint::LocalEndpoint,
        Constraint::Deleted,
    ] {
        assert!(!pack.has_constraint(c));
    }
}

#[test]
fn from_bundle_stamps_current_time() {
    let before = std::time::SystemTime::now()
        .duration_since(std::time::UNIX_EPOCH)
        .unwrap()
        .as_millis() as u64;
    let pack = BundlePack::from_bundle(bundle_to("dtn://node/mailbox", b"hello")).unwrap();
    assert!(pack.timestamp() >= before);
    assert!(!pack.has_constraints());
}

#[test]
fn id_and_size_come_from_the_bundle() {
    let mut b = bundle_to("dtn://node/mailbox", b"hello");
    let expected_id = b.id();
    let expected_size = b.to_cbor().len();
    let pack = BundlePack::from_bundle_at(b, 1).unwrap();
    assert_eq!(pack.id(), expected_id);
    assert_eq!(pack.id(), "dtn://sender/outbox-700000-3");
    assert_eq!(pack.size, expected_size);
    assert!(pack.size > 0);
}

#[test]
fn receiver_is_copied_from_destination() {
    let pack = BundlePack::from_bundle_at(bundle_to("dtn://node/mailbox", b"x"), 1).unwrap();
    assert_eq!(pack.receiver, EndpointID::try_from("dtn://node/mailbox").unwrap());
    assert!(pack.has_receiver());
}

#[test]
fn null_destination_has_no_receiver() {
    let mut b = bundle_to("dtn://node/mailbox", b"x");
    b.primary.destination = EndpointID::none();
    let pack = BundlePack::from_bundle_at(b, 1).unwrap();
    assert!(!pack.has_receiver());
}

#[test]
fn adding_twice_equals_adding_once() {
    let mut pack = BundlePack::from_bundle_at(bundle_to("dtn://node/mailbox", b"x"), 1).unwrap();
    pack.add_constraint(Constraint::ForwardPending);
    pack.add_constraint(Constraint::ForwardPending);
    assert!(pack.has_constraint(Constraint::ForwardPending));
    pack.remove_constraint(Constraint::ForwardPending);
    assert!(!pack.has_constraint(Constraint::ForwardPending));
    assert!(!pack.has_constraints());
}

#[test]
fn removing_absent_constraint_is_noop() {
    let mut pack = BundlePack::from_bundle_at(bundle_to("dtn://node/mailbox", b"x"), 1).unwrap();
    pack.add_constraint(Constraint::DispatchPending);
    pack.remove_constraint(Constraint::Deleted);
    assert!(pack.has_constraint(Constraint::DispatchPending));
    assert!(!pack.has_constraint(Constraint::Deleted));
    assert!(pack.has_constraints());
}

#[test]
fn clear_keeps_local_endpoint() {
    let mut pack = BundlePack::from_bundle_at(bundle_to("dtn://node/mailbox", b"x"), 1).unwrap();
    pack.add_constraint(Constraint::LocalEndpoint);
    pack.add_constraint(Constraint::ForwardPending);
    pack.clear_constraints();
    assert!(pack.has_constraint(Constraint::LocalEndpoint));
    assert!(!pack.has_constraint(Constraint::ForwardPending));
    pack.remove_constraint(Constraint::LocalEndpoint);
    assert!(!pack.has_constraints());
}

#[test]
fn clear_without_local_endpoint_empties() {
    let mut pack = BundlePack::from_bundle_at(bundle_to("dtn://node/mailbox", b"x"), 1).unwrap();
    pack.add_constraint(Constraint::ForwardPending);
    pack.clear_constraints();
    assert!(!pack.has_constraints());
}

#[test]
fn sync_inserts_new_id() {
    let mut store = MemStore::new();
    let mut pack = BundlePack::from_bundle_at(bundle_to("dtn://node/mailbox", b"x"), 1).unwrap();
    pack.add_constraint(Constraint::ForwardPending);
    assert!(store.is_empty());
    assert_eq!(pack.sync(&mut store), Ok(()));
    let key = pack.id().to_string();
    assert!(store.has_item(&key));
    let rec = store.get(&key).unwrap();
    assert!(rec.has_constraint(Constraint::ForwardPending));
    assert_eq!(rec.id(), pack.id());
}

#[test]
fn sync_removes_when_constraints_gone() {
    let mut store = MemStore::new();
    let mut pack = BundlePack::from_bundle_at(bundle_to("dtn://node/mailbox", b"x"), 1).unwrap();
    pack.add_constraint(Constraint::DispatchPending);
    pack.sync(&mut store).unwrap();
    pack.remove_constraint(Constraint::DispatchPending);
    pack.sync(&mut store).unwrap();
    assert!(!store.has_item(&pack.id().to_string()));
    assert!(store.is_empty());
}

#[test]
fn sync_overwrites_not_merges() {
    let mut store = MemStore::new();
    let mut pack = BundlePack::from_bundle_at(bundle_to("dtn://node/mailbox", b"x"), 1).unwrap();
    pack.add_constraint(Constraint::DispatchPending);
    pack.add_constraint(Constraint::ForwardPending);
    pack.sync(&mut store).unwrap();
    pack.clear_constraints();
    pack.add_constraint(Constraint::Contraindicated);
    pack.sync(&mut store).unwrap();
    let rec = store.get(&pack.id().to_string()).unwrap();
    assert!(rec.has_constraint(Constraint::Contraindicated));
    assert!(!rec.has_constraint(Constraint::DispatchPending));
    assert!(!rec.has_constraint(Constraint::ForwardPending));
}

#[test]
fn sync_keeps_other_ids() {
    let mut store = MemStore::new();
    let mut a = BundlePack::from_bundle_at(bundle_to("dtn://node/mailbox", b"x"), 1).unwrap();
    let mut other = bundle_to("dtn://node/mailbox", b"x");
    other.primary.creation_timestamp = CreationTimestamp::with_time_and_seq(700_001, 0);
    let mut b = BundlePack::from_bundle_at(other, 1).unwrap();
    a.add_constraint(Constraint::ForwardPending);
    b.add_constraint(Constraint::Deleted);
    a.sync(&mut store).unwrap();
    b.sync(&mut store).unwrap();
    a.remove_constraint(Constraint::ForwardPending);
    a.sync(&mut store).unwrap();
    assert!(!store.has_item(&a.id().to_string()));
    assert!(store.has_item(&b.id().to_string()));
    assert!(store.get(&b.id().to_string()).unwrap().has_constraint(Constraint::Deleted));
}

#[test]
fn end_to_end_lifecycle() {
    let mut store = MemStore::new();
    let mut pack = BundlePack::from_bundle_at(bundle_to("dtn://node/mailbox", b"payload"), 5).unwrap();
    let key = pack.id().to_string();
    pack.add_constraint(Constraint::DispatchPending);
    pack.sync(&mut store).unwrap();
    assert!(store.has_item(&key));
    pack.add_constraint(Constraint::LocalEndpoint);
    pack.remove_constraint(Constraint::DispatchPending);
    pack.sync(&mut store).unwrap();
    let rec = store.get(&key).unwrap();
    assert!(rec.has_constraint(Constraint::LocalEndpoint));
    assert!(!rec.has_constraint(Constraint::DispatchPending));
    pack.remove_constraint(Constraint::LocalEndpoint);
    pack.sync(&mut store).unwrap();
    assert!(!store.has_item(&key));
    assert!(store.get(&key).is_none());
}

#[test]
fn id_is_stable_for_identical_bundles() {
    let a = BundlePack::from_bundle_at(bundle_to("dtn://node/mailbox", b"same"), 1).unwrap();
    let b = BundlePack::from_bundle_at(bundle_to("dtn://node/mailbox", b"same"), 2).unwrap();
    assert_eq!(a.id(), b.id());
}

#[test]
fn id_ignores_payload() {
    let a = BundlePack::from_bundle_at(bundle_to("dtn://node/mailbox", b"one"), 1).unwrap();
    let b = BundlePack::from_bundle_at(bundle_to("dtn://node/mailbox", b"another"), 1).unwrap();
    assert_eq!(a.id(), b.id());
}

#[test]
fn age_after_adds_elapsed_time() {
    assert_eq!(age_after(1000, 10_000, 10_500), 1500);
    assert_eq!(age_after(0, 10_000, 10_001), 1);
}

#[test]
fn age_after_without_elapsed_time() {
    assert_eq!(age_after(1000, 10_000, 10_000), 1000);
}

#[test]
fn age_after_treats_clock_skew_as_zero() {
    assert_eq!(age_after(1000, 10_000, 9_000), 1000);
}

#[test]
fn age_after_saturates() {
    assert_eq!(age_after(u64::MAX - 10, 0, 100), u64::MAX);
}

#[test]
fn unknown_crc_type_is_refused() {
    let mut b = bundle_to("dtn://node/mailbox", b"x");
    b.set_crc(7);
    assert!(BundlePack::from_bundle_at(b.clone(), 1).is_none());
    assert!(BundlePack::from_bundle(b).is_none());
}

#[test]
fn unknown_crc_value_with_known_code_is_refused() {
    let mut b = bundle_to("dtn://node/mailbox", b"x");
    b.primary.crc = CrcValue::Unknown(1);
    assert!(BundlePack::from_bundle_at(b, 1).is_none());
}

#[test]
fn update_bundle_age_writes_block() {
    let mut pack = BundlePack::from_bundle_at(aged_bundle(1000), 20_000).unwrap();
    let first = pack.update_bundle_age_at(20_500);
    assert_eq!(first, Some(1500));
    assert_eq!(age_in(&pack.bundle), Some(1500));
    assert_eq!(pack.timestamp(), 20_000);
}

#[test]
fn update_bundle_age_once_per_instant() {
    let mut pack = BundlePack::from_bundle_at(aged_bundle(1000), 20_000).unwrap();
    let first = pack.update_bundle_age_at(20_500).unwrap();
    assert!(first >= 1500);
    assert_eq!(pack.update_bundle_age_at(20_500), None);
    assert_eq!(age_in(&pack.bundle), Some(first));
    assert_eq!(pack.update_bundle_age_at(21_000), Some(2000));
    assert_eq!(age_in(&pack.bundle), Some(2000));
}

#[test]
fn update_bundle_age_never_lowers() {
    let mut pack = BundlePack::from_bundle_at(aged_bundle(1000), 20_000).unwrap();
    assert_eq!(pack.update_bundle_age_at(20_500), Some(1500));
    assert_eq!(pack.update_bundle_age_at(20_100), None);
    assert_eq!(pack.update_bundle_age_at(20_000), None);
    assert_eq!(pack.update_bundle_age_at(19_000), None);
    assert_eq!(age_in(&pack.bundle), Some(1500));
}

#[test]
fn update_bundle_age_ignores_clock_skew() {
    let mut pack = BundlePack::from_bundle_at(aged_bundle(1000), 20_000).unwrap();
    assert_eq!(pack.update_bundle_age_at(10_000), None);
    assert_eq!(age_in(&pack.bundle), Some(1000));
}

#[test]
fn constraint_changes_keep_bundle() {
    let mut pack = BundlePack::from_bundle_at(aged_bundle(1000), 20_000).unwrap();
    let before = pack.bundle.clone();
    pack.add_constraint(Constraint::ForwardPending);
    pack.remove_constraint(Constraint::Deleted);
    pack.clear_constraints();
    assert_eq!(pack.bundle, before);
    assert!(!pack.has_constraints());
}

#[test]
fn sync_stores_updated_age() {
    let mut store = MemStore::new();
    let mut pack = BundlePack::from_bundle_at(aged_bundle(1000), 20_000).unwrap();
    pack.add_constraint(Constraint::ForwardPending);
    pack.sync(&mut store).unwrap();
    pack.update_bundle_age_at(20_250).unwrap();
    pack.sync(&mut store).unwrap();
    let rec = store.get(&pack.id().to_string()).unwrap();
    assert_eq!(age_in(&rec.bundle), Some(1250));
}

#[test]
fn update_bundle_age_noop_without_elapsed_time() {
    let mut pack = BundlePack::from_bundle_at(aged_bundle(1000), 20_000).unwrap();
    assert_eq!(pack.update_bundle_age_at(20_000), None);
    assert_eq!(age_in(&pack.bundle), Some(1000));
}

#[test]
fn update_bundle_age_without_block() {
    let mut pack = BundlePack::from_bundle_at(bundle_to("dtn://node/mailbox", b"x"), 20_000).unwrap();
    assert_eq!(pack.update_bundle_age_at(25_000), None);
    assert_eq!(pack.update_bundle_age(), None);
    assert_eq!(age_in(&pack.bundle), None);
}

#[test]
fn update_bundle_age_uses_clock() {
    let mut pack = BundlePack::from_bundle_at(aged_bundle(1000), 1).unwrap();
    let a = pack.update_bundle_age().unwrap();
    assert!(a > 1000);
}
