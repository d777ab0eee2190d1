use trackhound::models::{ExtractedKind, ExtractedShipment, ScanSummary};
use trackhound::scan_run::{ScanAction, ScanRun, ScanStage};
use trackhound::status::ShipmentStatus;

fn item(kind: ExtractedKind, tracking: Option<&str>, order: Option<&str>) -> ExtractedShipment {
    ExtractedShipment {
        kind,
        tracking_number: tracking.map(|s| s.to_string()),
        order_number: order.map(|s| s.to_string()),
        carrier: None,
        merchant: None,
        status: Some("in transit".into()),
        expected_delivery_date: None,
        title: None,
        confidence_bits: 0.9f32.to_bits(),
        reason: Some("why".into()),
    }
}

#[test]
fn empty_search_finishes_at_once() {
    let run = ScanRun::start(vec![]);
    assert_eq!(run.stage(), ScanStage::Finished);
    match run.action() {
        ScanAction::Finished(s) => assert_eq!(s, ScanSummary::new(0)),
        other => panic!("unexpected {other:?}"),
    }
}

#[test]
fn a_scan_walks_messages_and_items() {
    let mut run = ScanRun::start(vec!["old".into(), "new".into()]);
    match run.action() {
        ScanAction::CheckSeen { id } => assert_eq!(id, "old"),
        other => panic!("unexpected {other:?}"),
    }
    run.seen(true);
    match run.action() {
        ScanAction::CheckSeen { id } => assert_eq!(id, "new"),
        other => panic!("unexpected {other:?}"),
    }
    run.seen(false);
    assert!(matches!(run.action(), ScanAction::Fetch { ref id } if id == "new"));
    run.fetched();
    assert!(matches!(run.action(), ScanAction::Classify));
    let items = vec![
        item(ExtractedKind::Ignore, Some("X"), Some("O")),
        item(ExtractedKind::Tracking, Some("AB1"), Some("O1")),
        item(ExtractedKind::AmazonOrder, None, None),
        item(ExtractedKind::StatusUpdate, None, Some("O2")),
        item(ExtractedKind::Tracking, Some("CD2"), None),
        item(ExtractedKind::Tracking, Some("LOW"), None),
    ];
    let low = vec![false, false, false, false, false, true];
    run.classified(items, low);

    // item 1: order, then registration, then shipment
    assert!(matches!(run.action(), ScanAction::UpsertOrder { item: 1 }));
    run.order_upserted("order-1".into());
    match run.action() {
        ScanAction::Register { tracking_number, remark } => {
            assert_eq!(tracking_number, "AB1");
            assert_eq!(remark.as_deref(), Some("O1"));
        }
        other => panic!("unexpected {other:?}"),
    }
    run.registration(true);
    match run.action() {
        ScanAction::UpsertShipment { item, order_id, registered } => {
            assert_eq!(item, 1);
            assert_eq!(order_id.as_deref(), Some("order-1"));
            assert!(registered);
        }
        other => panic!("unexpected {other:?}"),
    }
    run.step_done();

    // item 2 names no order and has nothing to do; item 3 mirrors its status
    assert!(matches!(run.action(), ScanAction::UpsertOrder { item: 3 }));
    run.order_upserted("order-2".into());
    match run.action() {
        ScanAction::MirrorStatus { order_id, status, raw } => {
            assert_eq!(order_id, "order-2");
            assert_eq!(status, ShipmentStatus::InTransit);
            assert_eq!(raw.as_deref(), Some("why"));
        }
        other => panic!("unexpected {other:?}"),
    }
    run.step_done();

    // item 4 has no order: straight to registration, which fails
    assert!(matches!(run.action(), ScanAction::Register { ref tracking_number, .. } if tracking_number == "CD2"));
    run.registration(false);
    match run.action() {
        ScanAction::UpsertShipment { item, order_id, registered } => {
            assert_eq!(item, 4);
            assert_eq!(order_id, None);
            assert!(!registered);
        }
        other => panic!("unexpected {other:?}"),
    }
    run.step_done();

    // item 5 is below the confidence threshold
    assert!(matches!(run.action(), ScanAction::RecordSeen));
    run.step_done();
    match run.action() {
        ScanAction::Finished(s) => assert_eq!(
            s,
            ScanSummary {
                messages_seen: 2,
                messages_processed: 1,
                shipments_upserted: 2,
                orders_upserted: 2,
                registered_in_17track: 1,
            }
        ),
        other => panic!("unexpected {other:?}"),
    }
}

#[test]
fn order_only_items_are_counted_after_their_order() {
    let mut run = ScanRun::start(vec!["m".into()]);
    run.seen(false);
    run.fetched();
    run.classified(vec![item(ExtractedKind::AmazonOrder, None, Some("O"))], vec![false]);
    assert!(matches!(run.action(), ScanAction::UpsertOrder { item: 0 }));
    run.order_upserted("id".into());
    assert!(matches!(run.action(), ScanAction::RecordSeen));
    assert_eq!(run.summary().orders_upserted, 1);
    // reports that do not fit the stage change nothing
    run.fetched();
    run.registration(true);
    run.seen(true);
    assert!(matches!(run.action(), ScanAction::RecordSeen));
    run.step_done();
    assert_eq!(run.stage(), ScanStage::Finished);
}
