//! The decisions of a mailbox scan: what to do with each extracted item, and
//! how the scan's counts move.

use vstd::prelude::*;
use crate::json::opt_string_view;
use crate::models::{ExtractedKind, ExtractedShipment, ScanSummary, SyncSummary};
use crate::status::{status_of_text, ShipmentStatus};

verus! {

/// What a scan does with one extracted item after recording its order.
#[derive(Debug)]
pub enum ItemAction {
    /// Nothing more.
    Nothing,
    /// Register the number with 17TRACK under this remark, then upsert the
    /// shipment (as registered or not, as 17TRACK answered).
    TrackShipment { tracking_number: String, remark: Option<String> },
    /// Put this status (and raw event text) on the order's shipment, where
    /// the order has exactly one.
    MirrorStatus { status: ShipmentStatus, raw: Option<String> },
}

/// The plain content of an `ItemAction`.
pub enum ItemActionView {
    Nothing,
    TrackShipment { tracking_number: Seq<char>, remark: Option<Seq<char>> },
    MirrorStatus { status: ShipmentStatus, raw: Option<Seq<char>> },
}

/// What a scan does with one extracted item.
#[derive(Debug)]
pub struct ItemPlan {
    /// Whether the item's order is upserted (it names an order number).
    pub upsert_order: bool,
    pub action: ItemAction,
}

impl View for ItemAction {
    type V = ItemActionView;

    open spec fn view(&self) -> ItemActionView {
        match self {
            ItemAction::Nothing => ItemActionView::Nothing,
            ItemAction::TrackShipment { tracking_number, remark } => ItemActionView::TrackShipment {
                tracking_number: tracking_number@,
                remark: opt_string_view(*remark),
            },
            ItemAction::MirrorStatus { status, raw } => ItemActionView::MirrorStatus {
                status: *status,
                raw: opt_string_view(*raw),
            },
        }
    }
}

/// The first of the options that is present.
pub open spec fn first_present(
    a: Option<Seq<char>>,
    b: Option<Seq<char>>,
    c: Option<Seq<char>>,
) -> Option<Seq<char>> {
    if a is Some {
        a
    } else if b is Some {
        b
    } else {
        c
    }
}

/// What happens to an item after its order is recorded.
pub open spec fn item_action(item: ExtractedShipment) -> ItemActionView {
    match item.kind {
        ExtractedKind::Tracking => match item.tracking_number {
            Some(tn) => ItemActionView::TrackShipment {
                tracking_number: tn@,
                remark: first_present(
                    opt_string_view(item.title),
                    opt_string_view(item.merchant),
                    opt_string_view(item.order_number),
                ),
            },
            None => ItemActionView::Nothing,
        },
        ExtractedKind::StatusUpdate => if item.order_number is Some {
            ItemActionView::MirrorStatus {
                status: match item.status {
                    Some(t) => status_of_text(t@),
                    None => ShipmentStatus::Unknown,
                },
                raw: opt_string_view(item.reason),
            }
        } else {
            ItemActionView::Nothing
        },
        _ => ItemActionView::Nothing,
    }
}

/// Whether a scan passes over an item: the classifier was not confident
/// enough, or said to ignore it.
pub open spec fn item_skipped(item: ExtractedShipment, low_confidence: bool) -> bool {
    low_confidence || item.kind == ExtractedKind::Ignore
}

/// Copies an optional string.
fn clone_opt(o: &Option<String>) -> (res: Option<String>)
    ensures
        opt_string_view(res) == opt_string_view(*o),
{
    match o {
        Some(s) => Some(s.clone()),
        None => None,
    }
}

/// Decides what a scan does with one extracted item. `low_confidence` says
/// whether the classifier's confidence is below the acceptance threshold.
/// Skipped items get no plan; otherwise the order is upserted where the item
/// names one, a tracking item with a number is registered and upserted (its
/// remark is the title, else the merchant, else the order number), and a
/// status update for a named order is mirrored onto the order's shipment.
pub fn plan_item(item: &ExtractedShipment, low_confidence: bool) -> (res: Option<ItemPlan>)
    ensures
        res is None <==> item_skipped(*item, low_confidence),
        res matches Some(p) ==> {
            &&& p.upsert_order == item.order_number is Some
            &&& p.action@ == item_action(*item)
        },
{
    if low_confidence || item.kind == ExtractedKind::Ignore {
        return None;
    }
    let upsert_order = item.order_number.is_some();
    let action = match item.kind {
        ExtractedKind::Tracking => match &item.tracking_number {
            Some(tn) => {
                let remark = if item.title.is_some() {
                    clone_opt(&item.title)
                } else if item.merchant.is_some() {
                    clone_opt(&item.merchant)
                } else {
                    clone_opt(&item.order_number)
                };
                ItemAction::TrackShipment { tracking_number: tn.clone(), remark }
            },
            None => ItemAction::Nothing,
        },
        ExtractedKind::StatusUpdate => {
            if item.order_number.is_some() {
                let status = match &item.status {
                    Some(t) => ShipmentStatus::from_text(t.as_str()),
                    None => ShipmentStatus::Unknown,
                };
                ItemAction::MirrorStatus { status, raw: clone_opt(&item.reason) }
            } else {
                ItemAction::Nothing
            }
        },
        _ => ItemAction::Nothing,
    };
    Some(ItemPlan { upsert_order, action })
}

/// An e-mail item that only names an Amazon order records (or updates) that
/// order and creates no shipment.
pub proof fn lemma_order_only_item_creates_no_shipment(item: ExtractedShipment)
    requires
        item.kind == ExtractedKind::AmazonOrder,
    ensures
        item_action(item) == ItemActionView::Nothing,
{
}

/// Every tracking number of an order becomes a shipment of its own: a
/// tracking item with a number is registered and upserted under that number,
/// whatever order it belongs to.
pub proof fn lemma_each_tracking_number_is_a_shipment(item: ExtractedShipment)
    requires
        item.kind == ExtractedKind::Tracking,
        item.tracking_number is Some,
    ensures
        item_action(item) matches ItemActionView::TrackShipment { tracking_number, .. }
            && tracking_number == item.tracking_number->0@,
{
}

/// A status-only update for a named order is mirrored onto the order's
/// shipment with the status its text describes (`Unknown` without text); one
/// that names no order changes nothing.
pub proof fn lemma_status_update_mirrors_order_status(item: ExtractedShipment)
    requires
        item.kind == ExtractedKind::StatusUpdate,
    ensures
        item.order_number is Some ==> item_action(item) == (ItemActionView::MirrorStatus {
            status: match item.status {
                Some(t) => status_of_text(t@),
                None => ShipmentStatus::Unknown,
            },
            raw: opt_string_view(item.reason),
        }),
        item.order_number is None ==> item_action(item) == ItemActionView::Nothing,
{
}

impl ScanSummary {
    /// The counts agree with one another: no more messages processed than
    /// seen, and no more numbers registered than shipments upserted.
    pub open spec fn consistent(&self) -> bool {
        &&& self.messages_processed <= self.messages_seen
        &&& self.registered_in_17track <= self.shipments_upserted
    }

    /// The counts of a scan that found `messages_seen` messages and has done nothing yet.
    pub open spec fn new_spec(messages_seen: usize) -> ScanSummary {
        ScanSummary {
            messages_seen,
            messages_processed: 0,
            shipments_upserted: 0,
            orders_upserted: 0,
            registered_in_17track: 0,
        }
    }

    /// The counts of a scan that found `messages_seen` messages and has done nothing yet.
    pub fn new(messages_seen: usize) -> (res: Self)
        ensures
            res == Self::new_spec(messages_seen),
            res.consistent(),
    {
        ScanSummary {
            messages_seen,
            messages_processed: 0,
            shipments_upserted: 0,
            orders_upserted: 0,
            registered_in_17track: 0,
        }
    }

    /// Counts a planned item once it is carried out: its order upsert, its
    /// shipment upsert, and whether 17TRACK took its number.
    pub fn record_item(&mut self, plan: &ItemPlan, registered: bool)
        requires
            plan.upsert_order ==> old(self).orders_upserted < usize::MAX,
            plan.action is TrackShipment ==> old(self).shipments_upserted < usize::MAX,
            plan.action is TrackShipment && registered ==> old(self).registered_in_17track
                < usize::MAX,
        ensures
            final(self).messages_seen == old(self).messages_seen,
            final(self).messages_processed == old(self).messages_processed,
            final(self).orders_upserted == old(self).orders_upserted + if plan.upsert_order {
                1int
            } else {
                0int
            },
            final(self).shipments_upserted == old(self).shipments_upserted + if plan.action is TrackShipment {
                1int
            } else {
                0int
            },
            final(self).registered_in_17track == old(self).registered_in_17track + if plan.action is TrackShipment
                && registered {
                1int
            } else {
                0int
            },
            old(self).consistent() ==> final(self).consistent(),
    {
        if plan.upsert_order {
            self.orders_upserted = self.orders_upserted + 1;
        }
        if let ItemAction::TrackShipment { .. } = &plan.action {
            if registered {
                self.registered_in_17track = self.registered_in_17track + 1;
            }
            self.shipments_upserted = self.shipments_upserted + 1;
        }
    }

    /// Counts a message whose items are all carried out.
    pub fn record_message(&mut self)
        requires
            old(self).messages_processed < old(self).messages_seen,
        ensures
            *final(self) == (ScanSummary {
                messages_processed: (old(self).messages_processed + 1) as usize,
                ..*old(self)
            }),
            old(self).consistent() ==> final(self).consistent(),
    {
        self.messages_processed = self.messages_processed + 1;
    }
}

impl SyncSummary {
    /// The counts of a sync over `checked` numbers that has updated none yet.
    pub fn new(checked: usize) -> (res: Self)
        ensures
            res == (SyncSummary { checked, updated: 0 }),
    {
        SyncSummary { checked, updated: 0 }
    }

    /// Counts one number whose status was written.
    pub fn record_update(&mut self)
        requires
            old(self).updated < usize::MAX,
        ensures
            *final(self) == (SyncSummary { updated: (old(self).updated + 1) as usize, ..*old(self) }),
    {
        self.updated = self.updated + 1;
    }
}

} // verus!
