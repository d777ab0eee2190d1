//! A mailbox scan as a state machine: it says which step to take next (look
//! a message up, fetch it, classify it, write its order, register its
//! tracking number, ...) and moves on by what each step reports, keeping the
//! scan's counts. The caller performs the steps.

use vstd::prelude::*;
use crate::json::opt_string_view;
use crate::models::{ExtractedShipment, ScanSummary};
use crate::scan::{item_action, item_skipped, plan_item, ItemAction, ItemActionView};
use crate::status::ShipmentStatus;

verus! {

/// Where a scan is.
#[derive(Debug, Clone, Copy, PartialEq, Eq, Structural)]
pub enum ScanStage {
    /// Asking whether the current message was handled before.
    CheckSeen,
    /// Fetching the current message.
    Fetch,
    /// Classifying the current message.
    Classify,
    /// Writing the current item's order.
    UpsertOrder,
    /// Registering the current item's tracking number with 17TRACK.
    Register,
    /// Writing the current item's shipment.
    UpsertShipment,
    /// Putting the current item's status on its order's shipment.
    MirrorStatus,
    /// Recording the current message as handled.
    RecordSeen,
    /// Done.
    Finished,
}

/// The next step of a scan.
#[derive(Debug)]
pub enum ScanAction {
    /// Ask whether the message with this id was handled before.
    CheckSeen { id: String },
    /// Fetch the message with this id.
    Fetch { id: String },
    /// Classify the fetched message.
    Classify,
    /// Upsert the order of this item of the classification.
    UpsertOrder { item: usize },
    /// Register this tracking number with 17TRACK under this remark.
    Register { tracking_number: String, remark: Option<String> },
    /// Upsert the shipment of this item, linked to the order (where there is
    /// one), as registered with 17TRACK or not.
    UpsertShipment { item: usize, order_id: Option<String>, registered: bool },
    /// Put this status (and raw event text) on the order's shipment where it has exactly one.
    MirrorStatus { order_id: String, status: ShipmentStatus, raw: Option<String> },
    /// Record the message as handled.
    RecordSeen,
    /// The scan is over; these are its counts.
    Finished(ScanSummary),
}

/// The plain content of a `ScanAction`.
pub enum ScanActionView {
    CheckSeen { id: Seq<char> },
    Fetch { id: Seq<char> },
    Classify,
    UpsertOrder { item: int },
    Register { tracking_number: Seq<char>, remark: Option<Seq<char>> },
    UpsertShipment { item: int, order_id: Option<Seq<char>>, registered: bool },
    MirrorStatus { order_id: Seq<char>, status: ShipmentStatus, raw: Option<Seq<char>> },
    RecordSeen,
    Finished(ScanSummary),
}

impl View for ScanAction {
    type V = ScanActionView;

    open spec fn view(&self) -> ScanActionView {
        match self {
            ScanAction::CheckSeen { id } => ScanActionView::CheckSeen { id: id@ },
            ScanAction::Fetch { id } => ScanActionView::Fetch { id: id@ },
            ScanAction::Classify => ScanActionView::Classify,
            ScanAction::UpsertOrder { item } => ScanActionView::UpsertOrder { item: *item as int },
            ScanAction::Register { tracking_number, remark } => ScanActionView::Register {
                tracking_number: tracking_number@,
                remark: opt_string_view(*remark),
            },
            ScanAction::UpsertShipment { item, order_id, registered } =>
                ScanActionView::UpsertShipment {
                item: *item as int,
                order_id: opt_string_view(*order_id),
                registered: *registered,
            },
            ScanAction::MirrorStatus { order_id, status, raw } => ScanActionView::MirrorStatus {
                order_id: order_id@,
                status: *status,
                raw: opt_string_view(*raw),
            },
            ScanAction::RecordSeen => ScanActionView::RecordSeen,
            ScanAction::Finished(s) => ScanActionView::Finished(*s),
        }
    }
}

/// A scan in progress.
pub struct ScanRun {
    ids: Vec<String>,
    message: usize,
    items: Vec<ExtractedShipment>,
    low_confidence: Vec<bool>,
    item: usize,
    order_id: Option<String>,
    registered: bool,
    stage: ScanStage,
    summary: ScanSummary,
    done: Ghost<Seq<(ExtractedShipment, bool, bool)>>,
    given: Ghost<Seq<(Seq<ExtractedShipment>, Seq<bool>)>>,
}

/// The plain content of a `ScanRun`.
pub struct ScanRunView {
    /// The ids of the messages the search found.
    pub ids: Seq<Seq<char>>,
    /// The position of the current message.
    pub message: int,
    /// The items the classifier extracted from the current message.
    pub items: Seq<ExtractedShipment>,
    /// For each item, whether the classifier's confidence is below the threshold.
    pub low_confidence: Seq<bool>,
    /// The position of the current item.
    pub item: int,
    /// The id of the current item's order, once written.
    pub order_id: Option<Seq<char>>,
    /// Whether 17TRACK took the current item's number.
    pub registered: bool,
    pub stage: ScanStage,
    pub summary: ScanSummary,
    /// The items carried out so far, over all messages, each with its
    /// low-confidence flag and whether 17TRACK took its number.
    pub done: Seq<(ExtractedShipment, bool, bool)>,
    /// What the classifier reported for each message classified so far:
    /// its items and their low-confidence flags.
    pub given: Seq<(Seq<ExtractedShipment>, Seq<bool>)>,
}

impl View for ScanRun {
    type V = ScanRunView;

    closed spec fn view(&self) -> ScanRunView {
        ScanRunView {
            ids: self.ids@.map_values(|s: String| s@),
            message: self.message as int,
            items: self.items@,
            low_confidence: self.low_confidence@,
            item: self.item as int,
            order_id: opt_string_view(self.order_id),
            registered: self.registered,
            stage: self.stage,
            summary: self.summary,
            done: self.done@,
            given: self.given@,
        }
    }
}

/// Whether an item takes any step: it is not skipped, and it names an order
/// or has something to register or mirror.
pub open spec fn needs_work(item: ExtractedShipment, low_confidence: bool) -> bool {
    !item_skipped(item, low_confidence) && (item.order_number is Some || !(item_action(item)
        is Nothing))
}

/// The first item from position `i` on that takes a step; the number of
/// items when none does.
pub open spec fn next_work(items: Seq<ExtractedShipment>, low: Seq<bool>, i: int) -> int
    decreases items.len() - i,
{
    if i < 0 || i >= items.len() {
        items.len() as int
    } else if needs_work(items[i], low[i]) {
        i
    } else {
        next_work(items, low, i + 1)
    }
}

/// The items among the first `n` that take a step, each with its
/// low-confidence flag, in order.
pub open spec fn kept(items: Seq<ExtractedShipment>, low: Seq<bool>, n: int) -> Seq<
    (ExtractedShipment, bool),
>
    decreases n,
{
    if n <= 0 {
        Seq::empty()
    } else if needs_work(items[n - 1], low[n - 1]) {
        kept(items, low, n - 1).push((items[n - 1], low[n - 1]))
    } else {
        kept(items, low, n - 1)
    }
}

/// The items that take a step, over all the given messages, in order.
pub open spec fn all_kept(given: Seq<(Seq<ExtractedShipment>, Seq<bool>)>) -> Seq<
    (ExtractedShipment, bool),
>
    decreases given.len(),
{
    if given.len() == 0 {
        Seq::empty()
    } else {
        all_kept(given.drop_last()) + kept(
            given.last().0,
            given.last().1,
            given.last().0.len() as int,
        )
    }
}

/// The carried-out items without whether 17TRACK took their number.
pub open spec fn done_items(d: Seq<(ExtractedShipment, bool, bool)>) -> Seq<
    (ExtractedShipment, bool),
> {
    d.map_values(|e: (ExtractedShipment, bool, bool)| (e.0, e.1))
}

/// The state in which the scan starts work on item `j` (or, past the last
/// item, records the message): its order first, where it names one, else
/// its own step.
pub open spec fn enter_item(v: ScanRunView, j: int) -> ScanRunView {
    let stage = if j >= v.items.len() {
        ScanStage::RecordSeen
    } else if v.items[j].order_number is Some {
        ScanStage::UpsertOrder
    } else {
        action_stage(item_action(v.items[j]))
    };
    ScanRunView {
        item: if j >= v.items.len() {
            v.items.len() as int
        } else {
            j
        },
        order_id: None,
        registered: false,
        stage,
        ..v
    }
}

/// The stage that carries out an item's own step.
pub open spec fn action_stage(a: ItemActionView) -> ScanStage {
    match a {
        ItemActionView::TrackShipment { .. } => ScanStage::Register,
        ItemActionView::MirrorStatus { .. } => ScanStage::MirrorStatus,
        ItemActionView::Nothing => ScanStage::RecordSeen,
    }
}

/// The counts after an item is carried out.
pub open spec fn counted_item(
    s: ScanSummary,
    upsert_order: bool,
    with_shipment: bool,
    registered: bool,
) -> ScanSummary {
    ScanSummary {
        orders_upserted: (s.orders_upserted + if upsert_order {
            1int
        } else {
            0int
        }) as usize,
        shipments_upserted: (s.shipments_upserted + if with_shipment {
            1int
        } else {
            0int
        }) as usize,
        registered_in_17track: (s.registered_in_17track + if with_shipment && registered {
            1int
        } else {
            0int
        }) as usize,
        ..s
    }
}

/// The state after the current item is done: it is counted and the scan
/// goes on with the next item that takes a step.
pub open spec fn finish_item(v: ScanRunView, registered: bool) -> ScanRunView {
    let it = v.items[v.item];
    let counted = ScanRunView {
        summary: counted_item(
            v.summary,
            it.order_number is Some,
            item_action(it) is TrackShipment,
            registered,
        ),
        done: v.done.push((it, v.low_confidence[v.item], registered)),
        ..v
    };
    enter_item(counted, next_work(v.items, v.low_confidence, v.item + 1))
}

/// How many of the carried-out items named an order.
pub open spec fn orders_in(d: Seq<(ExtractedShipment, bool, bool)>) -> int
    decreases d.len(),
{
    if d.len() == 0 {
        0
    } else {
        orders_in(d.drop_last()) + if d.last().0.order_number is Some {
            1int
        } else {
            0int
        }
    }
}

/// How many of the carried-out items wrote a shipment.
pub open spec fn shipments_in(d: Seq<(ExtractedShipment, bool, bool)>) -> int
    decreases d.len(),
{
    if d.len() == 0 {
        0
    } else {
        shipments_in(d.drop_last()) + if item_action(d.last().0) is TrackShipment {
            1int
        } else {
            0int
        }
    }
}

/// How many of the carried-out items had their number taken by 17TRACK.
pub open spec fn registrations_in(d: Seq<(ExtractedShipment, bool, bool)>) -> int
    decreases d.len(),
{
    if d.len() == 0 {
        0
    } else {
        registrations_in(d.drop_last()) + if item_action(d.last().0) is TrackShipment
            && d.last().2 {
            1int
        } else {
            0int
        }
    }
}

/// The state in which the scan goes on with the next message, or finishes.
pub open spec fn next_message(v: ScanRunView) -> ScanRunView {
    ScanRunView {
        message: v.message + 1,
        items: Seq::empty(),
        low_confidence: Seq::empty(),
        item: 0,
        order_id: None,
        registered: false,
        stage: if v.message + 1 >= v.ids.len() {
            ScanStage::Finished
        } else {
            ScanStage::CheckSeen
        },
        ..v
    }
}

/// The counts that finishing the current item raises are below the top of `usize`.
pub open spec fn can_finish(v: ScanRunView, registered: bool) -> bool {
    let it = v.items[v.item];
    &&& it.order_number is Some ==> v.summary.orders_upserted < usize::MAX
    &&& item_action(it) is TrackShipment ==> v.summary.shipments_upserted < usize::MAX
    &&& item_action(it) is TrackShipment && registered ==> v.summary.registered_in_17track
        < usize::MAX
}

/// What a scan in this state does next.
pub open spec fn next_action(v: ScanRunView) -> ScanActionView {
    match v.stage {
        ScanStage::CheckSeen => ScanActionView::CheckSeen { id: v.ids[v.message] },
        ScanStage::Fetch => ScanActionView::Fetch { id: v.ids[v.message] },
        ScanStage::Classify => ScanActionView::Classify,
        ScanStage::UpsertOrder => ScanActionView::UpsertOrder { item: v.item },
        ScanStage::Register => match item_action(v.items[v.item]) {
            ItemActionView::TrackShipment { tracking_number, remark } => ScanActionView::Register {
                tracking_number,
                remark,
            },
            _ => ScanActionView::RecordSeen,
        },
        ScanStage::UpsertShipment => ScanActionView::UpsertShipment {
            item: v.item,
            order_id: v.order_id,
            registered: v.registered,
        },
        ScanStage::MirrorStatus => match item_action(v.items[v.item]) {
            ItemActionView::MirrorStatus { status, raw } => ScanActionView::MirrorStatus {
                order_id: v.order_id->0,
                status,
                raw,
            },
            _ => ScanActionView::RecordSeen,
        },
        ScanStage::RecordSeen => ScanActionView::RecordSeen,
        ScanStage::Finished => ScanActionView::Finished(v.summary),
    }
}

/// The states a scan can be in.
pub open spec fn run_wf(v: ScanRunView) -> bool {
    &&& v.summary.messages_seen == v.ids.len()
    &&& 0 <= v.message <= v.ids.len()
    &&& (v.stage == ScanStage::Finished <==> v.message == v.ids.len())
    &&& v.summary.messages_processed <= v.message
    &&& v.summary.consistent()
    &&& v.summary.orders_upserted == orders_in(v.done)
    &&& v.summary.shipments_upserted == shipments_in(v.done)
    &&& v.summary.registered_in_17track == registrations_in(v.done)
    &&& forall|i: int| 0 <= i < v.done.len() ==> needs_work(#[trigger] v.done[i].0, v.done[i].1)
    &&& (v.stage == ScanStage::CheckSeen || v.stage == ScanStage::Fetch || v.stage
        == ScanStage::Classify || v.stage == ScanStage::Finished) ==> done_items(v.done)
        == all_kept(v.given)
    &&& !(v.stage == ScanStage::CheckSeen || v.stage == ScanStage::Fetch || v.stage
        == ScanStage::Classify || v.stage == ScanStage::Finished) ==> {
        &&& v.given.len() > 0
        &&& v.given.last() == (v.items, v.low_confidence)
        &&& done_items(v.done) == all_kept(v.given.drop_last()) + kept(
            v.items,
            v.low_confidence,
            v.item,
        )
    }
    &&& v.stage == ScanStage::RecordSeen ==> v.item == v.items.len()
    &&& v.items.len() == v.low_confidence.len()
    &&& 0 <= v.item <= v.items.len()
    &&& (v.stage == ScanStage::CheckSeen || v.stage == ScanStage::Fetch || v.stage
        == ScanStage::Classify) ==> v.items.len() == 0
    &&& (v.stage == ScanStage::UpsertOrder || v.stage == ScanStage::Register || v.stage
        == ScanStage::UpsertShipment || v.stage == ScanStage::MirrorStatus) ==> {
        &&& v.item < v.items.len()
        &&& needs_work(v.items[v.item], v.low_confidence[v.item])
    }
    &&& v.stage == ScanStage::UpsertOrder ==> v.items[v.item].order_number is Some
    &&& (v.stage == ScanStage::Register || v.stage == ScanStage::UpsertShipment) ==> item_action(
        v.items[v.item],
    ) is TrackShipment
    &&& v.stage == ScanStage::MirrorStatus ==> {
        &&& item_action(v.items[v.item]) is MirrorStatus
        &&& v.order_id is Some
    }
}

impl ScanRun {
    /// What every state of a scan keeps: the counts agree with one another,
    /// no more messages are counted as processed than have been reached,
    /// and the scan is finished exactly when it is past the last message.
    pub proof fn lemma_counts_stay_consistent(&self)
        requires
            self.wf(),
        ensures
            self@.summary.consistent(),
            self@.summary.messages_seen == self@.ids.len(),
            self@.summary.messages_processed <= self@.message <= self@.summary.messages_seen,
            self@.stage == ScanStage::Finished <==> self@.message == self@.ids.len(),
    {
    }

    /// What a whole scan counts: the orders, shipments and registrations in
    /// its summary are those of the items it has carried out; each
    /// carried-out item was kept (not skipped) and took a step; and between
    /// messages, in particular once the scan is finished, the carried-out
    /// items are exactly the kept items of every message the classifier
    /// reported on, in order.
    pub proof fn lemma_whole_scan_counts(&self)
        requires
            self.wf(),
        ensures
            (self@.stage == ScanStage::CheckSeen || self@.stage == ScanStage::Fetch || self@.stage
                == ScanStage::Classify || self@.stage == ScanStage::Finished) ==> done_items(
                self@.done,
            ) == all_kept(self@.given),
            self@.summary.orders_upserted == orders_in(self@.done),
            self@.summary.shipments_upserted == shipments_in(self@.done),
            self@.summary.registered_in_17track == registrations_in(self@.done),
            forall|i: int|
                0 <= i < self@.done.len() ==> needs_work(
                    #[trigger] self@.done[i].0,
                    self@.done[i].1,
                ),
    {
    }

    /// What each stage holds of the current item: a stage that works on an
    /// item has one that was kept and takes a step; the order stage has an
    /// item that names an order; the registration and shipment stages have
    /// an item to track; the mirror stage has an item that mirrors a status
    /// and an order already written.
    pub proof fn lemma_stage_facts(&self)
        requires
            self.wf(),
        ensures
            self@.items.len() == self@.low_confidence.len(),
            0 <= self@.item <= self@.items.len(),
            (self@.stage == ScanStage::CheckSeen || self@.stage == ScanStage::Fetch || self@.stage
                == ScanStage::Classify) ==> self@.items.len() == 0,
            (self@.stage == ScanStage::UpsertOrder || self@.stage == ScanStage::Register
                || self@.stage == ScanStage::UpsertShipment || self@.stage
                == ScanStage::MirrorStatus) ==> {
                &&& self@.item < self@.items.len()
                &&& needs_work(self@.items[self@.item], self@.low_confidence[self@.item])
            },
            self@.stage == ScanStage::UpsertOrder ==> self@.items[self@.item].order_number is Some,
            (self@.stage == ScanStage::Register || self@.stage == ScanStage::UpsertShipment)
                ==> item_action(self@.items[self@.item]) is TrackShipment,
            self@.stage == ScanStage::MirrorStatus ==> {
                &&& item_action(self@.items[self@.item]) is MirrorStatus
                &&& self@.order_id is Some
            },
    {
    }

    /// Whether the run is in one of the states a scan can be in.
    pub closed spec fn wf(&self) -> bool {
        &&& run_wf(self@)
        &&& self.ids@.len() == self.ids.len()
    }

    /// A scan of the messages with these ids, about to look at the first one.
    pub fn start(ids: Vec<String>) -> (res: Self)
        ensures
            res.wf(),
            res@.ids == ids@.map_values(|s: String| s@),
            res@.message == 0,
            res@.items.len() == 0,
            res@.stage == if ids@.len() == 0 {
                ScanStage::Finished
            } else {
                ScanStage::CheckSeen
            },
            res@.summary == ScanSummary::new_spec(ids@.len() as usize),
            res@.done.len() == 0,
            res@.given.len() == 0,
    {
        let n = ids.len();
        let stage = if n == 0 {
            ScanStage::Finished
        } else {
            ScanStage::CheckSeen
        };
        let res = ScanRun {
            ids,
            message: 0,
            items: Vec::new(),
            low_confidence: Vec::new(),
            item: 0,
            order_id: None,
            registered: false,
            stage,
            summary: ScanSummary::new(n),
            done: Ghost(Seq::empty()),
            given: Ghost(Seq::empty()),
        };
        assert(done_items(res.done@) =~= all_kept(res.given@));
        res
    }

    /// Where the scan is.
    pub fn stage(&self) -> (res: ScanStage)
        ensures
            res == self@.stage,
    {
        self.stage
    }

    /// The scan's counts so far.
    pub fn summary(&self) -> (res: ScanSummary)
        ensures
            res == self@.summary,
    {
        self.summary
    }

}

proof fn lemma_next_work(items: Seq<ExtractedShipment>, low: Seq<bool>, i: int)
    requires
        0 <= i <= items.len(),
    ensures
        i <= next_work(items, low, i) <= items.len(),
        next_work(items, low, i) < items.len() ==> needs_work(
            items[next_work(items, low, i)],
            low[next_work(items, low, i)],
        ),
        forall|k: int| i <= k < next_work(items, low, i) ==> !needs_work(#[trigger] items[k], low[k]),
    decreases items.len() - i,
{
    if i < items.len() && !needs_work(items[i], low[i]) {
        lemma_next_work(items, low, i + 1);
    }
}

proof fn lemma_kept_skips(items: Seq<ExtractedShipment>, low: Seq<bool>, i: int, j: int)
    requires
        0 <= i <= j,
        forall|k: int| i <= k < j ==> !needs_work(#[trigger] items[k], low[k]),
    ensures
        kept(items, low, j) == kept(items, low, i),
    decreases j - i,
{
    if i < j {
        assert(!needs_work(items[j - 1], low[j - 1]));
        lemma_kept_skips(items, low, i, j - 1);
    }
}

proof fn lemma_enter_item_wf(v: ScanRunView, j: int)
    requires
        v.summary.messages_seen == v.ids.len(),
        0 <= v.message < v.ids.len(),
        v.summary.messages_processed <= v.message,
        v.summary.consistent(),
        v.summary.orders_upserted == orders_in(v.done),
        v.summary.shipments_upserted == shipments_in(v.done),
        v.summary.registered_in_17track == registrations_in(v.done),
        forall|i: int| 0 <= i < v.done.len() ==> needs_work(#[trigger] v.done[i].0, v.done[i].1),
        v.items.len() == v.low_confidence.len(),
        j == next_work(v.items, v.low_confidence, j),
        0 <= j <= v.items.len(),
        v.given.len() > 0,
        v.given.last() == (v.items, v.low_confidence),
        done_items(v.done) == all_kept(v.given.drop_last()) + kept(v.items, v.low_confidence, j),
    ensures
        run_wf(enter_item(v, j)),
{
    lemma_next_work(v.items, v.low_confidence, j);
}

/// Whether an item takes any step.
fn needs_work_exec(item: &ExtractedShipment, low_confidence: bool) -> (res: bool)
    ensures
        res == needs_work(*item, low_confidence),
{
    match plan_item(item, low_confidence) {
        None => false,
        Some(p) => p.upsert_order || !matches!(p.action, ItemAction::Nothing),
    }
}

impl ScanRun {
    /// The first item from position `from` on that takes a step.
    fn next_work_exec(&self, from: usize) -> (res: usize)
        requires
            self.items@.len() == self.low_confidence@.len(),
            from <= self.items@.len(),
        ensures
            res as int == next_work(self.items@, self.low_confidence@, from as int),
    {
        let mut j = from;
        while j < self.items.len()
            invariant
                self.items@.len() == self.low_confidence@.len(),
                from <= j <= self.items@.len(),
                next_work(self.items@, self.low_confidence@, from as int) == next_work(
                    self.items@,
                    self.low_confidence@,
                    j as int,
                ),
            decreases self.items@.len() - j,
        {
            if needs_work_exec(&self.items[j], self.low_confidence[j]) {
                return j;
            }
            j = j + 1;
        }
        j
    }

    /// Starts work on item `j`, or on recording the message past the last item.
    fn enter(&mut self, j: usize)
        requires
            j <= old(self).items@.len(),
            old(self).items@.len() == old(self).low_confidence@.len(),
            j < old(self).items@.len() ==> needs_work(
                old(self).items@[j as int],
                old(self).low_confidence@[j as int],
            ),
        ensures
            final(self)@ == enter_item(old(self)@, j as int),
            final(self).ids == old(self).ids,
    {
        self.order_id = None;
        self.registered = false;
        if j >= self.items.len() {
            self.item = self.items.len();
            self.stage = ScanStage::RecordSeen;
        } else {
            self.item = j;
            if self.items[j].order_number.is_some() {
                self.stage = ScanStage::UpsertOrder;
            } else {
                self.stage = match plan_item(&self.items[j], self.low_confidence[j]) {
                    Some(p) => match p.action {
                        ItemAction::TrackShipment { .. } => ScanStage::Register,
                        ItemAction::MirrorStatus { .. } => ScanStage::MirrorStatus,
                        ItemAction::Nothing => ScanStage::RecordSeen,
                    },
                    None => ScanStage::RecordSeen,
                };
            }
        }
    }

    /// Counts the current item and moves on to the next that takes a step.
    fn finish(&mut self, registered: bool)
        requires
            old(self).wf(),
            can_finish(old(self)@, registered),
            old(self)@.stage == ScanStage::UpsertOrder || old(self)@.stage == ScanStage::UpsertShipment
                || old(self)@.stage == ScanStage::MirrorStatus,
        ensures
            final(self)@ == finish_item(old(self)@, registered),
            final(self).wf(),
    {
        let i = self.item;
        assert(i < self.items@.len());
        let plan = match plan_item(&self.items[i], self.low_confidence[i]) {
            Some(p) => p,
            None => {
                assert(false);
                return;
            },
        };
        self.summary.record_item(&plan, registered);
        let ghost entry = (self.items@[i as int], self.low_confidence@[i as int], registered);
        let ghost before = self.done@;
        self.done = Ghost(self.done@.push(entry));
        assert(self.done@.drop_last() =~= before);
        assert(done_items(self.done@) =~= done_items(before).push((entry.0, entry.1)));
        let n = self.items.len();
        assert(i < n);
        let j = self.next_work_exec(i + 1);
        proof {
            lemma_next_work(self.items@, self.low_confidence@, i + 1);
            lemma_kept_skips(self.items@, self.low_confidence@, i + 1, j as int);
            assert(next_work(self.items@, self.low_confidence@, j as int) == j) by {
                if (j as int) < self.items@.len() {
                    assert(needs_work(self.items@[j as int], self.low_confidence@[j as int]));
                }
            }
        }
        let ghost mid = self@;
        self.enter(j);
        proof {
            lemma_enter_item_wf(mid, j as int);
        }
    }

    /// The step to take next.
    pub fn action(&self) -> (res: ScanAction)
        requires
            self.wf(),
        ensures
            res@ == next_action(self@),
    {
        match self.stage {
            ScanStage::CheckSeen => ScanAction::CheckSeen { id: self.ids[self.message].clone() },
            ScanStage::Fetch => ScanAction::Fetch { id: self.ids[self.message].clone() },
            ScanStage::Classify => ScanAction::Classify,
            ScanStage::UpsertOrder => ScanAction::UpsertOrder { item: self.item },
            ScanStage::Register => match plan_item(
                &self.items[self.item],
                self.low_confidence[self.item],
            ) {
                Some(p) => match p.action {
                    ItemAction::TrackShipment { tracking_number, remark } => ScanAction::Register {
                        tracking_number,
                        remark,
                    },
                    _ => ScanAction::RecordSeen,
                },
                None => ScanAction::RecordSeen,
            },
            ScanStage::UpsertShipment => ScanAction::UpsertShipment {
                item: self.item,
                order_id: match &self.order_id {
                    Some(o) => Some(o.clone()),
                    None => None,
                },
                registered: self.registered,
            },
            ScanStage::MirrorStatus => match plan_item(
                &self.items[self.item],
                self.low_confidence[self.item],
            ) {
                Some(p) => match p.action {
                    ItemAction::MirrorStatus { status, raw } => match &self.order_id {
                        Some(o) => ScanAction::MirrorStatus { order_id: o.clone(), status, raw },
                        None => ScanAction::RecordSeen,
                    },
                    _ => ScanAction::RecordSeen,
                },
                None => ScanAction::RecordSeen,
            },
            ScanStage::RecordSeen => ScanAction::RecordSeen,
            ScanStage::Finished => ScanAction::Finished(self.summary),
        }
    }

    /// Reports whether the current message was handled before: a handled
    /// message is passed over, another one is fetched.
    pub fn seen(&mut self, was_seen: bool)
        requires
            old(self).wf(),
        ensures
            final(self).wf(),
            final(self)@ == if old(self)@.stage == ScanStage::CheckSeen {
                if was_seen {
                    next_message(old(self)@)
                } else {
                    ScanRunView { stage: ScanStage::Fetch, ..old(self)@ }
                }
            } else {
                old(self)@
            },
    {
        if self.stage != ScanStage::CheckSeen {
            return;
        }
        if was_seen {
            self.next_message();
        } else {
            self.stage = ScanStage::Fetch;
        }
    }

    /// Moves on to the next message, or finishes.
    fn next_message(&mut self)
        requires
            old(self).ids@.len() == old(self).ids.len(),
            old(self).message < old(self).ids@.len(),
        ensures
            final(self)@ == next_message(old(self)@),
            final(self).ids == old(self).ids,
    {
        self.message = self.message + 1;
        self.items = Vec::new();
        self.low_confidence = Vec::new();
        self.item = 0;
        self.order_id = None;
        self.registered = false;
        self.stage = if self.message >= self.ids.len() {
            ScanStage::Finished
        } else {
            ScanStage::CheckSeen
        };
    }

    /// Reports that the current message was fetched: it is classified next.
    pub fn fetched(&mut self)
        requires
            old(self).wf(),
        ensures
            final(self).wf(),
            final(self)@ == if old(self)@.stage == ScanStage::Fetch {
                ScanRunView { stage: ScanStage::Classify, ..old(self)@ }
            } else {
                old(self)@
            },
    {
        if self.stage == ScanStage::Fetch {
            self.stage = ScanStage::Classify;
        }
    }

    /// Reports what the classifier extracted from the current message, and
    /// for each item whether its confidence is below the threshold: work
    /// starts on the first item that takes a step.
    pub fn classified(&mut self, items: Vec<ExtractedShipment>, low_confidence: Vec<bool>)
        requires
            old(self).wf(),
            items@.len() == low_confidence@.len(),
        ensures
            final(self).wf(),
            final(self)@ == if old(self)@.stage == ScanStage::Classify {
                enter_item(
                    ScanRunView {
                        items: items@,
                        low_confidence: low_confidence@,
                        given: old(self)@.given.push((items@, low_confidence@)),
                        ..old(self)@
                    },
                    next_work(items@, low_confidence@, 0),
                )
            } else {
                old(self)@
            },
    {
        if self.stage != ScanStage::Classify {
            return;
        }
        self.items = items;
        self.low_confidence = low_confidence;
        let ghost before = self.given@;
        self.given = Ghost(self.given@.push((self.items@, self.low_confidence@)));
        assert(self.given@.drop_last() =~= before);
        let j = self.next_work_exec(0);
        proof {
            lemma_next_work(self.items@, self.low_confidence@, 0);
            lemma_kept_skips(self.items@, self.low_confidence@, 0, j as int);
            assert(all_kept(before) + kept(self.items@, self.low_confidence@, 0) =~= all_kept(
                before,
            ));
            assert(next_work(self.items@, self.low_confidence@, j as int) == j) by {
                if (j as int) < self.items@.len() {
                    assert(needs_work(self.items@[j as int], self.low_confidence@[j as int]));
                }
            }
        }
        let ghost mid = self@;
        self.enter(j);
        proof {
            lemma_enter_item_wf(mid, j as int);
        }
    }

    /// Reports the id of the current item's order once it is written: the
    /// item's own step follows, or, where it has none, the item is counted.
    pub fn order_upserted(&mut self, order_id: String)
        requires
            old(self).wf(),
            old(self)@.stage == ScanStage::UpsertOrder && item_action(
                old(self)@.items[old(self)@.item],
            ) is Nothing ==> can_finish(old(self)@, false),
        ensures
            final(self).wf(),
            final(self)@ == if old(self)@.stage == ScanStage::UpsertOrder {
                let v = ScanRunView { order_id: Some(order_id@), ..old(self)@ };
                match item_action(old(self)@.items[old(self)@.item]) {
                    ItemActionView::TrackShipment { .. } => ScanRunView {
                        stage: ScanStage::Register,
                        ..v
                    },
                    ItemActionView::MirrorStatus { .. } => ScanRunView {
                        stage: ScanStage::MirrorStatus,
                        ..v
                    },
                    ItemActionView::Nothing => finish_item(v, false),
                }
            } else {
                old(self)@
            },
    {
        if self.stage != ScanStage::UpsertOrder {
            return;
        }
        self.order_id = Some(order_id);
        let next = match plan_item(&self.items[self.item], self.low_confidence[self.item]) {
            Some(p) => match p.action {
                ItemAction::TrackShipment { .. } => ScanStage::Register,
                ItemAction::MirrorStatus { .. } => ScanStage::MirrorStatus,
                ItemAction::Nothing => ScanStage::UpsertOrder,
            },
            None => ScanStage::UpsertOrder,
        };
        if next == ScanStage::UpsertOrder {
            self.finish(false);
        } else {
            self.stage = next;
        }
    }

    /// Reports whether 17TRACK took the current item's number: the shipment
    /// is written next.
    pub fn registration(&mut self, accepted: bool)
        requires
            old(self).wf(),
        ensures
            final(self).wf(),
            final(self)@ == if old(self)@.stage == ScanStage::Register {
                ScanRunView { registered: accepted, stage: ScanStage::UpsertShipment, ..old(self)@ }
            } else {
                old(self)@
            },
    {
        if self.stage == ScanStage::Register {
            self.registered = accepted;
            self.stage = ScanStage::UpsertShipment;
        }
    }

    /// Reports that the current write is done: a shipment write or a
    /// status mirror finishes the item; recording the message finishes the
    /// message, which is counted, and the scan goes on with the next one.
    pub fn step_done(&mut self)
        requires
            old(self).wf(),
            old(self)@.stage == ScanStage::UpsertShipment ==> can_finish(
                old(self)@,
                old(self)@.registered,
            ),
            old(self)@.stage == ScanStage::MirrorStatus ==> can_finish(old(self)@, false),
        ensures
            final(self).wf(),
            final(self)@ == match old(self)@.stage {
                ScanStage::UpsertShipment => finish_item(old(self)@, old(self)@.registered),
                ScanStage::MirrorStatus => finish_item(old(self)@, false),
                ScanStage::RecordSeen => next_message(
                    ScanRunView {
                        summary: ScanSummary {
                            messages_processed: (old(self)@.summary.messages_processed
                                + 1) as usize,
                            ..old(self)@.summary
                        },
                        ..old(self)@
                    },
                ),
                _ => old(self)@,
            },
    {
        match self.stage {
            ScanStage::UpsertShipment => {
                let r = self.registered;
                self.finish(r);
            },
            ScanStage::MirrorStatus => {
                self.finish(false);
            },
            ScanStage::RecordSeen => {
                proof {
                    assert(done_items(self.done@) == all_kept(self.given@));
                }
                self.summary.record_message();
                self.next_message();
            },
            _ => {},
        }
    }
}

} // verus!
