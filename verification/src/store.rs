//! What the store records for an extracted item: the normalised tracking
//! number a shipment is keyed by, and the statuses that orders and
//! shipments start from.

use vstd::prelude::*;
use crate::json::opt_string_view;
use crate::models::ExtractedShipment;
use crate::status::{status_of_text, ShipmentStatus};
use crate::text::{
    ascii_upper, ascii_upper_char, chars_of, is_white_space, is_white_space_char, lemma_ascii_case_mappings,
    string_from_chars, to_uppercase, uppercase_of,
};
use vstd::utf8::is_ascii_chars;

verus! {

/// The characters of `s` that are not white space, in order.
pub open spec fn without_white_space(s: Seq<char>) -> Seq<char>
    decreases s.len(),
{
    if s.len() == 0 {
        Seq::empty()
    } else if is_white_space(s.last()) {
        without_white_space(s.drop_last())
    } else {
        without_white_space(s.drop_last()).push(s.last())
    }
}

/// The form under which a tracking number is stored and looked up: white
/// space removed, then uppercased.
pub open spec fn tracking_key(s: Seq<char>) -> Seq<char> {
    uppercase_of(without_white_space(s))
}

proof fn lemma_without_white_space_clean(s: Seq<char>)
    ensures
        forall|i: int|
            0 <= i < without_white_space(s).len() ==> !is_white_space(
                #[trigger] without_white_space(s)[i],
            ),
    decreases s.len(),
{
    if s.len() > 0 {
        lemma_without_white_space_clean(s.drop_last());
        let prev = without_white_space(s.drop_last());
        if !is_white_space(s.last()) {
            assert forall|i: int| 0 <= i < prev.push(s.last()).len() implies !is_white_space(
                #[trigger] prev.push(s.last())[i],
            ) by {
                if i < prev.len() {
                    assert(prev.push(s.last())[i] == prev[i]);
                }
            }
        }
    }
}

proof fn lemma_clean_is_fixed(s: Seq<char>)
    requires
        forall|i: int| 0 <= i < s.len() ==> !is_white_space(#[trigger] s[i]),
    ensures
        without_white_space(s) == s,
    decreases s.len(),
{
    if s.len() > 0 {
        lemma_clean_is_fixed(s.drop_last());
        assert(s.drop_last().push(s.last()) =~= s);
    }
}

/// White space does not matter to a tracking number: a number and the same
/// number with its white space removed have the same key, and removing white
/// space twice changes nothing more.
pub proof fn lemma_white_space_does_not_change_key(s: Seq<char>)
    ensures
        without_white_space(without_white_space(s)) == without_white_space(s),
        tracking_key(without_white_space(s)) == tracking_key(s),
{
    lemma_without_white_space_clean(s);
    lemma_clean_is_fixed(without_white_space(s));
}

/// Normalising twice gives what normalising once gives, for every number
/// whose uppercased, white-space-free form holds no white space and is
/// unchanged by uppercasing again. (For ASCII numbers `normalize_tracking`
/// and `lemma_ascii_tracking_key` give the same without these conditions.)
pub proof fn lemma_tracking_key_idempotent(s: Seq<char>)
    requires
        forall|i: int|
            0 <= i < tracking_key(s).len() ==> !is_white_space(#[trigger] tracking_key(s)[i]),
        uppercase_of(tracking_key(s)) == tracking_key(s),
    ensures
        tracking_key(tracking_key(s)) == tracking_key(s),
{
    lemma_clean_is_fixed(tracking_key(s));
}

/// The key of an ASCII tracking number: white space removed, then ASCII
/// letters uppercased.
pub open spec fn ascii_tracking_key(s: Seq<char>) -> Seq<char> {
    ascii_upper(without_white_space(s))
}

proof fn lemma_without_white_space_shrinks(s: Seq<char>)
    ensures
        without_white_space(s).len() <= s.len(),
        is_ascii_chars(s) ==> is_ascii_chars(without_white_space(s)),
    decreases s.len(),
{
    if s.len() > 0 {
        lemma_without_white_space_shrinks(s.drop_last());
        let prev = without_white_space(s.drop_last());
        if is_ascii_chars(s) {
            assert(is_ascii_chars(s.drop_last())) by {
                assert forall|i: int| 0 <= i < s.drop_last().len() implies '\0' <= #[trigger] s.drop_last()[i]
                    <= '\u{7f}' by {
                    assert(s.drop_last()[i] == s[i]);
                }
            }
            if !is_white_space(s.last()) {
                assert forall|i: int| 0 <= i < prev.push(s.last()).len() implies '\0'
                    <= #[trigger] prev.push(s.last())[i] <= '\u{7f}' by {
                    if i < prev.len() {
                        assert(prev.push(s.last())[i] == prev[i]);
                    } else {
                        assert(s.last() == s[s.len() - 1]);
                    }
                }
            }
        }
    }
}

/// The key of an ASCII tracking number is ASCII, holds no white space, is no
/// longer than the number, and is its own key: normalising twice gives what
/// normalising once gives. Two ASCII numbers have the same key exactly when
/// they agree once white space is removed and letters are uppercased.
pub proof fn lemma_ascii_tracking_key(a: Seq<char>, b: Seq<char>)
    requires
        is_ascii_chars(a),
    ensures
        is_ascii_chars(ascii_tracking_key(a)),
        forall|i: int|
            0 <= i < ascii_tracking_key(a).len() ==> !is_white_space(
                #[trigger] ascii_tracking_key(a)[i],
            ),
        ascii_tracking_key(a).len() <= a.len(),
        ascii_tracking_key(ascii_tracking_key(a)) == ascii_tracking_key(a),
        ascii_tracking_key(a) == ascii_tracking_key(b) <==> ascii_upper(without_white_space(a))
            == ascii_upper(without_white_space(b)),
{
    let w = without_white_space(a);
    lemma_without_white_space_shrinks(a);
    lemma_without_white_space_clean(a);
    lemma_ascii_case_mappings(w);
    let k = ascii_upper(w);
    assert forall|i: int| 0 <= i < k.len() implies !is_white_space(#[trigger] k[i]) by {
        assert(!is_white_space(w[i]));
        assert(k[i] == ascii_upper_char(w[i]));
    }
    lemma_clean_is_fixed(k);
}

/// Normalises a tracking number: removes all white space and uppercases it.
pub fn normalize_tracking(value: &str) -> (res: String)
    ensures
        res@ == tracking_key(value@),
        is_ascii_chars(value@) ==> res@ == ascii_tracking_key(value@),
{
    let v = chars_of(value);
    let mut kept: Vec<char> = Vec::new();
    for i in 0..v.len()
        invariant
            v@ == value@,
            kept@ == without_white_space(v@.take(i as int)),
    {
        assert(v@.take(i + 1).drop_last() == v@.take(i as int));
        assert(v@.take(i + 1).last() == v@[i as int]);
        if !is_white_space_char(v[i]) {
            kept.push(v[i]);
        }
    }
    assert(v@.take(v@.len() as int) == v@);
    let stripped = string_from_chars(&kept);
    proof {
        lemma_without_white_space_shrinks(value@);
    }
    to_uppercase(stripped.as_str())
}

/// The status an order is recorded with: read from the item's status text,
/// `Detected` when it has none.
pub open spec fn order_status_of(status: Option<Seq<char>>) -> ShipmentStatus {
    match status {
        Some(t) => status_of_text(t),
        None => ShipmentStatus::Detected,
    }
}

/// The status a tracked shipment is recorded with: read from the item's
/// status text; without one, `Registered` when 17TRACK took the number and
/// `Detected` otherwise.
pub open spec fn shipment_status_of(status: Option<Seq<char>>, registered: bool) -> ShipmentStatus {
    match status {
        Some(t) => status_of_text(t),
        None => if registered {
            ShipmentStatus::Registered
        } else {
            ShipmentStatus::Detected
        },
    }
}

/// The order number under which an item's order is written; nothing when
/// the item names no order (no order can be written then).
pub fn order_number_of(item: &ExtractedShipment) -> (res: Option<String>)
    ensures
        opt_string_view(res) == opt_string_view(item.order_number),
{
    match &item.order_number {
        Some(n) => Some(n.clone()),
        None => None,
    }
}

/// The status that an order, or an order's placeholder shipment, is
/// recorded with for this item.
pub fn order_status(item: &ExtractedShipment) -> (res: ShipmentStatus)
    ensures
        res == order_status_of(opt_string_view(item.status)),
{
    match &item.status {
        Some(t) => ShipmentStatus::from_text(t.as_str()),
        None => ShipmentStatus::Detected,
    }
}

/// The row values with which a tracked shipment is inserted or updated.
#[derive(Debug, Clone)]
pub struct ShipmentUpsert {
    /// The normalised tracking number, the shipment's key.
    pub tracking_number: String,
    pub status: ShipmentStatus,
    /// 1 when 17TRACK took the number, else 0.
    pub track17_registered: i64,
}

/// What upserting the item's shipment writes; nothing when the item has no
/// tracking number (no shipment is written then).
pub fn shipment_upsert(item: &ExtractedShipment, registered: bool) -> (res: Option<ShipmentUpsert>)
    ensures
        res is Some <==> item.tracking_number is Some,
        res matches Some(u) ==> {
            &&& u.tracking_number@ == tracking_key(item.tracking_number->0@)
            &&& is_ascii_chars(item.tracking_number->0@) ==> u.tracking_number@
                == ascii_tracking_key(item.tracking_number->0@)
            &&& u.status == shipment_status_of(opt_string_view(item.status), registered)
            &&& u.track17_registered == if registered {
                1i64
            } else {
                0i64
            }
        },
{
    match &item.tracking_number {
        Some(tn) => {
            let status = match &item.status {
                Some(t) => ShipmentStatus::from_text(t.as_str()),
                None => if registered {
                    ShipmentStatus::Registered
                } else {
                    ShipmentStatus::Detected
                },
            };
            Some(
                ShipmentUpsert {
                    tracking_number: normalize_tracking(tn.as_str()),
                    status,
                    track17_registered: if registered {
                        1
                    } else {
                        0
                    },
                },
            )
        },
        None => None,
    }
}


/// Whether a status-only update for an order is put on its shipments: only
/// when the order has exactly one shipment.
pub fn mirror_applies(shipment_count: i64) -> (res: bool)
    ensures
        res == (shipment_count == 1),
{
    shipment_count == 1
}

} // verus!
