//! Reading 17TRACK replies: tracking statuses, registration outcomes, and
//! the batching of numbers into status requests.

use vstd::prelude::*;
use crate::json::{
    json_text_value, parse_json_text, contains_error_code, has_code, json_get, json_i64, json_pointer, json_str, opt_string_view, opt_value, JsonItem, JsonValue,
};
use crate::status::{status_of_17track, ShipmentStatus};

verus! {

/// The error code with which 17TRACK refuses a number that is already registered.
pub const ALREADY_REGISTERED_CODE: i64 = -18019901;

/// The most tracking numbers that one status request carries.
pub const STATUS_BATCH_SIZE: usize = 40;

/// The latest known state of one tracking number, as 17TRACK reports it.
#[derive(Debug, Clone)]
pub struct Track17Status {
    pub number: String,
    pub status: ShipmentStatus,
    pub event_text: Option<String>,
    pub event_at: Option<String>,
    /// The compact JSON text of the whole entry.
    pub raw: String,
}

/// The plain content of a `Track17Status`.
pub struct Track17StatusView {
    pub number: Seq<char>,
    pub status: ShipmentStatus,
    pub event_text: Option<Seq<char>>,
    pub event_at: Option<Seq<char>>,
    pub raw: Seq<char>,
}

impl View for Track17Status {
    type V = Track17StatusView;

    open spec fn view(&self) -> Track17StatusView {
        Track17StatusView {
            number: self.number@,
            status: self.status,
            event_text: opt_string_view(self.event_text),
            event_at: opt_string_view(self.event_at),
            raw: self.raw@,
        }
    }
}

/// The views of a sequence of statuses.
pub open spec fn status_views(s: Seq<Track17Status>) -> Seq<Track17StatusView> {
    s.map_values(|t: Track17Status| t@)
}

/// The tracking number of an entry: its `number`, else
/// `track_info.tracking.number`, else empty.
pub open spec fn entry_number(item: JsonValue) -> Seq<char> {
    match json_str(json_get(item, "number"@)) {
        Some(s) => s,
        None => match json_str(
            json_pointer(item, seq!["track_info"@, "tracking"@, "number"@]),
        ) {
            Some(s) => s,
            None => Seq::empty(),
        },
    }
}

/// The status code of an entry: `track_info.latest_status.status`, else the
/// first provider's `provider_status`.
pub open spec fn entry_code(item: JsonValue) -> Option<i64> {
    match json_i64(json_pointer(item, seq!["track_info"@, "latest_status"@, "status"@])) {
        Some(c) => Some(c),
        None => json_i64(
            json_pointer(
                item,
                seq!["track_info"@, "tracking"@, "providers"@, "0"@, "provider_status"@],
            ),
        ),
    }
}

/// The latest event of an entry.
pub open spec fn entry_latest(item: JsonValue) -> Option<JsonValue> {
    json_pointer(item, seq!["track_info"@, "latest_event"@])
}

/// The string member `first` of the event, else its string member `second`.
pub open spec fn event_field(latest: Option<JsonValue>, first: Seq<char>, second: Seq<char>) -> Option<
    Seq<char>,
> {
    match latest {
        Some(e) => match json_str(json_get(e, first)) {
            Some(s) => Some(s),
            None => json_str(json_get(e, second)),
        },
        None => None,
    }
}

/// What one accepted entry reports; nothing when it names no number.
pub open spec fn entry_status(item: JsonItem) -> Option<Track17StatusView> {
    let number = entry_number(item.value);
    let latest = entry_latest(item.value);
    let event_text = event_field(latest, "description"@, "event"@);
    let event_at = event_field(latest, "time_iso"@, "time_utc"@);
    if number.len() == 0 {
        None
    } else {
        Some(
            Track17StatusView {
                number,
                status: status_of_17track(entry_code(item.value), event_text),
                event_text,
                event_at,
                raw: item.text@,
            },
        )
    }
}

/// The statuses of these entries, in order, leaving out those without a number.
pub open spec fn entry_statuses(items: Seq<JsonItem>) -> Seq<Track17StatusView>
    decreases items.len(),
{
    if items.len() == 0 {
        Seq::empty()
    } else {
        let prev = entry_statuses(items.drop_last());
        match entry_status(items.last()) {
            Some(s) => prev.push(s),
            None => prev,
        }
    }
}

/// The entries of `data.accepted` in a reply; none when it is not an array.
pub open spec fn accepted_entries(v: JsonValue) -> Seq<JsonItem> {
    match json_pointer(v, seq!["data"@, "accepted"@]) {
        Some(JsonValue::Array(items)) => items@,
        _ => Seq::empty(),
    }
}

/// The statuses that a tracking-info reply reports.
pub open spec fn reply_statuses(v: JsonValue) -> Seq<Track17StatusView> {
    entry_statuses(accepted_entries(v))
}

/// Whether an accepted entry names a tracking number.
pub open spec fn names_number(it: JsonItem) -> bool {
    entry_number(it.value).len() > 0
}

/// The entries that name a tracking number, in order.
pub open spec fn numbered(items: Seq<JsonItem>) -> Seq<JsonItem> {
    items.filter(|it: JsonItem| names_number(it))
}

/// One status for each entry that names a number, whatever its code or
/// events, and none for the others: the statuses are, in order, those of
/// the entries that name a number, each with that entry's number and raw
/// text, so there are exactly as many statuses as such entries.
pub proof fn lemma_one_status_per_numbered_entry(items: Seq<JsonItem>)
    ensures
        entry_statuses(items).len() == numbered(items).len(),
        forall|k: int|
            0 <= k < numbered(items).len() ==> {
                &&& (#[trigger] entry_statuses(items)[k]).number == entry_number(
                    numbered(items)[k].value,
                )
                &&& entry_statuses(items)[k].raw == numbered(items)[k].text@
            },
    decreases items.len(),
{
    reveal(Seq::filter);
    if items.len() > 0 {
        lemma_one_status_per_numbered_entry(items.drop_last());
        assert(numbered(items.drop_last()) == items.drop_last().filter(
            |it: JsonItem| names_number(it),
        ));
    }
}

/// A tracking-info reply gives one status for each accepted entry that
/// names a number, in order, with that entry's number and raw text.
pub proof fn lemma_reply_status_per_numbered_entry(v: JsonValue)
    ensures
        reply_statuses(v).len() == numbered(accepted_entries(v)).len(),
        forall|k: int|
            0 <= k < numbered(accepted_entries(v)).len() ==> {
                &&& (#[trigger] reply_statuses(v)[k]).number == entry_number(
                    numbered(accepted_entries(v))[k].value,
                )
                &&& reply_statuses(v)[k].raw == numbered(accepted_entries(v))[k].text@
            },
{
    lemma_one_status_per_numbered_entry(accepted_entries(v));
}

/// The member `key` of `v` as a string.
fn get_str<'a>(v: &'a JsonValue, key: &str) -> (res: Option<&'a str>)
    ensures
        match res {
            Some(s) => json_str(json_get(*v, key@)) == Some(s@),
            None => json_str(json_get(*v, key@)) is None,
        },
{
    match v.get(key) {
        Some(x) => x.as_str(),
        None => None,
    }
}

/// The value at the pointer made of `toks`, as a string.
fn pointer_str<'a>(v: &'a JsonValue, toks: &Vec<&str>) -> (res: Option<&'a str>)
    ensures
        match res {
            Some(s) => json_str(json_pointer(*v, toks@.map_values(|t: &str| t@))) == Some(s@),
            None => json_str(json_pointer(*v, toks@.map_values(|t: &str| t@))) is None,
        },
{
    match v.pointer(toks) {
        Some(x) => x.as_str(),
        None => None,
    }
}

/// The value at the pointer made of `toks`, as an integer.
fn pointer_i64(v: &JsonValue, toks: &Vec<&str>) -> (res: Option<i64>)
    ensures
        res == json_i64(json_pointer(*v, toks@.map_values(|t: &str| t@))),
{
    match v.pointer(toks) {
        Some(x) => x.as_i64(),
        None => None,
    }
}

/// Copies an optional string slice.
fn owned(o: Option<&str>) -> (res: Option<String>)
    ensures
        opt_string_view(res) == match o {
            Some(s) => Some(s@),
            None => None::<Seq<char>>,
        },
{
    match o {
        Some(s) => Some(s.to_owned()),
        None => None,
    }
}

/// The string member `first` of the event, else its string member `second`.
fn event_field_exec(latest: Option<&JsonValue>, first: &str, second: &str) -> (res: Option<String>)
    ensures
        opt_string_view(res) == event_field(opt_value(latest), first@, second@),
{
    match latest {
        Some(e) => match get_str(e, first) {
            Some(s) => Some(s.to_owned()),
            None => owned(get_str(e, second)),
        },
        None => None,
    }
}

/// What one accepted entry reports; nothing when it names no number.
pub fn status_of_entry(item: &JsonItem) -> (res: Option<Track17Status>)
    ensures
        match res {
            Some(s) => entry_status(*item) == Some(s@),
            None => entry_status(*item) is None,
        },
{
    let v = &item.value;
    let p_number = vec!["track_info", "tracking", "number"];
    let p_status = vec!["track_info", "latest_status", "status"];
    let p_provider = vec!["track_info", "tracking", "providers", "0", "provider_status"];
    let p_latest = vec!["track_info", "latest_event"];
    assert(p_number@.map_values(|t: &str| t@) =~= seq!["track_info"@, "tracking"@, "number"@]);
    assert(p_status@.map_values(|t: &str| t@) =~= seq![
        "track_info"@,
        "latest_status"@,
        "status"@,
    ]);
    assert(p_provider@.map_values(|t: &str| t@) =~= seq![
        "track_info"@,
        "tracking"@,
        "providers"@,
        "0"@,
        "provider_status"@,
    ]);
    assert(p_latest@.map_values(|t: &str| t@) =~= seq!["track_info"@, "latest_event"@]);
    let number: String = match get_str(v, "number") {
        Some(s) => s.to_owned(),
        None => match pointer_str(v, &p_number) {
            Some(s) => s.to_owned(),
            None => String::new(),
        },
    };
    if number.as_str().is_empty() {
        return None;
    }
    let code = match pointer_i64(v, &p_status) {
        Some(c) => Some(c),
        None => pointer_i64(v, &p_provider),
    };
    let latest = v.pointer(&p_latest);
    let event_text = event_field_exec(latest, "description", "event");
    let event_at = event_field_exec(latest, "time_iso", "time_utc");
    let status = match &event_text {
        Some(t) => ShipmentStatus::from_17track_status(code, Some(t.as_str())),
        None => ShipmentStatus::from_17track_status(code, None),
    };
    Some(Track17Status { number, status, event_text, event_at, raw: item.text.clone() })
}

/// The statuses that a 17TRACK tracking-info reply reports: one for each
/// entry of `data.accepted` that names a tracking number, in order.
pub fn parse_track17_statuses(value: &JsonValue) -> (res: Vec<Track17Status>)
    ensures
        status_views(res@) == reply_statuses(*value),
{
    let mut out: Vec<Track17Status> = Vec::new();
    let p_accepted = vec!["data", "accepted"];
    assert(p_accepted@.map_values(|t: &str| t@) =~= seq!["data"@, "accepted"@]);
    let accepted = value.pointer(&p_accepted);
    if let Some(acc) = accepted {
        if let Some(items) = acc.as_array() {
            for i in 0..items.len()
                invariant
                    status_views(out@) == entry_statuses(items@.take(i as int)),
            {
                assert(items@.take(i + 1).drop_last() == items@.take(i as int));
                assert(items@.take(i + 1).last() == items@[i as int]);
                match status_of_entry(&items[i]) {
                    Some(s) => {
                        out.push(s);
                        assert(status_views(out@) =~= status_views(out@.drop_last()).push(s@));
                    },
                    None => {},
                }
            }
            assert(items@.take(items@.len() as int) == items@);
        }
    }
    assert(status_views(out@) =~= reply_statuses(*value));
    out
}


/// Whether a registration reply means the number is (now or already)
/// registered: it carries the already-registered error code somewhere, or
/// its `code` is 0 or absent.
pub open spec fn registration_accepted(v: JsonValue) -> bool {
    has_code(v, ALREADY_REGISTERED_CODE) || match json_i64(json_get(v, "code"@)) {
        Some(c) => c == 0,
        None => true,
    }
}

/// Reads a registration reply: true where the number is registered.
pub fn register_accepted(value: &JsonValue) -> (res: bool)
    ensures
        res == registration_accepted(*value),
{
    if contains_error_code(value, ALREADY_REGISTERED_CODE) {
        return true;
    }
    let code = match value.get("code") {
        Some(c) => c.as_i64(),
        None => None,
    };
    match code {
        Some(c) => c == 0,
        None => true,
    }
}

/// The `i`-th batch of a list of `n` numbers cut into batches of
/// `STATUS_BATCH_SIZE`: positions from `40 * i` up to `40 * i + 40` or `n`.
pub open spec fn batch_end(n: int, i: int) -> int {
    if 40 * i + 40 <= n {
        40 * i + 40
    } else {
        n
    }
}

/// The views of a list of batches.
pub open spec fn batch_views(b: Seq<Vec<String>>) -> Seq<Seq<String>> {
    b.map_values(|c: Vec<String>| c@)
}

/// Cuts the numbers into consecutive batches of at most `STATUS_BATCH_SIZE`,
/// as `slice::chunks` does: all batches but the last are full, none is empty,
/// and together they hold the numbers in order.
pub fn status_batches(numbers: &Vec<String>) -> (res: Vec<Vec<String>>)
    ensures
        res@.len() == (numbers@.len() + 39) / 40,
        forall|i: int|
            0 <= i < res@.len() ==> #[trigger] res@[i]@ == numbers@.subrange(
                40 * i,
                batch_end(numbers@.len() as int, i),
            ),
        batch_views(res@).flatten() == numbers@,
{
    let n = numbers.len();
    let mut res: Vec<Vec<String>> = Vec::new();
    let mut start: usize = 0;
    while start < n
        invariant
            n == numbers@.len(),
            start <= n,
            start < n ==> start == 40 * res@.len(),
            res@.len() == (start + 39) / 40,
            forall|i: int|
                0 <= i < res@.len() ==> #[trigger] res@[i]@ == numbers@.subrange(
                    40 * i,
                    batch_end(n as int, i),
                ),
            batch_views(res@).flatten() == numbers@.take(start as int),
        decreases n - start,
    {
        let end: usize = if n - start > STATUS_BATCH_SIZE {
            start + STATUS_BATCH_SIZE
        } else {
            n
        };
        let mut chunk: Vec<String> = Vec::new();
        let mut j: usize = start;
        while j < end
            invariant
                start <= j <= end <= n,
                n == numbers@.len(),
                chunk@ == numbers@.subrange(start as int, j as int),
            decreases end - j,
        {
            chunk.push(numbers[j].clone());
            assert(numbers@.subrange(start as int, j + 1) == numbers@.subrange(
                start as int,
                j as int,
            ).push(numbers@[j as int]));
            j = j + 1;
        }
        let ghost old_res = res@;
        res.push(chunk);
        proof {
            assert(batch_views(res@) =~= batch_views(old_res).push(chunk@));
            batch_views(old_res).lemma_flatten_push(chunk@);
            assert(numbers@.take(end as int) =~= numbers@.take(start as int)
                + numbers@.subrange(start as int, end as int));
        }
        start = end;
    }
    assert(numbers@.take(n as int) =~= numbers@);
    res
}

/// Reads a tracking-info reply body: the statuses it reports, or nothing
/// where the body is not JSON.
pub fn parse_track17_reply(body: &str) -> (res: Option<Vec<Track17Status>>)
    ensures
        match json_text_value(body@) {
            None => res is None,
            Some(v) => res matches Some(out) && status_views(out@) == reply_statuses(v),
        },
{
    match parse_json_text(body) {
        None => None,
        Some(v) => Some(parse_track17_statuses(&v)),
    }
}

/// Reads a registration reply body: whether the number is registered, or
/// nothing where the body is not JSON.
pub fn register_reply_accepted(body: &str) -> (res: Option<bool>)
    ensures
        match json_text_value(body@) {
            None => res is None,
            Some(v) => res == Some(registration_accepted(v)),
        },
{
    match parse_json_text(body) {
        None => None,
        Some(v) => Some(register_accepted(&v)),
    }
}

} // verus!
