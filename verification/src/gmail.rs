//! Turning a Gmail API message into an `EmailMessage`: header lookup and
//! the decoding of base64url text parts.

use vstd::prelude::*;
use vstd::utf8::{decode_utf8, encode_utf8, valid_utf8};
use crate::models::EmailMessage;
use crate::number::{parse_i64, parse_i64_spec};
use crate::text::{has_prefix, lowercase_of, push_char, same_text, starts_with, to_lowercase};
use base64::Engine;

verus! {

/// A message header.
#[derive(Debug)]
pub struct GmailHeader {
    pub name: String,
    pub value: String,
}

/// The body of a message part; `data` is base64url without padding.
#[derive(Debug)]
pub struct GmailBody {
    pub data: Option<String>,
}

/// A MIME part of a message, with its sub-parts.
#[derive(Debug)]
pub struct GmailPayload {
    pub mime_type: Option<String>,
    pub headers: Option<Vec<GmailHeader>>,
    pub body: Option<GmailBody>,
    pub parts: Option<Vec<GmailPayload>>,
}

/// A message as the Gmail API returns it in `full` format.
#[derive(Debug)]
pub struct GmailMessage {
    pub id: String,
    pub thread_id: String,
    pub snippet: Option<String>,
    pub internal_date: Option<String>,
    pub payload: Option<GmailPayload>,
}

/// Header names (already lowercased) and values in arrival order; a lookup
/// gives the value of the last header with that name. Its view is the map
/// that inserting the pairs in order builds, which is what successive
/// inserts into a string-keyed hash map leave; held as a list of pairs so
/// that every lookup is proved against that view.
pub struct HeaderMap {
    entries: Vec<(String, String)>,
}

/// The map that inserting these pairs one after another builds.
pub open spec fn assoc_map(e: Seq<(String, String)>) -> Map<Seq<char>, Seq<char>>
    decreases e.len(),
{
    if e.len() == 0 {
        Map::empty()
    } else {
        assoc_map(e.drop_last()).insert(e.last().0@, e.last().1@)
    }
}

impl View for HeaderMap {
    type V = Map<Seq<char>, Seq<char>>;

    closed spec fn view(&self) -> Map<Seq<char>, Seq<char>> {
        assoc_map(self.entries@)
    }
}

impl HeaderMap {
    /// An empty map.
    pub fn new() -> (res: Self)
        ensures
            res@ == Map::<Seq<char>, Seq<char>>::empty(),
    {
        HeaderMap { entries: Vec::new() }
    }

    /// Sets `key` to `value`, replacing what it had.
    pub fn insert(&mut self, key: String, value: String)
        ensures
            final(self)@ == old(self)@.insert(key@, value@),
    {
        let ghost e = self.entries@;
        self.entries.push((key, value));
        assert(self.entries@.drop_last() == e);
    }

    /// The value of `key`.
    pub fn get(&self, key: &str) -> (res: Option<&String>)
        ensures
            match res {
                Some(v) => self@.contains_key(key@) && self@[key@] == v@,
                None => !self@.contains_key(key@),
            },
    {
        let e = &self.entries;
        let mut i: usize = e.len();
        assert(e@.take(e@.len() as int) == e@);
        while i > 0
            invariant
                e@ == self.entries@,
                i <= e@.len(),
                assoc_map(e@).contains_key(key@) == assoc_map(e@.take(i as int)).contains_key(
                    key@,
                ),
                assoc_map(e@).contains_key(key@) ==> assoc_map(e@)[key@] == assoc_map(
                    e@.take(i as int),
                )[key@],
            decreases i,
        {
            assert(e@.take(i as int).drop_last() == e@.take(i - 1));
            assert(e@.take(i as int).last() == e@[i - 1]);
            if same_text(e[i - 1].0.as_str(), key) {
                return Some(&e[i - 1].1);
            }
            i = i - 1;
        }
        None
    }
}

/// The headers of a message part, by lowercased name.
pub open spec fn headers_view(hs: Seq<GmailHeader>) -> Map<Seq<char>, Seq<char>>
    decreases hs.len(),
{
    if hs.len() == 0 {
        Map::empty()
    } else {
        headers_view(hs.drop_last()).insert(lowercase_of(hs.last().name@), hs.last().value@)
    }
}

/// The part behind an optional reference.
pub open spec fn opt_payload(o: Option<&GmailPayload>) -> Option<GmailPayload> {
    match o {
        Some(p) => Some(*p),
        None => None,
    }
}

/// The headers of an optional message part, by lowercased name.
pub open spec fn payload_headers(payload: Option<GmailPayload>) -> Map<Seq<char>, Seq<char>> {
    match payload {
        Some(p) => match p.headers {
            Some(hs) => headers_view(hs@),
            None => Map::empty(),
        },
        None => Map::empty(),
    }
}

/// The headers of a message part by lowercased name; where a name occurs
/// more than once, the last value counts.
pub fn header_map(payload: Option<&GmailPayload>) -> (res: HeaderMap)
    ensures
        res@ == payload_headers(opt_payload(payload)),
{
    let mut map = HeaderMap::new();
    if let Some(p) = payload {
        if let Some(headers) = &p.headers {
            for i in 0..headers.len()
                invariant
                    map@ == headers_view(headers@.take(i as int)),
            {
                assert(headers@.take(i + 1).drop_last() == headers@.take(i as int));
                let h = &headers[i];
                map.insert(to_lowercase(h.name.as_str()), h.value.clone());
            }
            assert(headers@.take(headers@.len() as int) == headers@);
        }
    }
    map
}


/// `base64::DecodeError`, the error of a failed base64 decoding.
#[verifier::external_type_specification]
#[verifier::external_body]
pub struct ExDecodeError(base64::DecodeError);

/// What decoding this text with the `URL_SAFE` engine of the `base64` crate
/// (URL-safe alphabet, canonical padding) gives; nothing when it fails.
pub uninterp spec fn base64_url_decoded(input: Seq<char>) -> Option<Seq<u8>>;

/// What `String::from_utf8_lossy` makes of these bytes.
pub uninterp spec fn utf8_lossy(bytes: Seq<u8>) -> Seq<char>;

/// Calls `URL_SAFE.decode` of the `base64` crate; its result is named by
/// `base64_url_decoded` of the input's characters.
#[verifier::external_body]
fn decode_base64_url(input: &str) -> (res: Result<Vec<u8>, base64::DecodeError>)
    ensures
        match res {
            Ok(b) => base64_url_decoded(input@) == Some(b@),
            Err(_) => base64_url_decoded(input@) is None,
        },
{
    base64::engine::general_purpose::URL_SAFE.decode(input)
}

/// Calls `String::from_utf8_lossy`: named by `utf8_lossy`, and for valid
/// UTF-8 it is the plain decoding (invalid sequences become U+FFFD, which is
/// left unsaid).
#[verifier::external_body]
fn decode_utf8_lossy(bytes: &Vec<u8>) -> (res: String)
    ensures
        res@ == utf8_lossy(bytes@),
        valid_utf8(bytes@) ==> res@ == decode_utf8(bytes@),
{
    String::from_utf8_lossy(bytes).into_owned()
}

/// How many `=` bring a text of `byte_len` UTF-8 bytes to a multiple of four.
pub open spec fn padding_len(byte_len: nat) -> nat {
    ((4 - (byte_len % 4) as int) % 4) as nat
}

/// The text followed by the `=` that bring its UTF-8 length to a multiple of four.
pub open spec fn padded(d: Seq<char>) -> Seq<char> {
    d + Seq::new(padding_len(encode_utf8(d).len()), |i: int| '=')
}

/// The text that a part's base64url data holds; empty when it does not decode.
pub open spec fn data_text(d: Seq<char>) -> Seq<char> {
    match base64_url_decoded(padded(d)) {
        Some(b) => utf8_lossy(b),
        None => Seq::empty(),
    }
}

/// The text of a part itself, not counting its sub-parts: its decoded body
/// where its MIME type starts with `text/`.
pub open spec fn own_text(p: GmailPayload) -> Seq<char> {
    let mime = match p.mime_type {
        Some(m) => m@,
        None => Seq::empty(),
    };
    if starts_with(mime, "text/"@) {
        match p.body {
            Some(b) => match b.data {
                Some(d) => data_text(d@),
                None => Seq::empty(),
            },
            None => Seq::empty(),
        }
    } else {
        Seq::empty()
    }
}

/// Which parts contribute text, for every part: one whose MIME type begins
/// with the five characters "text/" (`text/plain`, `text/html` and any
/// other text type) contributes what its data decodes to, and one whose
/// MIME type does not begin so, or which has none, contributes nothing.
pub proof fn lemma_text_parts_contribute(p: GmailPayload)
    ensures
        ({
            let mime = match p.mime_type {
                Some(m) => m@,
                None => Seq::empty(),
            };
            let texty = mime.len() >= 5 && mime[0] == 't' && mime[1] == 'e' && mime[2] == 'x'
                && mime[3] == 't' && mime[4] == '/';
            &&& (texty && p.body is Some && p.body->0.data is Some) ==> own_text(p) == data_text(
                p.body->0.data->0@,
            )
            &&& !texty ==> own_text(p) == Seq::<char>::empty()
        }),
{
    reveal_strlit("text/");
    let mime = match p.mime_type {
        Some(m) => m@,
        None => Seq::<char>::empty(),
    };
    if mime.len() >= 5 && mime[0] == 't' && mime[1] == 'e' && mime[2] == 'x' && mime[3] == 't'
        && mime[4] == '/' {
        assert(mime.take(5) =~= "text/"@);
    } else if "text/"@.len() <= mime.len() && mime.take(5) == "text/"@ {
        assert(mime.take(5)[0] == mime[0]);
        assert(mime.take(5)[1] == mime[1]);
        assert(mime.take(5)[2] == mime[2]);
        assert(mime.take(5)[3] == mime[3]);
        assert(mime.take(5)[4] == mime[4]);
    }
}

/// The text of a part: its own text, then a newline and the text of each sub-part.
pub open spec fn payload_text(p: GmailPayload) -> Seq<char>
    decreases p,
{
    own_text(p) + match p.parts {
        Some(ps) => parts_text(ps@),
        None => Seq::empty(),
    }
}

/// A newline and the text of each of these parts, in order.
pub open spec fn parts_text(ps: Seq<GmailPayload>) -> Seq<char>
    decreases ps,
{
    if ps.len() == 0 {
        Seq::empty()
    } else {
        parts_text(ps.drop_last()) + "\n"@ + payload_text(ps.last())
    }
}

/// The text that a part's base64url data holds: the data is padded with `=`
/// to a multiple of four bytes, decoded, and read as UTF-8 with invalid
/// sequences replaced; empty when it does not decode.
pub fn decode_part_data(data: &str) -> (res: String)
    ensures
        res@ == data_text(data@),
{
    let mut padded_data = data.to_owned();
    let n = data.as_bytes().len();
    let k = (4 - n % 4) % 4;
    let mut j: usize = 0;
    while j < k
        invariant
            j <= k,
            k == padding_len(encode_utf8(data@).len()),
            padded_data@ == data@ + Seq::new(j as nat, |i: int| '='),
        decreases k - j,
    {
        push_char(&mut padded_data, '=');
        assert(data@ + Seq::new((j + 1) as nat, |i: int| '=') =~= (data@ + Seq::new(
            j as nat,
            |i: int| '=',
        )).push('='));
        j = j + 1;
    }
    match decode_base64_url(padded_data.as_str()) {
        Ok(bytes) => decode_utf8_lossy(&bytes),
        Err(_) => String::new(),
    }
}

proof fn lemma_part_smaller(p: GmailPayload, i: int)
    requires
        p.parts is Some,
        0 <= i < p.parts->0@.len(),
    ensures
        decreases_to!(p => p.parts->0@[i]),
{
    let ps = p.parts->0;
    assert(decreases_to!(p => p.parts));
    assert(decreases_to!(p.parts => ps));
    assert(decreases_to!(ps => ps@));
    assert(decreases_to!(ps@ => ps@[i]));
}

/// `own`, then for each of the texts a newline and the text.
pub open spec fn joined_text(own: Seq<char>, texts: Seq<Seq<char>>) -> Seq<char>
    decreases texts.len(),
{
    if texts.len() == 0 {
        own
    } else {
        joined_text(own, texts.drop_last()) + "\n"@ + texts.last()
    }
}

/// The views of a sequence of strings.
pub open spec fn string_views(v: Seq<String>) -> Seq<Seq<char>> {
    v.map_values(|t: String| t@)
}

/// Joins a part's own text and the texts of its sub-parts: the own text,
/// then a newline and each sub-part's text, in order.
pub fn join_part_texts(own: &str, texts: &Vec<String>) -> (res: String)
    ensures
        res@ == joined_text(own@, string_views(texts@)),
{
    let mut out = own.to_owned();
    proof {
        reveal_strlit("\n");
        assert("\n"@ =~= seq!['\n']);
    }
    for i in 0..texts.len()
        invariant
            "\n"@ == seq!['\n'],
            out@ == joined_text(own@, string_views(texts@.take(i as int))),
    {
        let ghost before = out@;
        push_char(&mut out, '\n');
        out.append(texts[i].as_str());
        assert(string_views(texts@.take(i + 1)).drop_last() =~= string_views(
            texts@.take(i as int),
        ));
        assert(string_views(texts@.take(i + 1)).last() == texts@[i as int]@);
        assert(out@ =~= before + "\n"@ + texts@[i as int]@);
    }
    assert(texts@.take(texts@.len() as int) =~= texts@);
    out
}

/// The own text of a part: its decoded body where its MIME type starts with
/// `text/`, else nothing.
pub fn own_part_text(payload: &GmailPayload) -> (res: String)
    ensures
        res@ == own_text(*payload),
{
    proof {
        reveal_strlit("");
        assert(""@ =~= Seq::<char>::empty());
    }
    let is_text = match &payload.mime_type {
        Some(m) => has_prefix(m.as_str(), "text/"),
        None => has_prefix("", "text/"),
    };
    assert(is_text == starts_with(
        match payload.mime_type {
            Some(m) => m@,
            None => Seq::empty(),
        },
        "text/"@,
    ));
    if is_text {
        if let Some(b) = &payload.body {
            if let Some(d) = &b.data {
                return decode_part_data(d.as_str());
            }
        }
    }
    String::new()
}

proof fn lemma_joined_parts(own: Seq<char>, ps: Seq<GmailPayload>)
    ensures
        joined_text(own, ps.map_values(|q: GmailPayload| payload_text(q))) == own + parts_text(ps),
    decreases ps.len(),
{
    let m = ps.map_values(|q: GmailPayload| payload_text(q));
    if ps.len() == 0 {
        assert(own + parts_text(ps) =~= own);
    } else {
        lemma_joined_parts(own, ps.drop_last());
        assert(m.drop_last() =~= ps.drop_last().map_values(|q: GmailPayload| payload_text(q)));
        assert(own + parts_text(ps) =~= own + parts_text(ps.drop_last()) + "\n"@ + payload_text(
            ps.last(),
        ));
    }
}

/// The text of a message part and all its sub-parts: each part whose MIME
/// type starts with `text/` contributes its decoded body, and each sub-part
/// is preceded by a newline.
pub fn extract_text(payload: &GmailPayload) -> (res: String)
    ensures
        res@ == payload_text(*payload),
    decreases payload,
{
    let own = own_part_text(payload);
    let mut texts: Vec<String> = Vec::new();
    if let Some(parts) = &payload.parts {
        for i in 0..parts.len()
            invariant
                payload.parts == Some(*parts),
                string_views(texts@) == parts@.take(i as int).map_values(
                    |q: GmailPayload| payload_text(q),
                ),
        {
            proof {
                lemma_part_smaller(*payload, i as int);
            }
            let t = extract_text(&parts[i]);
            let ghost before = texts@;
            texts.push(t);
            assert(texts@ == before.push(t));
            assert(string_views(texts@) =~= string_views(before).push(t@));
            assert(parts@.take(i + 1) =~= parts@.take(i as int).push(parts@[i as int]));
            assert(string_views(texts@) =~= parts@.take(i + 1).map_values(
                |q: GmailPayload| payload_text(q),
            ));
        }
        assert(parts@.take(parts@.len() as int) == parts@);
        proof {
            lemma_joined_parts(own@, parts@);
        }
    } else {
        assert(string_views(texts@) =~= Seq::<Seq<char>>::empty());
        assert(own@ + Seq::<char>::empty() =~= own@);
    }
    join_part_texts(own.as_str(), &texts)
}


/// The value of a header, empty when it is absent.
pub open spec fn header_value(m: Map<Seq<char>, Seq<char>>, name: Seq<char>) -> Seq<char> {
    if m.contains_key(name) {
        m[name]
    } else {
        Seq::empty()
    }
}

/// The text of an optional string, empty when it is absent.
pub open spec fn text_or_empty(o: Option<String>) -> Seq<char> {
    match o {
        Some(s) => s@,
        None => Seq::empty(),
    }
}

/// The receipt time that an `internalDate` text gives: its decimal value,
/// or 0 when it is absent or not an `i64`.
pub open spec fn internal_date_value(o: Option<String>) -> int {
    match o {
        Some(d) => match parse_i64_spec(d@) {
            Ok(v) => v,
            Err(_) => 0,
        },
        None => 0,
    }
}

/// Looks up a header by its lowercase name, or gives an empty string.
fn header_or_empty(map: &HeaderMap, name: &str) -> (res: String)
    ensures
        res@ == header_value(map@, name@),
{
    match map.get(name) {
        Some(v) => v.clone(),
        None => String::new(),
    }
}

impl GmailMessage {
    /// The e-mail that this message is: subject and sender from its headers
    /// (names compared in lowercase), body from its text parts, receipt time
    /// from `internalDate` (0 when absent or not a number), and empty text
    /// for whatever is missing.
    pub fn into_email_message(self) -> (res: EmailMessage)
        ensures
            res.id@ == self.id@,
            res.thread_id@ == self.thread_id@,
            res.subject@ == header_value(payload_headers(self.payload), "subject"@),
            res.from_addr@ == header_value(payload_headers(self.payload), "from"@),
            res.snippet@ == text_or_empty(self.snippet),
            res.body_text@ == match self.payload {
                Some(p) => payload_text(p),
                None => Seq::empty(),
            },
            res.internal_date_ms as int == internal_date_value(self.internal_date),
    {
        let headers = header_map(self.payload.as_ref());
        let subject = header_or_empty(&headers, "subject");
        let from_addr = header_or_empty(&headers, "from");
        let body_text = match &self.payload {
            Some(p) => extract_text(p),
            None => String::new(),
        };
        let snippet = match self.snippet {
            Some(s) => s,
            None => String::new(),
        };
        let internal_date_ms: i64 = match &self.internal_date {
            Some(d) => match parse_i64(d.as_str()) {
                Ok(v) => v,
                Err(_) => 0,
            },
            None => 0,
        };
        EmailMessage {
            id: self.id,
            thread_id: self.thread_id,
            subject,
            from_addr,
            snippet,
            body_text,
            internal_date_ms,
        }
    }
}

} // verus!
