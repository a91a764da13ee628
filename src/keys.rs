//! Storage keys for uploads whose caller names none:
//! `reports/{timestamp}-{short id}-{filename}`.
use vstd::prelude::*;
use crate::clock::{Timestamp, is_timestamp_text};
use crate::text::concat;
use vstd::string::*;

verus! {

pub open spec fn is_lower_hex(c: char) -> bool {
    ('0' <= c <= '9') || ('a' <= c <= 'f')
}

/// Whether `s` is the hyphenated lower-case text of a UUID:
/// 8-4-4-4-12 hexadecimal digits.
pub open spec fn is_uuid_text(s: Seq<char>) -> bool {
    &&& s.len() == 36
    &&& forall|i: int|
        0 <= i < 36 ==> if i == 8 || i == 13 || i == 18 || i == 23 {
            #[trigger] s[i] == '-'
        } else {
            is_lower_hex(s[i])
        }
}

/// Whether `s` is the text of a random (version 4, RFC 4122 variant) UUID.
pub open spec fn is_v4_uuid_text(s: Seq<char>) -> bool {
    &&& is_uuid_text(s)
    &&& s[14] == '4'
    &&& (s[19] == '8' || s[19] == '9' || s[19] == 'a' || s[19] == 'b')
}

/// Relies on uuid's `Uuid::new_v4`, which sets the version nibble to 4 and
/// the variant bits to `10`, and its `Display` impl, which writes the
/// hyphenated lower-case form.
#[verifier::external_body]
pub(crate) fn new_uuid_text() -> (r: String)
    ensures
        is_v4_uuid_text(r@),
{
    uuid::Uuid::new_v4().to_string()
}

/// The first eight characters of `id` (all of it when shorter).
pub open spec fn short_id(id: Seq<char>) -> Seq<char> {
    if id.len() <= 8 {
        id
    } else {
        id.subrange(0, 8)
    }
}

/// The key under which an upload named `filename` is stored at `stamp`.
pub open spec fn key_of(stamp: Seq<char>, id: Seq<char>, filename: Seq<char>) -> Seq<char> {
    "reports/"@ + stamp + "-"@ + short_id(id) + "-"@ + filename
}

/// The name given to an uploaded file that carries none.
pub open spec fn fallback_name_of(stamp: Seq<char>) -> Seq<char> {
    "report-"@ + stamp
}

/// Whether `k` is `reports/`, a timestamp text, `-`, eight lower-case
/// hexadecimal digits, `-` and then `filename`.
pub open spec fn is_generated_key(k: Seq<char>, filename: Seq<char>) -> bool {
    &&& k.len() == 37 + filename.len()
    &&& k.subrange(0, 8) == "reports/"@
    &&& is_timestamp_text(k.subrange(8, 27))
    &&& k[27] == '-'
    &&& forall|i: int| 28 <= i < 36 ==> is_lower_hex(#[trigger] k[i])
    &&& k[36] == '-'
    &&& k.subrange(37, k.len() as int) == filename
}

/// A key built from a well-formed timestamp and a UUID text has the shape
/// `reports/<timestamp>-<8 hex digits>-<filename>`.
pub proof fn lemma_generated_key_shape(stamp: Timestamp, id: Seq<char>, filename: Seq<char>)
    requires
        stamp.wf(),
        is_uuid_text(id),
    ensures
        is_generated_key(key_of(stamp.text(), id, filename), filename),
{
    reveal_strlit("reports/");
    reveal_strlit("-");
    crate::clock::lemma_text_shape(stamp);
    let k = key_of(stamp.text(), id, filename);
    let t = stamp.text();
    assert(k.subrange(0, 8) =~= "reports/"@);
    assert(k.subrange(8, 27) =~= t);
    assert(k.subrange(37, k.len() as int) =~= filename);
    assert forall|i: int| 28 <= i < 36 implies is_lower_hex(#[trigger] k[i]) by {
        assert(k[i] == id[i - 28]);
    }
}

/// Distinct (timestamp, short id, file name) triples give distinct keys:
/// the timestamp and the short id have fixed lengths, so a key determines
/// all three.
pub proof fn lemma_key_injective(
    stamp1: Seq<char>,
    id1: Seq<char>,
    name1: Seq<char>,
    stamp2: Seq<char>,
    id2: Seq<char>,
    name2: Seq<char>,
)
    requires
        is_timestamp_text(stamp1),
        is_timestamp_text(stamp2),
        id1.len() >= 8,
        id2.len() >= 8,
        key_of(stamp1, id1, name1) == key_of(stamp2, id2, name2),
    ensures
        stamp1 == stamp2,
        short_id(id1) == short_id(id2),
        name1 == name2,
{
    reveal_strlit("reports/");
    reveal_strlit("-");
    let k1 = key_of(stamp1, id1, name1);
    let k2 = key_of(stamp2, id2, name2);
    assert(k1.subrange(8, 27) =~= stamp1);
    assert(k2.subrange(8, 27) =~= stamp2);
    assert(k1.subrange(28, 36) =~= short_id(id1));
    assert(k2.subrange(28, 36) =~= short_id(id2));
    assert(k1.subrange(37, k1.len() as int) =~= name1);
    assert(k2.subrange(37, k2.len() as int) =~= name2);
}

/// Builds the storage key of an upload named `filename` from the time of the
/// upload and a freshly minted UUID text.
pub fn generated_key(stamp: &Timestamp, id: &str, filename: &str) -> (r: String)
    requires
        stamp.wf(),
    ensures
        r@ == key_of(stamp.text(), id@, filename@),
{
    let n = id.unicode_len();
    let short = if n <= 8 {
        id
    } else {
        id.substring_char(0, 8)
    };
    let s = concat("reports/", stamp.format().as_str());
    let s = concat(s.as_str(), "-");
    let s = concat(s.as_str(), short);
    let s = concat(s.as_str(), "-");
    concat(s.as_str(), filename)
}

/// The file name used for an upload that carries none: `report-{timestamp}`.
pub fn fallback_name(stamp: &Timestamp) -> (r: String)
    requires
        stamp.wf(),
    ensures
        r@ == fallback_name_of(stamp.text()),
{
    concat("report-", stamp.format().as_str())
}

/// Mints a new key for an upload named `filename` at `stamp`; every call
/// draws a new UUID.
pub fn generate_key(stamp: &Timestamp, filename: &str) -> (r: String)
    requires
        stamp.wf(),
    ensures
        is_generated_key(r@, filename@),
        exists|id: Seq<char>| is_v4_uuid_text(id) && r@ == key_of(stamp.text(), id, filename@),
{
    let id = new_uuid_text();
    let r = generated_key(stamp, id.as_str(), filename);
    proof {
        lemma_generated_key_shape(*stamp, id@, filename@);
    }
    r
}

} // verus!
