//! Session ids and times as the history and the recordings on disk spell them.

use crate::text::{chars_of, join2};
use crate::types::opt_text;
use vstd::arithmetic::power::pow;
use vstd::prelude::*;

verus! {

/// The digit for `n` in lower-case hexadecimal.
pub open spec fn hex_digit(n: int) -> char {
    if n < 10 {
        (('0' as u32) + n) as char
    } else {
        (('a' as u32) + (n - 10)) as char
    }
}

/// The `k`-th of the 32 hexadecimal digits of `id`, counted from the left.
pub open spec fn digit_of(id: u128, k: int) -> int {
    (id as int / pow(16, (31 - k) as nat)) % 16
}

/// The places of the hyphens in a session id.
pub open spec fn hyphen_at(i: int) -> bool {
    i == 8 || i == 13 || i == 18 || i == 23
}

/// How many hyphens stand before place `i`.
pub open spec fn hyphens_before(i: int) -> int {
    (if i > 8 {
        1int
    } else {
        0
    }) + (if i > 13 {
        1int
    } else {
        0
    }) + (if i > 18 {
        1int
    } else {
        0
    }) + (if i > 23 {
        1int
    } else {
        0
    })
}

/// `id` as 32 hexadecimal digits in groups of 8, 4, 4, 4 and 12.
pub open spec fn id_text(id: u128) -> Seq<char> {
    Seq::new(
        36,
        |i: int|
            if hyphen_at(i) {
                '-'
            } else {
                hex_digit(digit_of(id, i - hyphens_before(i)))
            },
    )
}

/// `uuid::Uuid::from_u128` and `to_string`: the hyphenated lower-case form.
#[verifier::external_body]
pub(crate) fn session_id_text(id: u128) -> (r: String)
    ensures
        r@ == id_text(id),
{
    uuid::Uuid::from_u128(id).to_string()
}

/// `id` as 32 hexadecimal digits in one group.
pub open spec fn simple_text(id: u128) -> Seq<char> {
    Seq::new(32, |i: int| hex_digit(digit_of(id, i)))
}

/// `uuid::Uuid::from_u128`, `simple` and `to_string`: the lower-case form
/// without hyphens.
#[verifier::external_body]
pub(crate) fn simple_id_text(id: u128) -> (r: String)
    ensures
        r@ == simple_text(id),
{
    uuid::Uuid::from_u128(id).simple().to_string()
}

/// `uuid::Uuid::new_v4` as a number. The value is random; what holds of every
/// value is the version digit, a four, and the variant digit, eight to eleven.
#[verifier::external_body]
pub(crate) fn random_session_id() -> (r: u128)
    ensures
        digit_of(r, 12) == 4,
        8 <= digit_of(r, 16) <= 11,
{
    uuid::Uuid::new_v4().as_u128()
}

/// A new session id and its spelling.
pub fn new_session_id() -> (r: (u128, String))
    ensures
        r.1@ == id_text(r.0),
        digit_of(r.0, 12) == 4,
        8 <= digit_of(r.0, 16) <= 11,
{
    let id: u128 = random_session_id();
    (id, session_id_text(id))
}

/// A point in time in the form of RFC 3339, in UTC. It is given in seconds
/// since 1970 and nanoseconds on top; `None` stands for one that is no date.
pub uninterp spec fn utc_rfc3339(secs: i64, nanos: u32) -> Option<Seq<char>>;

/// `chrono::DateTime::from_timestamp`, and `to_rfc3339` of what it gives. The
/// outcome depends on the two numbers alone; the calendar is not spelled out.
#[verifier::external_body]
fn utc_text(secs: i64, nanos: u32) -> (r: Option<String>)
    ensures
        opt_text(r) == utc_rfc3339(secs, nanos),
{
    chrono::DateTime::from_timestamp(secs, nanos).map(|time| time.to_rfc3339())
}

/// When an entry of the history came about, for the time that the host's clock
/// shows.
pub fn created_at(secs: i64, nanos: u32) -> (r: Option<String>)
    ensures
        opt_text(r) == utc_rfc3339(secs, nanos),
{
    utc_text(secs, nanos)
}

/// A digit of a hexadecimal number, in either case.
pub open spec fn is_hex(c: char) -> bool {
    '0' <= c <= '9' || 'a' <= c <= 'f' || 'A' <= c <= 'F'
}

/// The text has the form of a session id: nothing else may name a file.
pub open spec fn valid_id(s: Seq<char>) -> bool {
    &&& s.len() == 36
    &&& forall|i: int|
        0 <= i < 36 ==> if hyphen_at(i) {
            #[trigger] s[i] == '-'
        } else {
            is_hex(s[i])
        }
}

pub fn is_valid_session_id(id: &str) -> (r: bool)
    ensures
        r == valid_id(id@),
{
    let v: Vec<char> = chars_of(id);
    if v.len() != 36 {
        return false;
    }
    let mut i: usize = 0;
    while i < 36
        invariant
            v@ == id@,
            v.len() == 36,
            i <= 36,
            forall|k: int|
                0 <= k < i ==> if hyphen_at(k) {
                    #[trigger] id@[k] == '-'
                } else {
                    is_hex(id@[k])
                },
        decreases 36 - i,
    {
        let c: char = v[i];
        let ok: bool = if i == 8 || i == 13 || i == 18 || i == 23 {
            c == '-'
        } else {
            ('0' <= c && c <= '9') || ('a' <= c && c <= 'f') || ('A' <= c && c <= 'F')
        };
        if !ok {
            assert(id@[i as int] == c);
            return false;
        }
        i = i + 1;
    }
    true
}

/// The spelling of every session id is accepted as one, so a recording can
/// always be found under the id of its history entry.
pub proof fn law_own_ids_are_valid(id: u128)
    ensures
        valid_id(id_text(id)),
{
    let s = id_text(id);
    assert forall|i: int| 0 <= i < 36 implies if hyphen_at(i) {
        #[trigger] s[i] == '-'
    } else {
        is_hex(s[i])
    } by {
        if !hyphen_at(i) {
            let n = digit_of(id, i - hyphens_before(i));
            assert(0 <= n < 16);
        }
    }
}

/// A valid id holds neither a path separator nor a dot, so it cannot lead out
/// of the directory of the recordings.
pub proof fn law_valid_id_stays_in_directory(s: Seq<char>, i: int)
    requires
        valid_id(s),
        0 <= i < s.len(),
    ensures
        s[i] != '/' && s[i] != '\\' && s[i] != '.' && s[i] != ':' && s[i] != '%',
{
}

/// Why a recording cannot be played.
#[derive(Debug)]
pub enum RecordingError {
    InvalidId,
    NotFound,
    Unreadable(String),
}

/// The words of a recording error.
pub open spec fn recording_error_text(e: RecordingError) -> Seq<char> {
    match e {
        RecordingError::InvalidId => "invalid session id"@,
        RecordingError::NotFound => "recording not found"@,
        RecordingError::Unreadable(s) => "read wav failed: "@ + s@,
    }
}

impl RecordingError {
    pub fn text(&self) -> (r: String)
        ensures
            r@ == recording_error_text(*self),
    {
        match self {
            RecordingError::InvalidId => "invalid session id".to_owned(),
            RecordingError::NotFound => "recording not found".to_owned(),
            RecordingError::Unreadable(s) => join2("read wav failed: ", s.as_str()),
        }
    }
}

/// The name of the file that holds the recording of a session.
pub fn recording_file_name(session_id: &str) -> (r: Result<String, RecordingError>)
    ensures
        match r {
            Ok(name) => valid_id(session_id@) && name@ == session_id@ + ".wav"@,
            Err(e) => !valid_id(session_id@) && e == RecordingError::InvalidId,
        },
{
    if !is_valid_session_id(session_id) {
        return Err(RecordingError::InvalidId);
    }
    Ok(join2(session_id, ".wav"))
}

/// What the host found at the place of a recording.
#[derive(Debug)]
pub enum RecordingRead {
    Missing,
    Bytes(Vec<u8>),
    /// The file was gone by the time it was read.
    Vanished,
    Failed(String),
}

/// The bytes of a recording. A file that vanishes between the look and the
/// read counts as one that was never there.
pub fn read_audio_recording(session_id: &str, read: RecordingRead) -> (r: Result<
    Vec<u8>,
    RecordingError,
>)
    ensures
        r == (if !valid_id(session_id@) {
            Err::<Vec<u8>, RecordingError>(RecordingError::InvalidId)
        } else {
            match read {
                RecordingRead::Missing => Err(RecordingError::NotFound),
                RecordingRead::Vanished => Err(RecordingError::NotFound),
                RecordingRead::Bytes(b) => Ok(b),
                RecordingRead::Failed(e) => Err(RecordingError::Unreadable(e)),
            }
        }),
{
    if !is_valid_session_id(session_id) {
        return Err(RecordingError::InvalidId);
    }
    match read {
        RecordingRead::Missing => Err(RecordingError::NotFound),
        RecordingRead::Vanished => Err(RecordingError::NotFound),
        RecordingRead::Bytes(b) => Ok(b),
        RecordingRead::Failed(e) => Err(RecordingError::Unreadable(e)),
    }
}

/// A session id has thirty-six characters: hyphens at four places and digits of a
/// hexadecimal number at the others. What is anything else is refused.
pub proof fn law_form_of_a_session_id(id: &str, k: int, r: bool)
    requires
        call_ensures(is_valid_session_id, (id,), r),
    ensures
        r ==> id@.len() == 36 && id@[8] == '-' && id@[13] == '-' && id@[18] == '-' && id@[23] == '-',
        r && 0 <= k < 36 && k != 8 && k != 13 && k != 18 && k != 23 ==> ('0' <= id@[k] <= '9') || (
        'a' <= id@[k] <= 'f') || ('A' <= id@[k] <= 'F'),
        !r && id@.len() == 36 && id@[8] == '-' && id@[13] == '-' && id@[18] == '-' && id@[23] == '-'
            ==> exists|j: int|
            0 <= j < 36 && j != 8 && j != 13 && j != 18 && j != 23 && !('0' <= (#[trigger] id@[j])
                <= '9') && !('a' <= id@[j] <= 'f') && !('A' <= id@[j] <= 'F'),
{
    if !r && id@.len() == 36 && id@[8] == '-' && id@[13] == '-' && id@[18] == '-' && id@[23]
        == '-' {
        let j = choose|j: int|
            0 <= j < 36 && !(if hyphen_at(j) {
                #[trigger] id@[j] == '-'
            } else {
                is_hex(id@[j])
            });
        assert(!hyphen_at(j));
    }
}

/// The recording of a session lies under its id, and under nothing that is none;
/// two sessions never share a file.
pub proof fn law_recordings_have_their_own_files(
    a: &str,
    b: &str,
    ok: bool,
    of_a: Result<String, RecordingError>,
    of_b: Result<String, RecordingError>,
)
    requires
        call_ensures(is_valid_session_id, (a,), ok),
        call_ensures(recording_file_name, (a,), of_a),
        call_ensures(recording_file_name, (b,), of_b),
    ensures
        of_a is Ok <==> ok,
        of_a matches Err(e) ==> e is InvalidId,
        of_a matches Ok(name) ==> name@.take(36) == a@ && name@.skip(36) == ".wav"@,
        of_a is Ok && of_b is Ok && of_a->Ok_0@ == of_b->Ok_0@ ==> a@ == b@,
{
    if of_a is Ok {
        assert(of_a->Ok_0@.take(36) =~= a@);
        assert(of_a->Ok_0@.skip(36) =~= ".wav"@);
    }
    if of_b is Ok {
        assert(of_b->Ok_0@.take(36) =~= b@);
    }
}

/// A recording is played exactly when its id is one and its bytes could be read,
/// and then these bytes are played.
pub proof fn law_recording_is_played(
    id: &str,
    ok: bool,
    read: RecordingRead,
    r: Result<Vec<u8>, RecordingError>,
)
    requires
        call_ensures(is_valid_session_id, (id,), ok),
        call_ensures(read_audio_recording, (id, read), r),
    ensures
        r is Ok <==> ok && read is Bytes,
        r is Ok ==> r->Ok_0 == read->Bytes_0,
        !ok ==> r->Err_0 is InvalidId,
        ok && (read is Missing || read is Vanished) ==> r->Err_0 is NotFound,
        ok && read is Failed ==> r->Err_0 is Unreadable && r->Err_0->0 == read->Failed_0,
{
}

/// A new session gets an id that is accepted as one, spelled as its number.
pub proof fn law_new_ids_are_valid(r: (u128, String), text: &str, ok: bool)
    requires
        call_ensures(new_session_id, (), r),
        text@ == r.1@,
        call_ensures(is_valid_session_id, (text,), ok),
    ensures
        ok,
        r.1@[14] == '4',
{
    law_own_ids_are_valid(r.0);
    assert(r.1@[14] == hex_digit(digit_of(r.0, 12)));
}

} // verus!
