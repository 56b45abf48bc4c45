//! The recordings index: where recordings live on disk, how an index entry
//! is derived from a file found there, how the index is ordered, which
//! entries a purge removes, and which files a full clear deletes.  Listing
//! directories, deleting files and rewriting the index file are plain I/O
//! and happen outside the library.

use vstd::prelude::*;

use chrono::TimeZone;

use crate::strutil::dashes_to_colons;
use crate::strutil::dashes_to_colons_str;
use crate::strutil::ends_with_wav;
use crate::strutil::has_wav_ext;
use crate::strutil::lemma_lex_refl;
use crate::strutil::lemma_lex_total;
use crate::strutil::lemma_lex_trans;
use crate::strutil::lex_le;
use crate::strutil::lex_le_str;
use crate::strutil::str_eq;
use crate::strutil::strip_wav;
use crate::strutil::strip_wav_str;
use crate::wav::wav_info;
use crate::wav::wav_info_of;

verus! {

/// Everything that can go wrong around the index.  Each failure carries the
/// underlying cause's text.
#[derive(Clone, Debug, PartialEq, Eq)]
pub enum StorageError {
    /// The platform could not name the application's data directory.
    Path(String),
    /// An underlying I/O failure.
    Io(String),
    /// The index file does not parse.
    Json(String),
    /// A recording does not parse as WAV.
    Wav(String),
}

/// One recording known to the index.  The duration is kept in whole
/// milliseconds.
#[derive(Clone, Debug)]
pub struct RecordingEntry {
    pub id: String,
    pub filename: String,
    pub created_at: String,
    pub duration_ms: u64,
    pub size_bytes: u64,
}

/// Copies an entry field for field.
pub fn clone_entry(e: &RecordingEntry) -> (r: RecordingEntry)
    ensures
        r == *e,
{
    RecordingEntry {
        id: e.id.clone(),
        filename: e.filename.clone(),
        created_at: e.created_at.clone(),
        duration_ms: e.duration_ms,
        size_bytes: e.size_bytes,
    }
}

/// The persisted form of the index.
#[derive(Clone, Debug)]
pub struct RecordingsIndex {
    pub version: u32,
    pub recordings: Vec<RecordingEntry>,
}

/// The snapshot that is written to disk: always format version 1.
pub fn index_snapshot(recordings: Vec<RecordingEntry>) -> (r: RecordingsIndex)
    ensures
        r.version == 1,
        r.recordings == recordings,
{
    RecordingsIndex { version: 1, recordings }
}

/// The name of the index file.
pub fn index_filename() -> (r: &'static str)
    ensures
        r@ == "recordings.json"@,
{
    "recordings.json"
}

/// The name of the directory that holds the recordings.
pub fn recordings_dirname() -> (r: &'static str)
    ensures
        r@ == "recordings"@,
{
    "recordings"
}

/// Where one installation keeps its recordings: the single source of truth
/// for the recordings directory and the index file path.
#[derive(Clone, Debug)]
pub struct Storage {
    pub app_data_dir: String,
    pub recordings_dir: String,
    pub index_path: String,
}

impl Storage {
    /// Derives the recordings directory and index path from the
    /// application's data directory.
    pub fn new(app_data_dir: &str) -> (r: Storage)
        ensures
            r.app_data_dir@ == app_data_dir@,
            r.recordings_dir@ == app_data_dir@ + "/recordings"@,
            r.index_path@ == app_data_dir@ + "/recordings.json"@,
    {
        let mut recordings_dir = String::from_str(app_data_dir);
        recordings_dir.append("/recordings");
        let mut index_path = String::from_str(app_data_dir);
        index_path.append("/recordings.json");
        Storage { app_data_dir: String::from_str(app_data_dir), recordings_dir, index_path }
    }

    /// The directory that holds the recordings.
    pub fn recordings_folder(&self) -> (r: &str)
        ensures
            r@ == self.recordings_dir@,
    {
        self.recordings_dir.as_str()
    }

    /// The full path of one recording inside the recordings directory.
    pub fn recording_path(&self, filename: &str) -> (r: String)
        ensures
            r@ == self.recordings_dir@ + "/"@ + filename@,
    {
        let mut p = self.recordings_dir.clone();
        p.append("/");
        p.append(filename);
        p
    }
}

/// The creation timestamp recovered from a filename stem: the part before
/// the first underscore is the date, the part after it is the time with its
/// dashes turned back into colons; a stem without an underscore stands as it
/// is.
pub open spec fn created_at_from_stem(stem: Seq<char>) -> Seq<char> {
    match stem.index_of_first('_') {
        Some(i) => stem.take(i) + seq!['T'] + dashes_to_colons(stem.skip(i + 1)),
        None => stem,
    }
}

/// Recovers a creation timestamp from a filename stem.
pub fn fallback_created_at_from_stem(stem: &str) -> (r: String)
    ensures
        r@ == created_at_from_stem(stem@),
{
    let n = stem.unicode_len();
    let mut i: usize = 0;
    while i < n && stem.get_char(i) != '_'
        invariant
            n == stem@.len(),
            0 <= i <= n,
            forall|k: int| 0 <= k < i ==> stem@[k] != '_',
        decreases n - i,
    {
        i = i + 1;
    }
    proof {
        stem@.index_of_first_ensures('_');
    }
    if i == n {
        proof {
            if stem@.index_of_first('_') is Some {
                let ix = stem@.index_of_first('_').unwrap();
                assert(stem@[ix] == '_');
            }
        }
        String::from_str(stem)
    } else {
        proof {
            assert(stem@.contains('_')) by {
                assert(stem@[i as int] == '_');
            };
            let ix = stem@.index_of_first('_').unwrap();
            assert(ix == i as int) by {
                if ix < i as int {
                    assert(stem@[ix] != '_');
                }
                if ix > i as int {
                    assert(stem@[i as int] != '_');
                }
            };
        }
        let date_part = stem.substring_char(0, i);
        let time_part = stem.substring_char(i + 1, n);
        let mut out = String::from_str(date_part);
        proof {
            reveal_strlit("T");
        }
        out.append("T");
        let colons = dashes_to_colons_str(time_part);
        out.append(colons.as_str());
        proof {
            assert(stem@.subrange(0, i as int) =~= stem@.take(i as int));
            assert(stem@.subrange(i + 1, n as int) =~= stem@.skip(i + 1));
            assert(out@ =~= created_at_from_stem(stem@));
        }
        out
    }
}

/// Recovers a creation timestamp from a recording's filename.
pub fn filename_to_created_at(filename: &str) -> (r: String)
    ensures
        r@ == created_at_from_stem(strip_wav(filename@)),
{
    let stem = strip_wav_str(filename);
    fallback_created_at_from_stem(stem.as_str())
}

/// The whole milliseconds that `total` interleaved samples last when played
/// over `channels` channels at `rate` frames per second; zero counts stand
/// in for one, as the scan tolerates malformed headers.
pub open spec fn scan_duration_ms(total: int, channels: int, rate: int) -> int {
    (total * 1000) / ((if channels < 1 {
        1int
    } else {
        channels
    }) * (if rate < 1 {
        1int
    } else {
        rate
    }))
}

/// Builds the index entry for one file found in the recordings directory:
/// its identifier is the filename without the audio extension, its creation
/// timestamp is recovered from the stem, and its duration is read from the
/// WAV stream parameters.  Files that are not WAV-named, or whose bytes do
/// not parse as WAV, yield nothing.
pub fn scan_entry(filename: &str, size_bytes: u64, bytes: &Vec<u8>) -> (r: Option<RecordingEntry>)
    ensures
        r is Some <==> (has_wav_ext(filename@) && wav_info_of(bytes@) is Some),
        r matches Some(e) ==> {
            &&& e.filename@ == filename@
            &&& e.id@ == strip_wav(filename@)
            &&& e.created_at@ == created_at_from_stem(strip_wav(filename@))
            &&& e.size_bytes == size_bytes
            &&& wav_info_of(bytes@) matches Some(info) && e.duration_ms == scan_duration_ms(
                info.2 as int,
                info.0 as int,
                info.1 as int,
            )
        },
{
    if !ends_with_wav(filename) {
        return None;
    }
    match wav_info(bytes) {
        None => None,
        Some((channels, rate, total)) => {
            let ch: u64 = if channels < 1 {
                1
            } else {
                channels as u64
            };
            let sr: u64 = if rate < 1 {
                1
            } else {
                rate as u64
            };
            proof {
                assert(1 <= ch * sr <= 0xFFFFu64 * 0xFFFF_FFFFu64) by (nonlinear_arith)
                    requires
                        1 <= ch <= 0xFFFFu64,
                        1 <= sr <= 0xFFFF_FFFFu64,
                ;
            }
            let duration_ms: u64 = ((total as u64) * 1000) / (ch * sr);
            Some(
                RecordingEntry {
                    id: strip_wav_str(filename),
                    filename: String::from_str(filename),
                    created_at: filename_to_created_at(filename),
                    duration_ms,
                    size_bytes,
                },
            )
        },
    }
}

/// What `chrono`'s RFC 3339 parser makes of a timestamp text: its UNIX
/// second, or nothing when the text does not parse; from the characters
/// alone.
pub uninterp spec fn rfc3339_ts_of(s: Seq<char>) -> Option<i64>;

/// Relies on `chrono::DateTime::parse_from_rfc3339` and `timestamp`: the
/// UNIX second of an RFC 3339 timestamp.
#[verifier::external_body]
fn parse_rfc3339_ts(s: &str) -> (r: Option<i64>)
    ensures
        r == rfc3339_ts_of(s@),
{
    match chrono::DateTime::parse_from_rfc3339(s) {
        Ok(dt) => Some(dt.timestamp()),
        Err(_) => None,
    }
}

/// What `chrono`'s zoneless parser makes of a legacy timestamp text when it
/// is read as UTC: its UNIX second, or nothing when the text does not parse;
/// from the characters alone.
pub uninterp spec fn legacy_utc_ts_of(s: Seq<char>) -> Option<i64>;

/// Relies on `chrono::NaiveDateTime::parse_from_str` with the fixed legacy
/// layout, and `and_utc`/`timestamp`: the UNIX second of a zoneless
/// timestamp read as UTC.
#[verifier::external_body]
fn parse_legacy_utc_ts(s: &str) -> (r: Option<i64>)
    ensures
        r == legacy_utc_ts_of(s@),
{
    match chrono::NaiveDateTime::parse_from_str(s, "%Y-%m-%dT%H:%M:%S") {
        Ok(naive) => Some(naive.and_utc().timestamp()),
        Err(_) => None,
    }
}

/// Relies on `chrono::NaiveDateTime::parse_from_str` and the machine's
/// local time zone (`chrono::Local`): the same zoneless timestamp read as
/// local time, when that reading is unambiguous.  The result depends on the
/// zone, so nothing is promised of it.
#[verifier::external_body]
fn parse_legacy_local_ts(s: &str) -> (r: Option<i64>) {
    match chrono::NaiveDateTime::parse_from_str(s, "%Y-%m-%dT%H:%M:%S") {
        Ok(naive) => match chrono::Local.from_local_datetime(&naive) {
            chrono::LocalResult::Single(dt) => Some(dt.with_timezone(&chrono::Utc).timestamp()),
            _ => None,
        },
        Err(_) => None,
    }
}

/// The age of an entry is judged from its recorded creation timestamp
/// alone.  An RFC 3339 timestamp yields its UNIX second; a legacy text
/// without a zone is read in the machine's local zone; text that parses as
/// neither counts as the UNIX epoch, so the purge fails closed and removes
/// it.
pub fn resolve_created_ts(created_at: &str) -> (r: i64)
    ensures
        rfc3339_ts_of(created_at@) matches Some(t) ==> r == t,
        rfc3339_ts_of(created_at@) is None && legacy_utc_ts_of(created_at@) is None ==> r == 0,
{
    match parse_rfc3339_ts(created_at) {
        Some(t) => t,
        None => match parse_legacy_utc_ts(created_at) {
            None => 0,
            Some(utc_read) => match parse_legacy_local_ts(created_at) {
                Some(t) => t,
                None => utc_read,
            },
        },
    }
}

/// The oldest UNIX second a purge keeps: `days` whole days before `now`.
pub open spec fn cutoff_of(now: int, days: int) -> int {
    if now - days * 86400 >= i64::MIN {
        now - days * 86400
    } else {
        i64::MIN as int
    }
}

/// Computes the purge cutoff, saturating at the representable minimum.
pub fn cutoff_ts(now_ts: i64, days: u32) -> (r: i64)
    ensures
        r == cutoff_of(now_ts as int, days as int),
{
    let span: i64 = (days as i64) * 86400;
    if now_ts >= i64::MIN + span {
        now_ts - span
    } else {
        i64::MIN
    }
}


/// Newest first: filenames in descending lexicographic order, which for the
/// timestamp-derived names is newest first.
pub open spec fn sorted_newest_first(v: Seq<RecordingEntry>) -> bool {
    forall|i: int, j: int|
        0 <= i < j < v.len() ==> lex_le(#[trigger] v[j].filename@, #[trigger] v[i].filename@)
}

/// Orders the index newest first.  The result holds exactly the entries
/// given, rearranged.
pub fn sort_entries_newest_first(entries: Vec<RecordingEntry>) -> (r: Vec<RecordingEntry>)
    ensures
        sorted_newest_first(r@),
        r@.to_multiset() == entries@.to_multiset(),
{
    broadcast use vstd::multiset::group_multiset_axioms;

    let mut rest = entries;
    let mut out: Vec<RecordingEntry> = Vec::new();
    let ghost everything = rest@.to_multiset();
    proof {
        vstd::seq_lib::lemma_multiset_commutative(Seq::<RecordingEntry>::empty(), rest@);
        assert(Seq::<RecordingEntry>::empty() + rest@ =~= rest@);
        assert(out@ =~= Seq::<RecordingEntry>::empty());
        assert(out@.to_multiset().add(rest@.to_multiset()) =~= everything);
    }
    while rest.len() > 0
        invariant
            out@.to_multiset().add(rest@.to_multiset()) == everything,
            sorted_newest_first(out@),
            forall|k: int, l: int|
                0 <= k < out@.len() && 0 <= l < rest@.len() ==> lex_le(
                    #[trigger] rest@[l].filename@,
                    #[trigger] out@[k].filename@,
                ),
        decreases rest.len(),
    {
        let mut best: usize = 0;
        let mut m: usize = 1;
        proof {
            lemma_lex_refl(rest@[0].filename@);
        }
        while m < rest.len()
            invariant
                rest@.len() > 0,
                0 <= best < rest@.len(),
                1 <= m <= rest@.len(),
                forall|l: int|
                    0 <= l < m ==> lex_le(#[trigger] rest@[l].filename@, rest@[best as int].filename@),
            decreases rest.len() - m,
        {
            if !lex_le_str(rest[m].filename.as_str(), rest[best].filename.as_str()) {
                proof {
                    lemma_lex_total(rest@[m as int].filename@, rest@[best as int].filename@);
                    assert forall|l: int| 0 <= l < m implies lex_le(
                        #[trigger] rest@[l].filename@,
                        rest@[m as int].filename@,
                    ) by {
                        lemma_lex_trans(
                            rest@[l].filename@,
                            rest@[best as int].filename@,
                            rest@[m as int].filename@,
                        );
                    };
                }
                best = m;
            }
            proof {
                lemma_lex_refl(rest@[best as int].filename@);
            }
            m = m + 1;
        }
        let ghost rest_before = rest@;
        let e = rest.remove(best);
        proof {
            assert(rest_before.contains(e)) by {
                assert(rest_before[best as int] == e);
            };
            assert(rest@ == rest_before.remove(best as int));
            rest_before.to_multiset_ensures();
            out@.to_multiset_ensures();
            assert(rest@.to_multiset() =~= rest_before.to_multiset().remove(e));
            assert(out@.push(e).to_multiset() =~= out@.to_multiset().insert(e));
            assert(out@.push(e).to_multiset().add(rest@.to_multiset()) =~= everything) by {
                assert(rest_before.to_multiset().count(e) > 0);
            };
            assert forall|l: int| 0 <= l < rest@.len() implies lex_le(
                #[trigger] rest@[l].filename@,
                e.filename@,
            ) by {
                if l < best as int {
                    assert(rest@[l] == rest_before[l]);
                } else {
                    assert(rest@[l] == rest_before[l + 1]);
                }
            };
        }
        out.push(e);
    }
    proof {
        vstd::seq_lib::lemma_multiset_commutative(out@, rest@);
        assert(out@ + rest@ =~= out@);
    }
    out
}

/// The entries a purge keeps, judged entry by entry: position `i` stays
/// exactly when its resolved creation second `ts[i]` is not before the
/// cutoff.
pub open spec fn kept_entries(entries: Seq<RecordingEntry>, ts: Seq<i64>, cutoff: int) -> Seq<
    RecordingEntry,
>
    decreases entries.len(),
{
    if entries.len() == 0 {
        Seq::empty()
    } else {
        kept_entries(entries.drop_last(), ts.take(entries.len() - 1), cutoff) + (if ts[entries.len()
            - 1] >= cutoff {
            seq![entries.last()]
        } else {
            Seq::empty()
        })
    }
}

/// The purge report: how many entries were removed and how many stayed.
#[derive(Clone, Copy, Debug, PartialEq, Eq, Structural)]
pub struct PurgeResult {
    pub deleted_count: usize,
    pub kept_count: usize,
}

impl Storage {
    /// Decides a purge: every entry whose resolved creation second lies
    /// before the cutoff (`days` whole days before `now_ts`) is dropped, the
    /// others are kept in order.  An entry whose timestamp no parser accepts
    /// resolves to the epoch and is therefore dropped: the purge fails
    /// closed.  The caller deletes the dropped entries' files and saves the
    /// kept entries as the new index.
    pub fn purge_old_recordings(&self, entries: &Vec<RecordingEntry>, now_ts: i64, days: u32) -> (r:
        (Vec<RecordingEntry>, usize))
        ensures
            r.0@.len() + r.1 == entries@.len(),
            exists|ts: Seq<i64>|
                {
                    &&& ts.len() == entries@.len()
                    &&& (forall|i: int|
                        0 <= i < entries@.len() && rfc3339_ts_of(
                            #[trigger] entries@[i].created_at@,
                        ) is Some ==> ts[i] == rfc3339_ts_of(entries@[i].created_at@).unwrap())
                    &&& (forall|i: int|
                        0 <= i < entries@.len() && rfc3339_ts_of(
                            #[trigger] entries@[i].created_at@,
                        ) is None && legacy_utc_ts_of(entries@[i].created_at@) is None ==> ts[i]
                            == 0)
                    &&& r.0@ == kept_entries(entries@, ts, cutoff_of(now_ts as int, days as int))
                },
    {
        let cutoff = cutoff_ts(now_ts, days);
        let mut keep: Vec<RecordingEntry> = Vec::new();
        let mut stamps: Vec<i64> = Vec::new();
        let mut i: usize = 0;
        proof {
            assert(entries@.take(0) =~= Seq::<RecordingEntry>::empty());
        }
        while i < entries.len()
            invariant
                0 <= i <= entries@.len(),
                stamps@.len() == i,
                cutoff == cutoff_of(now_ts as int, days as int),
                forall|k: int|
                    0 <= k < i && rfc3339_ts_of(#[trigger] entries@[k].created_at@) is Some
                        ==> stamps@[k] == rfc3339_ts_of(entries@[k].created_at@).unwrap(),
                forall|k: int|
                    0 <= k < i && rfc3339_ts_of(#[trigger] entries@[k].created_at@) is None
                        && legacy_utc_ts_of(entries@[k].created_at@) is None ==> stamps@[k] == 0,
                keep@ == kept_entries(entries@.take(i as int), stamps@, cutoff as int),
                keep@.len() <= i,
            decreases entries@.len() - i,
        {
            let ghost stamps_before = stamps@;
            let t = resolve_created_ts(entries[i].created_at.as_str());
            stamps.push(t);
            if t >= cutoff {
                keep.push(clone_entry(&entries[i]));
            }
            proof {
                let taken = entries@.take(i + 1);
                assert(taken.drop_last() =~= entries@.take(i as int));
                assert(stamps@.take(taken.len() - 1) =~= stamps_before);
                assert(taken.last() == entries@[i as int]);
                assert(keep@ == kept_entries(entries@.take(i + 1), stamps@, cutoff as int));
            }
            i = i + 1;
        }
        proof {
            assert(entries@.take(entries@.len() as int) =~= entries@);
        }
        let deleted = entries.len() - keep.len();
        (keep, deleted)
    }
}

/// Whether the index lists a file of this name.
pub open spec fn in_index(es: Seq<RecordingEntry>, f: Seq<char>) -> bool {
    exists|i: int| 0 <= i < es.len() && #[trigger] es[i].filename@ == f
}

/// The filenames of the index's entries.
pub open spec fn names_of(es: Seq<RecordingEntry>) -> Seq<Seq<char>> {
    es.map(|i: int, e: RecordingEntry| e.filename@)
}

/// The character sequences of a list of strings.
pub open spec fn views_of(ss: Seq<String>) -> Seq<Seq<char>> {
    ss.map(|i: int, s: String| s@)
}

/// The files on disk that the index does not list.
pub open spec fn orphan_views(es: Seq<RecordingEntry>, disk: Seq<String>) -> Seq<Seq<char>> {
    views_of(disk).filter(|f: Seq<char>| !in_index(es, f))
}

/// Whether the index lists `f`.
fn index_lists(index: &Vec<RecordingEntry>, f: &str) -> (r: bool)
    ensures
        r == in_index(index@, f@),
{
    let mut k: usize = 0;
    while k < index.len()
        invariant
            0 <= k <= index@.len(),
            forall|j: int| 0 <= j < k ==> #[trigger] index@[j].filename@ != f@,
        decreases index@.len() - k,
    {
        if str_eq(index[k].filename.as_str(), f) {
            return true;
        }
        k = k + 1;
    }
    false
}

/// One file that could not be deleted, and why.
#[derive(Clone, Debug)]
pub struct FailedDelete {
    pub filename: String,
    pub error: String,
}

/// What a full clear found and did: how many files went, how many were on
/// disk and in the index beforehand, and which deletions failed.
#[derive(Clone, Debug)]
pub struct ClearAllReport {
    pub deleted_count: usize,
    pub files_on_disk_before: usize,
    pub index_count_before: usize,
    pub failed_deletes: Vec<FailedDelete>,
}

impl Storage {
    /// Decides a full clear: every file the index lists, followed by every
    /// WAV file on disk that the index does not list.  The caller deletes
    /// them and empties the index.
    pub fn clear_all_recordings(&self, index: &Vec<RecordingEntry>, on_disk: &Vec<String>) -> (r:
        Vec<String>)
        ensures
            views_of(r@) == names_of(index@) + orphan_views(index@, on_disk@),
    {
        broadcast use vstd::seq_lib::group_filter_ensures;

        let mut plan: Vec<String> = Vec::new();
        let mut i: usize = 0;
        proof {
            assert(views_of(plan@) =~= names_of(index@.take(0)));
        }
        while i < index.len()
            invariant
                0 <= i <= index@.len(),
                views_of(plan@) == names_of(index@.take(i as int)),
            decreases index@.len() - i,
        {
            let ghost plan_before = plan@;
            plan.push(index[i].filename.clone());
            proof {
                let a = views_of(plan@);
                let b = names_of(index@.take(i + 1));
                assert(plan@ == plan_before.push(index@[i as int].filename));
                assert(a.len() == plan@.len());
                assert(views_of(plan_before).len() == plan_before.len());
                assert(b.len() == index@.take(i + 1).len());
                assert(a.len() == b.len());
                assert forall|k: int| 0 <= k < a.len() implies a[k] == b[k] by {
                    if k < plan_before.len() {
                        assert(plan@[k] == plan_before[k]);
                        assert(views_of(plan_before)[k] == plan_before[k]@);
                        assert(names_of(index@.take(i as int))[k] == index@.take(i as int)[k].filename@);
                    }
                };
                assert(views_of(plan@) =~= names_of(index@.take(i + 1)));
            }
            i = i + 1;
        }
        proof {
            assert(index@.take(index@.len() as int) =~= index@);
        }
        let ghost pred = |f: Seq<char>| !in_index(index@, f);
        let mut j: usize = 0;
        proof {
            assert(views_of(on_disk@.take(0)).filter(pred) =~= Seq::<Seq<char>>::empty());
            assert(views_of(plan@) =~= names_of(index@) + views_of(on_disk@.take(0)).filter(pred));
        }
        while j < on_disk.len()
            invariant
                0 <= j <= on_disk@.len(),
                views_of(plan@) == names_of(index@) + views_of(on_disk@.take(j as int)).filter(
                    |f: Seq<char>| !in_index(index@, f),
                ),
            decreases on_disk@.len() - j,
        {
            let ghost plan_before = plan@;
            let listed = index_lists(index, on_disk[j].as_str());
            if !listed {
                plan.push(on_disk[j].clone());
            }
            proof {
                reveal(Seq::filter);
                let p = |f: Seq<char>| !in_index(index@, f);
                let x = on_disk@[j as int]@;
                let prefix = views_of(on_disk@.take(j as int));
                let longer = views_of(on_disk@.take(j + 1));
                assert(longer =~= prefix.push(x));
                assert(longer.filter(p) == prefix.filter(p) + (if p(x) {
                    seq![x]
                } else {
                    Seq::<Seq<char>>::empty()
                })) by {
                    assert(longer.drop_last() =~= prefix);
                    assert(longer.last() == x);
                };
                if !listed {
                    assert(plan@ == plan_before.push(on_disk@[j as int]));
                    assert(views_of(plan@) =~= views_of(plan_before).push(x));
                } else {
                    assert(plan@ == plan_before);
                }
                assert(views_of(plan@) =~= names_of(index@) + longer.filter(p));
            }
            j = j + 1;
        }
        proof {
            assert(on_disk@.take(on_disk@.len() as int) =~= on_disk@);
        }
        plan
    }
}

/// How many of these filenames carry the audio extension.
pub fn count_wav_files(names: &Vec<String>) -> (r: usize)
    ensures
        r == views_of(names@).filter(|f: Seq<char>| has_wav_ext(f)).len(),
{
    let ghost p = |f: Seq<char>| has_wav_ext(f);
    let mut n: usize = 0;
    let mut i: usize = 0;
    proof {
        assert(views_of(names@.take(0)).filter(p) =~= Seq::<Seq<char>>::empty());
    }
    while i < names.len()
        invariant
            0 <= i <= names@.len(),
            n == views_of(names@.take(i as int)).filter(|f: Seq<char>| has_wav_ext(f)).len(),
            n <= i,
        decreases names@.len() - i,
    {
        let ghost pr = |f: Seq<char>| has_wav_ext(f);
        let ghost prefix = views_of(names@.take(i as int));
        let ghost longer = views_of(names@.take(i + 1));
        proof {
            assert(longer =~= prefix.push(names@[i as int]@));
            assert(longer.drop_last() =~= prefix);
        }
        proof {
            reveal(Seq::filter);
            assert(longer.last() == names@[i as int]@);
            if has_wav_ext(names@[i as int]@) {
                assert(longer.filter(pr) =~= prefix.filter(pr).push(names@[i as int]@));
            } else {
                assert(longer.filter(pr) =~= prefix.filter(pr));
            }
        }
        if ends_with_wav(names[i].as_str()) {
            n = n + 1;
        }
        i = i + 1;
    }
    proof {
        assert(names@.take(names@.len() as int) =~= names@);
    }
    n
}


/// The full report of a clear, as shown to the user: counts before and
/// after, the paths involved, and every failed deletion.
#[derive(Clone, Debug)]
pub struct ClearResult {
    pub deleted_count: usize,
    pub recordings_dir: String,
    pub recordings_json: String,
    pub files_on_disk_before: usize,
    pub files_on_disk_after: usize,
    pub index_count_before: usize,
    pub index_count_after: usize,
    pub failed_deletes: Vec<FailedDelete>,
}


/// Deleting one recording from the index: every entry of that filename is
/// dropped, everything else stays in order.
pub fn remove_entry(entries: &Vec<RecordingEntry>, filename: &str) -> (r: Vec<RecordingEntry>)
    ensures
        r@ == entries@.filter(|e: RecordingEntry| e.filename@ != filename@),
{
    broadcast use vstd::seq_lib::group_filter_ensures;

    let ghost pred = |e: RecordingEntry| e.filename@ != filename@;
    let mut out: Vec<RecordingEntry> = Vec::new();
    let mut i: usize = 0;
    proof {
        reveal(Seq::filter);
        assert(out@ =~= entries@.take(0).filter(pred));
    }
    while i < entries.len()
        invariant
            0 <= i <= entries@.len(),
            out@ == entries@.take(i as int).filter(|e: RecordingEntry| e.filename@ != filename@),
        decreases entries@.len() - i,
    {
        let ghost p = |e: RecordingEntry| e.filename@ != filename@;
        let ghost prefix = entries@.take(i as int);
        let ghost longer = entries@.take(i + 1);
        let keep = !str_eq(entries[i].filename.as_str(), filename);
        proof {
            reveal(Seq::filter);
            assert(longer =~= prefix.push(entries@[i as int]));
            assert(longer.drop_last() =~= prefix);
            assert(keep == p(entries@[i as int]));
            if keep {
                assert(longer.filter(p) =~= prefix.filter(p).push(entries@[i as int]));
            } else {
                assert(longer.filter(p) =~= prefix.filter(p));
            }
        }
        if keep {
            out.push(clone_entry(&entries[i]));
            proof {
                assert(out@ =~= longer.filter(p));
            }
        }
        i = i + 1;
    }
    proof {
        assert(entries@.take(entries@.len() as int) =~= entries@);
    }
    out
}

} // verus!
