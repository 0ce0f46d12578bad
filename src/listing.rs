//! Listing a user's completed requests: request folders are named by the
//! minute they were made, and only folders whose name reads as such a
//! timestamp and that hold merged audio are listed, oldest first.
use crate::paths::{final_audio_path, final_audio_spec, request_folder, request_folder_spec};
use chrono::{Datelike, Timelike};
use vstd::prelude::*;

verus! {

/// The layout of a request folder's name.
pub const STAMP_FORMAT: &'static str = "%Y-%m-%d-%H:%M";

/// The minute a request was made, as calendar fields.
#[derive(Debug, Clone, Copy, PartialEq, Eq, Structural)]
pub struct RequestTimestamp {
    pub year: i32,
    pub month: u32,
    pub day: u32,
    pub hour: u32,
    pub minute: u32,
}

impl RequestTimestamp {
    /// Every field lies in its calendar range.
    pub open spec fn wf(self) -> bool {
        &&& 1 <= self.month <= 12
        &&& 1 <= self.day <= 31
        &&& self.hour < 24
        &&& self.minute < 60
    }
}

/// Chronological order of two timestamps: field by field, the year first.
pub open spec fn stamp_le(a: RequestTimestamp, b: RequestTimestamp) -> bool {
    if a.year != b.year {
        a.year < b.year
    } else if a.month != b.month {
        a.month < b.month
    } else if a.day != b.day {
        a.day < b.day
    } else if a.hour != b.hour {
        a.hour < b.hour
    } else {
        a.minute <= b.minute
    }
}

/// Whether `a` is no later than `b`.
pub fn stamp_leq(a: &RequestTimestamp, b: &RequestTimestamp) -> (r: bool)
    ensures
        r == stamp_le(*a, *b),
{
    if a.year != b.year {
        a.year < b.year
    } else if a.month != b.month {
        a.month < b.month
    } else if a.day != b.day {
        a.day < b.day
    } else if a.hour != b.hour {
        a.hour < b.hour
    } else {
        a.minute <= b.minute
    }
}

/// The calendar fields that `s` reads as in the layout `fmt`, if it does.
pub uninterp spec fn parsed_stamp_of(s: Seq<char>, fmt: Seq<char>) -> Option<
    (i32, u32, u32, u32, u32),
>;

/// Relies on `chrono::NaiveDateTime::parse_from_str`: a result is a valid
/// date and time, read from the text and layout alone.
#[verifier::external_body]
fn parse_stamp_fields(s: &str, fmt: &str) -> (r: Option<(i32, u32, u32, u32, u32)>)
    ensures
        r == parsed_stamp_of(s@, fmt@),
        r matches Some(f) ==> 1 <= f.1 <= 12 && 1 <= f.2 <= 31 && f.3 < 24 && f.4 < 60,
{
    match chrono::NaiveDateTime::parse_from_str(s, fmt) {
        Ok(dt) => Some((dt.year(), dt.month(), dt.day(), dt.hour(), dt.minute())),
        Err(_) => None,
    }
}

/// The timestamp that a folder name stands for, if any.
pub open spec fn stamp_of_name(name: Seq<char>) -> Option<RequestTimestamp> {
    match parsed_stamp_of(name, STAMP_FORMAT@) {
        Some(f) => Some(RequestTimestamp { year: f.0, month: f.1, day: f.2, hour: f.3, minute: f.4 }),
        None => None,
    }
}

/// Reads a folder name as a request timestamp.
pub fn parse_request_timestamp(name: &str) -> (r: Option<RequestTimestamp>)
    ensures
        r == stamp_of_name(name@),
        r matches Some(t) ==> t.wf(),
{
    match parse_stamp_fields(name, STAMP_FORMAT) {
        Some(f) => Some(RequestTimestamp { year: f.0, month: f.1, day: f.2, hour: f.3, minute: f.4 }),
        None => None,
    }
}

/// The calendar fields of a timestamp, in the order year, month, day,
/// hour, minute.
pub open spec fn stamp_fields(t: RequestTimestamp) -> (i32, u32, u32, u32, u32) {
    (t.year, t.month, t.day, t.hour, t.minute)
}

/// The calendar fields written in the layout `fmt`, or `None` where they
/// name no date and time.
pub uninterp spec fn formatted_stamp_of(fields: (i32, u32, u32, u32, u32), fmt: Seq<char>) -> Option<
    Seq<char>,
>;

/// Relies on `chrono::NaiveDate::from_ymd_opt` and `NaiveDate::and_hms_opt`
/// to build the date and time (`None` where the fields name none), and on
/// `NaiveDateTime::format` to write it; the result depends on the fields and
/// the layout alone. The layout is the folder-name layout, which chrono
/// writes without error.
#[verifier::external_body]
fn format_stamp_fields(fields: (i32, u32, u32, u32, u32), fmt: &str) -> (r: Option<String>)
    requires
        fmt@ == STAMP_FORMAT@,
    ensures
        r is None <==> formatted_stamp_of(fields, fmt@) is None,
        r is Some ==> formatted_stamp_of(fields, fmt@) == Some(r->Some_0@),
{
    let date = chrono::NaiveDate::from_ymd_opt(fields.0, fields.1, fields.2)?;
    let dt = date.and_hms_opt(fields.3, fields.4, 0)?;
    Some(dt.format(fmt).to_string())
}

impl RequestTimestamp {
    /// Writes the timestamp in the folder-name layout, where it names a real
    /// date and time.
    pub fn to_text(&self) -> (r: Option<String>)
        ensures
            r is None <==> formatted_stamp_of(stamp_fields(*self), STAMP_FORMAT@) is None,
            r is Some ==> formatted_stamp_of(stamp_fields(*self), STAMP_FORMAT@) == Some(
                r->Some_0@,
            ),
    {
        format_stamp_fields((self.year, self.month, self.day, self.hour, self.minute), STAMP_FORMAT)
    }
}

/// A folder found under a user's storage directory.
#[derive(Debug, Clone)]
pub struct StoredDir {
    pub dir_name: String,
    /// Whether the folder holds merged audio.
    pub has_final: bool,
}

/// A stored folder with its name already read as a timestamp.
#[derive(Debug, Clone)]
pub struct ParsedDir {
    pub dir_name: String,
    pub timestamp: Option<RequestTimestamp>,
    pub has_final: bool,
}

/// One completed request of a user.
#[derive(Debug, Clone)]
pub struct FinalFile {
    pub timestamp: RequestTimestamp,
    pub file_path: String,
    pub dir_name: String,
}

impl FinalFile {
    /// The entry's timestamp written back in the folder-name layout; the
    /// folder's own name where the timestamp names no date and time.
    pub fn timestamp_text(&self) -> (r: String)
        ensures
            formatted_stamp_of(stamp_fields(self.timestamp), STAMP_FORMAT@) matches Some(t) ==> r@
                == t,
            formatted_stamp_of(stamp_fields(self.timestamp), STAMP_FORMAT@) is None ==> r@
                == self.dir_name@,
    {
        match self.timestamp.to_text() {
            Some(t) => t,
            None => self.dir_name.clone(),
        }
    }
}

/// A completed request as plain values.
pub struct FinalFileView {
    pub timestamp: RequestTimestamp,
    pub file_path: Seq<char>,
    pub dir_name: Seq<char>,
}

impl View for FinalFile {
    type V = FinalFileView;

    open spec fn view(&self) -> FinalFileView {
        FinalFileView {
            timestamp: self.timestamp,
            file_path: self.file_path@,
            dir_name: self.dir_name@,
        }
    }
}

/// Whether a folder is listed: its name is a timestamp and it holds audio.
pub open spec fn is_listed(d: ParsedDir) -> bool {
    d.has_final && d.timestamp is Some
}

/// The listing entry of a listed folder of `user_id`.
pub open spec fn entry_of(user_id: Seq<char>, d: ParsedDir) -> FinalFileView {
    FinalFileView {
        timestamp: d.timestamp->Some_0,
        file_path: final_audio_spec(request_folder_spec(user_id, d.dir_name@)),
        dir_name: d.dir_name@,
    }
}

/// The entries of the listed folders among `dirs`, in the order given.
pub open spec fn listed_entries(user_id: Seq<char>, dirs: Seq<ParsedDir>) -> Seq<FinalFileView>
    decreases dirs.len(),
{
    if dirs.len() == 0 {
        seq![]
    } else {
        let rest = listed_entries(user_id, dirs.drop_last());
        if is_listed(dirs.last()) {
            rest.push(entry_of(user_id, dirs.last()))
        } else {
            rest
        }
    }
}

/// `x` placed into `s` after every entry that is no later than it.
pub open spec fn insert_by_stamp(s: Seq<FinalFileView>, x: FinalFileView) -> Seq<FinalFileView>
    decreases s.len(),
{
    if s.len() == 0 {
        seq![x]
    } else if stamp_le(s.last().timestamp, x.timestamp) {
        s.push(x)
    } else {
        insert_by_stamp(s.drop_last(), x).push(s.last())
    }
}

/// `s` sorted by timestamp, oldest first; entries with equal timestamps
/// keep their order.
pub open spec fn sort_by_stamp(s: Seq<FinalFileView>) -> Seq<FinalFileView>
    decreases s.len(),
{
    if s.len() == 0 {
        seq![]
    } else {
        insert_by_stamp(sort_by_stamp(s.drop_last()), s.last())
    }
}

/// The views of a list of entries.
pub open spec fn views(v: Seq<FinalFile>) -> Seq<FinalFileView> {
    v.map_values(|f: FinalFile| f@)
}

/// Inserts `x` into `out` at the place `insert_by_stamp` gives.
fn insert_entry(out: &mut Vec<FinalFile>, x: FinalFile)
    ensures
        views(final(out)@) == insert_by_stamp(views(old(out)@), x@),
{
    let ghost s = views(out@);
    let mut j: usize = out.len();
    proof {
        assert(s.take(j as int) =~= s);
        assert(insert_by_stamp(s, x@) + s.skip(j as int) =~= insert_by_stamp(s, x@));
    }
    while j > 0 && !stamp_leq(&out[j - 1].timestamp, &x.timestamp)
        invariant
            j <= out.len(),
            s == views(out@),
            insert_by_stamp(s, x@) == insert_by_stamp(s.take(j as int), x@) + s.skip(j as int),
        decreases j,
    {
        proof {
            let t = s.take(j as int);
            assert(t.last() == s[j - 1]);
            assert(t.drop_last() =~= s.take(j - 1));
            assert(s.skip(j - 1) =~= seq![s[j - 1]] + s.skip(j as int));
            assert(insert_by_stamp(t, x@) == insert_by_stamp(s.take(j - 1), x@).push(s[j - 1]));
            assert(insert_by_stamp(s.take(j - 1), x@).push(s[j - 1]) + s.skip(j as int)
                =~= insert_by_stamp(s.take(j - 1), x@) + s.skip(j - 1));
        }
        j = j - 1;
    }
    proof {
        let t = s.take(j as int);
        if j > 0 {
            assert(t.last() == s[j - 1]);
        }
        assert(insert_by_stamp(t, x@) =~= t.push(x@));
    }
    out.insert(j, x);
    proof {
        assert(views(out@) =~= s.take(j as int).push(x@) + s.skip(j as int));
    }
}

/// The completed requests of `user_id` among `dirs`: the folders whose name
/// is a timestamp and which hold merged audio, oldest first.
pub fn collect_final_files(user_id: &str, dirs: &Vec<ParsedDir>) -> (r: Vec<FinalFile>)
    ensures
        views(r@) == sort_by_stamp(listed_entries(user_id@, dirs@)),
{
    let ghost want = listed_entries(user_id@, dirs@);
    let mut out: Vec<FinalFile> = Vec::new();
    let ghost mut kept: Seq<FinalFileView> = seq![];
    let mut i: usize = 0;
    while i < dirs.len()
        invariant
            i <= dirs.len(),
            kept == listed_entries(user_id@, dirs@.take(i as int)),
            views(out@) == sort_by_stamp(kept),
        decreases dirs.len() - i,
    {
        let d = &dirs[i];
        proof {
            assert(dirs@.take(i + 1).drop_last() =~= dirs@.take(i as int));
            assert(dirs@.take(i + 1).last() == dirs@[i as int]);
        }
        match d.timestamp {
            Some(t) => {
                if d.has_final {
                    let folder = request_folder(user_id, d.dir_name.as_str());
                    let entry = FinalFile {
                        timestamp: t,
                        file_path: final_audio_path(folder.as_str()),
                        dir_name: d.dir_name.clone(),
                    };
                    proof {
                        assert(entry@ == entry_of(user_id@, *d));
                        assert(kept.push(entry@).drop_last() =~= kept);
                        kept = kept.push(entry@);
                    }
                    insert_entry(&mut out, entry);
                }
            },
            None => {},
        }
        i = i + 1;
    }
    proof {
        assert(dirs@.take(i as int) =~= dirs@);
    }
    out
}

/// Lists the completed requests of `user_id` among the folders `dirs` found
/// in the user's storage directory, oldest first.
pub fn select_final_files(user_id: &str, dirs: &Vec<StoredDir>) -> (r: Vec<FinalFile>)
    ensures
        exists|parsed: Seq<ParsedDir>|
            {
                &&& parsed.len() == dirs.len()
                &&& forall|i: int|
                    0 <= i < dirs.len() ==> {
                        &&& #[trigger] parsed[i].dir_name == dirs[i].dir_name
                        &&& parsed[i].has_final == dirs[i].has_final
                        &&& parsed[i].timestamp == stamp_of_name(dirs[i].dir_name@)
                    }
                &&& views(r@) == sort_by_stamp(listed_entries(user_id@, parsed))
            },
{
    let mut parsed: Vec<ParsedDir> = Vec::new();
    let mut i: usize = 0;
    while i < dirs.len()
        invariant
            i <= dirs.len(),
            parsed.len() == i,
            forall|k: int|
                0 <= k < i ==> {
                    &&& #[trigger] parsed[k].dir_name == dirs[k].dir_name
                    &&& parsed[k].has_final == dirs[k].has_final
                    &&& parsed[k].timestamp == stamp_of_name(dirs[k].dir_name@)
                },
        decreases dirs.len() - i,
    {
        let d = &dirs[i];
        let timestamp = parse_request_timestamp(d.dir_name.as_str());
        let name = d.dir_name.clone();
        parsed.push(ParsedDir { dir_name: name, timestamp, has_final: d.has_final });
        i = i + 1;
    }
    let r = collect_final_files(user_id, &parsed);
    assert(parsed@.len() == dirs.len());
    r
}

/// Entries ordered by timestamp, oldest first.
pub open spec fn is_sorted_by_stamp(s: Seq<FinalFileView>) -> bool {
    forall|i: int, j: int|
        0 <= i < j < s.len() ==> stamp_le(#[trigger] s[i].timestamp, #[trigger] s[j].timestamp)
}

proof fn insert_bounded(s: Seq<FinalFileView>, x: FinalFileView, b: RequestTimestamp)
    requires
        forall|i: int| 0 <= i < s.len() ==> stamp_le(#[trigger] s[i].timestamp, b),
        stamp_le(x.timestamp, b),
    ensures
        forall|i: int|
            0 <= i < insert_by_stamp(s, x).len() ==> stamp_le(
                #[trigger] insert_by_stamp(s, x)[i].timestamp,
                b,
            ),
    decreases s.len(),
{
    let r = insert_by_stamp(s, x);
    if s.len() == 0 {
        assert(r[0] == x);
    } else if stamp_le(s.last().timestamp, x.timestamp) {
        assert forall|i: int| 0 <= i < r.len() implies stamp_le(#[trigger] r[i].timestamp, b) by {
            if i < s.len() {
                assert(r[i] == s[i]);
            }
        }
    } else {
        let init = s.drop_last();
        insert_bounded(init, x, b);
        let m = insert_by_stamp(init, x);
        assert(stamp_le(s[s.len() - 1].timestamp, b));
        assert forall|i: int| 0 <= i < r.len() implies stamp_le(#[trigger] r[i].timestamp, b) by {
            if i < m.len() {
                assert(r[i] == m[i]);
            }
        }
    }
}

proof fn insert_keeps_sorted(s: Seq<FinalFileView>, x: FinalFileView)
    requires
        is_sorted_by_stamp(s),
    ensures
        is_sorted_by_stamp(insert_by_stamp(s, x)),
        insert_by_stamp(s, x).to_multiset() == s.to_multiset().insert(x),
    decreases s.len(),
{
    broadcast use vstd::seq_lib::group_to_multiset_ensures;

    if s.len() == 0 {
        assert(seq![x] =~= Seq::<FinalFileView>::empty().push(x));
    } else if stamp_le(s.last().timestamp, x.timestamp) {
        let r = s.push(x);
        assert forall|i: int, j: int| 0 <= i < j < r.len() implies stamp_le(
            #[trigger] r[i].timestamp,
            #[trigger] r[j].timestamp,
        ) by {
            if j == s.len() && i < s.len() - 1 {
                assert(stamp_le(s[i].timestamp, s[s.len() - 1].timestamp));
            }
        }
    } else {
        let last = s.last();
        let init = s.drop_last();
        assert(is_sorted_by_stamp(init));
        insert_keeps_sorted(init, x);
        assert forall|i: int| 0 <= i < init.len() implies stamp_le(
            #[trigger] init[i].timestamp,
            last.timestamp,
        ) by {
            assert(stamp_le(s[i].timestamp, s[s.len() - 1].timestamp));
        }
        insert_bounded(init, x, last.timestamp);
        let m = insert_by_stamp(init, x);
        let r = m.push(last);
        assert forall|i: int, j: int| 0 <= i < j < r.len() implies stamp_le(
            #[trigger] r[i].timestamp,
            #[trigger] r[j].timestamp,
        ) by {
            if j < m.len() {
                assert(stamp_le(m[i].timestamp, m[j].timestamp));
            } else {
                assert(stamp_le(m[i].timestamp, last.timestamp));
            }
        }
        assert(s =~= init.push(last));
        assert(r.to_multiset() =~= s.to_multiset().insert(x));
    }
}

/// The listing comes oldest first and holds each entry of the listed
/// folders exactly as often as they do: nothing is dropped or invented.
pub proof fn sorted_listing(s: Seq<FinalFileView>)
    ensures
        is_sorted_by_stamp(sort_by_stamp(s)),
        sort_by_stamp(s).to_multiset() == s.to_multiset(),
    decreases s.len(),
{
    broadcast use vstd::seq_lib::group_to_multiset_ensures;

    if s.len() == 0 {
        assert(sort_by_stamp(s) =~= s);
    } else {
        sorted_listing(s.drop_last());
        insert_keeps_sorted(sort_by_stamp(s.drop_last()), s.last());
        assert(s =~= s.drop_last().push(s.last()));
    }
}

/// Only folders whose name is a timestamp and that hold merged audio are
/// listed, each with its parsed timestamp and its audio file; every such
/// folder is listed.
pub proof fn listing_keeps_completed(user_id: Seq<char>, dirs: Seq<ParsedDir>)
    ensures
        listed_entries(user_id, dirs).len() == dirs.filter(|d: ParsedDir| is_listed(d)).len(),
        listed_entries(user_id, dirs) == dirs.filter(|d: ParsedDir| is_listed(d)).map_values(
            |d: ParsedDir| entry_of(user_id, d),
        ),
    decreases dirs.len(),
{
    reveal(Seq::filter);
    if dirs.len() > 0 {
        listing_keeps_completed(user_id, dirs.drop_last());
        let f = dirs.drop_last().filter(|d: ParsedDir| is_listed(d));
        assert(dirs.filter(|d: ParsedDir| is_listed(d)).map_values(|d: ParsedDir| entry_of(user_id, d))
            =~= listed_entries(user_id, dirs));
    } else {
        assert(listed_entries(user_id, dirs) =~= dirs.filter(|d: ParsedDir| is_listed(d)).map_values(
            |d: ParsedDir| entry_of(user_id, d),
        ));
    }
}

} // verus!
