//! The basic formatter: a fixed line layout over a per-formatter cache of the
//! local calendar time, keyed by the whole second of the record's instant.
use vstd::prelude::*;

use chrono::Datelike;
use chrono::Timelike;

use crate::level::level_name;
use crate::level::Level;
use crate::record::Record;
use crate::record::Timestamp;
use crate::text::byte_len;
use crate::text::lemma_encode_concat;
use crate::text::dec;
use crate::text::padded;
use crate::text::push_dec;
use crate::text::push_padded;
use crate::Error;

verus! {

/// A calendar breakdown of an instant in the local time zone, as the time-zone
/// conversion hands it back.
#[derive(Clone, Copy, Debug, PartialEq, Eq, Structural)]
pub struct LocalDateTime {
    pub year: i32,
    pub month: u32,
    pub day: u32,
    pub hour: u32,
    pub minute: u32,
    pub second: u32,
    pub nanosecond: u32,
}

/// Whether `y` is a leap year of the proleptic Gregorian calendar.
pub open spec fn is_leap_year(y: int) -> bool {
    y % 4 == 0 && (y % 100 != 0 || y % 400 == 0)
}

/// The number of days in month `m` of year `y`.
pub open spec fn days_in_month(y: int, m: int) -> int {
    if m == 2 {
        if is_leap_year(y) { 29 } else { 28 }
    } else if m == 4 || m == 6 || m == 9 || m == 11 {
        30
    } else {
        31
    }
}

/// The number of days from January 1, 1970 to day `d` of month `m` of year `y`
/// in the proleptic Gregorian calendar (years counted from March, in 400-year eras).
pub open spec fn days_from_civil(y: int, m: int, d: int) -> int {
    let yr = if m <= 2 { y - 1 } else { y };
    let era = yr / 400;
    let yoe = yr - era * 400;
    let doy = (153 * (if m > 2 { m - 3 } else { m + 9 }) + 2) / 5 + d - 1;
    let doe = yoe * 365 + yoe / 4 - yoe / 100 + doy;
    era * 146097 + doe - 719468
}

impl LocalDateTime {
    /// The seconds since the epoch that the breakdown reads as, were it UTC.
    pub open spec fn civil_secs(&self) -> int {
        days_from_civil(self.year as int, self.month as int, self.day as int) * 86400
            + self.hour * 3600 + self.minute * 60 + self.second
    }

    /// A calendar date and a time of day in their ranges, less than a day away
    /// from the whole second `secs` (a time-zone offset is under a day).
    pub open spec fn fits_second(&self, secs: i64) -> bool {
        &&& 1 <= self.month <= 12
        &&& 1 <= self.day <= days_in_month(self.year as int, self.month as int)
        &&& self.hour < 24
        &&& self.minute < 60
        &&& self.second < 60
        &&& -86400 < self.civil_secs() - secs < 86400
    }

    /// A breakdown of the instant `t` in some time zone.
    pub open spec fn valid_for(&self, t: Timestamp) -> bool {
        self.fits_second(t.secs) && self.nanosecond == t.nanos
    }
}

/// Relies on chrono::DateTime::from_timestamp, which gives `Some` for every
/// instant in chrono's range, and on `with_timezone(&chrono::Local)`, which
/// shifts it by the local offset, a whole number of seconds of magnitude under
/// a day, so that the nanoseconds are kept and the fields form a valid Gregorian
/// date and time of day less than a day from the instant. (Time-zone data that
/// cannot be read makes chrono fall back to UTC; it panics only where the
/// machine's time-zone data holds an offset of a day or more.)
#[verifier::external_body]
fn local_date_time(t: Timestamp) -> (r: LocalDateTime)
    requires
        t.wf(),
    ensures
        r.valid_for(t),
{
    let utc = chrono::DateTime::from_timestamp(t.secs, t.nanos).unwrap();
    let local = utc.with_timezone(&chrono::Local);
    LocalDateTime {
        year: local.year(),
        month: local.month(),
        day: local.day(),
        hour: local.hour(),
        minute: local.minute(),
        second: local.second(),
        nanosecond: local.nanosecond(),
    }
}

/// The millisecond within its second of a nanosecond count.
pub open spec fn millis_of(nanosecond: u32) -> u32 {
    (nanosecond % 1_000_000_000 / 1_000_000) as u32
}

/// A local calendar time down to the millisecond, as the basic formatter prints it.
#[derive(Clone, Copy, Debug, PartialEq, Eq, Structural)]
pub struct Time {
    pub year: i32,
    pub month: u32,
    pub day: u32,
    pub hour: u32,
    pub minute: u32,
    pub second: u32,
    pub millisecond: u32,
}

/// The time that a calendar breakdown stands for.
pub open spec fn time_of(dt: LocalDateTime) -> Time {
    Time {
        year: dt.year,
        month: dt.month,
        day: dt.day,
        hour: dt.hour,
        minute: dt.minute,
        second: dt.second,
        millisecond: millis_of(dt.nanosecond),
    }
}

impl From<LocalDateTime> for Time {
    fn from(dt: LocalDateTime) -> (r: Time)
        ensures
            r == time_of(dt),
    {
        Time {
            year: dt.year,
            month: dt.month,
            day: dt.day,
            hour: dt.hour,
            minute: dt.minute,
            second: dt.second,
            millisecond: Time::nanosecond_to_millisecond(dt.nanosecond),
        }
    }
}

impl vstd::std_specs::convert::FromSpecImpl<LocalDateTime> for Time {
    open spec fn obeys_from_spec() -> bool {
        true
    }

    open spec fn from_spec(dt: LocalDateTime) -> Time {
        time_of(dt)
    }
}

impl Time {
    /// Replaces the millisecond with the one of `nanosecond`, keeping the other fields.
    pub fn set_millisecond_from_nanosecond(&mut self, nanosecond: u32)
        ensures
            *final(self) == (Time { millisecond: millis_of(nanosecond), ..*old(self) }),
    {
        self.millisecond = Time::nanosecond_to_millisecond(nanosecond);
    }

    /// The millisecond within its second of a nanosecond count.
    pub fn nanosecond_to_millisecond(nanosecond: u32) -> (r: u32)
        ensures
            r == millis_of(nanosecond),
            r < 1000,
    {
        nanosecond % 1_000_000_000 / 1_000_000
    }
}

/// A cached breakdown and the whole second it was computed for.
#[derive(Clone, Copy, Debug, PartialEq, Eq, Structural)]
pub struct LocalTimeCache {
    pub last_secs: i64,
    pub local_time: Time,
}

/// The local-time cache of one formatter; empty until the first lookup.
#[derive(Clone, Copy, Debug, PartialEq, Eq, Structural)]
pub struct LocalTimeCacher {
    pub cache: Option<LocalTimeCache>,
}

/// What a lookup of `utc_time` in cache `before` may return as `r`, leaving the
/// cache as `after`. On a hit the cached fields are kept and only the millisecond
/// is that of `utc_time`; on a miss `r` is the breakdown of a full conversion of
/// `utc_time`. Either way the cache then holds `r` for the second of `utc_time`.
pub open spec fn lookup_outcome(before: LocalTimeCacher, utc_time: Timestamp, after: LocalTimeCacher, r: Time) -> bool {
    &&& before.hits(utc_time.secs) ==> r == (Time {
        millisecond: millis_of(utc_time.nanos),
        ..before.cache->0.local_time
    })
    &&& !before.hits(utc_time.secs) ==> exists|dt: LocalDateTime|
        dt.valid_for(utc_time) && r == time_of(dt)
    &&& r.millisecond == millis_of(utc_time.nanos)
    &&& after.cache == Some(LocalTimeCache { last_secs: utc_time.secs, local_time: r })
}

/// What a cache may hold: nothing, or for its whole second the breakdown of
/// some instant of that second.
pub open spec fn cacher_inv(c: LocalTimeCacher) -> bool {
    c.cache is Some ==> exists|dt: LocalDateTime|
        #![trigger time_of(dt)]
        dt.fits_second(c.cache->0.last_secs) && c.cache->0.local_time == time_of(dt)
}

/// Whether two times agree from the year down to the second.
pub open spec fn same_up_to_second(a: Time, b: Time) -> bool {
    &&& a.year == b.year
    &&& a.month == b.month
    &&& a.day == b.day
    &&& a.hour == b.hour
    &&& a.minute == b.minute
    &&& a.second == b.second
}

/// Two lookups in a row of instants in the same whole second give the same
/// fields from the year down to the second; each gives its own millisecond.
pub proof fn lemma_same_second_keeps_fields(
    c0: LocalTimeCacher,
    t1: Timestamp,
    c1: LocalTimeCacher,
    r1: Time,
    t2: Timestamp,
    c2: LocalTimeCacher,
    r2: Time,
)
    requires
        lookup_outcome(c0, t1, c1, r1),
        lookup_outcome(c1, t2, c2, r2),
        t1.secs == t2.secs,
    ensures
        same_up_to_second(r1, r2),
        r1.millisecond == millis_of(t1.nanos),
        r2.millisecond == millis_of(t2.nanos),
        time_text(r1).subrange(0, time_text(r1).len() - 3) == time_text(r2).subrange(0, time_text(r2).len() - 3),
{
    assert(c1.hits(t2.secs));
    let head1 = year_text(r1.year as int) + "-"@ + padded(r1.month as nat, 2) + "-"@ + padded(r1.day as nat, 2)
        + " "@ + padded(r1.hour as nat, 2) + ":"@ + padded(r1.minute as nat, 2) + ":"@
        + padded(r1.second as nat, 2) + "."@;
    let head2 = year_text(r2.year as int) + "-"@ + padded(r2.month as nat, 2) + "-"@ + padded(r2.day as nat, 2)
        + " "@ + padded(r2.hour as nat, 2) + ":"@ + padded(r2.minute as nat, 2) + ":"@
        + padded(r2.second as nat, 2) + "."@;
    assert(head1 == head2);
    lemma_padded_millis(r1.millisecond as nat);
    lemma_padded_millis(r2.millisecond as nat);
    assert(time_text(r1) == head1 + padded(r1.millisecond as nat, 3));
    assert(time_text(r1).subrange(0, time_text(r1).len() - 3) =~= head1);
    assert(time_text(r2).subrange(0, time_text(r2).len() - 3) =~= head2);
}

/// A lookup of an instant outside the cached second returns the breakdown of a
/// full conversion of that instant, exactly as an uncached conversion gives it.
pub proof fn lemma_new_second_recomputes(c0: LocalTimeCacher, t: Timestamp, c1: LocalTimeCacher, r: Time)
    requires
        lookup_outcome(c0, t, c1, r),
        !c0.hits(t.secs),
    ensures
        exists|dt: LocalDateTime| dt.valid_for(t) && r == time_of(dt),
        c1.cache == Some(LocalTimeCache { last_secs: t.secs, local_time: r }),
{
}

proof fn lemma_padded_millis(m: nat)
    requires
        m < 1000,
    ensures
        padded(m, 3).len() == 3,
{
    reveal_with_fuel(dec, 4);
    if m >= 100 {
        assert(m / 10 >= 10 && m / 10 / 10 < 10);
    } else if m >= 10 {
        assert(m / 10 < 10);
    }
}

impl LocalTimeCacher {
    /// Whether the cache holds the breakdown of the whole second `secs`.
    pub open spec fn hits(&self, secs: i64) -> bool {
        self.cache is Some && self.cache->0.last_secs == secs
    }

    /// An empty cache.
    pub fn new() -> (r: LocalTimeCacher)
        ensures
            r.cache is None,
    {
        LocalTimeCacher { cache: None }
    }

    /// A cache entry for the instant `utc_time`, from a full time-zone conversion.
    fn cache(utc_time: Timestamp) -> (r: LocalTimeCache)
        requires
            utc_time.wf(),
        ensures
            r.last_secs == utc_time.secs,
            exists|dt: LocalDateTime| dt.valid_for(utc_time) && r.local_time == time_of(dt),
    {
        let dt = local_date_time(utc_time);
        LocalTimeCache { last_secs: utc_time.secs, local_time: Time::from(dt) }
    }

    /// The local time of `utc_time`. Within the cached whole second only the
    /// millisecond is recomputed; otherwise the conversion is made in full and
    /// the cache moves to the new second.
    pub fn get(&mut self, utc_time: Timestamp) -> (r: Time)
        requires
            utc_time.wf(),
        ensures
            lookup_outcome(*old(self), utc_time, *final(self), r),
            cacher_inv(*old(self)) ==> exists|dt: LocalDateTime|
                #![trigger time_of(dt)]
                dt.valid_for(utc_time) && r == time_of(dt),
            cacher_inv(*old(self)) ==> cacher_inv(*final(self)),
    {
        let entry = match self.cache {
            Some(cache) if cache.last_secs == utc_time.secs => {
                let mut local_time = cache.local_time;
                local_time.set_millisecond_from_nanosecond(utc_time.nanos);
                proof {
                    if cacher_inv(*old(self)) {
                        let dt = choose|dt: LocalDateTime|
                            #![trigger time_of(dt)]
                            dt.fits_second(cache.last_secs) && cache.local_time == time_of(dt);
                        let moved = LocalDateTime { nanosecond: utc_time.nanos, ..dt };
                        assert(moved.valid_for(utc_time));
                        assert(local_time == time_of(moved));
                    }
                }
                LocalTimeCache { last_secs: cache.last_secs, local_time }
            },
            _ => LocalTimeCacher::cache(utc_time),
        };
        self.cache = Some(entry);
        entry.local_time
    }
}

/// The year as a line writes it: at least four digits, zero-padded, so that
/// years 0 to 9999 take the `YYYY` form and later years all their digits. A year
/// before 0 is written as a `-` followed by its magnitude in that same form.
pub open spec fn year_text(y: int) -> Seq<char> {
    if y >= 0 {
        padded(y as nat, 4)
    } else {
        seq!['-'] + padded((-y) as nat, 4)
    }
}

/// The date and time part of a line: `YYYY-MM-DD HH:MM:SS.mmm`.
pub open spec fn time_text(t: Time) -> Seq<char> {
    year_text(t.year as int) + "-"@ + padded(t.month as nat, 2) + "-"@ + padded(t.day as nat, 2)
        + " "@ + padded(t.hour as nat, 2) + ":"@ + padded(t.minute as nat, 2) + ":"@
        + padded(t.second as nat, 2) + "."@ + padded(t.millisecond as nat, 3)
}

/// What a line holds before the level: the bracketed time, then the bracketed
/// logger name where the record has one, and the opening bracket of the level.
pub open spec fn line_head(t: Time, record: Record) -> Seq<char> {
    "["@ + time_text(t) + "] ["@ + match record.logger_name {
        Some(name) => name@ + "] ["@,
        None => Seq::empty(),
    }
}

/// What a line holds after the level: the source location where the record has
/// one, then the closing bracket and the payload.
pub open spec fn line_tail(record: Record) -> Seq<char> {
    let location = match record.source_location {
        Some(loc) => "] ["@ + loc.file_name@ + ":"@ + dec(loc.line as nat),
        None => Seq::empty(),
    };
    location + "] "@ + record.payload@
}

/// The line that the basic formatter writes for `record` at local time `t`:
/// `[YYYY-MM-DD HH:MM:SS.mmm] [logger_name] [level] [file:line] payload`.
pub open spec fn basic_line(t: Time, record: Record) -> Seq<char> {
    line_head(t, record) + level_name(record.level) + line_tail(record)
}

/// The style range `range` of `text` covers exactly the bytes of the name of `level`.
pub open spec fn level_spans_exactly(text: Seq<char>, range: core::ops::Range<usize>, level: Level) -> bool {
    let bytes = vstd::utf8::encode_utf8(text);
    &&& range.start <= range.end <= bytes.len()
    &&& bytes.subrange(range.start as int, range.end as int) == vstd::utf8::encode_utf8(level_name(level))
}

/// `text` ends with the closing `] ` of the level or location segment, then the payload.
pub open spec fn ends_with_payload(text: Seq<char>, record: Record) -> bool {
    let p = record.payload@;
    &&& text.len() >= p.len() + 2
    &&& text.subrange(text.len() - p.len() - 2, text.len() as int) == "] "@ + p
}

/// In a basic line the payload follows the closing `] ` of the level or location
/// segment and ends the line, and the style range reported for a line written
/// after `before` covers exactly the bytes of the level's name.
pub proof fn lemma_basic_line_layout(before: Seq<char>, t: Time, record: Record)
    requires
        byte_len(before + basic_line(t, record)) <= usize::MAX,
    ensures
        ends_with_payload(before + basic_line(t, record), record),
        level_spans_exactly(before + basic_line(t, record), level_range(before, t, record), record.level),
{
    reveal_strlit("] ");
    let head = before + line_head(t, record);
    let name = level_name(record.level);
    let tail = line_tail(record);
    let line = basic_line(t, record);
    let p = record.payload@;
    assert(before + line =~= head + name + tail);
    lemma_encode_concat(head, name);
    lemma_encode_concat(head + name, tail);
    let eh = vstd::utf8::encode_utf8(head);
    let en = vstd::utf8::encode_utf8(name);
    let et = vstd::utf8::encode_utf8(tail);
    assert(vstd::utf8::encode_utf8(before + line) == eh + en + et);
    assert((eh + en + et).subrange(eh.len() as int, (eh.len() + en.len()) as int) =~= en);
    let location = match record.source_location {
        Some(loc) => "] ["@ + loc.file_name@ + ":"@ + dec(loc.line as nat),
        None => Seq::<char>::empty(),
    };
    assert(tail == location + "] "@ + p);
    assert(line =~= (line_head(t, record) + name + location) + ("] "@ + p));
    assert(before + line =~= (before + line_head(t, record) + name + location) + ("] "@ + p));
    let all = before + line;
    assert(all.subrange(all.len() - p.len() - 2, all.len() as int) =~= "] "@ + p);
}

/// What a formatter reports besides the text it wrote.
#[derive(Clone, Debug, PartialEq, Eq)]
pub struct FmtExtraInfo {
    /// The byte range of the output that is to be styled (the level).
    pub style_range: Option<core::ops::Range<usize>>,
}

impl FmtExtraInfo {
    /// The byte range of the output that is to be styled, if any.
    pub fn style_range(&self) -> (r: Option<core::ops::Range<usize>>)
        ensures
            r == self.style_range,
    {
        match &self.style_range {
            Some(range) => Some(core::ops::Range { start: range.start, end: range.end }),
            None => None,
        }
    }
}

/// The byte range of the level in the text `before` followed by `basic_line(t, record)`.
pub open spec fn level_range(before: Seq<char>, t: Time, record: Record) -> core::ops::Range<usize> {
    core::ops::Range {
        start: byte_len(before + line_head(t, record)) as usize,
        end: byte_len(before + line_head(t, record) + level_name(record.level)) as usize,
    }
}

/// The number of bytes in `s`.
fn byte_length(s: &String) -> (r: usize)
    ensures
        r as nat == byte_len(s@),
{
    s.as_str().as_bytes().len()
}

/// Whether the lock holds a cache that meets `cacher_inv`, now and whenever it
/// is next locked.
pub uninterp spec fn holds_valid_cache(lock: spin::Mutex<LocalTimeCacher>) -> bool;

#[verifier::external_type_specification]
#[verifier::external_body]
pub struct ExSpin(spin::relax::Spin);

#[verifier::external_type_specification]
#[verifier::external_body]
#[verifier::reject_recursive_types(T)]
#[verifier::reject_recursive_types(R)]
pub struct ExSpinMutex<T: ?Sized, R>(spin::mutex::Mutex<T, R>);

/// Relies on spin::Mutex::new: wraps the cache in an unlocked spin lock, which
/// then holds that cache until it is exchanged.
#[verifier::external_body]
fn new_cacher_lock(cacher: LocalTimeCacher) -> (r: spin::Mutex<LocalTimeCacher>)
    requires
        cacher_inv(cacher),
    ensures
        holds_valid_cache(r),
{
    spin::Mutex::new(cacher)
}

/// Relies on spin::Mutex::lock: while the lock is held, the cache inside is
/// exchanged for `cacher`, and what it held is handed back. Other threads may
/// have exchanged caches in it before, each under this same contract, so it
/// holds a valid cache still.
#[verifier::external_body]
fn exchange_cacher(lock: &spin::Mutex<LocalTimeCacher>, cacher: LocalTimeCacher) -> (r: LocalTimeCacher)
    requires
        holds_valid_cache(*lock),
        cacher_inv(cacher),
    ensures
        cacher_inv(r),
{
    core::mem::replace(&mut *lock.lock(), cacher)
}

/// The basic and default formatter. Its lines look like
/// `[2021-12-23 01:23:45.067] [info] log message`.
pub struct BasicFormatter {
    local_time_cacher: spin::Mutex<LocalTimeCacher>,
}

/// Appends the year of a line.
fn push_year(dest: &mut String, year: i32)
    ensures
        final(dest)@ == old(dest)@ + year_text(year as int),
{
    proof {
        reveal_strlit("-");
    }
    if year >= 0 {
        push_padded(dest, year as u64, 4);
    } else {
        dest.append("-");
        push_padded(dest, (-(year as i64)) as u64, 4);
        assert(dest@ =~= old(dest)@ + year_text(year as int));
    }
}

/// Appends the date and time part of a line.
fn push_time_text(dest: &mut String, t: &Time)
    ensures
        final(dest)@ == old(dest)@ + time_text(*t),
{
    proof {
        reveal_strlit("-");
        reveal_strlit(" ");
        reveal_strlit(":");
        reveal_strlit(".");
    }
    let ghost s0 = dest@;
    push_year(dest, t.year);
    dest.append("-");
    push_padded(dest, t.month as u64, 2);
    dest.append("-");
    push_padded(dest, t.day as u64, 2);
    let ghost s1 = dest@;
    assert(s1 =~= s0 + (year_text(t.year as int) + "-"@ + padded(t.month as nat, 2) + "-"@ + padded(t.day as nat, 2)));
    dest.append(" ");
    push_padded(dest, t.hour as u64, 2);
    dest.append(":");
    push_padded(dest, t.minute as u64, 2);
    let ghost s2 = dest@;
    assert(s2 =~= s1 + (" "@ + padded(t.hour as nat, 2) + ":"@ + padded(t.minute as nat, 2)));
    dest.append(":");
    push_padded(dest, t.second as u64, 2);
    dest.append(".");
    push_padded(dest, t.millisecond as u64, 3);
    assert(dest@ =~= s2 + (":"@ + padded(t.second as nat, 2) + "."@ + padded(t.millisecond as nat, 3)));
    assert(dest@ =~= s0 + time_text(*t));
}

impl BasicFormatter {
    /// Whether the formatter's lock holds a valid cache.
    pub closed spec fn wf(&self) -> bool {
        holds_valid_cache(self.local_time_cacher)
    }

    /// A formatter with an empty time cache.
    pub fn new() -> (r: BasicFormatter)
        ensures
            r.wf(),
    {
        BasicFormatter { local_time_cacher: new_cacher_lock(LocalTimeCacher::new()) }
    }

    /// Appends the line of `record` to `dest`, at the local time of the record's
    /// instant, and reports the byte range of the level. The calendar fields come
    /// from the cache when it holds the record's whole second, and from a fresh
    /// conversion otherwise; either way they are a local breakdown of the record's
    /// instant, with its millisecond.
    pub fn format(&self, record: &Record, dest: &mut String) -> (r: Result<FmtExtraInfo, Error>)
        requires
            self.wf(),
            record.time.wf(),
        ensures
            r is Ok,
            exists|dt: LocalDateTime|
                #![trigger time_of(dt)]
                dt.valid_for(record.time)
                && final(dest)@ == old(dest)@ + basic_line(time_of(dt), *record)
                && r->Ok_0.style_range == Some(level_range(old(dest)@, time_of(dt), *record)),
            level_spans_exactly(final(dest)@, r->Ok_0.style_range->0, record.level),
            ends_with_payload(final(dest)@, *record),
    {
        let mut cacher = exchange_cacher(&self.local_time_cacher, LocalTimeCacher::new());
        let time = cacher.get(record.time);
        let _ = exchange_cacher(&self.local_time_cacher, cacher);
        let info = BasicFormatter::format_with_time(&time, record, dest);
        Ok(info)
    }

    /// Appends the line of `record` at local time `time` to `dest`, and reports
    /// the byte range of the level.
    pub fn format_with_time(time: &Time, record: &Record, dest: &mut String) -> (r: FmtExtraInfo)
        ensures
            final(dest)@ == old(dest)@ + basic_line(*time, *record),
            r.style_range == Some(level_range(old(dest)@, *time, *record)),
            level_spans_exactly(final(dest)@, r.style_range->0, record.level),
            ends_with_payload(final(dest)@, *record),
    {
        proof {
            reveal_strlit("[");
            reveal_strlit("] [");
            reveal_strlit("] ");
            reveal_strlit(":");
        }
        dest.append("[");
        push_time_text(dest, time);
        dest.append("] [");
        let ghost before_name = dest@;
        assert(before_name =~= old(dest)@ + "["@ + time_text(*time) + "] ["@);
        match &record.logger_name {
            Some(name) => {
                dest.append(name.as_str());
                dest.append("] [");
            },
            None => {},
        }
        assert(dest@ =~= old(dest)@ + line_head(*time, *record));
        let style_range_begin = byte_length(dest);
        dest.append(record.level.as_str());
        let style_range_end = byte_length(dest);
        let ghost with_level = dest@;
        match &record.source_location {
            Some(loc) => {
                dest.append("] [");
                dest.append(loc.file_name.as_str());
                dest.append(":");
                push_dec(dest, loc.line as u64);
            },
            None => {},
        }
        dest.append("] ");
        dest.append(record.payload.as_str());
        assert(dest@ =~= with_level + line_tail(*record));
        assert(dest@ =~= old(dest)@ + basic_line(*time, *record));
        // The byte length of the whole buffer fits in `usize`, so the offsets
        // taken above are exact.
        let _total = byte_length(dest);
        proof {
            lemma_basic_line_layout(old(dest)@, *time, *record);
        }
        FmtExtraInfo { style_range: Some(core::ops::Range { start: style_range_begin, end: style_range_end }) }
    }
}

impl Default for BasicFormatter {
    fn default() -> (r: BasicFormatter)
        ensures
            r.wf(),
    {
        BasicFormatter::new()
    }
}

} // verus!
