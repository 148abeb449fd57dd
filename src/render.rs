//! Turning a log record into a coloured line of segments.
use vstd::prelude::*;
use chrono::{Datelike, Timelike};
use crate::level::{gray, level_color, level_label, Color};
use crate::record::{ElementKey, LocalStamp, LocationKey, LogRecord, Origin, Timestamp};
use crate::text::{decimal, push_decimal};

verus! {

/// The debug text that the session library gives an element identity.
pub uninterp spec fn element_id_text(uid: u64, location: Seq<u64>) -> Seq<char>;

/// The debug text that the session library gives a location identity.
pub uninterp spec fn location_id_text(path: Seq<u64>) -> Seq<char>;

/// Relies on the derived `Debug` of muzzman_lib's `ElementId`, whose text
/// depends on the identity's values alone.
#[verifier::external_body]
fn element_id_debug(e: &ElementKey) -> (r: String)
    ensures
        r@ == element_id_text(e.uid, e.location@),
{
    let location_id = muzzman_lib::location::LocationId(e.location.clone());
    let id = muzzman_lib::element::ElementId { uid: e.uid, location_id };
    format!("{id:?}")
}

/// Relies on the derived `Debug` of muzzman_lib's `LocationId`, whose text
/// depends on the path alone.
#[verifier::external_body]
fn location_id_debug(l: &LocationKey) -> (r: String)
    ensures
        r@ == location_id_text(l.path@),
{
    let id = muzzman_lib::location::LocationId(l.path.clone());
    format!("{id:?}")
}

/// Relies on chrono's `DateTime::from_timestamp`, which gives `None` only
/// outside its range (dates of years beyond about 262,000 before or after the
/// era, or nanoseconds of a second or more), and on `with_timezone(&Local)`,
/// whose calendar fields keep their documented ranges. The result depends on
/// the machine's time zone; where the zone's data cannot be read chrono falls
/// back to UTC, and it panics only on a zone offset of a day or more.
#[verifier::external_body]
fn local_stamp(t: Timestamp) -> (r: Option<LocalStamp>)
    ensures
        r matches Some(s) ==> s.wf(),
        in_calendar_range(t) ==> r is Some,
{
    match chrono::DateTime::from_timestamp(t.secs, t.nanos) {
        Some(utc) => {
            let l = utc.with_timezone(&chrono::Local);
            Some(LocalStamp {
                year: l.year(),
                month: l.month(),
                day: l.day(),
                hour: l.hour(),
                minute: l.minute(),
            })
        },
        None => None,
    }
}

/// Instants that every local calendar can show: within about 250,000 years of
/// the epoch, with a nanosecond part under one second.
pub open spec fn in_calendar_range(t: Timestamp) -> bool {
    &&& -8_000_000_000_000 <= t.secs <= 8_000_000_000_000
    &&& t.nanos < 1_000_000_000
}

/// One piece of a line, painted in one colour.
pub struct Segment {
    pub color: Color,
    pub text: String,
}

/// A rendered log line: its segments, left to right.
pub struct StyledLine {
    pub segments: Vec<Segment>,
}

impl View for StyledLine {
    type V = Seq<(Color, Seq<char>)>;

    open spec fn view(&self) -> Seq<(Color, Seq<char>)> {
        self.segments@.map_values(|s: Segment| seg_view(s))
    }
}

/// What a segment shows.
pub open spec fn seg_view(s: Segment) -> (Color, Seq<char>) {
    (s.color, s.text@)
}

/// The separator that follows every segment but the last.
pub open spec fn space() -> Seq<char> {
    seq![' ']
}

/// The label that names who produced a record.
pub open spec fn origin_text(o: Origin) -> Seq<char> {
    match o {
        Origin::Element(e) => element_id_text(e.uid, e.location@),
        Origin::Location(l) => location_id_text(l.path@),
        Origin::LibraryCore => seq!['M', 'u', 'z', 'z', 'M', 'a', 'n', 'L', 'i', 'b'],
        Origin::Daemon => seq!['D', 'a', 'e', 'm', 'o', 'n'],
    }
}

/// A year, zero-padded to four digits; a sign marks a year outside 0 to 9999
/// (a minus before the era, a plus after year 9999).
pub open spec fn year_text(y: i32) -> Seq<char> {
    if y < 0 {
        seq!['-'] + decimal((-(y as int)) as nat, 4)
    } else if y > 9999 {
        seq!['+'] + decimal(y as nat, 4)
    } else {
        decimal(y as nat, 4)
    }
}

/// `DD/MM/YYYY HH:MM`.
pub open spec fn stamp_text(s: LocalStamp) -> Seq<char> {
    decimal(s.day as nat, 2) + seq!['/'] + decimal(s.month as nat, 2) + seq!['/'] + year_text(
        s.year,
    ) + seq![' '] + decimal(s.hour as nat, 2) + seq![':'] + decimal(s.minute as nat, 2)
}

/// The level label and the origin, which every line starts with.
pub open spec fn head_segments(r: LogRecord) -> Seq<(Color, Seq<char>)> {
    seq![
        (level_color(r.level), level_label(r.level) + space()),
        (Color::White, origin_text(r.origin) + space()),
    ]
}

/// The time, where it could be placed on the calendar.
pub open spec fn stamp_segments(s: Option<LocalStamp>) -> Seq<(Color, Seq<char>)> {
    match s {
        Some(s) => seq![(Color::Blue, stamp_text(s) + space())],
        None => seq![],
    }
}

/// The module path, where the record has one.
pub open spec fn module_segments(m: Option<String>) -> Seq<(Color, Seq<char>)> {
    match m {
        Some(m) => seq![(gray(), m@ + space())],
        None => seq![],
    }
}

/// `file:line`, where the record has both.
pub open spec fn location_segments(file: Option<String>, line: Option<u32>) -> Seq<
    (Color, Seq<char>),
> {
    match (file, line) {
        (Some(f), Some(n)) => seq![(gray(), f@ + seq![':'] + decimal(n as nat, 0) + space())],
        _ => seq![],
    }
}

/// The message and the end of the line.
pub open spec fn message_segments(m: String) -> Seq<(Color, Seq<char>)> {
    seq![(Color::White, m@ + seq!['\n'])]
}

/// The line for a record whose time reads `s` on the local calendar.
pub open spec fn rendered(r: LogRecord, s: Option<LocalStamp>) -> Seq<(Color, Seq<char>)> {
    head_segments(r) + stamp_segments(s) + module_segments(r.module) + location_segments(
        r.file,
        r.line,
    ) + message_segments(r.message)
}

/// The characters of a line, colours left out.
pub open spec fn text_of(segs: Seq<(Color, Seq<char>)>) -> Seq<char>
    decreases segs.len(),
{
    if segs.len() == 0 {
        seq![]
    } else {
        text_of(segs.drop_last()) + segs.last().1
    }
}


/// The text of a record's origin.
fn origin_label(o: &Origin) -> (r: String)
    ensures
        r@ == origin_text(*o),
{
    match o {
        Origin::Element(e) => element_id_debug(e),
        Origin::Location(l) => location_id_debug(l),
        Origin::LibraryCore => {
            proof { reveal_strlit("MuzzManLib"); }
            let r = String::from_str("MuzzManLib");
            assert(r@ =~= origin_text(*o));
            r
        },
        Origin::Daemon => {
            proof { reveal_strlit("Daemon"); }
            let r = String::from_str("Daemon");
            assert(r@ =~= origin_text(*o));
            r
        },
    }
}

/// Appends a year as `year_text` spells it.
fn push_year(out: &mut String, y: i32)
    ensures
        final(out)@ == old(out)@ + year_text(y),
{
    if y < 0 {
        proof { reveal_strlit("-"); }
        out.append("-");
        let magnitude: u64 = (-(y as i64)) as u64;
        push_decimal(out, magnitude, 4);
        assert(out@ =~= old(out)@ + year_text(y));
    } else if y > 9999 {
        proof { reveal_strlit("+"); }
        out.append("+");
        push_decimal(out, y as u64, 4);
        assert(out@ =~= old(out)@ + year_text(y));
    } else {
        push_decimal(out, y as u64, 4);
    }
}

/// The text `DD/MM/YYYY HH:MM` of a calendar time.
pub fn stamp_string(s: &LocalStamp) -> (r: String)
    ensures
        r@ == stamp_text(*s),
{
    proof {
        reveal_strlit("/");
        reveal_strlit(" ");
        reveal_strlit(":");
    }
    let mut out = String::new();
    push_decimal(&mut out, s.day as u64, 2);
    out.append("/");
    push_decimal(&mut out, s.month as u64, 2);
    out.append("/");
    push_year(&mut out, s.year);
    out.append(" ");
    push_decimal(&mut out, s.hour as u64, 2);
    out.append(":");
    push_decimal(&mut out, s.minute as u64, 2);
    assert(out@ =~= stamp_text(*s));
    out
}

/// `text` followed by one space.
fn spaced(text: &str) -> (r: String)
    ensures
        r@ == text@ + space(),
{
    proof { reveal_strlit(" "); }
    let mut r = String::from_str(text);
    r.append(" ");
    assert(r@ =~= text@ + space());
    r
}

/// Renders a record whose time reads `stamp` on the local calendar.
pub fn format_with_stamp(record: &LogRecord, stamp: Option<LocalStamp>) -> (r: StyledLine)
    ensures
        r@ == rendered(*record, stamp),
{
    let mut segs: Vec<Segment> = Vec::new();
    segs.push(Segment { color: record.level.color(), text: spaced(record.level.label()) });
    let origin = origin_label(&record.origin);
    segs.push(Segment { color: Color::White, text: spaced(origin.as_str()) });
    assert(segs@.map_values(|s: Segment| seg_view(s)) =~= head_segments(*record));
    if let Some(s) = stamp {
        let t = stamp_string(&s);
        segs.push(Segment { color: Color::Blue, text: spaced(t.as_str()) });
    }
    assert(segs@.map_values(|s: Segment| seg_view(s)) =~= head_segments(*record) + stamp_segments(stamp));
    if let Some(m) = &record.module {
        segs.push(Segment { color: Color::Ansi256(8), text: spaced(m.as_str()) });
    }
    assert(segs@.map_values(|s: Segment| seg_view(s)) =~= head_segments(*record) + stamp_segments(stamp)
        + module_segments(record.module));
    if let Some(f) = &record.file {
        if let Some(n) = record.line {
            proof { reveal_strlit(":"); }
            let mut t = String::from_str(f.as_str());
            t.append(":");
            push_decimal(&mut t, n as u64, 0);
            assert(t@ =~= f@ + seq![':'] + decimal(n as nat, 0));
            segs.push(Segment { color: Color::Ansi256(8), text: spaced(t.as_str()) });
        }
    }
    assert(segs@.map_values(|s: Segment| seg_view(s)) =~= head_segments(*record) + stamp_segments(stamp)
        + module_segments(record.module) + location_segments(record.file, record.line));
    proof { reveal_strlit("\n"); }
    let mut msg = String::from_str(record.message.as_str());
    msg.append("\n");
    assert(msg@ =~= record.message@ + seq!['\n']);
    segs.push(Segment { color: Color::White, text: msg });
    assert(segs@.map_values(|s: Segment| seg_view(s)) =~= rendered(*record, stamp));
    let line = StyledLine { segments: segs };
    assert(line@ =~= rendered(*record, stamp));
    line
}

/// Renders a record, placing its time on the machine's local calendar.
pub fn format_record(record: &LogRecord) -> (r: StyledLine)
    ensures
        exists|s: Option<LocalStamp>|
            #![auto]
            (s matches Some(t) ==> t.wf()) && (in_calendar_range(record.time) ==> s is Some)
                && r@ == rendered(*record, s),
{
    let stamp = local_stamp(record.time);
    let r = format_with_stamp(record, stamp);
    assert((stamp matches Some(t) ==> t.wf()) && (in_calendar_range(record.time) ==> stamp is Some)
        && r@ == rendered(*record, stamp));
    r
}


impl StyledLine {
    /// The characters of the line, colours left out.
    pub fn plain_text(&self) -> (r: String)
        ensures
            r@ == text_of(self@),
    {
        let mut out = String::new();
        let mut i: usize = 0;
        while i < self.segments.len()
            invariant
                i <= self.segments@.len(),
                out@ == text_of(self@.take(i as int)),
            decreases self.segments@.len() - i,
        {
            out.append(self.segments[i].text.as_str());
            assert(self@.take(i + 1).drop_last() =~= self@.take(i as int));
            i = i + 1;
        }
        assert(self@.take(i as int) =~= self@);
        out
    }
}

/// The text of two lines laid end to end is the two texts laid end to end.
pub proof fn lemma_text_of_concat(a: Seq<(Color, Seq<char>)>, b: Seq<(Color, Seq<char>)>)
    ensures
        text_of(a + b) == text_of(a) + text_of(b),
    decreases b.len(),
{
    if b.len() == 0 {
        assert(a + b =~= a);
        assert(text_of(a) + text_of(b) =~= text_of(a));
    } else {
        assert((a + b).drop_last() =~= a + b.drop_last());
        lemma_text_of_concat(a, b.drop_last());
        assert(text_of(a + b) =~= text_of(a) + text_of(b));
    }
}

/// The text of a single segment is that segment's text.
pub proof fn lemma_text_of_single(c: Color, t: Seq<char>)
    ensures
        text_of(seq![(c, t)]) == t,
{
    assert(seq![(c, t)].drop_last() =~= Seq::<(Color, Seq<char>)>::empty());
    assert(text_of(Seq::<(Color, Seq<char>)>::empty()) + t =~= t);
}

/// Every line opens with the level's six-character label, painted in the
/// level's colour, and a space.
pub proof fn lemma_level_opens_line(r: LogRecord, s: Option<LocalStamp>)
    ensures
        rendered(r, s)[0] == (level_color(r.level), level_label(r.level) + space()),
        level_label(r.level).len() == 6,
{
}

/// A record without a module path and without a complete source location
/// reads: label, origin, time, message, each followed by exactly one
/// separator.
pub proof fn lemma_bare_record_text(r: LogRecord, s: LocalStamp)
    requires
        r.module is None,
        r.file is None || r.line is None,
    ensures
        text_of(rendered(r, Some(s))) == level_label(r.level) + space() + origin_text(r.origin)
            + space() + stamp_text(s) + space() + r.message@ + seq!['\n'],
{
    let h = head_segments(r);
    let st = stamp_segments(Some(s));
    let m = message_segments(r.message);
    assert(rendered(r, Some(s)) =~= h + st + m);
    lemma_text_of_concat(h + st, m);
    lemma_text_of_concat(h, st);
    let h0 = seq![h[0]];
    let h1 = seq![h[1]];
    assert(h =~= h0 + h1);
    lemma_text_of_concat(h0, h1);
    lemma_text_of_single(h[0].0, h[0].1);
    lemma_text_of_single(h[1].0, h[1].1);
    lemma_text_of_single(Color::Blue, stamp_text(s) + space());
    lemma_text_of_single(Color::White, r.message@ + seq!['\n']);
    assert(text_of(rendered(r, Some(s))) =~= level_label(r.level) + space() + origin_text(
        r.origin,
    ) + space() + stamp_text(s) + space() + r.message@ + seq!['\n']);
}

/// Without a line number there is no source-location segment, whatever the
/// file: the line is the one of a record with no source location at all.
pub proof fn lemma_no_line_no_location(r: LogRecord, s: Option<LocalStamp>)
    requires
        r.line is None,
    ensures
        location_segments(r.file, r.line).len() == 0,
        rendered(r, s) == head_segments(r) + stamp_segments(s) + module_segments(r.module)
            + message_segments(r.message),
{
    assert(rendered(r, s) =~= head_segments(r) + stamp_segments(s) + module_segments(r.module)
        + message_segments(r.message));
}

} // verus!
