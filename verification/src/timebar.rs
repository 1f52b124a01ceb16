//! The top title bar: host, shown time range and history offset.
use vstd::prelude::*;
use crate::text::{views, digits, int_digits, pad_left, spaces, int_text, align_right, push_text, space_text};

verus! {

/// A local date and time as the title bar shows it. `date` is the text of
/// the date (with its UTC offset); the other fields are its calendar parts.
pub struct ClockTime {
    pub date: String,
    pub month: u32,
    pub day: u32,
    pub hour: u32,
    pub minute: u32,
    pub second: u32,
}

/// A number zero-padded to two digits (`{:02}`, `{:0>2}`).
pub open spec fn two_digits(x: int) -> Seq<char> {
    pad_left(int_digits(x), 2, '0')
}

/// `hh:mm:ss` of a time of day.
pub open spec fn time_of_day(hour: nat, minute: nat, second: nat) -> Seq<char> {
    two_digits(hour as int) + ":"@ + two_digits(minute as int) + ":"@ + two_digits(second as int)
}

/// The shown time range: times of day only when both ends fall on the same
/// day of the same month, else with their dates.
pub open spec fn time_range_text(
    start_date: Seq<char>, start_month: u32, start_day: u32, start_time: Seq<char>,
    end_date: Seq<char>, end_month: u32, end_day: u32, end_time: Seq<char>,
) -> Seq<char> {
    if start_day == end_day && start_month == end_month {
        " ("@ + start_time + " - "@ + end_time + ")"@
    } else {
        " ("@ + start_date + " "@ + start_time + " - "@ + end_date + " "@ + end_time + ")"@
    }
}

/// The text of a number zero-padded to two digits.
pub fn two_digit_text(x: i64) -> (s: String)
    ensures
        s@ == two_digits(x as int),
{
    align_right(int_text(x).as_str(), 2, '0')
}

/// `hh:mm:ss` of a clock time.
fn time_of_day_text(t: &ClockTime) -> (s: String)
    ensures
        s@ == time_of_day(t.hour as nat, t.minute as nat, t.second as nat),
{
    let mut s = two_digit_text(t.hour as i64);
    push_text(&mut s, ":");
    push_text(&mut s, two_digit_text(t.minute as i64).as_str());
    push_text(&mut s, ":");
    push_text(&mut s, two_digit_text(t.second as i64).as_str());
    s
}

/// The shown time range from `start` to `end`.
pub fn display_time(start: &ClockTime, end: &ClockTime) -> (s: String)
    ensures
        s@ == time_range_text(
            start.date@, start.month, start.day,
            time_of_day(start.hour as nat, start.minute as nat, start.second as nat),
            end.date@, end.month, end.day,
            time_of_day(end.hour as nat, end.minute as nat, end.second as nat),
        ),
{
    let st = time_of_day_text(start);
    let et = time_of_day_text(end);
    let mut s = String::new();
    push_text(&mut s, " (");
    if start.day == end.day && start.month == end.month {
        push_text(&mut s, st.as_str());
        push_text(&mut s, " - ");
        push_text(&mut s, et.as_str());
    } else {
        push_text(&mut s, start.date.as_str());
        push_text(&mut s, " ");
        push_text(&mut s, st.as_str());
        push_text(&mut s, " - ");
        push_text(&mut s, end.date.as_str());
        push_text(&mut s, " ");
        push_text(&mut s, et.as_str());
    }
    push_text(&mut s, ")");
    s
}

/// Integer division rounding toward zero, as Rust's `/` on signed numbers.
pub open spec fn quot(a: int, b: nat) -> int {
    if a >= 0 { a / (b as int) } else { -((-a) / (b as int)) }
}

/// The remainder that goes with `quot`, carrying the sign of `a`.
pub open spec fn rem(a: int, b: nat) -> int {
    if a >= 0 { a % (b as int) } else { -((-a) % (b as int)) }
}

/// A signed span of seconds as `hh:mm:ss`: whole hours, minutes within the
/// hour and seconds within the minute, each rounded toward zero and
/// zero-padded to two digits.
pub open spec fn span_text(secs: int) -> Seq<char> {
    two_digits(quot(secs, 3600)) + ":"@ + two_digits(rem(quot(secs, 60), 60)) + ":"@
        + two_digits(rem(secs, 60))
}

/// A signed span of seconds as `hh:mm:ss`.
pub fn span_clock(secs: i64) -> (s: String)
    ensures
        s@ == span_text(secs as int),
{
    let neg = secs < 0;
    let m: u128 = if neg { (0i128 - secs as i128) as u128 } else { secs as u128 };
    let h: i128 = (m / 3600) as i128;
    let mi: i128 = ((m / 60) % 60) as i128;
    let se: i128 = (m % 60) as i128;
    let (h, mi, se) = if neg { (0 - h, 0 - mi, 0 - se) } else { (h, mi, se) };
    proof {
        if neg {
            assert(quot(secs as int, 60) == -(m / 60));
            assert(rem(quot(secs as int, 60), 60) == -((m / 60) % 60));
        }
    }
    let mut s = two_digit_text(h as i64);
    push_text(&mut s, ":");
    push_text(&mut s, two_digit_text(mi as i64).as_str());
    push_text(&mut s, ":");
    push_text(&mut s, two_digit_text(se as i64).as_str());
    s
}

/// The whole seconds of the history offset: `offset` scroll steps (taken
/// modulo 2^32) of `tick_ms` milliseconds each, times the zoom factor.
pub open spec fn offset_millis(tick_ms: u64, offset: usize, zoom: u32) -> nat {
    (tick_ms as nat) * ((offset as nat) % 0x1_0000_0000) * (zoom as nat)
}

/// Whether the history offset can be computed: the millisecond count fits a
/// signed 64-bit duration, and so does the product before the zoom.
pub open spec fn offset_in_range(tick_ms: u64, offset: usize, zoom: u32) -> bool {
    &&& (tick_ms as nat) * ((offset as nat) % 0x1_0000_0000) / 1000 <= u64::MAX
    &&& offset_millis(tick_ms, offset, zoom) <= i64::MAX
}

/// The history offset in whole seconds.
pub fn offset_seconds(tick_ms: u64, offset: usize, zoom: u32) -> (secs: i64)
    requires
        offset_in_range(tick_ms, offset, zoom),
    ensures
        secs == offset_millis(tick_ms, offset, zoom) / 1000,
{
    let steps: u128 = (offset as u128) % 0x1_0000_0000;
    let ms: u128 = (tick_ms as u128) * steps;
    assert(ms <= u64::MAX as u128 * 0x1_0000_0000) by (nonlinear_arith)
        requires ms == (tick_ms as u128) * steps, steps < 0x1_0000_0000, tick_ms <= u64::MAX;
    let total: u128 = ms * (zoom as u128);
    assert(total == offset_millis(tick_ms, offset, zoom)) by (nonlinear_arith)
        requires total == ms * (zoom as u128), ms == (tick_ms as u128) * steps,
            steps == (offset as nat) % 0x1_0000_0000;
    (total / 1000) as i64
}

/// The history offset as shown: `(-hh:mm:ss)` when positive, else nothing.
pub open spec fn back_in_time_text(secs: int) -> Seq<char> {
    if secs > 0 {
        "(-"@ + span_text(secs) + ")"@
    } else {
        Seq::empty()
    }
}

/// The history offset as shown.
pub fn back_in_time(secs: i64) -> (s: String)
    ensures
        s@ == back_in_time_text(secs as int),
{
    let mut s = String::new();
    if secs > 0 {
        push_text(&mut s, "(-");
        push_text(&mut s, span_clock(secs).as_str());
        push_text(&mut s, ")");
    }
    s
}

/// The pieces of the top title bar, in order: host name, system name and
/// release, the `[Showing: ` label, the shown span in minutes, the time
/// range, the history offset, the closing bracket, the key help, the quit
/// help and a run of spaces as wide as the bar.
pub open spec fn title_bar_text(
    hostname: Seq<char>,
    osname: Seq<char>,
    release: Seq<char>,
    shown_minutes: i64,
    range: Seq<char>,
    offset_secs: i64,
    width: u16,
) -> Seq<Seq<char>> {
    seq![
        " "@ + hostname,
        " ["@ + osname + " "@ + release + "]"@,
        "[Showing: "@,
        int_digits(shown_minutes as int) + " mins"@,
        range,
        back_in_time_text(offset_secs as int),
        "]"@,
        " <tab> sections, (e)pand (m)inimize [+/-] zoom [\u{2190}/\u{2192}] scroll histogram (`) reset"@,
        " (q)uit"@,
        spaces(width as nat),
    ]
}

/// The pieces of the top title bar; `start` and `end` bound the shown
/// history, which spans `shown_minutes`, and `offset_secs` is how far the
/// history is scrolled back.
pub fn title_bar(
    hostname: &str,
    osname: &str,
    release: &str,
    shown_minutes: i64,
    start: &ClockTime,
    end: &ClockTime,
    offset_secs: i64,
    width: u16,
) -> (parts: Vec<String>)
    ensures
        views(parts@) == title_bar_text(hostname@, osname@, release@, shown_minutes,
            time_range_text(
                start.date@, start.month, start.day,
                time_of_day(start.hour as nat, start.minute as nat, start.second as nat),
                end.date@, end.month, end.day,
                time_of_day(end.hour as nat, end.minute as nat, end.second as nat),
            ), offset_secs, width),
{
    let mut parts: Vec<String> = Vec::new();
    let mut host = String::new();
    push_text(&mut host, " ");
    push_text(&mut host, hostname);
    parts.push(host);
    let mut os = String::new();
    push_text(&mut os, " [");
    push_text(&mut os, osname);
    push_text(&mut os, " ");
    push_text(&mut os, release);
    push_text(&mut os, "]");
    parts.push(os);
    let mut showing = String::new();
    push_text(&mut showing, "[Showing: ");
    parts.push(showing);
    let mut mins = int_text(shown_minutes);
    push_text(&mut mins, " mins");
    parts.push(mins);
    parts.push(display_time(start, end));
    parts.push(back_in_time(offset_secs));
    let mut close = String::new();
    push_text(&mut close, "]");
    parts.push(close);
    let mut help = String::new();
    push_text(&mut help, " <tab> sections, (e)pand (m)inimize [+/-] zoom [\u{2190}/\u{2192}] scroll histogram (`) reset");
    parts.push(help);
    let mut quit = String::new();
    push_text(&mut quit, " (q)uit");
    parts.push(quit);
    parts.push(space_text(width as usize));
    proof {
        let range = time_range_text(
            start.date@, start.month, start.day,
            time_of_day(start.hour as nat, start.minute as nat, start.second as nat),
            end.date@, end.month, end.day,
            time_of_day(end.hour as nat, end.minute as nat, end.second as nat),
        );
        assert(views(parts@) =~= title_bar_text(hostname@, osname@, release@, shown_minutes,
            range, offset_secs, width));
    }
    parts
}

} // verus!
