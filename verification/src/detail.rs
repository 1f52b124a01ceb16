//! The detail view of one selected process.
use vstd::prelude::*;
use crate::text::{
    opt_view, digits, int_digits, pad_left, spaces, join, views, nat_text, int_text, align_right,
    push_text, join_text, space_text,
};
use crate::bytes::{byte_text_of, byte_text, kb_text};
use crate::timebar::{span_text, span_clock};

verus! {

/// What the detail view shows of a process. `memory` is in kilobytes,
/// `read_bytes` and `write_bytes` are totals in bytes.
pub struct ProcessDetail {
    pub name: String,
    pub pid: i32,
    pub command: Vec<String>,
    pub user_name: String,
    pub threads_total: u64,
    pub priority: i32,
    pub memory: u64,
    pub read_bytes: u64,
    pub write_bytes: u64,
}

/// Values of the detail view that the caller writes out: the time texts, the
/// status name, and the numbers with fractional digits (percentages with two
/// decimals, rates as compact byte texts).
pub struct DetailTexts {
    /// The end time's text when the process has ended.
    pub ended: Option<String>,
    pub start_time: String,
    /// Seconds from start to end, or to now while the process runs.
    pub run_seconds: i64,
    pub cpu_percent: String,
    pub status: String,
    pub mem_percent: String,
    pub read_rate: String,
    pub write_rate: String,
}

/// One line of the detail view: a label and its value.
pub struct DetailLine {
    pub label: String,
    pub value: String,
}

/// Whether the process is alive, as shown after its name.
pub open spec fn liveness_text(ended: Option<Seq<char>>) -> Seq<char> {
    match ended {
        Some(t) => "dead since "@ + t,
        None => "alive"@,
    }
}

/// The labels of the detail view, in order.
pub open spec fn detail_labels() -> Seq<Seq<char>> {
    seq![
        "Name:                  "@,
        "PID:                   "@,
        "Command:               "@,
        "User:                  "@,
        "Start Time:            "@,
        "Total Run Time:        "@,
        "CPU Usage:             "@,
        "Threads:               "@,
        "Status:                "@,
        "Priority:              "@,
        "MEM Usage:             "@,
        "Total Memory:          "@,
        "Disk Read:             "@,
        "Disk Write:            "@,
    ]
}

/// The values of the detail view, in the order of the labels.
pub open spec fn detail_values(
    name: Seq<char>,
    pid: i32,
    command: Seq<Seq<char>>,
    user_name: Seq<char>,
    threads_total: u64,
    priority: i32,
    memory: u64,
    read_bytes: u64,
    write_bytes: u64,
    ended: Option<Seq<char>>,
    start_time: Seq<char>,
    run_seconds: i64,
    cpu_percent: Seq<char>,
    status: Seq<char>,
    mem_percent: Seq<char>,
    read_rate: Seq<char>,
    write_rate: Seq<char>,
) -> Seq<Seq<char>> {
    seq![
        name + " ("@ + liveness_text(ended) + ")"@,
        pad_left(int_digits(pid as int), 7, ' '),
        join(command, " "@),
        user_name,
        start_time,
        span_text(run_seconds as int),
        pad_left(cpu_percent, 7, ' ') + " %"@,
        pad_left(digits(threads_total as nat), 7, ' '),
        status,
        pad_left(int_digits(priority as int), 7, ' '),
        pad_left(mem_percent, 7, ' ') + " %"@,
        pad_left(byte_text_of((memory * 1000) as u128), 10, ' '),
        pad_left(byte_text_of(read_bytes as u128), 10, ' ') + " "@ + read_rate + "/s"@,
        pad_left(byte_text_of(write_bytes as u128), 10, ' ') + " "@ + write_rate + "/s"@,
    ]
}

/// A string holding `s`.
fn owned(s: &str) -> (r: String)
    ensures
        r@ == s@,
{
    let mut r = String::new();
    push_text(&mut r, s);
    r
}

/// A value followed by `suffix`.
fn with_suffix(mut v: String, suffix: &str) -> (r: String)
    ensures
        r@ == v@ + suffix@,
{
    push_text(&mut v, suffix);
    v
}

/// The lines of the detail view of process `p`.
pub fn detail_lines(p: &ProcessDetail, t: &DetailTexts) -> (lines: Vec<DetailLine>)
    ensures
        lines@.len() == 14,
        forall|i: int| 0 <= i < 14 ==> (#[trigger] lines@[i]).label@ == detail_labels()[i],
        forall|i: int| 0 <= i < 14 ==> (#[trigger] lines@[i]).value@ == detail_values(
            p.name@, p.pid, views(p.command@), p.user_name@, p.threads_total, p.priority,
            p.memory, p.read_bytes, p.write_bytes, opt_view(t.ended), t.start_time@,
            t.run_seconds, t.cpu_percent@, t.status@, t.mem_percent@, t.read_rate@,
            t.write_rate@,
        )[i],
{
    let mut lines: Vec<DetailLine> = Vec::new();

    let mut name = owned(p.name.as_str());
    push_text(&mut name, " (");
    match &t.ended {
        Some(e) => {
            push_text(&mut name, "dead since ");
            push_text(&mut name, e.as_str());
        },
        None => push_text(&mut name, "alive"),
    }
    push_text(&mut name, ")");
    lines.push(DetailLine { label: owned("Name:                  "), value: name });
    lines.push(DetailLine {
        label: owned("PID:                   "),
        value: align_right(int_text(p.pid as i64).as_str(), 7, ' '),
    });
    lines.push(DetailLine { label: owned("Command:               "), value: join_text(&p.command, " ") });
    lines.push(DetailLine { label: owned("User:                  "), value: owned(p.user_name.as_str()) });
    lines.push(DetailLine { label: owned("Start Time:            "), value: owned(t.start_time.as_str()) });
    lines.push(DetailLine { label: owned("Total Run Time:        "), value: span_clock(t.run_seconds) });
    lines.push(DetailLine {
        label: owned("CPU Usage:             "),
        value: with_suffix(align_right(t.cpu_percent.as_str(), 7, ' '), " %"),
    });
    lines.push(DetailLine {
        label: owned("Threads:               "),
        value: align_right(nat_text(p.threads_total as u128).as_str(), 7, ' '),
    });
    lines.push(DetailLine { label: owned("Status:                "), value: owned(t.status.as_str()) });
    lines.push(DetailLine {
        label: owned("Priority:              "),
        value: align_right(int_text(p.priority as i64).as_str(), 7, ' '),
    });
    lines.push(DetailLine {
        label: owned("MEM Usage:             "),
        value: with_suffix(align_right(t.mem_percent.as_str(), 7, ' '), " %"),
    });
    lines.push(DetailLine {
        label: owned("Total Memory:          "),
        value: align_right(kb_text(p.memory).as_str(), 10, ' '),
    });
    let mut read = align_right(byte_text(p.read_bytes as u128).as_str(), 10, ' ');
    push_text(&mut read, " ");
    push_text(&mut read, t.read_rate.as_str());
    push_text(&mut read, "/s");
    lines.push(DetailLine { label: owned("Disk Read:             "), value: read });
    let mut write = align_right(byte_text(p.write_bytes as u128).as_str(), 10, ' ');
    push_text(&mut write, " ");
    push_text(&mut write, t.write_rate.as_str());
    push_text(&mut write, "/s");
    lines.push(DetailLine { label: owned("Disk Write:            "), value: write });
    proof {
        let vals = detail_values(
            p.name@, p.pid, views(p.command@), p.user_name@, p.threads_total, p.priority,
            p.memory, p.read_bytes, p.write_bytes, opt_view(t.ended), t.start_time@,
            t.run_seconds, t.cpu_percent@, t.status@, t.mem_percent@, t.read_rate@,
            t.write_rate@,
        );
        assert(lines@[0].value@ =~= vals[0]);
        assert(lines@[12].value@ =~= vals[12]);
        assert(lines@[13].value@ =~= vals[13]);
        assert(lines@[6].value@ =~= vals[6]);
        assert(lines@[10].value@ =~= vals[10]);
    }
    lines
}

/// Where the detail view splits into two columns, counted in lines: with
/// three text items per line, when the items do not fit in an area
/// `area_height` lines high the first column takes that many lines.
pub open spec fn detail_split_at(line_count: nat, area_height: nat) -> Option<nat> {
    if 3 * line_count > 3 * area_height { Some(area_height) } else { None }
}

/// Where the detail view splits into two columns.
pub fn detail_split(line_count: usize, area_height: u16) -> (at: Option<usize>)
    requires
        line_count <= usize::MAX / 3,
    ensures
        at == match detail_split_at(line_count as nat, area_height as nat) {
            Some(n) => Some(n as usize),
            None => None::<usize>,
        },
{
    if 3 * line_count > 3 * (area_height as usize) {
        Some(area_height as usize)
    } else {
        None
    }
}

/// The title of the detail view.
pub open spec fn detail_title_text(name: Seq<char>) -> Seq<char> {
    "Process: "@ + name
}

/// The title of the detail view.
pub fn detail_title(name: &str) -> (t: String)
    ensures
        t@ == detail_title_text(name@),
{
    let mut t = owned("Process: ");
    push_text(&mut t, name);
    t
}

/// The key help of the detail view, followed by the last message and a
/// run of spaces as wide as the view.
pub open spec fn detail_help_text(message: Option<Seq<char>>, width: u16) -> Seq<char> {
    "(b)ack (s)uspend (r)esume (k)ill [SIGKILL] (t)erminate [SIGTERM] "@
        + match message { Some(m) => m, None => Seq::empty() }
        + " "@ + spaces(width as nat)
}

/// The key help line of the detail view.
pub fn detail_help(message: &Option<String>, width: u16) -> (t: String)
    ensures
        t@ == detail_help_text(opt_view(*message), width),
{
    let mut t = owned("(b)ack (s)uspend (r)esume (k)ill [SIGKILL] (t)erminate [SIGTERM] ");
    match message {
        Some(m) => push_text(&mut t, m.as_str()),
        None => {},
    }
    push_text(&mut t, " ");
    push_text(&mut t, space_text(width as usize).as_str());
    t
}

/// The `MEM Usage` line shows the memory percentage, right-aligned in seven
/// characters and followed by ` %`, whatever the CPU percentage; the
/// `CPU Usage` line shows the CPU percentage, whatever the memory percentage.
pub proof fn lemma_usage_lines(
    name: Seq<char>, pid: i32, command: Seq<Seq<char>>, user_name: Seq<char>,
    threads_total: u64, priority: i32, memory: u64, read_bytes: u64, write_bytes: u64,
    ended: Option<Seq<char>>, start_time: Seq<char>, run_seconds: i64,
    cpu_percent: Seq<char>, other_cpu: Seq<char>, status: Seq<char>,
    mem_percent: Seq<char>, other_mem: Seq<char>, read_rate: Seq<char>, write_rate: Seq<char>,
)
    ensures
        detail_labels()[10] == "MEM Usage:             "@,
        detail_labels()[6] == "CPU Usage:             "@,
        detail_values(name, pid, command, user_name, threads_total, priority, memory, read_bytes,
            write_bytes, ended, start_time, run_seconds, cpu_percent, status, mem_percent,
            read_rate, write_rate)[10] == pad_left(mem_percent, 7, ' ') + " %"@,
        detail_values(name, pid, command, user_name, threads_total, priority, memory, read_bytes,
            write_bytes, ended, start_time, run_seconds, cpu_percent, status, mem_percent,
            read_rate, write_rate)[10]
        == detail_values(name, pid, command, user_name, threads_total, priority, memory, read_bytes,
            write_bytes, ended, start_time, run_seconds, other_cpu, status, mem_percent,
            read_rate, write_rate)[10],
        detail_values(name, pid, command, user_name, threads_total, priority, memory, read_bytes,
            write_bytes, ended, start_time, run_seconds, cpu_percent, status, mem_percent,
            read_rate, write_rate)[6] == pad_left(cpu_percent, 7, ' ') + " %"@,
        detail_values(name, pid, command, user_name, threads_total, priority, memory, read_bytes,
            write_bytes, ended, start_time, run_seconds, cpu_percent, status, mem_percent,
            read_rate, write_rate)[6]
        == detail_values(name, pid, command, user_name, threads_total, priority, memory, read_bytes,
            write_bytes, ended, start_time, run_seconds, cpu_percent, status, other_mem,
            read_rate, write_rate)[6],
{
}

/// The detail view's values line by line: the name with its liveness, the
/// pid, the command joined by spaces, the user, the start time, the run
/// time, the thread count, the status, the priority and the memory and disk
/// amounts, each taken from its own input.
pub proof fn lemma_detail_values(
    name: Seq<char>, pid: i32, command: Seq<Seq<char>>, user_name: Seq<char>,
    threads_total: u64, priority: i32, memory: u64, read_bytes: u64, write_bytes: u64,
    ended: Option<Seq<char>>, start_time: Seq<char>, run_seconds: i64,
    cpu_percent: Seq<char>, status: Seq<char>,
    mem_percent: Seq<char>, read_rate: Seq<char>, write_rate: Seq<char>,
)
    ensures ({
        let v = detail_values(name, pid, command, user_name, threads_total, priority, memory, read_bytes,
            write_bytes, ended, start_time, run_seconds, cpu_percent, status, mem_percent,
            read_rate, write_rate);
        &&& v.len() == 14
        &&& v[0] == name + " ("@ + (if ended is Some { "dead since "@ + ended.unwrap() } else { "alive"@ }) + ")"@
        &&& v[1] == pad_left(int_digits(pid as int), 7, ' ')
        &&& v[2] == join(command, " "@)
        &&& v[3] == user_name
        &&& v[4] == start_time
        &&& v[5] == span_text(run_seconds as int)
        &&& v[7] == pad_left(digits(threads_total as nat), 7, ' ')
        &&& v[8] == status
        &&& v[9] == pad_left(int_digits(priority as int), 7, ' ')
        &&& v[11] == pad_left(byte_text_of((memory * 1000) as u128), 10, ' ')
        &&& v[12] == pad_left(byte_text_of(read_bytes as u128), 10, ' ') + " "@ + read_rate + "/s"@
        &&& v[13] == pad_left(byte_text_of(write_bytes as u128), 10, ' ') + " "@ + write_rate + "/s"@
    }),
        detail_labels().len() == 14,
        detail_labels()[0] == "Name:                  "@,
        detail_labels()[1] == "PID:                   "@,
        detail_labels()[5] == "Total Run Time:        "@,
        detail_labels()[11] == "Total Memory:          "@,
        detail_labels()[12] == "Disk Read:             "@,
        detail_labels()[13] == "Disk Write:            "@,
{
}

} // verus!
