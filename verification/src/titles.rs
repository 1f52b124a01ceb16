//! Titles of the CPU, memory, network and disk panels.
use vstd::prelude::*;
use crate::text::{
    digits, int_digits, pad_left, pad_right, pad_center, nat_text, int_text, align_right,
    align_left, align_center, take_chars, push_text, lemma_pad_right,
};
use crate::bytes::{byte_text_of, byte_text, kb_text};

verus! {

/// The process that used the most CPU time so far.
pub struct TopProcess {
    pub pid: i32,
    pub name: String,
    pub user_name: String,
}

/// The title of the CPU history panel, given the mean of the CPU usage
/// history already written with two decimals.
pub open spec fn cpu_title_text(
    cpu_utilization: u64,
    top_pid: i32,
    top_name: Seq<char>,
    top_user: Seq<char>,
    mean: Seq<char>,
) -> Seq<char> {
    "CPU ["@ + pad_left(digits(cpu_utilization as nat), 3, ' ') + "%] MEAN ["@
        + pad_left(mean, 3, ' ') + "%] TOP ["@ + int_digits(top_pid as int) + " - "@ + top_name
        + " - "@ + top_user + "]"@
}

/// The title of the CPU history panel: current utilization, the mean of the
/// CPU usage history and the process with the most CPU time (pid 0 and empty
/// names when there is none). `mean` is that mean written with two decimals
/// (`{:.2}`), and `None` when there is no history; the title is then empty.
pub fn cpu_title(cpu_utilization: u64, top: &Option<TopProcess>, mean: &Option<String>) -> (title: String)
    ensures
        mean is None ==> title@ == Seq::<char>::empty(),
        mean matches Some(m) ==> title@ == match top {
            Some(p) => cpu_title_text(cpu_utilization, p.pid, p.name@, p.user_name@, m@),
            None => cpu_title_text(cpu_utilization, 0, Seq::empty(), Seq::empty(), m@),
        },
{
    let m = match mean {
        Some(m) => m,
        None => return String::new(),
    };
    let (pid, name, user): (i32, &str, &str) = match top {
        Some(p) => (p.pid, p.name.as_str(), p.user_name.as_str()),
        None => (0, "", ""),
    };
    proof {
        reveal_strlit("");
    }
    let mut t = String::new();
    push_text(&mut t, "CPU [");
    let cpu = nat_text(cpu_utilization as u128);
    push_text(&mut t, align_right(cpu.as_str(), 3, ' ').as_str());
    push_text(&mut t, "%] MEAN [");
    push_text(&mut t, align_right(m.as_str(), 3, ' ').as_str());
    push_text(&mut t, "%] TOP [");
    push_text(&mut t, int_text(pid as i64).as_str());
    push_text(&mut t, " - ");
    push_text(&mut t, name);
    push_text(&mut t, " - ");
    push_text(&mut t, user);
    push_text(&mut t, "]");
    proof {
        assert(t@ =~= cpu_title_text(cpu_utilization, pid, name@, user@, m@));
    }
    t
}

/// The title of the memory history panel, given the texts of the memory and
/// swap totals and their usage percentages.
pub open spec fn mem_title_text(
    mem_total: Seq<char>,
    mem_percent: nat,
    swap_total: Seq<char>,
    swap_percent: nat,
) -> Seq<char> {
    "MEM ["@ + mem_total + "] Usage ["@ + pad_left(digits(mem_percent), 3, ' ') + "%] SWP ["@
        + swap_total + "] Usage ["@ + pad_left(digits(swap_percent), 3, ' ') + "%]"@
}

/// Lays out the memory title from the texts of the totals and the percentages.
pub fn compose_mem_title(mem_total: &str, mem_percent: u64, swap_total: &str, swap_percent: u64) -> (title: String)
    ensures
        title@ == mem_title_text(mem_total@, mem_percent as nat, swap_total@, swap_percent as nat),
{
    let mut t = String::new();
    push_text(&mut t, "MEM [");
    push_text(&mut t, mem_total);
    push_text(&mut t, "] Usage [");
    let m = nat_text(mem_percent as u128);
    push_text(&mut t, align_right(m.as_str(), 3, ' ').as_str());
    push_text(&mut t, "%] SWP [");
    push_text(&mut t, swap_total);
    push_text(&mut t, "] Usage [");
    let w = nat_text(swap_percent as u128);
    push_text(&mut t, align_right(w.as_str(), 3, ' ').as_str());
    push_text(&mut t, "%]");
    proof {
        assert(t@ =~= mem_title_text(mem_total@, mem_percent as nat, swap_total@, swap_percent as nat));
    }
    t
}

/// The title of the memory history panel: the memory and swap totals (in
/// kilobytes) as compact byte texts, and the whole percentages of each in use.
pub fn mem_title(mem_percent: u64, mem_total: u64, swap_percent: u64, swap_total: u64) -> (title: String)
    ensures
        title@ == mem_title_text(
            byte_text_of((mem_total * 1000) as u128),
            mem_percent as nat,
            byte_text_of((swap_total * 1000) as u128),
            swap_percent as nat,
        ),
{
    let mem_text = kb_text(mem_total);
    let swap_text = kb_text(swap_total);
    compose_mem_title(mem_text.as_str(), mem_percent, swap_text.as_str(), swap_percent)
}

/// The largest sample, or 1 when there are none: the scale of a rate
/// history chart.
pub open spec fn chart_max(samples: Seq<u64>) -> u64
    decreases samples.len(),
{
    if samples.len() == 0 {
        1
    } else if samples.len() == 1 {
        samples[0]
    } else {
        let m = chart_max(samples.drop_last());
        if samples.last() > m { samples.last() } else { m }
    }
}

/// The scale of a rate history chart.
pub fn history_max(samples: &Vec<u64>) -> (m: u64)
    ensures
        m == chart_max(samples@),
{
    if samples.len() == 0 {
        return 1;
    }
    let mut m = samples[0];
    let mut i: usize = 1;
    while i < samples.len()
        invariant
            1 <= i <= samples.len(),
            m == chart_max(samples@.take(i as int)),
        decreases samples.len() - i,
    {
        proof {
            assert(samples@.take(i as int + 1).drop_last() =~= samples@.take(i as int));
            assert(samples@.take(1) =~= seq![samples@[0]]);
        }
        if samples[i] > m {
            m = samples[i];
        }
        i = i + 1;
    }
    proof {
        assert(samples@.take(1) =~= seq![samples@[0]]);
        assert(samples@.take(i as int) =~= samples@);
    }
    m
}

/// The title of a rate chart (network up/down, disk read/write): a label,
/// the current rate and the chart's scale, both as compact byte texts
/// centred in ten characters.
pub open spec fn rate_title_text(label: Seq<char>, current: u64, max: u64) -> Seq<char> {
    label + " ["@ + pad_center(byte_text_of(current as u128), 10) + "] Max ["@
        + pad_center(byte_text_of(max as u128), 10) + "]"@
}

/// A rate chart's title and scale.
pub struct RateChart {
    pub title: String,
    pub max: u64,
}

/// The title and scale of a rate chart for the current rate and its history.
pub fn rate_chart(label: &str, current: u64, history: &Vec<u64>) -> (c: RateChart)
    ensures
        c.max == chart_max(history@),
        c.title@ == rate_title_text(label@, current, chart_max(history@)),
{
    let max = history_max(history);
    let now_text = byte_text(current as u128);
    let max_text = byte_text(max as u128);
    let mut t = String::new();
    push_text(&mut t, label);
    push_text(&mut t, " [");
    push_text(&mut t, align_center(now_text.as_str(), 10).as_str());
    push_text(&mut t, "] Max [");
    push_text(&mut t, align_center(max_text.as_str(), 10).as_str());
    push_text(&mut t, "]");
    proof {
        assert(t@ =~= rate_title_text(label@, current, max));
    }
    RateChart { title: t, max }
}

/// A line of the network interface list: the name cut and padded to eight
/// characters, then the address.
pub open spec fn interface_line_text(name: Seq<char>, address: Seq<char>) -> Seq<char> {
    pad_right(name.take(if name.len() < 8 { name.len() as int } else { 8 }), 8) + " : "@ + address
}

/// A line of the network interface list.
pub fn interface_line(name: &str, address: &str) -> (line: String)
    ensures
        line@ == interface_line_text(name@, address@),
{
    let short = take_chars(name, 8);
    let mut t = align_left(short.as_str(), 8);
    push_text(&mut t, " : ");
    push_text(&mut t, address);
    t
}

/// The scale of a rate chart is at least every sample, and is one of them
/// when there are any.
pub proof fn lemma_chart_max_bounds(samples: Seq<u64>)
    ensures
        forall|i: int| 0 <= i < samples.len() ==> samples[i] <= #[trigger] chart_max(samples),
        samples.len() > 0 ==> samples.contains(chart_max(samples)),
        samples.len() == 0 ==> chart_max(samples) == 1,
    decreases samples.len(),
{
    if samples.len() > 1 {
        let init = samples.drop_last();
        lemma_chart_max_bounds(init);
        assert forall|i: int| 0 <= i < samples.len() implies samples[i] <= #[trigger] chart_max(samples) by {
            if i < samples.len() - 1 {
                assert(samples[i] == init[i]);
            }
        }
        if chart_max(samples) != samples.last() {
            let j = choose|j: int| 0 <= j < init.len() && init[j] == chart_max(init);
            assert(samples[j] == chart_max(samples));
        } else {
            assert(samples[samples.len() - 1] == chart_max(samples));
        }
    } else if samples.len() == 1 {
        assert(samples[0] == chart_max(samples));
    }
}

/// An interface line is the name cut and padded to exactly eight
/// characters, then ` : `, then the whole address.
pub proof fn lemma_interface_line(name: Seq<char>, address: Seq<char>)
    ensures
        interface_line_text(name, address).len() == 11 + address.len(),
        interface_line_text(name, address).subrange(11, 11 + address.len() as int) == address,
        interface_line_text(name, address).subrange(8, 11) == " : "@,
        name.len() <= 8 ==> interface_line_text(name, address).take(name.len() as int) == name,
        name.len() > 8 ==> interface_line_text(name, address).take(8) == name.take(8),
{
    reveal_strlit(" : ");
    let short = name.take(if name.len() < 8 { name.len() as int } else { 8 });
    lemma_pad_right(short, 8);
    let t = interface_line_text(name, address);
    let p = pad_right(short, 8);
    assert(t == p + " : "@ + address);
    assert(t.subrange(11, 11 + address.len() as int) =~= address);
    assert(t.subrange(8, 11) =~= " : "@);
    if name.len() <= 8 {
        assert(short =~= name);
        assert(t.take(name.len() as int) =~= p.take(name.len() as int));
    } else {
        assert(t.take(8) =~= p.take(8));
    }
}

} // verus!
