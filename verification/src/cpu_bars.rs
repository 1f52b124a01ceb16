//! Layout of the per-CPU usage bars.
use vstd::prelude::*;
use crate::text::{digits, nat_text, push_text, drop_first_char};

verus! {

/// The number of CPUs the bars count: the count taken modulo 2^16 (a 16-bit
/// number), and at least 1.
pub open spec fn bar_count(cpu_count: nat) -> nat {
    if cpu_count % 65536 == 0 { 1 } else { cpu_count % 65536 }
}

/// Whether the bars go on two rows: when there are more than fit in the
/// panel's inner width.
pub open spec fn two_rows(cpu_count: nat, width: nat) -> bool {
    bar_count(cpu_count) > width - 2
}

/// The number of bars on the first row.
pub open spec fn first_row_bars(cpu_count: nat, width: nat) -> nat {
    if two_rows(cpu_count, width) { bar_count(cpu_count) / 2 } else { bar_count(cpu_count) }
}

/// The gap between bars: none when the bars of a row fill at least half the
/// inner width of a panel wider than 2, else 1.
pub open spec fn bar_gap_of(cpu_count: nat, width: nat) -> nat {
    if width > 2 && first_row_bars(cpu_count, width) * 2 >= width - 2 { 0 } else { 1 }
}

/// The width of a bar: the inner width less the gaps, shared out among the
/// bars of a row and rounded down, kept between 1 and 32767.
pub open spec fn bar_width_of(cpu_count: nat, width: nat) -> nat {
    let half = first_row_bars(cpu_count, width);
    let inner = width - 2;
    let gaps = half * bar_gap_of(cpu_count, width);
    if half == 0 || inner < gaps {
        1
    } else {
        let q = ((inner - gaps) as nat) / half;
        if q < 1 { 1 } else if q > 32767 { 32767 } else { q }
    }
}

/// The title of the CPU bars panel.
pub open spec fn cpu_bars_title_text(cpu_count: nat, frequency: nat) -> Seq<char> {
    "CPU(S) "@ + digits(bar_count(cpu_count)) + "@"@ + digits(frequency) + " MHz"@
}

/// How the CPU bars are laid out.
pub struct CpuBarsLayout {
    /// The number of CPUs counted.
    pub count: u16,
    /// Whether the bars go on two rows.
    pub two_rows: bool,
    /// The number of bars on the first row; the rest go on the second.
    pub first_row: usize,
    pub bar_gap: u16,
    pub bar_width: u16,
    pub title: String,
}

/// Lays out the bars of `cpu_count` CPUs in a panel `width` wide (at least 2)
/// running at `frequency` MHz.
pub fn cpu_bars_layout(cpu_count: usize, width: u16, frequency: u64) -> (l: CpuBarsLayout)
    requires
        width >= 2,
    ensures
        l.count == bar_count(cpu_count as nat),
        l.two_rows == two_rows(cpu_count as nat, width as nat),
        l.first_row == first_row_bars(cpu_count as nat, width as nat),
        l.bar_gap == bar_gap_of(cpu_count as nat, width as nat),
        l.bar_width == bar_width_of(cpu_count as nat, width as nat),
        l.title@ == cpu_bars_title_text(cpu_count as nat, frequency as nat),
{
    let mut np: u16 = (cpu_count % 65536) as u16;
    if np == 0 {
        np = 1;
    }
    let two = np > width - 2;
    let half: usize = if two { (np / 2) as usize } else { np as usize };
    let mut gap: u16 = 1;
    if width > 2 && half * 2 >= (width - 2) as usize {
        gap = 0;
    }
    let inner = width - 2;
    let gaps: u16 = (half as u16) * gap;
    let bw: u16 = if half == 0 || inner < gaps {
        1
    } else {
        let q = (inner - gaps) / (half as u16);
        if q < 1 { 1 } else if q > 32767 { 32767 } else { q }
    };
    let mut title = String::new();
    push_text(&mut title, "CPU(S) ");
    push_text(&mut title, nat_text(np as u128).as_str());
    push_text(&mut title, "@");
    push_text(&mut title, nat_text(frequency as u128).as_str());
    push_text(&mut title, " MHz");
    assert(title@ =~= cpu_bars_title_text(cpu_count as nat, frequency as nat));
    CpuBarsLayout { count: np, two_rows: two, first_row: half, bar_gap: gap, bar_width: bw, title }
}

/// A bar's label as shown: from the tenth bar on, narrow bars (width 1) drop
/// the label's first character.
pub open spec fn bar_label(label: Seq<char>, i: nat, bar_width: u16) -> Seq<char> {
    if i > 8 && bar_width == 1 { label.drop_first() } else { label }
}

/// The labels of the bars.
pub fn cpu_bar_labels(labels: &Vec<String>, bar_width: u16) -> (shown: Vec<String>)
    requires
        bar_width == 1 ==> forall|i: int| 8 < i < labels@.len() ==> (#[trigger] labels@[i])@.len() > 0,
    ensures
        shown@.len() == labels@.len(),
        forall|i: int| 0 <= i < labels@.len() ==> (#[trigger] shown@[i])@ == bar_label(labels@[i]@, i as nat, bar_width),
{
    let mut shown: Vec<String> = Vec::new();
    let mut i: usize = 0;
    while i < labels.len()
        invariant
            i <= labels@.len(),
            shown@.len() == i,
            bar_width == 1 ==> forall|j: int| 8 < j < labels@.len() ==> (#[trigger] labels@[j])@.len() > 0,
            forall|j: int| 0 <= j < i ==> (#[trigger] shown@[j])@ == bar_label(labels@[j]@, j as nat, bar_width),
        decreases labels.len() - i,
    {
        if i > 8 && bar_width == 1 {
            shown.push(drop_first_char(labels[i].as_str()));
        } else {
            shown.push(labels[i].clone());
        }
        i = i + 1;
    }
    shown
}

/// When the bars are wider than the least width, a row of bars with their
/// gaps fits in the panel's inner width.
pub proof fn lemma_bars_fit(cpu_count: nat, width: nat)
    requires
        width >= 2,
        bar_width_of(cpu_count, width) > 1,
    ensures
        first_row_bars(cpu_count, width) * (bar_width_of(cpu_count, width) + bar_gap_of(cpu_count, width))
            <= width - 2,
{
    let half = first_row_bars(cpu_count, width);
    let gap = bar_gap_of(cpu_count, width);
    let inner = (width - 2) as nat;
    let bw = bar_width_of(cpu_count, width);
    let q = ((inner - half * gap) as nat) / half;
    assert(half * q <= (inner - half * gap) as nat) by (nonlinear_arith)
        requires half > 0, q == ((inner - half * gap) as nat) / half;
    assert(bw <= q);
    assert(half * bw <= half * q) by (nonlinear_arith)
        requires bw <= q;
    assert(half * (bw + gap) == half * bw + half * gap) by (nonlinear_arith);
}

/// The bars get no gap exactly when the panel is wider than 2 and two columns
/// per bar of a row would reach its inner width; otherwise one column
/// separates them.
pub proof fn lemma_gap_rule(cpu_count: nat, width: nat)
    requires
        width >= 2,
    ensures
        bar_gap_of(cpu_count, width) == 0 <==> (width > 2 && 2 * first_row_bars(cpu_count, width) >= width - 2),
        bar_gap_of(cpu_count, width) == 1 <==> !(width > 2 && 2 * first_row_bars(cpu_count, width) >= width - 2),
        bar_gap_of(cpu_count, width) == 1 && width > 2 ==> 2 * first_row_bars(cpu_count, width) < width - 2,
{
}

/// The bars count the CPUs (modulo 2^16, and at least one), go on two rows
/// exactly when they do not fit in the inner width, and then the first row
/// takes half of them, rounded down.
pub proof fn lemma_bar_rows(cpu_count: nat, width: nat)
    requires
        width >= 2,
    ensures
        1 <= bar_count(cpu_count) <= 65535,
        0 < cpu_count < 65536 ==> bar_count(cpu_count) == cpu_count,
        two_rows(cpu_count, width) <==> bar_count(cpu_count) > width - 2,
        two_rows(cpu_count, width) ==> first_row_bars(cpu_count, width) * 2 <= bar_count(cpu_count)
            && bar_count(cpu_count) <= first_row_bars(cpu_count, width) * 2 + 1,
        !two_rows(cpu_count, width) ==> first_row_bars(cpu_count, width) == bar_count(cpu_count),
        bar_width_of(cpu_count, width) >= 1,
{
}

} // verus!
