//! The process table: sort columns, header, column widths, visible rows and
//! the cells of a row.
use vstd::prelude::*;
use crate::text::{
    digits, int_digits, pad_left, pad_right, spaces, without_char, join, views, nat_text,
    int_text, align_right, align_left, take_chars, push_text, push_fill, remove_char, join_text,
};
use crate::bytes::{byte_text_of, kb_text};

verus! {

/// The column the process table is sorted by.
#[derive(PartialEq, Eq, Structural, Clone, Copy, Debug)]
pub enum ProcessTableSortBy {
    Pid,
    User,
    Priority,
    Cpu,
    MemPerc,
    Mem,
    Virt,
    Status,
    DiskRead,
    DiskWrite,
    Cmd,
}

/// The direction of the process table's sort.
#[derive(PartialEq, Eq, Structural, Clone, Copy, Debug)]
pub enum ProcessTableSortOrder {
    Ascending,
    Descending,
}

/// The position of a sort column in the table, from 0 (PID) to 10 (command).
pub open spec fn column_index(c: ProcessTableSortBy) -> nat {
    match c {
        ProcessTableSortBy::Pid => 0,
        ProcessTableSortBy::User => 1,
        ProcessTableSortBy::Priority => 2,
        ProcessTableSortBy::Cpu => 3,
        ProcessTableSortBy::MemPerc => 4,
        ProcessTableSortBy::Mem => 5,
        ProcessTableSortBy::Virt => 6,
        ProcessTableSortBy::Status => 7,
        ProcessTableSortBy::DiskRead => 8,
        ProcessTableSortBy::DiskWrite => 9,
        ProcessTableSortBy::Cmd => 10,
    }
}

/// The sort column at a position (positions past the last give the command column).
pub open spec fn column_at(i: nat) -> ProcessTableSortBy {
    if i == 0 { ProcessTableSortBy::Pid }
    else if i == 1 { ProcessTableSortBy::User }
    else if i == 2 { ProcessTableSortBy::Priority }
    else if i == 3 { ProcessTableSortBy::Cpu }
    else if i == 4 { ProcessTableSortBy::MemPerc }
    else if i == 5 { ProcessTableSortBy::Mem }
    else if i == 6 { ProcessTableSortBy::Virt }
    else if i == 7 { ProcessTableSortBy::Status }
    else if i == 8 { ProcessTableSortBy::DiskRead }
    else if i == 9 { ProcessTableSortBy::DiskWrite }
    else { ProcessTableSortBy::Cmd }
}

/// The column after `c`, wrapping from the command column to PID.
pub open spec fn next_column(c: ProcessTableSortBy) -> ProcessTableSortBy {
    column_at(((column_index(c) + 1) % 11) as nat)
}

/// The column before `c`, wrapping from PID to the command column.
pub open spec fn previous_column(c: ProcessTableSortBy) -> ProcessTableSortBy {
    column_at(((column_index(c) + 10) % 11) as nat)
}

/// The other sort direction.
pub open spec fn flipped(o: ProcessTableSortOrder) -> ProcessTableSortOrder {
    match o {
        ProcessTableSortOrder::Ascending => ProcessTableSortOrder::Descending,
        ProcessTableSortOrder::Descending => ProcessTableSortOrder::Ascending,
    }
}

impl ProcessTableSortBy {
    /// The column's position in the table.
    pub fn index(self) -> (i: usize)
        ensures
            i == column_index(self),
    {
        match self {
            ProcessTableSortBy::Pid => 0,
            ProcessTableSortBy::User => 1,
            ProcessTableSortBy::Priority => 2,
            ProcessTableSortBy::Cpu => 3,
            ProcessTableSortBy::MemPerc => 4,
            ProcessTableSortBy::Mem => 5,
            ProcessTableSortBy::Virt => 6,
            ProcessTableSortBy::Status => 7,
            ProcessTableSortBy::DiskRead => 8,
            ProcessTableSortBy::DiskWrite => 9,
            ProcessTableSortBy::Cmd => 10,
        }
    }

    /// The column at position `i` (the command column past the last).
    pub fn from_index(i: usize) -> (c: ProcessTableSortBy)
        ensures
            c == column_at(i as nat),
    {
        if i == 0 { ProcessTableSortBy::Pid }
        else if i == 1 { ProcessTableSortBy::User }
        else if i == 2 { ProcessTableSortBy::Priority }
        else if i == 3 { ProcessTableSortBy::Cpu }
        else if i == 4 { ProcessTableSortBy::MemPerc }
        else if i == 5 { ProcessTableSortBy::Mem }
        else if i == 6 { ProcessTableSortBy::Virt }
        else if i == 7 { ProcessTableSortBy::Status }
        else if i == 8 { ProcessTableSortBy::DiskRead }
        else if i == 9 { ProcessTableSortBy::DiskWrite }
        else { ProcessTableSortBy::Cmd }
    }

    /// The next sort column (key `.` or `>`).
    pub fn next(self) -> (c: ProcessTableSortBy)
        ensures
            c == next_column(self),
    {
        if self == ProcessTableSortBy::Cmd {
            ProcessTableSortBy::Pid
        } else {
            ProcessTableSortBy::from_index(self.index() + 1)
        }
    }

    /// The previous sort column (key `,` or `<`).
    pub fn previous(self) -> (c: ProcessTableSortBy)
        ensures
            c == previous_column(self),
    {
        if self == ProcessTableSortBy::Pid {
            ProcessTableSortBy::Cmd
        } else {
            ProcessTableSortBy::from_index(self.index() - 1)
        }
    }
}

impl ProcessTableSortOrder {
    /// The other direction (key `/`).
    pub fn flip(self) -> (o: ProcessTableSortOrder)
        ensures
            o == flipped(self),
    {
        match self {
            ProcessTableSortOrder::Ascending => ProcessTableSortOrder::Descending,
            ProcessTableSortOrder::Descending => ProcessTableSortOrder::Ascending,
        }
    }

    /// The arrow that marks the sort column.
    pub fn arrow(self) -> (c: char)
        ensures
            c == sort_arrow(self),
    {
        match self {
            ProcessTableSortOrder::Ascending => '↑',
            ProcessTableSortOrder::Descending => '↓',
        }
    }
}

/// The arrow that marks the sort column: up for ascending, down for descending.
pub open spec fn sort_arrow(o: ProcessTableSortOrder) -> char {
    match o {
        ProcessTableSortOrder::Ascending => '↑',
        ProcessTableSortOrder::Descending => '↓',
    }
}

/// Stepping forward then back through the sort columns returns to the start.
pub proof fn lemma_previous_undoes_next(c: ProcessTableSortBy)
    ensures
        previous_column(next_column(c)) == c,
        next_column(previous_column(c)) == c,
{
}

/// A column's position determines it.
pub proof fn lemma_column_at_index(c: ProcessTableSortBy)
    ensures
        column_at(column_index(c)) == c,
        column_index(c) < 11,
{
}

/// The next column sits one position further, modulo the column count.
pub proof fn lemma_index_of_next(c: ProcessTableSortBy)
    ensures
        column_index(next_column(c)) == (column_index(c) + 1) % 11,
{
}

/// The column reached from `c` after `k` steps forward.
pub open spec fn advance(c: ProcessTableSortBy, k: nat) -> ProcessTableSortBy
    decreases k,
{
    if k == 0 {
        c
    } else {
        next_column(advance(c, (k - 1) as nat))
    }
}

/// After `k` steps forward the position has moved by `k`, modulo the column count.
pub proof fn lemma_advance_index(c: ProcessTableSortBy, k: nat)
    ensures
        column_index(advance(c, k)) == (column_index(c) + k) % 11,
    decreases k,
{
    if k > 0 {
        lemma_advance_index(c, (k - 1) as nat);
        lemma_index_of_next(advance(c, (k - 1) as nat));
    }
}

/// Stepping forward through the sort columns visits every other column
/// before it returns, after eleven steps, to the start.
pub proof fn lemma_next_cycles(c: ProcessTableSortBy, k: nat)
    requires
        0 < k <= 11,
    ensures
        advance(c, k) == c <==> k == 11,
{
    lemma_advance_index(c, k);
    lemma_column_at_index(c);
    lemma_column_at_index(advance(c, k));
}

/// Flipping the sort direction twice restores it.
pub proof fn lemma_flip_twice(o: ProcessTableSortOrder)
    ensures
        flipped(flipped(o)) == o,
{
}

/// The titles of the ten fixed-width columns, before the command column.
pub open spec fn fixed_label(i: nat) -> Seq<char> {
    if i == 0 { "PID   "@ }
    else if i == 1 { "USER       "@ }
    else if i == 2 { "P   "@ }
    else if i == 3 { "CPU%  "@ }
    else if i == 4 { "MEM%  "@ }
    else if i == 5 { "MEM     "@ }
    else if i == 6 { "VIRT     "@ }
    else if i == 7 { "S "@ }
    else if i == 8 { "READ/s   "@ }
    else { "WRITE/s  "@ }
}

/// The widths of the fixed columns.
pub open spec fn fixed_label_len(i: nat) -> nat {
    if i == 0 { 6 }
    else if i == 1 { 11 }
    else if i == 2 { 4 }
    else if i == 3 { 6 }
    else if i == 4 { 6 }
    else if i == 5 { 8 }
    else if i == 6 { 9 }
    else if i == 7 { 2 }
    else if i == 8 { 9 }
    else { 9 }
}

/// The fixed columns' titles have the widths above; together 70 characters.
pub proof fn lemma_fixed_label_lengths()
    ensures
        forall|i: nat| i < 10 ==> #[trigger] fixed_label(i).len() == fixed_label_len(i),
{
    reveal_strlit("PID   ");
    reveal_strlit("USER       ");
    reveal_strlit("P   ");
    reveal_strlit("CPU%  ");
    reveal_strlit("MEM%  ");
    reveal_strlit("MEM     ");
    reveal_strlit("VIRT     ");
    reveal_strlit("S ");
    reveal_strlit("READ/s   ");
    reveal_strlit("WRITE/s  ");
}

/// The width left to the command column on a screen `width` wide: the
/// screen width less the fixed columns (70) and 3, and 0 when that is
/// negative (the screen width is taken as a signed 16-bit number, so widths
/// above 32767 count as negative).
pub open spec fn command_space(width: u16) -> nat {
    if width <= 32767 && width > 73 {
        (width - 73) as nat
    } else {
        0
    }
}

/// Widths at which the command column's width, computed in signed 16-bit
/// arithmetic from the screen width, overflows.
pub open spec fn width_overflows(width: u16) -> bool {
    32768 <= width <= 32840
}

/// The command column's title: `CMD` padded with spaces to the command space.
pub open spec fn command_label(width: u16) -> Seq<char> {
    if command_space(width) > 3 {
        "CMD"@ + spaces((command_space(width) - 3) as nat)
    } else {
        "CMD"@
    }
}

/// A column's title before the sort mark.
pub open spec fn plain_title(i: nat, width: u16) -> Seq<char> {
    if i < 10 { fixed_label(i) } else { command_label(width) }
}

/// A column's title as shown: the sort column loses its last character and
/// starts with the sort arrow.
pub open spec fn column_title(
    i: nat,
    width: u16,
    sort_by: ProcessTableSortBy,
    order: ProcessTableSortOrder,
) -> Seq<char> {
    if i == column_index(sort_by) {
        seq![sort_arrow(order)] + plain_title(i, width).drop_last()
    } else {
        plain_title(i, width)
    }
}

/// The process table's column titles and widths.
pub struct TableHeader {
    pub titles: Vec<String>,
    pub widths: Vec<u16>,
}

/// The title of fixed column `i`.
fn fixed_label_str(i: usize) -> (s: &'static str)
    requires
        i < 10,
    ensures
        s@ == fixed_label(i as nat),
{
    if i == 0 { "PID   " }
    else if i == 1 { "USER       " }
    else if i == 2 { "P   " }
    else if i == 3 { "CPU%  " }
    else if i == 4 { "MEM%  " }
    else if i == 5 { "MEM     " }
    else if i == 6 { "VIRT     " }
    else if i == 7 { "S " }
    else if i == 8 { "READ/s   " }
    else { "WRITE/s  " }
}

/// The header of the process table on a screen `width` wide, sorted by
/// `sort_by` in `order`. Each column is as wide as its title before the sort
/// mark; when the screen is between 76 and 32767 wide the columns take its
/// width less 3.
pub fn process_table_header(
    width: u16,
    sort_by: ProcessTableSortBy,
    order: ProcessTableSortOrder,
) -> (h: TableHeader)
    requires
        !width_overflows(width),
    ensures
        h.titles@.len() == 11,
        h.widths@.len() == 11,
        forall|i: int| 0 <= i < 11 ==> #[trigger] h.titles@[i]@ == column_title(i as nat, width, sort_by, order),
        forall|i: int| 0 <= i < 11 ==> #[trigger] h.widths@[i] == plain_title(i as nat, width).len(),
        76 <= width <= 32767 ==> total_width(h.widths@) == width - 3,
{
    proof {
        lemma_fixed_label_lengths();
        lemma_fixed_prefix_widths();
        reveal_strlit("CMD");
    }
    let mut titles: Vec<String> = Vec::new();
    let mut widths: Vec<u16> = Vec::new();
    let mut fixed_total: u16 = 0;
    let mut i: usize = 0;
    while i < 10
        invariant
            i <= 10,
            titles@.len() == i,
            widths@.len() == i,
            forall|k: int| 0 <= k < i ==> #[trigger] titles@[k]@ == plain_title(k as nat, width),
            forall|k: int| 0 <= k < i ==> #[trigger] widths@[k] == plain_title(k as nat, width).len(),
            fixed_total == total_width(widths@),
            fixed_prefix_width(i as nat) <= 70,
            fixed_prefix_width(10) == 70,
            i < 10 ==> fixed_prefix_width(i as nat) + fixed_label_len(i as nat) <= 70,
            forall|j: nat| j < 10 ==> #[trigger] fixed_label(j).len() == fixed_label_len(j),
            total_width(widths@) == fixed_prefix_width(i as nat),
        decreases 10 - i,
    {
        let label = fixed_label_str(i);
        let mut t = String::new();
        t.append(label);
        let n = label.unicode_len();
        proof {
            lemma_fixed_prefix_widths();
            assert(widths@.push(n as u16).drop_last() =~= widths@);
        }
        titles.push(t);
        widths.push(n as u16);
        fixed_total = fixed_total + n as u16;
        i = i + 1;
    }
    let space: u16 = if width <= 32767 && width > fixed_total + 3 { width - fixed_total - 3 } else { 0 };
    let mut cmd = String::new();
    cmd.append("CMD");
    if space > 3 {
        push_fill(&mut cmd, ' ', (space - 3) as usize);
    }
    let cmd_len = cmd.as_str().unicode_len();
    proof {
        assert(cmd@ =~= command_label(width));
        assert(widths@.push(cmd_len as u16).drop_last() =~= widths@);
    }
    titles.push(cmd);
    widths.push(cmd_len as u16);
    let col = sort_by.index();
    let plain = titles[col].as_str().unicode_len();
    let kept = take_chars(titles[col].as_str(), plain - 1);
    let mut marked = String::new();
    marked.push(order.arrow());
    push_text(&mut marked, kept.as_str());
    proof {
        assert(marked@ =~= seq![sort_arrow(order)] + plain_title(col as nat, width).drop_last());
    }
    titles.set(col, marked);
    TableHeader { titles, widths }
}

/// The sum of the column widths.
pub open spec fn total_width(widths: Seq<u16>) -> nat
    decreases widths.len(),
{
    if widths.len() == 0 {
        0
    } else {
        total_width(widths.drop_last()) + widths.last() as nat
    }
}

/// The fixed columns' widths add up to at most 70 at every prefix, and to
/// 70 in all.
pub proof fn lemma_fixed_prefix_widths()
    ensures
        forall|n: nat| n <= 10 ==> #[trigger] fixed_prefix_width(n) <= 70,
        forall|n: nat| n < 10 ==> #[trigger] fixed_prefix_width(n) + fixed_label_len(n) <= 70,
        fixed_prefix_width(10) == 70,
{
    reveal_with_fuel(fixed_prefix_width, 11);
    assert(fixed_prefix_width(10) == 70);
    assert forall|n: nat| n <= 10 implies #[trigger] fixed_prefix_width(n) <= 70 by {
        reveal_with_fuel(fixed_prefix_width, 11);
    }
    assert forall|n: nat| n < 10 implies #[trigger] fixed_prefix_width(n) + fixed_label_len(n) <= 70 by {
        reveal_with_fuel(fixed_prefix_width, 11);
    }
}

/// The total width of the first `n` fixed columns.
pub open spec fn fixed_prefix_width(n: nat) -> nat
    decreases n,
{
    if n == 0 {
        0
    } else {
        fixed_prefix_width((n - 1) as nat) + fixed_label_len((n - 1) as nat)
    }
}

/// A row of the process table on screen: which process row, and whether it
/// is the highlighted one.
#[derive(PartialEq, Eq, Structural, Clone, Copy, Debug)]
pub struct VisibleRow {
    pub index: usize,
    pub highlighted: bool,
}

/// How many rows of `row_count` are shown from `start` in a table area
/// `area_height` high (four lines go to borders and the header).
pub open spec fn shown_rows(row_count: nat, start: nat, area_height: nat) -> nat {
    let end = start + (area_height - 4);
    if row_count <= start {
        0
    } else if row_count < end {
        (row_count - start) as nat
    } else {
        (end - start) as nat
    }
}

/// The rows of the process table that are shown: nothing when the area is
/// less than 5 high, else the rows from `start` on that fit below the header,
/// the one at `highlighted_row` marked.
pub fn visible_rows(row_count: usize, start: usize, area_height: u16, highlighted_row: usize) -> (rows: Option<Vec<VisibleRow>>)
    requires
        area_height >= 5 ==> start + (area_height - 4) <= usize::MAX,
    ensures
        area_height < 5 <==> rows is None,
        rows matches Some(v) ==> {
            &&& v@.len() == shown_rows(row_count as nat, start as nat, area_height as nat)
            &&& forall|k: int| 0 <= k < v@.len() ==> (#[trigger] v@[k]).index == start + k
                && v@[k].highlighted == (start + k == highlighted_row)
        },
{
    if area_height < 5 {
        return None;
    }
    let display_height = (area_height - 4) as usize;
    let end = start + display_height;
    let mut rows: Vec<VisibleRow> = Vec::new();
    let mut i = start;
    while i < end && i < row_count
        invariant
            start <= i <= end,
            end == start + display_height,
            display_height == area_height - 4,
            i <= row_count || i == start,
            rows@.len() == i - start,
            forall|k: int| 0 <= k < rows@.len() ==> (#[trigger] rows@[k]).index == start + k
                && rows@[k].highlighted == (start + k == highlighted_row),
        decreases end - i,
    {
        rows.push(VisibleRow { index: i, highlighted: i == highlighted_row });
        i = i + 1;
    }
    Some(rows)
}

/// The title of the process table.
pub open spec fn table_title_text(process_count: nat, thread_count: nat) -> Seq<char> {
    "Tasks ["@ + digits(process_count) + "] Threads ["@ + digits(thread_count)
        + "]  Navigate [\u{2191}/\u{2193}] Sort Col [,/.] Asc/Dec [/]"@
}

/// The title of the process table: the numbers of processes and threads and
/// the keys that navigate and sort.
pub fn table_title(process_count: usize, thread_count: u64) -> (t: String)
    ensures
        t@ == table_title_text(process_count as nat, thread_count as nat),
{
    let mut t = String::new();
    push_text(&mut t, "Tasks [");
    push_text(&mut t, nat_text(process_count as u128).as_str());
    push_text(&mut t, "] Threads [");
    push_text(&mut t, nat_text(thread_count as u128).as_str());
    push_text(&mut t, "]  Navigate [\u{2191}/\u{2193}] Sort Col [,/.] Asc/Dec [/]");
    assert(t@ =~= table_title_text(process_count as nat, thread_count as nat));
    t
}

/// What a row of the process table shows of a process. Memory amounts are in
/// kilobytes.
pub struct ProcessRow {
    pub pid: i32,
    pub user_name: String,
    pub priority: i32,
    pub memory: u64,
    pub virtual_memory: u64,
    pub status: char,
    pub name: String,
    pub exe: String,
    pub command: Vec<String>,
}

/// A memory amount as the table shows it: compact byte text without the
/// `B`, right-aligned in eight characters.
pub open spec fn memory_cell(kb: u64) -> Seq<char> {
    pad_left(without_char(byte_text_of((kb * 1000) as u128), 'B'), 8, ' ')
}

/// The command cell: name, executable and arguments.
pub open spec fn command_cell(name: Seq<char>, exe: Seq<char>, command: Seq<Seq<char>>) -> Seq<char> {
    name + " - "@ + exe + " "@ + join(command, " "@)
}

/// The cells of a process's row. The caller passes the four values that the
/// table shows with fractional digits already written out: the CPU and
/// memory percentages with one decimal, and the read and write rates as
/// compact byte texts.
pub fn process_row_cells(
    p: &ProcessRow,
    cpu_percent: &str,
    mem_percent: &str,
    read_rate: &str,
    write_rate: &str,
) -> (cells: Vec<String>)
    ensures
        cells@.len() == 11,
        cells@[0]@ == pad_left(int_digits(p.pid as int), 5, ' '),
        cells@[1]@ == pad_right(p.user_name@, 10),
        cells@[2]@ == pad_right(int_digits(p.priority as int), 3),
        cells@[3]@ == pad_left(cpu_percent@, 5, ' '),
        cells@[4]@ == pad_left(mem_percent@, 5, ' '),
        cells@[5]@ == memory_cell(p.memory),
        cells@[6]@ == memory_cell(p.virtual_memory),
        cells@[7]@ == seq![p.status],
        cells@[8]@ == pad_left(without_char(read_rate@, 'B'), 8, ' '),
        cells@[9]@ == pad_left(without_char(write_rate@, 'B'), 8, ' '),
        cells@[10]@ == command_cell(p.name@, p.exe@, views(p.command@)),
{
    let mut cells: Vec<String> = Vec::new();
    cells.push(align_right(int_text(p.pid as i64).as_str(), 5, ' '));
    cells.push(align_left(p.user_name.as_str(), 10));
    cells.push(align_left(int_text(p.priority as i64).as_str(), 3));
    cells.push(align_right(cpu_percent, 5, ' '));
    cells.push(align_right(mem_percent, 5, ' '));
    let mem = kb_text(p.memory);
    cells.push(align_right(remove_char(mem.as_str(), 'B').as_str(), 8, ' '));
    let virt = kb_text(p.virtual_memory);
    cells.push(align_right(remove_char(virt.as_str(), 'B').as_str(), 8, ' '));
    let mut status = String::new();
    status.push(p.status);
    cells.push(status);
    cells.push(align_right(remove_char(read_rate, 'B').as_str(), 8, ' '));
    cells.push(align_right(remove_char(write_rate, 'B').as_str(), 8, ' '));
    let mut cmd = String::new();
    push_text(&mut cmd, p.name.as_str());
    push_text(&mut cmd, " - ");
    push_text(&mut cmd, p.exe.as_str());
    push_text(&mut cmd, " ");
    push_text(&mut cmd, join_text(&p.command, " ").as_str());
    cells.push(cmd);
    proof {
        assert(cells@[7]@ =~= seq![p.status]);
        assert(cells@[10]@ =~= command_cell(p.name@, p.exe@, views(p.command@)));
    }
    cells
}

/// The table never shows more rows than fit below its header, nor rows past
/// the last process.
pub proof fn lemma_shown_rows_bounded(row_count: nat, start: nat, area_height: nat)
    requires
        area_height >= 5,
    ensures
        shown_rows(row_count, start, area_height) <= area_height - 4,
        start + shown_rows(row_count, start, area_height) <= row_count || shown_rows(row_count, start, area_height) == 0,
{
}

/// The previous column sits one position back, wrapping from the first to
/// the last.
pub proof fn lemma_index_of_previous(c: ProcessTableSortBy)
    ensures
        column_index(previous_column(c)) == (column_index(c) + 10) % 11,
{
}

/// Each sort column's position in the header holds the title named after
/// that column, so the sort arrow lands on the sorted column's title.
pub proof fn lemma_sort_column_titles(c: ProcessTableSortBy, width: u16)
    ensures
        column_index(c) < 11,
        plain_title(column_index(c), width) == match c {
            ProcessTableSortBy::Pid => "PID   "@,
            ProcessTableSortBy::User => "USER       "@,
            ProcessTableSortBy::Priority => "P   "@,
            ProcessTableSortBy::Cpu => "CPU%  "@,
            ProcessTableSortBy::MemPerc => "MEM%  "@,
            ProcessTableSortBy::Mem => "MEM     "@,
            ProcessTableSortBy::Virt => "VIRT     "@,
            ProcessTableSortBy::Status => "S "@,
            ProcessTableSortBy::DiskRead => "READ/s   "@,
            ProcessTableSortBy::DiskWrite => "WRITE/s  "@,
            ProcessTableSortBy::Cmd => command_label(width),
        },
        column_index(ProcessTableSortBy::Pid) == 0,
        column_index(ProcessTableSortBy::Mem) == 5,
        column_index(ProcessTableSortBy::Virt) == 6,
        column_index(ProcessTableSortBy::Cmd) == 10,
        next_column(ProcessTableSortBy::MemPerc) == ProcessTableSortBy::Mem,
        next_column(ProcessTableSortBy::Mem) == ProcessTableSortBy::Virt,
        next_column(ProcessTableSortBy::Virt) == ProcessTableSortBy::Status,
{
}

/// Only the sort column's title carries the arrow: it is the arrow followed
/// by the column's title without its last character, and every other title
/// is shown as it is.
pub proof fn lemma_sort_mark(c: ProcessTableSortBy, o: ProcessTableSortOrder, width: u16, i: nat)
    requires
        i < 11,
    ensures
        i == column_index(c) ==> column_title(i, width, c, o)[0] == sort_arrow(o)
            && column_title(i, width, c, o).drop_first() == plain_title(i, width).drop_last(),
        i != column_index(c) ==> column_title(i, width, c, o) == plain_title(i, width),
        sort_arrow(o) != sort_arrow(flipped(o)),
{
    if i == column_index(c) {
        assert((seq![sort_arrow(o)] + plain_title(i, width).drop_last()).drop_first()
            =~= plain_title(i, width).drop_last());
    }
}

} // verus!
