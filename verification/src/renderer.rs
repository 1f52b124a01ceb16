//! The monitor's screen state and how it reacts to keys.
use vstd::prelude::*;
use crate::text::opt_view;
use crate::table::{
    ProcessTableSortBy, ProcessTableSortOrder, next_column, previous_column, flipped,
    column_index, lemma_index_of_next, lemma_index_of_previous,
};

verus! {

/// The sections of the screen that can be selected with the tab key.
#[derive(PartialEq, Eq, Structural, Clone, Copy, Debug)]
pub enum Section {
    Cpu,
    Network,
    Disk,
    Process,
}

/// The section after `s`, wrapping from the process section to the CPU section.
pub open spec fn next_section(s: Section) -> Section {
    match s {
        Section::Cpu => Section::Network,
        Section::Network => Section::Disk,
        Section::Disk => Section::Process,
        Section::Process => Section::Cpu,
    }
}

/// A row of the screen's vertical layout: a fixed height, or a least height.
#[derive(PartialEq, Eq, Structural, Clone, Copy, Debug)]
pub enum Constraint {
    Length(u16),
    Min(u16),
}

/// The vertical layout for the given section heights: a one-line title bar,
/// the CPU, network and disk sections at their heights (as 16-bit unsigned
/// numbers), and the process section, taking at least its height, when that
/// is positive.
pub open spec fn layout_for(cpu: i16, net: i16, disk: i16, process: i16) -> Seq<Constraint> {
    let fixed = seq![
        Constraint::Length(1),
        Constraint::Length(cpu as u16),
        Constraint::Length(net as u16),
        Constraint::Length(disk as u16),
    ];
    if process > 0 {
        fixed.push(Constraint::Min(process as u16))
    } else {
        fixed
    }
}

/// A key as the monitor tells keys apart.
#[derive(PartialEq, Eq, Structural, Clone, Copy, Debug)]
pub enum Input {
    Char(char),
    Ctrl(char),
    Up,
    Down,
    Left,
    Right,
    Esc,
    Other,
}

/// A signal to send to the selected process.
#[derive(PartialEq, Eq, Structural, Clone, Copy, Debug)]
pub enum ProcessSignal {
    Suspend,
    Resume,
    Kill,
    Terminate,
}

/// What the caller does after a key.
#[derive(PartialEq, Eq, Structural, Clone, Copy, Debug)]
pub enum Command {
    Nothing,
    Quit,
    /// Move the highlight up, then call `follow_highlight_up`.
    HighlightUp,
    /// Move the highlight down, then call `follow_highlight_down`.
    HighlightDown,
    /// Sort the process table by this column in this order.
    Resort(ProcessTableSortBy, ProcessTableSortOrder),
    SelectProcess,
    DeselectProcess,
    /// Send the signal to the selected process, then show its answer with
    /// `set_process_message`.
    Signal(ProcessSignal),
}

/// What the key handling reads of the rest of the monitor.
#[derive(PartialEq, Eq, Structural, Clone, Copy, Debug)]
pub struct InputContext {
    pub sort_by: ProcessTableSortBy,
    pub sort_order: ProcessTableSortOrder,
    pub has_selected_process: bool,
    /// The width of the histograms, when there are any.
    pub histograms_width: Option<usize>,
}

/// The screen state of the monitor.
pub struct TerminalRenderer {
    pub process_table_row_start: usize,
    pub cpu_height: i16,
    pub net_height: i16,
    pub disk_height: i16,
    pub process_height: i16,
    pub sensor_height: i16,
    pub zoom_factor: u32,
    pub hist_start_offset: usize,
    pub selected_section: Section,
    pub constraints: Vec<Constraint>,
    pub process_message: Option<String>,
}

/// The screen state as values.
pub struct RendererView {
    pub row_start: usize,
    pub cpu_height: i16,
    pub net_height: i16,
    pub disk_height: i16,
    pub process_height: i16,
    pub sensor_height: i16,
    pub zoom: u32,
    pub offset: usize,
    pub section: Section,
    pub constraints: Seq<Constraint>,
    pub message: Option<Seq<char>>,
}

impl View for TerminalRenderer {
    type V = RendererView;

    open spec fn view(&self) -> RendererView {
        RendererView {
            row_start: self.process_table_row_start,
            cpu_height: self.cpu_height,
            net_height: self.net_height,
            disk_height: self.disk_height,
            process_height: self.process_height,
            sensor_height: self.sensor_height,
            zoom: self.zoom_factor,
            offset: self.hist_start_offset,
            section: self.selected_section,
            constraints: self.constraints@,
            message: opt_view(self.process_message),
        }
    }
}

impl RendererView {
    /// The state is consistent: the zoom factor is between 1 and 100 and the
    /// layout follows the section heights.
    pub open spec fn wf(self) -> bool {
        &&& 1 <= self.zoom <= 100
        &&& self.constraints == layout_for(self.cpu_height, self.net_height, self.disk_height, self.process_height)
    }

    /// The height of a section.
    pub open spec fn height_of(self, s: Section) -> i16 {
        match s {
            Section::Cpu => self.cpu_height,
            Section::Network => self.net_height,
            Section::Disk => self.disk_height,
            Section::Process => self.process_height,
        }
    }

    /// The state with the layout recomputed from the heights.
    pub open spec fn relaid(self) -> RendererView {
        RendererView {
            constraints: layout_for(self.cpu_height, self.net_height, self.disk_height, self.process_height),
            ..self
        }
    }

    /// Whether changing the selected section's height by `delta` stays within
    /// 16-bit arithmetic.
    pub open spec fn resize_defined(self, delta: i16) -> bool {
        i16::MIN <= self.height_of(self.section) + delta <= i16::MAX
    }

    /// The state after changing the selected section's height by `delta`:
    /// the change is kept only when the height stays positive; the layout is
    /// recomputed either way.
    pub open spec fn resized(self, delta: i16) -> RendererView {
        let h = self.height_of(self.section) + delta;
        let v = if h > 0 {
            match self.section {
                Section::Cpu => RendererView { cpu_height: h as i16, ..self },
                Section::Network => RendererView { net_height: h as i16, ..self },
                Section::Disk => RendererView { disk_height: h as i16, ..self },
                Section::Process => RendererView { process_height: h as i16, ..self },
            }
        } else {
            self
        };
        v.relaid()
    }
}

/// Whether scrolling the history back is defined for this offset and
/// histogram width: no arithmetic overflows or underflows.
pub open spec fn scroll_back_defined(offset: usize, histograms_width: Option<usize>) -> bool {
    match histograms_width {
        Some(w) => {
            &&& offset + 1 <= usize::MAX
            &&& w + 1 <= usize::MAX
            &&& (offset + 1 > w + 1 ==> w >= 1)
            &&& (if offset + 1 > w + 1 { w - 1 } else { offset + 1 }) + 1 <= usize::MAX
        },
        None => offset + 1 <= usize::MAX,
    }
}

/// The history offset after scrolling back. With histograms: one step,
/// moved back to one below the histogram width when it passes one above it,
/// then one more step. Without: one step.
pub open spec fn scrolled_back(offset: usize, histograms_width: Option<usize>) -> usize {
    match histograms_width {
        Some(w) => {
            let o = offset + 1;
            let o = if o > w + 1 { w - 1 } else { o };
            (o + 1) as usize
        },
        None => (offset + 1) as usize,
    }
}

/// Whether a key can be handled in this state without overflow.
pub open spec fn input_defined(v: RendererView, input: Input, ctx: InputContext) -> bool {
    match input {
        Input::Left => scroll_back_defined(v.offset, ctx.histograms_width),
        Input::Char(c) => {
            &&& c == 'm' ==> v.resize_defined(-2i16)
            &&& c == 'e' ==> v.resize_defined(2i16)
        },
        _ => true,
    }
}

/// The signal a key sends, if any.
pub open spec fn signal_key(c: char) -> Option<ProcessSignal> {
    if c == 's' { Some(ProcessSignal::Suspend) }
    else if c == 'r' { Some(ProcessSignal::Resume) }
    else if c == 'k' { Some(ProcessSignal::Kill) }
    else if c == 't' { Some(ProcessSignal::Terminate) }
    else { None }
}

/// The new state and the command after a key.
pub open spec fn step(v: RendererView, input: Input, ctx: InputContext) -> (RendererView, Command) {
    match input {
        Input::Up => (v, if ctx.has_selected_process { Command::Nothing } else { Command::HighlightUp }),
        Input::Down => (v, if ctx.has_selected_process { Command::Nothing } else { Command::HighlightDown }),
        Input::Left => (RendererView { offset: scrolled_back(v.offset, ctx.histograms_width), ..v }, Command::Nothing),
        Input::Right => (RendererView { offset: if v.offset > 0 { (v.offset - 1) as usize } else { v.offset }, ..v }, Command::Nothing),
        Input::Esc => (RendererView { message: None, ..v }, Command::DeselectProcess),
        Input::Ctrl(c) => (v, if c == 'c' { Command::Quit } else { Command::Nothing }),
        Input::Other => (v, Command::Nothing),
        Input::Char(c) => {
            if c == 'q' {
                (v, Command::Quit)
            } else if c == '.' || c == '>' {
                (v, Command::Resort(next_column(ctx.sort_by), ctx.sort_order))
            } else if c == ',' || c == '<' {
                (v, Command::Resort(previous_column(ctx.sort_by), ctx.sort_order))
            } else if c == '/' {
                (v, Command::Resort(ctx.sort_by, flipped(ctx.sort_order)))
            } else if c == '+' || c == '=' {
                (RendererView { zoom: if v.zoom > 1 { (v.zoom - 1) as u32 } else { v.zoom }, ..v }, Command::Nothing)
            } else if c == '-' {
                (RendererView { zoom: if v.zoom < 100 { (v.zoom + 1) as u32 } else { v.zoom }, ..v }, Command::Nothing)
            } else if c == '\n' {
                (RendererView { message: None, ..v }, Command::SelectProcess)
            } else if c == 'b' {
                (RendererView { message: None, ..v }, Command::DeselectProcess)
            } else if signal_key(c) is Some {
                (RendererView { message: None, ..v },
                    if ctx.has_selected_process { Command::Signal(signal_key(c).unwrap()) } else { Command::Nothing })
            } else if c == '\t' {
                (RendererView { section: next_section(v.section), ..v }, Command::Nothing)
            } else if c == 'm' {
                (v.resized(-2i16), Command::Nothing)
            } else if c == 'e' {
                (v.resized(2i16), Command::Nothing)
            } else if c == '`' {
                (RendererView { zoom: 1, offset: 0, ..v }, Command::Nothing)
            } else {
                (v, Command::Nothing)
            }
        },
    }
}

/// The layout for the given section heights.
pub fn layout(cpu: i16, net: i16, disk: i16, process: i16) -> (c: Vec<Constraint>)
    ensures
        c@ == layout_for(cpu, net, disk, process),
{
    let mut c: Vec<Constraint> = Vec::new();
    c.push(Constraint::Length(1));
    c.push(Constraint::Length(#[verifier::truncate] (cpu as u16)));
    c.push(Constraint::Length(#[verifier::truncate] (net as u16)));
    c.push(Constraint::Length(#[verifier::truncate] (disk as u16)));
    if process > 0 {
        c.push(Constraint::Min(process as u16));
    }
    assert(c@ =~= layout_for(cpu, net, disk, process));
    c
}

impl TerminalRenderer {
    /// A fresh screen state with the given section heights: the process
    /// section selected, no zoom, no history offset, the table at its top
    /// and no message.
    pub fn new(cpu_height: i16, net_height: i16, disk_height: i16, process_height: i16, sensor_height: i16) -> (r: TerminalRenderer)
        ensures
            r@ == (RendererView {
                row_start: 0,
                cpu_height,
                net_height,
                disk_height,
                process_height,
                sensor_height,
                zoom: 1,
                offset: 0,
                section: Section::Process,
                constraints: layout_for(cpu_height, net_height, disk_height, process_height),
                message: None,
            }),
            r@.wf(),
    {
        TerminalRenderer {
            process_table_row_start: 0,
            cpu_height,
            net_height,
            disk_height,
            process_height,
            sensor_height,
            zoom_factor: 1,
            hist_start_offset: 0,
            selected_section: Section::Process,
            constraints: layout(cpu_height, net_height, disk_height, process_height),
            process_message: None,
        }
    }

    /// Recomputes the layout from the section heights.
    pub fn set_constraints(&mut self)
        ensures
            final(self)@ == old(self)@.relaid(),
    {
        self.constraints = layout(self.cpu_height, self.net_height, self.disk_height, self.process_height);
    }

    /// Grows (or, with a negative `delta`, shrinks) the selected section,
    /// keeping its height positive, and recomputes the layout.
    pub fn set_section_height(&mut self, delta: i16)
        requires
            old(self)@.resize_defined(delta),
        ensures
            final(self)@ == old(self)@.resized(delta),
    {
        match self.selected_section {
            Section::Cpu => if self.cpu_height + delta > 0 { self.cpu_height = self.cpu_height + delta; },
            Section::Disk => if self.disk_height + delta > 0 { self.disk_height = self.disk_height + delta; },
            Section::Network => if self.net_height + delta > 0 { self.net_height = self.net_height + delta; },
            Section::Process => if self.process_height + delta > 0 { self.process_height = self.process_height + delta; },
        }
        self.set_constraints();
    }

    /// Handles a key: updates the screen state and says what the caller does.
    pub fn handle_input(&mut self, input: Input, ctx: InputContext) -> (cmd: Command)
        requires
            input_defined(old(self)@, input, ctx),
        ensures
            final(self)@ == step(old(self)@, input, ctx).0,
            cmd == step(old(self)@, input, ctx).1,
            old(self)@.wf() ==> final(self)@.wf(),
    {
        let cmd = match input {
            Input::Up => if ctx.has_selected_process { Command::Nothing } else { Command::HighlightUp },
            Input::Down => if ctx.has_selected_process { Command::Nothing } else { Command::HighlightDown },
            Input::Left => {
                match ctx.histograms_width {
                    Some(w) => {
                        self.hist_start_offset = self.hist_start_offset + 1;
                        if self.hist_start_offset > w + 1 {
                            self.hist_start_offset = w - 1;
                        }
                    },
                    None => {},
                }
                self.hist_start_offset = self.hist_start_offset + 1;
                Command::Nothing
            },
            Input::Right => {
                if self.hist_start_offset > 0 {
                    self.hist_start_offset = self.hist_start_offset - 1;
                }
                Command::Nothing
            },
            Input::Esc => {
                self.process_message = None;
                Command::DeselectProcess
            },
            Input::Ctrl(c) => if c == 'c' { Command::Quit } else { Command::Nothing },
            Input::Other => Command::Nothing,
            Input::Char(c) => {
                if c == 'q' {
                    Command::Quit
                } else if c == '.' || c == '>' {
                    Command::Resort(ctx.sort_by.next(), ctx.sort_order)
                } else if c == ',' || c == '<' {
                    Command::Resort(ctx.sort_by.previous(), ctx.sort_order)
                } else if c == '/' {
                    Command::Resort(ctx.sort_by, ctx.sort_order.flip())
                } else if c == '+' || c == '=' {
                    if self.zoom_factor > 1 {
                        self.zoom_factor = self.zoom_factor - 1;
                    }
                    Command::Nothing
                } else if c == '-' {
                    if self.zoom_factor < 100 {
                        self.zoom_factor = self.zoom_factor + 1;
                    }
                    Command::Nothing
                } else if c == '\n' {
                    self.process_message = None;
                    Command::SelectProcess
                } else if c == 'b' {
                    self.process_message = None;
                    Command::DeselectProcess
                } else if c == 's' || c == 'r' || c == 'k' || c == 't' {
                    self.process_message = None;
                    if ctx.has_selected_process {
                        let sig = if c == 's' {
                            ProcessSignal::Suspend
                        } else if c == 'r' {
                            ProcessSignal::Resume
                        } else if c == 'k' {
                            ProcessSignal::Kill
                        } else {
                            ProcessSignal::Terminate
                        };
                        Command::Signal(sig)
                    } else {
                        Command::Nothing
                    }
                } else if c == '\t' {
                    self.selected_section = match self.selected_section {
                        Section::Cpu => Section::Network,
                        Section::Network => Section::Disk,
                        Section::Disk => Section::Process,
                        Section::Process => Section::Cpu,
                    };
                    Command::Nothing
                } else if c == 'm' {
                    self.set_section_height(-2);
                    Command::Nothing
                } else if c == 'e' {
                    self.set_section_height(2);
                    Command::Nothing
                } else if c == '`' {
                    self.zoom_factor = 1;
                    self.hist_start_offset = 0;
                    Command::Nothing
                } else {
                    Command::Nothing
                }
            },
        };
        cmd
    }
}

impl TerminalRenderer {
    /// After the highlight moved up to `highlighted_row`: scrolls the process
    /// table up one row when the highlight went above its first shown row.
    pub fn follow_highlight_up(&mut self, highlighted_row: usize)
        ensures
            final(self)@ == (RendererView {
                row_start: if old(self)@.row_start > 0 && highlighted_row < old(self)@.row_start {
                    (old(self)@.row_start - 1) as usize
                } else {
                    old(self)@.row_start
                },
                ..old(self)@
            }),
    {
        if self.process_table_row_start > 0 && highlighted_row < self.process_table_row_start {
            self.process_table_row_start = self.process_table_row_start - 1;
        }
    }

    /// After the highlight moved down to `highlighted_row`: scrolls the
    /// process table down one row when the highlight went more than
    /// `table_height` rows below its first shown row, unless the first shown
    /// row is already past the `process_count` processes.
    pub fn follow_highlight_down(&mut self, highlighted_row: usize, process_count: usize, table_height: u16)
        ensures
            final(self)@ == (RendererView {
                row_start: if old(self)@.row_start < process_count
                    && highlighted_row > old(self)@.row_start + table_height {
                    (old(self)@.row_start + 1) as usize
                } else {
                    old(self)@.row_start
                },
                ..old(self)@
            }),
    {
        let start = self.process_table_row_start;
        if start < process_count && highlighted_row > start
            && highlighted_row - start > table_height as usize {
            self.process_table_row_start = start + 1;
        }
    }

    /// Shows `message` (the answer to a signal) in the detail view.
    pub fn set_process_message(&mut self, message: Option<String>)
        ensures
            final(self)@ == (RendererView { message: opt_view(message), ..old(self)@ }),
    {
        self.process_message = message;
    }
}

/// How many table rows the process section shows below its borders and
/// header, as the key handling counts them: the area height less 5, or 0 for
/// an area of 4 lines or fewer.
pub open spec fn table_rows_for(area_height: u16) -> nat {
    if area_height > 4 { (area_height - 5) as nat } else { 0 }
}

/// How many table rows an area `area_height` high shows.
pub fn table_rows(area_height: u16) -> (rows: u16)
    ensures
        rows == table_rows_for(area_height),
{
    if area_height > 4 { area_height - 5 } else { 0 }
}

/// Every key keeps the state consistent: the zoom factor within 1 to 100
/// and the layout following the section heights.
pub proof fn lemma_step_keeps_wf(v: RendererView, input: Input, ctx: InputContext)
    requires
        v.wf(),
    ensures
        step(v, input, ctx).0.wf(),
{
}

/// Four tab keys select the section that was selected before them, and
/// change nothing else.
pub proof fn lemma_tab_cycles(v: RendererView, ctx: InputContext)
    ensures
        step(step(step(step(v, Input::Char('\t'), ctx).0, Input::Char('\t'), ctx).0,
            Input::Char('\t'), ctx).0, Input::Char('\t'), ctx).0 == v,
{
}

/// Zooming in (`+`) and then out (`-`) restores the state, unless the zoom
/// factor was already at its least.
pub proof fn lemma_zoom_in_then_out(v: RendererView, ctx: InputContext)
    requires
        v.wf(),
        v.zoom > 1,
    ensures
        step(step(v, Input::Char('+'), ctx).0, Input::Char('-'), ctx).0 == v,
{
}

/// Zooming out (`-`) and then in (`+`) restores the state, unless the zoom
/// factor was already at its greatest.
pub proof fn lemma_zoom_out_then_in(v: RendererView, ctx: InputContext)
    requires
        v.wf(),
        v.zoom < 100,
    ensures
        step(step(v, Input::Char('-'), ctx).0, Input::Char('+'), ctx).0 == v,
{
}

/// Expanding (`e`) and then minimizing (`m`) the selected section restores
/// the state when its height is positive and can grow by 2.
pub proof fn lemma_expand_then_minimize(v: RendererView, ctx: InputContext)
    requires
        v.wf(),
        v.height_of(v.section) > 0,
        v.height_of(v.section) + 2 <= i16::MAX,
    ensures
        input_defined(v, Input::Char('e'), ctx),
        input_defined(step(v, Input::Char('e'), ctx).0, Input::Char('m'), ctx),
        step(step(v, Input::Char('e'), ctx).0, Input::Char('m'), ctx).0 == v,
{
}

/// A section's height never turns from positive to non-positive.
pub proof fn lemma_heights_stay_positive(v: RendererView, input: Input, ctx: InputContext, s: Section)
    requires
        v.height_of(s) > 0,
        input_defined(v, input, ctx),
    ensures
        step(v, input, ctx).0.height_of(s) > 0,
{
}

/// The reset key (`` ` ``) undoes all zooming and scrolling of the history.
pub proof fn lemma_reset(v: RendererView, ctx: InputContext)
    ensures
        step(v, Input::Char('`'), ctx).0.zoom == 1,
        step(v, Input::Char('`'), ctx).0.offset == 0,
{
}

/// The sort keys: `,` and `<` both sort by the column before the current
/// one, `.` and `>` both by the column after it, keeping the order, and `/`
/// flips the order on the same column. None of them changes the screen state.
pub proof fn lemma_sort_keys(v: RendererView, ctx: InputContext)
    ensures
        step(v, Input::Char(','), ctx) == step(v, Input::Char('<'), ctx),
        step(v, Input::Char(','), ctx) == (v, Command::Resort(previous_column(ctx.sort_by), ctx.sort_order)),
        step(v, Input::Char('.'), ctx) == step(v, Input::Char('>'), ctx),
        step(v, Input::Char('.'), ctx) == (v, Command::Resort(next_column(ctx.sort_by), ctx.sort_order)),
        step(v, Input::Char('/'), ctx) == (v, Command::Resort(ctx.sort_by, flipped(ctx.sort_order))),
        flipped(ctx.sort_order) != ctx.sort_order,
        column_index(previous_column(ctx.sort_by)) == (column_index(ctx.sort_by) + 10) % 11,
        column_index(next_column(ctx.sort_by)) == (column_index(ctx.sort_by) + 1) % 11,
{
    lemma_index_of_next(ctx.sort_by);
    lemma_index_of_previous(ctx.sort_by);
}

/// What each key commands: `q` and Ctrl-C quit; the arrows up and down move
/// the highlight unless a process is selected; Enter selects the highlighted
/// process and Esc or `b` goes back, both clearing the message; `s`, `r`,
/// `k`, `t` suspend, resume, kill and terminate the selected process; `+`
/// and `=` zoom in, `-` zooms out; the tab key selects the next section;
/// any other key does nothing.
pub proof fn lemma_key_commands(v: RendererView, ctx: InputContext)
    ensures
        step(v, Input::Char('q'), ctx) == (v, Command::Quit),
        step(v, Input::Ctrl('c'), ctx) == (v, Command::Quit),
        step(v, Input::Up, ctx).0 == v && step(v, Input::Down, ctx).0 == v,
        !ctx.has_selected_process ==> step(v, Input::Up, ctx).1 == Command::HighlightUp
            && step(v, Input::Down, ctx).1 == Command::HighlightDown,
        ctx.has_selected_process ==> step(v, Input::Up, ctx).1 == Command::Nothing
            && step(v, Input::Down, ctx).1 == Command::Nothing,
        step(v, Input::Char('\n'), ctx) == (RendererView { message: None, ..v }, Command::SelectProcess),
        step(v, Input::Esc, ctx) == (RendererView { message: None, ..v }, Command::DeselectProcess),
        step(v, Input::Char('b'), ctx) == step(v, Input::Esc, ctx),
        ctx.has_selected_process ==> {
            &&& step(v, Input::Char('s'), ctx).1 == Command::Signal(ProcessSignal::Suspend)
            &&& step(v, Input::Char('r'), ctx).1 == Command::Signal(ProcessSignal::Resume)
            &&& step(v, Input::Char('k'), ctx).1 == Command::Signal(ProcessSignal::Kill)
            &&& step(v, Input::Char('t'), ctx).1 == Command::Signal(ProcessSignal::Terminate)
        },
        !ctx.has_selected_process ==> step(v, Input::Char('s'), ctx).1 == Command::Nothing
            && step(v, Input::Char('k'), ctx).1 == Command::Nothing,
        step(v, Input::Char('s'), ctx).0 == (RendererView { message: None, ..v }),
        step(v, Input::Char('t'), ctx).0 == (RendererView { message: None, ..v }),
        step(v, Input::Char('+'), ctx) == step(v, Input::Char('='), ctx),
        step(v, Input::Char('+'), ctx).1 == Command::Nothing,
        v.zoom > 1 ==> step(v, Input::Char('+'), ctx).0.zoom == v.zoom - 1,
        v.zoom < 100 ==> step(v, Input::Char('-'), ctx).0.zoom == v.zoom + 1,
        step(v, Input::Char('\t'), ctx).0.section != v.section,
        step(v, Input::Right, ctx).0.offset == if v.offset > 0 { v.offset - 1 } else { 0 },
        step(v, Input::Char('z'), ctx) == (v, Command::Nothing),
        step(v, Input::Other, ctx) == (v, Command::Nothing),
{
}

/// Scrolling back without histograms moves the history one step back;
/// scrolling forward moves it one step toward the present.
pub proof fn lemma_scroll_steps(v: RendererView, ctx: InputContext)
    requires
        ctx.histograms_width is None,
        v.offset < usize::MAX,
    ensures
        step(v, Input::Left, ctx).0.offset == v.offset + 1,
        step(step(v, Input::Left, ctx).0, Input::Right, ctx).0 == v,
{
}

} // verus!
