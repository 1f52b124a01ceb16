use zenith::renderer::{
    layout, table_rows, Command, Constraint, Input, InputContext, ProcessSignal, Section,
    TerminalRenderer,
};
use zenith::table::{ProcessTableSortBy, ProcessTableSortOrder};

fn ctx(selected: bool, width: Option<usize>) -> InputContext {
    InputContext {
        sort_by: ProcessTableSortBy::Cpu,
        sort_order: ProcessTableSortOrder::Descending,
        has_selected_process: selected,
        histograms_width: width,
    }
}

#[test]
fn fresh_state() {
    let r = TerminalRenderer::new(10, 8, 8, 20, 0);
    assert_eq!(r.zoom_factor, 1);
    assert_eq!(r.hist_start_offset, 0);
    assert_eq!(r.process_table_row_start, 0);
    assert_eq!(r.selected_section, Section::Process);
    assert_eq!(r.process_message, None);
    assert_eq!(
        r.constraints,
        vec![Constraint::Length(1), Constraint::Length(10), Constraint::Length(8), Constraint::Length(8), Constraint::Min(20)]
    );
}

#[test]
fn layouts() {
    assert_eq!(layout(10, 8, 8, 0), vec![Constraint::Length(1), Constraint::Length(10), Constraint::Length(8), Constraint::Length(8)]);
    assert_eq!(layout(-1, 0, 3, -4), vec![Constraint::Length(1), Constraint::Length(65535), Constraint::Length(0), Constraint::Length(3)]);
}

#[test]
fn tab_cycles_sections() {
    let mut r = TerminalRenderer::new(10, 8, 8, 20, 0);
    let c = ctx(false, None);
    assert_eq!(r.handle_input(Input::Char('\t'), c), Command::Nothing);
    assert_eq!(r.selected_section, Section::Cpu);
    r.handle_input(Input::Char('\t'), c);
    assert_eq!(r.selected_section, Section::Network);
    r.handle_input(Input::Char('\t'), c);
    assert_eq!(r.selected_section, Section::Disk);
    r.handle_input(Input::Char('\t'), c);
    assert_eq!(r.selected_section, Section::Process);
}

#[test]
fn zoom_stays_between_1_and_100() {
    let mut r = TerminalRenderer::new(10, 8, 8, 20, 0);
    let c = ctx(false, None);
    r.handle_input(Input::Char('+'), c);
    assert_eq!(r.zoom_factor, 1);
    for _ in 0..150 {
        r.handle_input(Input::Char('-'), c);
    }
    assert_eq!(r.zoom_factor, 100);
    r.handle_input(Input::Char('='), c);
    assert_eq!(r.zoom_factor, 99);
    r.handle_input(Input::Char('-'), c);
    assert_eq!(r.zoom_factor, 100);
    r.handle_input(Input::Char('`'), c);
    assert_eq!(r.zoom_factor, 1);
}

#[test]
fn scrolling_the_history() {
    let mut r = TerminalRenderer::new(10, 8, 8, 20, 0);
    r.handle_input(Input::Left, ctx(false, None));
    assert_eq!(r.hist_start_offset, 1);
    r.handle_input(Input::Left, ctx(false, Some(100)));
    assert_eq!(r.hist_start_offset, 3);
    r.hist_start_offset = 4;
    r.handle_input(Input::Left, ctx(false, Some(3)));
    assert_eq!(r.hist_start_offset, 3);
    r.handle_input(Input::Right, ctx(false, None));
    assert_eq!(r.hist_start_offset, 2);
    r.hist_start_offset = 0;
    r.handle_input(Input::Right, ctx(false, None));
    assert_eq!(r.hist_start_offset, 0);
    r.hist_start_offset = 9;
    r.handle_input(Input::Char('`'), ctx(false, None));
    assert_eq!(r.hist_start_offset, 0);
}

#[test]
fn resizing_sections() {
    let mut r = TerminalRenderer::new(10, 8, 8, 20, 0);
    let c = ctx(false, None);
    r.handle_input(Input::Char('e'), c);
    assert_eq!(r.process_height, 22);
    assert_eq!(r.constraints[4], Constraint::Min(22));
    r.handle_input(Input::Char('m'), c);
    assert_eq!(r.process_height, 20);
    r.handle_input(Input::Char('\t'), c);
    r.handle_input(Input::Char('m'), c);
    r.handle_input(Input::Char('m'), c);
    r.handle_input(Input::Char('m'), c);
    r.handle_input(Input::Char('m'), c);
    assert_eq!(r.cpu_height, 2);
    r.handle_input(Input::Char('m'), c);
    assert_eq!(r.cpu_height, 2);
    assert_eq!(r.constraints[1], Constraint::Length(2));
}

#[test]
fn keys_to_commands() {
    let mut r = TerminalRenderer::new(10, 8, 8, 20, 0);
    let c = ctx(false, None);
    assert_eq!(r.handle_input(Input::Char('q'), c), Command::Quit);
    assert_eq!(r.handle_input(Input::Ctrl('c'), c), Command::Quit);
    assert_eq!(r.handle_input(Input::Ctrl('x'), c), Command::Nothing);
    assert_eq!(r.handle_input(Input::Up, c), Command::HighlightUp);
    assert_eq!(r.handle_input(Input::Down, c), Command::HighlightDown);
    assert_eq!(r.handle_input(Input::Up, ctx(true, None)), Command::Nothing);
    assert_eq!(
        r.handle_input(Input::Char('.'), c),
        Command::Resort(ProcessTableSortBy::MemPerc, ProcessTableSortOrder::Descending)
    );
    assert_eq!(
        r.handle_input(Input::Char('<'), c),
        Command::Resort(ProcessTableSortBy::Priority, ProcessTableSortOrder::Descending)
    );
    assert_eq!(
        r.handle_input(Input::Char('/'), c),
        Command::Resort(ProcessTableSortBy::Cpu, ProcessTableSortOrder::Ascending)
    );
    assert_eq!(r.handle_input(Input::Char('\n'), c), Command::SelectProcess);
    assert_eq!(r.handle_input(Input::Esc, c), Command::DeselectProcess);
    assert_eq!(r.handle_input(Input::Char('b'), c), Command::DeselectProcess);
    assert_eq!(r.handle_input(Input::Char('z'), c), Command::Nothing);
    assert_eq!(r.handle_input(Input::Other, c), Command::Nothing);
}

#[test]
fn signals_need_a_selected_process() {
    let mut r = TerminalRenderer::new(10, 8, 8, 20, 0);
    r.set_process_message(Some(String::from("Suspended")));
    assert_eq!(r.handle_input(Input::Char('k'), ctx(false, None)), Command::Nothing);
    assert_eq!(r.process_message, None);
    assert_eq!(r.handle_input(Input::Char('s'), ctx(true, None)), Command::Signal(ProcessSignal::Suspend));
    assert_eq!(r.handle_input(Input::Char('r'), ctx(true, None)), Command::Signal(ProcessSignal::Resume));
    assert_eq!(r.handle_input(Input::Char('k'), ctx(true, None)), Command::Signal(ProcessSignal::Kill));
    r.set_process_message(Some(String::from("Killed")));
    assert_eq!(r.handle_input(Input::Char('t'), ctx(true, None)), Command::Signal(ProcessSignal::Terminate));
    assert_eq!(r.process_message, None);
}

#[test]
fn table_follows_the_highlight() {
    let mut r = TerminalRenderer::new(10, 8, 8, 20, 0);
    r.process_table_row_start = 5;
    r.follow_highlight_up(4);
    assert_eq!(r.process_table_row_start, 4);
    r.follow_highlight_up(4);
    assert_eq!(r.process_table_row_start, 4);
    r.follow_highlight_down(15, 100, 10);
    assert_eq!(r.process_table_row_start, 5);
    r.follow_highlight_down(15, 100, 10);
    assert_eq!(r.process_table_row_start, 5);
    r.follow_highlight_down(15, 5, 1);
    assert_eq!(r.process_table_row_start, 5);
    assert_eq!(table_rows(20), 15);
    assert_eq!(table_rows(4), 0);
}
