use zenith::table::{
    process_row_cells, process_table_header, table_title, visible_rows, ProcessRow,
    ProcessTableSortBy, ProcessTableSortOrder, VisibleRow,
};

#[test]
fn header_on_a_wide_screen() {
    let h = process_table_header(80, ProcessTableSortBy::Cpu, ProcessTableSortOrder::Descending);
    assert_eq!(
        h.titles,
        vec!["PID   ", "USER       ", "P   ", "↓CPU% ", "MEM%  ", "MEM     ", "VIRT     ", "S ", "READ/s   ", "WRITE/s  ", "CMD    "]
    );
    assert_eq!(h.widths, vec![6, 11, 4, 6, 6, 8, 9, 2, 9, 9, 7]);
    assert_eq!(h.widths.iter().map(|w| *w as u32).sum::<u32>(), 77);
}

#[test]
fn header_on_a_narrow_screen() {
    let h = process_table_header(40, ProcessTableSortBy::Cmd, ProcessTableSortOrder::Ascending);
    assert_eq!(h.titles[10], "↑CM");
    assert_eq!(h.titles[0], "PID   ");
    assert_eq!(h.widths[10], 3);
    let h = process_table_header(76, ProcessTableSortBy::Pid, ProcessTableSortOrder::Ascending);
    assert_eq!(h.titles[0], "↑PID  ");
    assert_eq!(h.titles[10], "CMD");
    let h = process_table_header(40000, ProcessTableSortBy::User, ProcessTableSortOrder::Ascending);
    assert_eq!(h.titles[10], "CMD");
    assert_eq!(h.titles[1], "↑USER      ");
}

#[test]
fn sort_columns_cycle() {
    assert_eq!(ProcessTableSortBy::Cmd.next(), ProcessTableSortBy::Pid);
    assert_eq!(ProcessTableSortBy::Pid.previous(), ProcessTableSortBy::Cmd);
    assert_eq!(ProcessTableSortBy::Cpu.next(), ProcessTableSortBy::MemPerc);
    assert_eq!(ProcessTableSortBy::Cpu.next().previous(), ProcessTableSortBy::Cpu);
    let mut c = ProcessTableSortBy::Status;
    for _ in 0..11 {
        c = c.next();
    }
    assert_eq!(c, ProcessTableSortBy::Status);
    assert_eq!(ProcessTableSortOrder::Ascending.flip(), ProcessTableSortOrder::Descending);
    assert_eq!(ProcessTableSortOrder::Ascending.flip().flip(), ProcessTableSortOrder::Ascending);
}

#[test]
fn rows_in_view() {
    let rows = visible_rows(10, 2, 8, 3).unwrap();
    assert_eq!(
        rows,
        vec![
            VisibleRow { index: 2, highlighted: false },
            VisibleRow { index: 3, highlighted: true },
            VisibleRow { index: 4, highlighted: false },
            VisibleRow { index: 5, highlighted: false },
        ]
    );
    assert_eq!(visible_rows(3, 2, 10, 0).unwrap(), vec![VisibleRow { index: 2, highlighted: false }]);
    assert_eq!(visible_rows(3, 5, 10, 0).unwrap(), vec![]);
    assert!(visible_rows(100, 0, 4, 0).is_none());
}

#[test]
fn table_title_text() {
    assert_eq!(
        table_title(120, 560),
        "Tasks [120] Threads [560]  Navigate [↑/↓] Sort Col [,/.] Asc/Dec [/]"
    );
}

#[test]
fn row_cells() {
    let p = ProcessRow {
        pid: 4242,
        user_name: String::from("alice"),
        priority: 20,
        memory: 2048,
        virtual_memory: 16_000_000,
        status: 'R',
        name: String::from("bash"),
        exe: String::from("/bin/bash"),
        command: vec![String::from("bash"), String::from("-l")],
    };
    let cells = process_row_cells(&p, "12.5", "0.3", "1.50KB", "0B");
    assert_eq!(cells[0], " 4242");
    assert_eq!(cells[1], "alice     ");
    assert_eq!(cells[2], "20 ");
    assert_eq!(cells[3], " 12.5");
    assert_eq!(cells[4], "  0.3");
    assert_eq!(cells[5], "   2.05M");
    assert_eq!(cells[6], "  16.00G");
    assert_eq!(cells[7], "R");
    assert_eq!(cells[8], "   1.50K");
    assert_eq!(cells[9], "       0");
    assert_eq!(cells[10], "bash - /bin/bash bash -l");
    assert_eq!(cells.len(), 11);
}
