use zenith::cpu_bars::{cpu_bar_labels, cpu_bars_layout};
use zenith::detail::{detail_help, detail_lines, detail_split, detail_title, DetailTexts, ProcessDetail};
use zenith::timebar::{back_in_time, display_time, offset_seconds, span_clock, title_bar, two_digit_text, ClockTime};

#[test]
fn few_cpus_get_wide_bars() {
    let l = cpu_bars_layout(4, 30, 2400);
    assert_eq!(l.count, 4);
    assert!(!l.two_rows);
    assert_eq!(l.first_row, 4);
    assert_eq!(l.bar_gap, 1);
    assert_eq!(l.bar_width, 6);
    assert_eq!(l.title, "CPU(S) 4@2400 MHz");
    // the row of bars with its gaps fits the panel's inner width
    assert!(l.first_row * (l.bar_width as usize + l.bar_gap as usize) <= 28);
}

#[test]
fn many_cpus_share_the_panel() {
    let l = cpu_bars_layout(16, 30, 0);
    assert!(!l.two_rows);
    assert_eq!(l.bar_gap, 0);
    assert_eq!(l.bar_width, 1);
    let l = cpu_bars_layout(40, 30, 0);
    assert!(l.two_rows);
    assert_eq!(l.first_row, 20);
    assert_eq!(l.bar_gap, 0);
    assert_eq!(l.bar_width, 1);
}

#[test]
fn cpu_bar_edge_cases() {
    let l = cpu_bars_layout(0, 30, 1);
    assert_eq!(l.count, 1);
    assert_eq!(l.bar_width, 27);
    assert_eq!(l.title, "CPU(S) 1@1 MHz");
    let l = cpu_bars_layout(1, 2, 1);
    assert!(l.two_rows);
    assert_eq!(l.first_row, 0);
    assert_eq!(l.bar_width, 1);
    let l = cpu_bars_layout(65536 + 3, 30, 1);
    assert_eq!(l.count, 3);
    let l = cpu_bars_layout(1, 65535, 1);
    assert_eq!(l.bar_width, 32767);
}

#[test]
fn narrow_bars_shorten_labels() {
    let labels: Vec<String> = (0..12).map(|i| format!("cpu{}", i)).collect();
    let shown = cpu_bar_labels(&labels, 1);
    assert_eq!(shown[8], "cpu8");
    assert_eq!(shown[9], "pu9");
    assert_eq!(shown[11], "pu11");
    let shown = cpu_bar_labels(&labels, 2);
    assert_eq!(shown, labels);
}

fn clock(date: &str, month: u32, day: u32, hour: u32, minute: u32, second: u32) -> ClockTime {
    ClockTime { date: String::from(date), month, day, hour, minute, second }
}

#[test]
fn time_ranges() {
    let a = clock("2020-01-01+01:00", 1, 1, 9, 5, 3);
    let b = clock("2020-01-01+01:00", 1, 1, 10, 15, 0);
    assert_eq!(display_time(&a, &b), " (09:05:03 - 10:15:00)");
    let a = clock("2020-01-01+01:00", 1, 1, 23, 59, 59);
    let b = clock("2020-01-02+01:00", 1, 2, 0, 10, 0);
    assert_eq!(display_time(&a, &b), " (2020-01-01+01:00 23:59:59 - 2020-01-02+01:00 00:10:00)");
}

#[test]
fn spans_of_seconds() {
    assert_eq!(span_clock(0), "00:00:00");
    assert_eq!(span_clock(3725), "01:02:05");
    assert_eq!(span_clock(360000), "100:00:00");
    assert_eq!(span_clock(-3725), "-1:-2:-5");
    assert_eq!(two_digit_text(-3), "-3");
    assert_eq!(two_digit_text(4), "04");
}

#[test]
fn history_offsets() {
    assert_eq!(offset_seconds(1000, 5, 2), 10);
    assert_eq!(offset_seconds(250, 3, 1), 0);
    assert_eq!(offset_seconds(2000, (1usize << 32) + 3, 1), 6);
    assert_eq!(back_in_time(10), "(-00:00:10)");
    assert_eq!(back_in_time(3661), "(-01:01:01)");
    assert_eq!(back_in_time(0), "");
}

#[test]
fn title_bar_pieces() {
    let a = clock("2020-01-01+01:00", 1, 1, 9, 5, 3);
    let b = clock("2020-01-01+01:00", 1, 1, 10, 15, 0);
    let parts = title_bar("box", "Linux", "5.4", 70, &a, &b, 10, 4);
    assert_eq!(parts.len(), 10);
    assert_eq!(parts[0], " box");
    assert_eq!(parts[1], " [Linux 5.4]");
    assert_eq!(parts[2], "[Showing: ");
    assert_eq!(parts[3], "70 mins");
    assert_eq!(parts[4], " (09:05:03 - 10:15:00)");
    assert_eq!(parts[5], "(-00:00:10)");
    assert_eq!(parts[6], "]");
    assert_eq!(parts[7], " <tab> sections, (e)pand (m)inimize [+/-] zoom [←/→] scroll histogram (`) reset");
    assert_eq!(parts[8], " (q)uit");
    assert_eq!(parts[9], "    ");
}

#[test]
fn process_detail_view() {
    let p = ProcessDetail {
        name: String::from("bash"),
        pid: 77,
        command: vec![String::from("bash"), String::from("-l")],
        user_name: String::from("alice"),
        threads_total: 3,
        priority: -5,
        memory: 2048,
        read_bytes: 1500,
        write_bytes: 10,
    };
    let t = DetailTexts {
        ended: None,
        start_time: String::from("2020-01-01 09:00:00 +01:00"),
        run_seconds: 3725,
        cpu_percent: String::from("1.25"),
        status: String::from("Running"),
        mem_percent: String::from("0.50"),
        read_rate: String::from("0B"),
        write_rate: String::from("10B"),
    };
    let lines = detail_lines(&p, &t);
    assert_eq!(lines.len(), 14);
    assert_eq!(lines[0].label, "Name:                  ");
    assert_eq!(lines[0].value, "bash (alive)");
    assert_eq!(lines[1].value, "     77");
    assert_eq!(lines[2].value, "bash -l");
    assert_eq!(lines[5].value, "01:02:05");
    assert_eq!(lines[6].value, "   1.25 %");
    assert_eq!(lines[7].value, "      3");
    assert_eq!(lines[9].value, "     -5");
    assert_eq!(lines[11].value, "    2.05MB");
    assert_eq!(lines[12].value, "    1.50KB 0B/s");
    assert_eq!(lines[13].label, "Disk Write:            ");
    assert_eq!(lines[13].value, "       10B 10B/s");
    let t = DetailTexts { ended: Some(String::from("2020-01-01 10:00:00 +01:00")), ..t };
    let lines = detail_lines(&p, &t);
    assert_eq!(lines[0].value, "bash (dead since 2020-01-01 10:00:00 +01:00)");
}

#[test]
fn detail_columns_and_help() {
    assert_eq!(detail_split(14, 10), Some(10));
    assert_eq!(detail_split(14, 14), None);
    assert_eq!(detail_title("bash"), "Process: bash");
    assert_eq!(
        detail_help(&Some(String::from("Killed")), 3),
        "(b)ack (s)uspend (r)esume (k)ill [SIGKILL] (t)erminate [SIGTERM] Killed    "
    );
    assert_eq!(
        detail_help(&None, 0),
        "(b)ack (s)uspend (r)esume (k)ill [SIGKILL] (t)erminate [SIGTERM]  "
    );
}
