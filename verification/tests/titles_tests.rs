use zenith::bytes::{byte_text, kb_text};
use zenith::titles::{
    compose_mem_title, cpu_title, history_max, interface_line, mem_title, rate_chart, TopProcess,
};

#[test]
fn byte_texts_are_compact() {
    assert_eq!(byte_text(0), "0B");
    assert_eq!(byte_text(1000), "1000B");
    assert_eq!(byte_text(1500), "1.50KB");
    assert_eq!(kb_text(2048), "2.05MB");
    assert_eq!(kb_text(16_000_000), "16.00GB");
}

#[test]
fn cpu_title_with_history() {
    let top = Some(TopProcess { pid: 42, name: String::from("firefox"), user_name: String::from("alice") });
    let t = cpu_title(12, &top, &Some(String::from("20.00")));
    assert_eq!(t, "CPU [ 12%] MEAN [20.00%] TOP [42 - firefox - alice]");
}

#[test]
fn cpu_title_without_history_is_empty() {
    let top = Some(TopProcess { pid: 1, name: String::from("init"), user_name: String::from("root") });
    assert_eq!(cpu_title(50, &top, &None), "");
}

#[test]
fn cpu_title_without_top_process() {
    assert_eq!(cpu_title(5, &None, &Some(String::from("0.00"))), "CPU [  5%] MEAN [0.00%] TOP [0 -  - ]");
    assert_eq!(cpu_title(100, &None, &Some(String::from("1.33"))), "CPU [100%] MEAN [1.33%] TOP [0 -  - ]");
    assert_eq!(cpu_title(1000, &None, &Some(String::from("x"))), "CPU [1000%] MEAN [  x%] TOP [0 -  - ]");
}

#[test]
fn memory_title() {
    assert_eq!(
        mem_title(50, 16_000_000, 0, 0),
        "MEM [16.00GB] Usage [ 50%] SWP [0B] Usage [  0%]"
    );
    assert_eq!(
        mem_title(33, 3, 100, 2_000_000),
        "MEM [3.00KB] Usage [ 33%] SWP [2.00GB] Usage [100%]"
    );
    assert_eq!(compose_mem_title("1KB", 7, "2KB", 1234), "MEM [1KB] Usage [  7%] SWP [2KB] Usage [1234%]");
}

#[test]
fn rate_chart_titles_and_scales() {
    let c = rate_chart("↑", 1500, &vec![100, 2500, 700]);
    assert_eq!(c.max, 2500);
    assert_eq!(c.title, "↑ [  1.50KB  ] Max [  2.50KB  ]");
    let c = rate_chart("R", 0, &vec![]);
    assert_eq!(c.max, 1);
    assert_eq!(c.title, "R [    0B    ] Max [    1B    ]");
}

#[test]
fn history_maximum() {
    assert_eq!(history_max(&vec![]), 1);
    assert_eq!(history_max(&vec![0]), 0);
    assert_eq!(history_max(&vec![3, 9, 2, 9, 1]), 9);
}

#[test]
fn interface_lines() {
    assert_eq!(interface_line("wlp3s0-very-long", "192.168.1.2"), "wlp3s0-v : 192.168.1.2");
    assert_eq!(interface_line("lo", "127.0.0.1"), "lo       : 127.0.0.1");
}
