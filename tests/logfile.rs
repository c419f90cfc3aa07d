use sysmon::clock::{file_name, format_uptime, line_stamp_text, now, Stamp};
use sysmon::log::{shutdown_output, CycleSample, LogBuffer};

fn stamp() -> Stamp {
    Stamp { year: 2024, month: 3, day: 7, hour: 9, minute: 5, second: 2 }
}

#[test]
fn file_name_pattern() {
    assert_eq!(file_name(&stamp()), "system_info_2024-03-07_09-05-02.txt");
    let s = Stamp { year: 987, month: 12, day: 31, hour: 23, minute: 59, second: 59 };
    assert_eq!(file_name(&s), "system_info_0987-12-31_23-59-59.txt");
}

#[test]
fn file_name_of_now_has_shape() {
    let n = file_name(&now());
    assert_eq!(n.len(), "system_info_".len() + 19 + 4);
    assert!(n.starts_with("system_info_"));
    assert!(n.ends_with(".txt"));
    let b = n.as_bytes();
    for (i, c) in b[12..31].iter().enumerate() {
        match i {
            4 | 7 | 13 | 16 => assert_eq!(*c, b'-'),
            10 => assert_eq!(*c, b'_'),
            _ => assert!(c.is_ascii_digit()),
        }
    }
}

#[test]
fn line_stamp_form() {
    assert_eq!(line_stamp_text(&stamp()), "03/07/24:09:05:02");
    let s = Stamp { year: -1, month: 1, day: 1, hour: 0, minute: 0, second: 0 };
    assert_eq!(line_stamp_text(&s), "01/01/99:00:00:00");
}

#[test]
fn uptime_text() {
    assert_eq!(format_uptime(0), "0h:0m:0s");
    assert_eq!(format_uptime(97389), "27h:3m:9s");
    assert_eq!(format_uptime(3599), "0h:59m:59s");
}

#[test]
fn two_lines_per_cycle() {
    let mut log = LogBuffer::new();
    let c1 = CycleSample { stamp: stamp(), used_gib_hundredths: 512, total_gib_hundredths: 1600, cpu_bps: 1234 };
    let c2 = CycleSample { stamp: stamp(), used_gib_hundredths: 100005, total_gib_hundredths: 5, cpu_bps: 10000 };
    log.record(c1);
    log.record(c2);
    assert_eq!(log.len(), 4);
    let (name, text) = shutdown_output(&log, &stamp());
    assert_eq!(name, "system_info_2024-03-07_09-05-02.txt");
    assert_eq!(
        text,
        "[03/07/24:09:05:02] RAM Usage:   5.12 /  16.00 GB\n\
         [03/07/24:09:05:02] CPU usage: 12.34%\n\
         [03/07/24:09:05:02] RAM Usage: 1000.05 /   0.05 GB\n\
         [03/07/24:09:05:02] CPU usage: 100.00%\n"
    );
    assert_eq!(text.matches("RAM Usage").count(), 2);
    assert_eq!(text.matches("CPU usage").count(), 2);
}

#[test]
fn empty_log_text() {
    let log = LogBuffer::new();
    assert_eq!(log.text(), "");
}
