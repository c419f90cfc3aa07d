use sysmon::panels::{interface_line, process_line};
use sysmon::ranking::top_by_load;
use sysmon::text::{decimal, fixed_two, zero_padded};
use sysmon::units::{gib_hundredths, kib_hundredths, ratio_bps};

#[test]
fn decimal_text() {
    assert_eq!(decimal(0), "0");
    assert_eq!(decimal(907), "907");
    assert_eq!(decimal(u64::MAX), "18446744073709551615");
    assert_eq!(zero_padded(7, 2), "07");
    assert_eq!(zero_padded(12345, 2), "12345");
    assert_eq!(fixed_two(5), "0.05");
    assert_eq!(fixed_two(12345), "123.45");
}

#[test]
fn unit_conversions() {
    assert_eq!(gib_hundredths(1073741824), 100);
    assert_eq!(gib_hundredths(16 * 1073741824 + 536870912), 1650);
    assert_eq!(kib_hundredths(1536), 150);
    assert_eq!(kib_hundredths(1), 0);
    assert_eq!(kib_hundredths(11), 1);
    assert_eq!(ratio_bps(1, 3), 3333);
    assert_eq!(ratio_bps(2, 3), 6667);
    assert_eq!(ratio_bps(5, 0), 0);
    assert_eq!(ratio_bps(u64::MAX, 1), u64::MAX);
}

#[test]
fn top_processes_by_load() {
    let load = vec![5, 90, 30, 90, 0, 45];
    assert_eq!(top_by_load(&load, 3), vec![1, 3, 5]);
    assert_eq!(top_by_load(&load, 20), vec![1, 3, 5, 2, 0, 4]);
    assert_eq!(top_by_load(&vec![], 20), Vec::<usize>::new());
    assert_eq!(top_by_load(&load, 0), Vec::<usize>::new());
}

#[test]
fn panel_lines() {
    assert_eq!(
        interface_line("eth0", 2048, 512),
        "Interface: eth0 | \u{2193}   2.00 KB/s | \u{2191}   0.50 KB/s"
    );
    assert_eq!(
        process_line("init", 1, 4096, 250),
        "Process: init | PID: 1 | Memory: 4096B | CPU: 2.50%"
    );
}
