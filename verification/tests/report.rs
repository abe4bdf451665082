use sysfetch::distro::DistroInfo;
use sysfetch::paint::Style;
use sysfetch::report::{
    field_line, report_lines, Field, DIVIDER, FIELDS, LABEL_WIDTH, SEPARATOR, USER_LABEL,
};
use sysfetch::screen::Span;
use sysfetch::snapshot::SystemSnapshot;

fn span(text: &str, style: Style) -> Span {
    Span { text: String::from(text), style }
}

fn snapshot() -> SystemSnapshot {
    SystemSnapshot {
        hostname: String::from("tower"),
        uptime: 7325,
        kernel_version: String::from("6.1.0-18-amd64"),
        cpu_brand: String::from("AMD Ryzen 7 5800X 8-Core Processor"),
        core_count: 8,
        used_memory: 8_388_608,
        total_memory: 33_554_431,
        used_disk: 310_246_727_680,
        total_disk: 512_110_190_592,
        username: String::from("ada"),
    }
}

fn distro() -> DistroInfo {
    DistroInfo { id: String::from("manjaro"), name: String::from("Manjaro Linux") }
}

#[test]
fn the_report_has_its_eight_lines_in_order() {
    let lines = report_lines(&snapshot(), &distro());
    assert_eq!(
        lines,
        vec![
            vec![
                span("User", Style::BoldBlue),
                span(": ", Style::Plain),
                span("ada", Style::Bold),
                span("@", Style::Plain),
                span("tower", Style::Bold),
            ],
            vec![span("--------------------", Style::BoldGreen)],
            vec![
                span("Uptime    ", Style::BoldBlue),
                span(": ", Style::Plain),
                span("2 hrs, 2 mins", Style::Plain),
            ],
            vec![
                span("Kernel    ", Style::BoldBlue),
                span(": ", Style::Plain),
                span("6.1.0-18-amd64", Style::Bold),
            ],
            vec![
                span("Distro    ", Style::BoldBlue),
                span(": ", Style::Plain),
                span("Manjaro Linux", Style::Bold),
            ],
            vec![
                span("CPU       ", Style::BoldBlue),
                span(": ", Style::Plain),
                span("AMD Ryzen 7 5800X 8-Core Processor (8 cores)", Style::Plain),
            ],
            vec![
                span("Memory    ", Style::BoldBlue),
                span(": ", Style::Plain),
                span("8192 MB / 32767 MB", Style::Plain),
            ],
            vec![
                span("Disk      ", Style::BoldBlue),
                span(": ", Style::Plain),
                span("288 GB / 476 GB", Style::Plain),
            ],
        ]
    );
}

#[test]
fn the_fields_come_in_a_fixed_order() {
    assert_eq!(
        FIELDS,
        [Field::Uptime, Field::Kernel, Field::Distro, Field::Cpu, Field::Memory, Field::Disk]
    );
}

#[test]
fn each_field_lays_out_its_own_line() {
    let lines = report_lines(&snapshot(), &distro());
    assert_eq!(lines.len(), FIELDS.len() + 2);
    for (place, field) in FIELDS.into_iter().enumerate() {
        assert_eq!(field_line(field, &snapshot(), &distro()), lines[place + 2]);
    }
}

#[test]
fn labels_fill_a_column_of_one_width() {
    assert_eq!(LABEL_WIDTH, 10);
    for field in FIELDS {
        let line = field_line(field, &snapshot(), &distro());
        assert_eq!(line[0].style, Style::BoldBlue);
        assert_eq!(line[0].text.chars().count(), 10);
        assert!(line[0].text.starts_with(field.label()));
        assert_eq!(line[0].text.trim_end(), field.label());
        assert_eq!(line[1], span(": ", Style::Plain));
    }
}

#[test]
fn the_labels_are_the_fixed_words() {
    assert_eq!(Field::Uptime.label(), "Uptime");
    assert_eq!(Field::Kernel.label(), "Kernel");
    assert_eq!(Field::Distro.label(), "Distro");
    assert_eq!(Field::Cpu.label(), "CPU");
    assert_eq!(Field::Memory.label(), "Memory");
    assert_eq!(Field::Disk.label(), "Disk");
    assert_eq!(USER_LABEL, "User");
    assert_eq!(SEPARATOR, ": ");
    assert_eq!(DIVIDER, "--------------------");
    assert_eq!(DIVIDER.len(), 20);
}

#[test]
fn an_idle_empty_host_shows_zeros() {
    let snapshot = SystemSnapshot {
        hostname: String::from("Unknown"),
        uptime: 59,
        kernel_version: String::from("Unknown"),
        cpu_brand: String::new(),
        core_count: 1,
        used_memory: 1023,
        total_memory: 1024,
        used_disk: 1_073_741_823,
        total_disk: 1_073_741_824,
        username: String::new(),
    };
    let distro = DistroInfo { id: String::from("unknown"), name: String::from("Unknown") };
    assert_eq!(
        field_line(Field::Uptime, &snapshot, &distro)[2],
        span("0 hrs, 0 mins", Style::Plain)
    );
    assert_eq!(field_line(Field::Cpu, &snapshot, &distro)[2], span(" (1 cores)", Style::Plain));
    assert_eq!(
        field_line(Field::Memory, &snapshot, &distro)[2],
        span("0 MB / 1 MB", Style::Plain)
    );
    assert_eq!(field_line(Field::Disk, &snapshot, &distro)[2], span("0 GB / 1 GB", Style::Plain));
    assert_eq!(field_line(Field::Kernel, &snapshot, &distro)[2], span("Unknown", Style::Bold));
    assert_eq!(field_line(Field::Distro, &snapshot, &distro)[2], span("Unknown", Style::Bold));
}

#[test]
fn the_largest_amounts_are_shown_in_full() {
    let snapshot = SystemSnapshot {
        hostname: String::from("h"),
        uptime: u64::MAX,
        kernel_version: String::from("k"),
        cpu_brand: String::from("c"),
        core_count: usize::MAX,
        used_memory: u64::MAX,
        total_memory: u64::MAX,
        used_disk: u64::MAX,
        total_disk: u64::MAX,
        username: String::from("u"),
    };
    let distro = DistroInfo { id: String::from("arch"), name: String::from("Arch Linux") };
    assert_eq!(
        field_line(Field::Uptime, &snapshot, &distro)[2].text,
        "5124095576030431 hrs, 0 mins"
    );
    assert_eq!(
        field_line(Field::Memory, &snapshot, &distro)[2].text,
        "18014398509481983 MB / 18014398509481983 MB"
    );
    assert_eq!(
        field_line(Field::Disk, &snapshot, &distro)[2].text,
        "17179869183 GB / 17179869183 GB"
    );
    assert_eq!(
        field_line(Field::Cpu, &snapshot, &distro)[2].text,
        format!("c ({} cores)", usize::MAX)
    );
}
