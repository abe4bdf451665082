use sysfetch::banner::MANJARO_ART;
use sysfetch::disk::Volume;
use sysfetch::distro::DistroInfo;
use sysfetch::paint::{paint, Style};
use sysfetch::screen::{join, paint_line, render, render_line, render_lines, Screen, Span};
use sysfetch::snapshot::ProbeReadings;
use sysfetch::summary::summarize;

fn span(text: &str, style: Style) -> Span {
    Span { text: String::from(text), style }
}

fn readings() -> ProbeReadings {
    ProbeReadings {
        host_name: Some(String::from("tower")),
        kernel_version: Some(String::from("6.1.0-18-amd64")),
        cpu_brand: String::from("AMD Ryzen 7 5800X 8-Core Processor"),
        physical_core_count: Some(8),
        used_memory: 8_388_608,
        total_memory: 33_554_432,
        volumes: vec![Volume { total_space: 512_110_190_592, available_space: 201_863_462_912 }],
        uptime: 7325,
        username: String::from("ada"),
    }
}

#[test]
fn bold_text_is_wrapped_in_its_escape_sequences() {
    colored::control::set_override(true);
    assert_eq!(paint("ada", Style::Bold), "\x1b[1mada\x1b[0m");
    assert_eq!(paint("", Style::Bold), "\x1b[1m\x1b[0m");
}

#[test]
fn bold_red_text_is_wrapped_in_its_escape_sequences() {
    colored::control::set_override(true);
    assert_eq!(paint("art", Style::BoldRed), "\x1b[1;31mart\x1b[0m");
}

#[test]
fn bold_green_text_is_wrapped_in_its_escape_sequences() {
    colored::control::set_override(true);
    assert_eq!(paint("----", Style::BoldGreen), "\x1b[1;32m----\x1b[0m");
}

#[test]
fn bold_blue_text_is_wrapped_in_its_escape_sequences() {
    colored::control::set_override(true);
    assert_eq!(paint("CPU       ", Style::BoldBlue), "\x1b[1;34mCPU       \x1b[0m");
}

#[test]
fn plain_text_stays_plain_with_colours_on() {
    colored::control::set_override(true);
    assert_eq!(paint(": ", Style::Plain), ": ");
    assert_eq!(paint("", Style::Plain), "");
    assert_eq!(paint("\x1b[0m", Style::Plain), "\x1b[0m");
}

#[test]
fn a_line_is_painted_span_by_span() {
    colored::control::set_override(true);
    let line = vec![
        span("Kernel    ", Style::BoldBlue),
        span(": ", Style::Plain),
        span("6.1.0", Style::Bold),
    ];
    assert_eq!(
        paint_line(&line),
        vec!["\x1b[1;34mKernel    \x1b[0m", ": ", "\x1b[1m6.1.0\x1b[0m"]
    );
    assert_eq!(render_line(&line), "\x1b[1;34mKernel    \x1b[0m: \x1b[1m6.1.0\x1b[0m");
    assert_eq!(render_line(&vec![]), "");
}

#[test]
fn both_streams_are_rendered_with_colours() {
    colored::control::set_override(true);
    let screen = Screen {
        error_stream: vec![vec![span("art", Style::BoldRed)]],
        standard_stream: vec![vec![span("a", Style::Plain), span("b", Style::Bold)], vec![]],
    };
    let output = render(&screen);
    assert_eq!(output.error_stream, vec!["\x1b[1;31mart\x1b[0m"]);
    assert_eq!(output.standard_stream, vec!["a\x1b[1mb\x1b[0m", ""]);
    assert_eq!(render_lines(&screen.standard_stream), output.standard_stream);
}

#[test]
fn pieces_are_joined_in_order() {
    let pieces = vec![String::from("ab"), String::new(), String::from("c"), String::from("de")];
    assert_eq!(join(&pieces), "abcde");
    assert_eq!(join(&vec![]), "");
}

#[test]
fn a_manjaro_host_gets_its_banner_and_the_full_report_in_colour() {
    colored::control::set_override(true);
    let descriptor =
        DistroInfo { id: String::from("manjaro"), name: String::from("Manjaro Linux") };
    let output = summarize(readings(), Some(descriptor));

    assert_eq!(output.error_stream, vec![format!("\x1b[1;32m{MANJARO_ART}\x1b[0m")]);
    assert_eq!(
        output.standard_stream,
        vec![
            "\x1b[1;34mUser\x1b[0m: \x1b[1mada\x1b[0m@\x1b[1mtower\x1b[0m",
            "\x1b[1;32m--------------------\x1b[0m",
            "\x1b[1;34mUptime    \x1b[0m: 2 hrs, 2 mins",
            "\x1b[1;34mKernel    \x1b[0m: \x1b[1m6.1.0-18-amd64\x1b[0m",
            "\x1b[1;34mDistro    \x1b[0m: \x1b[1mManjaro Linux\x1b[0m",
            "\x1b[1;34mCPU       \x1b[0m: AMD Ryzen 7 5800X 8-Core Processor (8 cores)",
            "\x1b[1;34mMemory    \x1b[0m: 8192 MB / 32768 MB",
            "\x1b[1;34mDisk      \x1b[0m: 288 GB / 476 GB",
        ]
    );
}
