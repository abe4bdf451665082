//! The report: one labelled line for each field of the snapshot.

use crate::distro::{DistroInfo, DistroInfoView};
use crate::paint::Style;
use crate::screen::{plain, styled, Span, SpanView};
use crate::snapshot::{SystemSnapshot, SystemSnapshotView};
use crate::text::{align_left, decimal, left_aligned, push_decimal};
use crate::units::{
    bytes_to_gib, gibibytes, kib_to_mib, mebibytes, split_uptime, uptime_hours, uptime_minutes,
};
use vstd::prelude::*;

verus! {

/// The width of the column that the labels of the fields stand in.
pub const LABEL_WIDTH: usize = 10;

/// The rule drawn under the first line of the report.
pub const DIVIDER: &'static str = "--------------------";

/// The label of the first line, which names the user and the host.
pub const USER_LABEL: &'static str = "User";

/// What stands between a label and its value.
pub const SEPARATOR: &'static str = ": ";

/// The fields of the report that follow the rule, in the order in which
/// they are shown.
#[derive(Clone, Copy, Debug, PartialEq, Eq, Structural)]
pub enum Field {
    Uptime,
    Kernel,
    Distro,
    Cpu,
    Memory,
    Disk,
}

/// The fields in the order in which the report shows them.
pub const FIELDS: [Field; 6] = [
    Field::Uptime,
    Field::Kernel,
    Field::Distro,
    Field::Cpu,
    Field::Memory,
    Field::Disk,
];

/// Two amounts in one unit: the amount in use, a slash, the amount in all,
/// each followed by the unit.
pub open spec fn amounts(used: nat, total: nat, unit: Seq<char>) -> Seq<char> {
    decimal(used) + " "@ + unit + " / "@ + decimal(total) + " "@ + unit
}

impl Field {
    /// The label of a field, as a bare word.
    pub open spec fn label_text(self) -> Seq<char> {
        match self {
            Field::Uptime => "Uptime"@,
            Field::Kernel => "Kernel"@,
            Field::Distro => "Distro"@,
            Field::Cpu => "CPU"@,
            Field::Memory => "Memory"@,
            Field::Disk => "Disk"@,
        }
    }

    /// The value of a field, as the spans that follow the separator.
    pub open spec fn value_spans(
        self,
        snapshot: SystemSnapshotView,
        distro: DistroInfoView,
    ) -> Seq<SpanView> {
        match self {
            Field::Uptime => seq![
                plain(
                    decimal(uptime_hours(snapshot.uptime)) + " hrs, "@ + decimal(
                        uptime_minutes(snapshot.uptime),
                    ) + " mins"@,
                ),
            ],
            Field::Kernel => seq![styled(snapshot.kernel_version, Style::Bold)],
            Field::Distro => seq![styled(distro.name, Style::Bold)],
            Field::Cpu => seq![
                plain(snapshot.cpu_brand + " ("@ + decimal(snapshot.core_count) + " cores)"@),
            ],
            Field::Memory => seq![
                plain(
                    amounts(
                        mebibytes(snapshot.used_memory),
                        mebibytes(snapshot.total_memory),
                        "MB"@,
                    ),
                ),
            ],
            Field::Disk => seq![
                plain(
                    amounts(gibibytes(snapshot.used_disk), gibibytes(snapshot.total_disk), "GB"@),
                ),
            ],
        }
    }

    /// The line of a field: its label in bold blue, flush left in the label
    /// width, then the separator and the value.
    pub open spec fn line(self, snapshot: SystemSnapshotView, distro: DistroInfoView) -> Seq<
        SpanView,
    > {
        seq![
            styled(left_aligned(self.label_text(), LABEL_WIDTH as nat), Style::BoldBlue),
            plain(SEPARATOR@),
        ] + self.value_spans(snapshot, distro)
    }

    /// The label of this field.
    pub fn label(self) -> (label: &'static str)
        ensures
            label@ == self.label_text(),
    {
        match self {
            Field::Uptime => "Uptime",
            Field::Kernel => "Kernel",
            Field::Distro => "Distro",
            Field::Cpu => "CPU",
            Field::Memory => "Memory",
            Field::Disk => "Disk",
        }
    }
}

/// The first line of the report: who is logged in, and where.
pub open spec fn user_line(snapshot: SystemSnapshotView) -> Seq<SpanView> {
    seq![
        styled(USER_LABEL@, Style::BoldBlue),
        plain(SEPARATOR@),
        styled(snapshot.username, Style::Bold),
        plain("@"@),
        styled(snapshot.hostname, Style::Bold),
    ]
}

/// The rule under the first line.
pub open spec fn divider_line() -> Seq<SpanView> {
    seq![styled(DIVIDER@, Style::BoldGreen)]
}

/// The whole report: the user line, the rule, and a line for each of
/// [`FIELDS`] in order.
pub open spec fn report(snapshot: SystemSnapshotView, distro: DistroInfoView) -> Seq<
    Seq<SpanView>,
> {
    seq![user_line(snapshot), divider_line()] + Seq::new(
        FIELDS@.len(),
        |i: int| FIELDS@[i].line(snapshot, distro),
    )
}

/// A span of plain text.
fn plain_span(text: &str) -> (span: Span)
    ensures
        span@ == plain(text@),
{
    Span { text: String::from_str(text), style: Style::Plain }
}

/// A span of text in a style.
fn styled_span(text: &str, style: Style) -> (span: Span)
    ensures
        span@ == styled(text@, style),
{
    Span { text: String::from_str(text), style }
}

/// A plain span of two amounts in one unit.
fn amounts_span(used: u64, total: u64, unit: &str) -> (span: Span)
    ensures
        span@ == plain(amounts(used as nat, total as nat, unit@)),
{
    let mut text = String::new();
    push_decimal(&mut text, used);
    text.append(" ");
    text.append(unit);
    text.append(" / ");
    push_decimal(&mut text, total);
    text.append(" ");
    text.append(unit);
    Span { text, style: Style::Plain }
}

/// Lays out the line of one field.
pub fn field_line(field: Field, snapshot: &SystemSnapshot, distro: &DistroInfo) -> (line: Vec<
    Span,
>)
    ensures
        line.deep_view() == field.line(snapshot@, distro@),
{
    let label = align_left(field.label(), LABEL_WIDTH);
    let mut line: Vec<Span> = Vec::new();
    line.push(Span { text: label, style: Style::BoldBlue });
    line.push(plain_span(SEPARATOR));
    match field {
        Field::Uptime => {
            let uptime = split_uptime(snapshot.uptime);
            let mut text = String::new();
            push_decimal(&mut text, uptime.hours);
            text.append(" hrs, ");
            push_decimal(&mut text, uptime.minutes);
            text.append(" mins");
            line.push(Span { text, style: Style::Plain });
        },
        Field::Kernel => {
            line.push(styled_span(snapshot.kernel_version.as_str(), Style::Bold));
        },
        Field::Distro => {
            line.push(styled_span(distro.name.as_str(), Style::Bold));
        },
        Field::Cpu => {
            let mut text = String::from_str(snapshot.cpu_brand.as_str());
            text.append(" (");
            push_decimal(&mut text, snapshot.core_count as u64);
            text.append(" cores)");
            line.push(Span { text, style: Style::Plain });
        },
        Field::Memory => {
            line.push(
                amounts_span(
                    kib_to_mib(snapshot.used_memory),
                    kib_to_mib(snapshot.total_memory),
                    "MB",
                ),
            );
        },
        Field::Disk => {
            line.push(
                amounts_span(
                    bytes_to_gib(snapshot.used_disk),
                    bytes_to_gib(snapshot.total_disk),
                    "GB",
                ),
            );
        },
    }
    line
}

/// Lays out the report for a snapshot and a distribution.
pub fn report_lines(snapshot: &SystemSnapshot, distro: &DistroInfo) -> (lines: Vec<Vec<Span>>)
    ensures
        lines.deep_view() == report(snapshot@, distro@),
{
    let mut user: Vec<Span> = Vec::new();
    user.push(styled_span(USER_LABEL, Style::BoldBlue));
    user.push(plain_span(SEPARATOR));
    user.push(styled_span(snapshot.username.as_str(), Style::Bold));
    user.push(plain_span("@"));
    user.push(styled_span(snapshot.hostname.as_str(), Style::Bold));
    assert(user.deep_view() =~= user_line(snapshot@));

    let mut divider: Vec<Span> = Vec::new();
    divider.push(styled_span(DIVIDER, Style::BoldGreen));
    assert(divider.deep_view() =~= divider_line());

    let mut lines: Vec<Vec<Span>> = Vec::new();
    lines.push(user);
    lines.push(divider);
    let mut i: usize = 0;
    while i < FIELDS.len()
        invariant
            0 <= i <= FIELDS@.len(),
            lines.deep_view() == seq![user_line(snapshot@), divider_line()] + Seq::new(
                i as nat,
                |k: int| FIELDS@[k].line(snapshot@, distro@),
            ),
        decreases FIELDS@.len() - i,
    {
        let ghost before = lines.deep_view();
        let line = field_line(FIELDS[i], snapshot, distro);
        lines.push(line);
        assert(lines.deep_view() =~= before.push(FIELDS@[i as int].line(snapshot@, distro@)));
        i = i + 1;
    }
    lines
}

/// Every label fills the label column exactly: aligned, it is as wide as
/// the column, and it starts with the bare label.
pub proof fn lemma_labels_fill_the_column(field: Field)
    ensures
        left_aligned(field.label_text(), LABEL_WIDTH as nat).len() == LABEL_WIDTH,
        left_aligned(field.label_text(), LABEL_WIDTH as nat).take(field.label_text().len() as int)
            == field.label_text(),
{
    reveal_strlit("Uptime");
    reveal_strlit("Kernel");
    reveal_strlit("Distro");
    reveal_strlit("CPU");
    reveal_strlit("Memory");
    reveal_strlit("Disk");
}

/// The report has eight lines, and each field has its place in it.
pub proof fn lemma_report_lines(snapshot: SystemSnapshotView, distro: DistroInfoView)
    ensures
        report(snapshot, distro) == seq![
            user_line(snapshot),
            divider_line(),
            Field::Uptime.line(snapshot, distro),
            Field::Kernel.line(snapshot, distro),
            Field::Distro.line(snapshot, distro),
            Field::Cpu.line(snapshot, distro),
            Field::Memory.line(snapshot, distro),
            Field::Disk.line(snapshot, distro),
        ],
{
}

} // verus!
