//! The whole pass: from what was read of the host to the painted lines for
//! the two output streams.

use crate::banner::{
    banner_lines, banner_screen, lemma_arch_family, resolve_banner, resolved_banner, Banner,
    UNSUPPORTED_NOTICE,
};
use crate::disk::is_summable;
use crate::distro::{
    descriptor_view, distro_or_unknown, get_distro, unknown_distro, DistroInfo, DistroInfoView,
    UNKNOWN_ID,
};
use crate::report::{lemma_report_lines, report, report_lines, user_line, Field};
use crate::screen::{is_rendered, plain, render, styled, Output, Screen, ScreenView};
use crate::snapshot::{
    collect, collected, ProbeReadings, ProbeReadingsView, SystemSnapshot, SystemSnapshotView,
};
use crate::text::to_ascii_lowercase;
use crate::units::{lemma_uptime_split_monotonic, uptime_hours, uptime_minutes};
use vstd::prelude::*;

verus! {

/// The screen for a snapshot and a distribution: the banner that the
/// distribution's identifier selects, and after it, on the standard
/// stream, the report.
pub open spec fn composed(snapshot: SystemSnapshotView, distro: DistroInfoView) -> ScreenView {
    let banner = banner_screen(resolved_banner(distro.id));
    ScreenView {
        error_stream: banner.error_stream,
        standard_stream: banner.standard_stream + report(snapshot, distro),
    }
}

/// Lays out the screen for a snapshot and a distribution.
pub fn compose(snapshot: &SystemSnapshot, distro: &DistroInfo) -> (screen: Screen)
    ensures
        screen@ == composed(snapshot@, distro@),
{
    let banner = banner_lines(resolve_banner(distro.id.as_str()));
    let mut lines = report_lines(snapshot, distro);
    let mut standard_stream = banner.standard_stream;
    let ghost before = standard_stream.deep_view();
    let ghost report_view = lines.deep_view();
    standard_stream.append(&mut lines);
    let screen = Screen { error_stream: banner.error_stream, standard_stream };
    assert(screen@.standard_stream =~= before + report_view);
    screen
}

/// Runs the whole pass on what was read of the host: builds the snapshot,
/// settles the distribution, selects the banner, lays out the screen and
/// paints it.
pub fn summarize(readings: ProbeReadings, descriptor: Option<DistroInfo>) -> (output: Output)
    requires
        is_summable(readings.volumes@),
    ensures
        is_rendered(
            output@,
            composed(collected(readings@), distro_or_unknown(descriptor_view(descriptor))),
        ),
{
    let snapshot = collect(readings);
    let distro = get_distro(descriptor);
    let screen = compose(&snapshot, &distro);
    render(&screen)
}

/// A supported distribution gets its art on the error stream and the
/// report alone on the standard stream; an unsupported one gets nothing on
/// the error stream and the notice before the report. No line of the
/// report is the notice.
pub proof fn lemma_banner_placement(snapshot: SystemSnapshotView, distro: DistroInfoView)
    ensures
        ({
            let banner = resolved_banner(distro.id);
            let screen = composed(snapshot, distro);
            let notice = seq![plain(UNSUPPORTED_NOTICE@)];
            &&& banner != Banner::Unsupported ==> {
                &&& screen.error_stream == seq![
                    seq![styled(banner.art_text().unwrap(), banner.art_style())],
                ]
                &&& screen.standard_stream == report(snapshot, distro)
            }
            &&& banner == Banner::Unsupported ==> {
                &&& screen.error_stream.len() == 0
                &&& screen.standard_stream == seq![notice] + report(snapshot, distro)
            }
            &&& report(snapshot, distro).len() == 8
            &&& forall|i: int| 0 <= i < 8 ==> #[trigger] report(snapshot, distro)[i] != notice
        }),
{
    let lines = report(snapshot, distro);
    let notice = seq![plain(UNSUPPORTED_NOTICE@)];
    lemma_report_lines(snapshot, distro);
    assert forall|i: int| 0 <= i < 8 implies #[trigger] lines[i] != notice by {
        assert(lines[i][0].style != notice[0].style);
    }
}

/// A host without a release descriptor still gets its report: it is laid
/// out for the unknown distribution, after the notice, with nothing on the
/// error stream.
pub proof fn lemma_missing_descriptor_still_reports(snapshot: SystemSnapshotView)
    ensures
        distro_or_unknown(None) == unknown_distro(),
        resolved_banner(unknown_distro().id) == Banner::Unsupported,
        composed(snapshot, unknown_distro()).error_stream.len() == 0,
        composed(snapshot, unknown_distro()).standard_stream == seq![
            seq![plain(UNSUPPORTED_NOTICE@)],
        ] + report(snapshot, unknown_distro()),
{
    reveal_strlit("unknown");
    reveal_strlit("arch");
    reveal_strlit("arcolinux");
    reveal_strlit("ubuntu");
    reveal_strlit("manjaro");
    lemma_arch_family(UNKNOWN_ID@);
    assert(to_ascii_lowercase(UNKNOWN_ID@).len() == 7);
    assert(UNKNOWN_ID@[0] != "manjaro"@[0]);
    lemma_banner_placement(snapshot, unknown_distro());
}

/// Two readings of one host agree on everything that does not change
/// while it runs: the names of host and user, the kernel, the processor
/// and its cores.
pub open spec fn same_host(first: ProbeReadingsView, second: ProbeReadingsView) -> bool {
    &&& first.host_name == second.host_name
    &&& first.kernel_version == second.kernel_version
    &&& first.cpu_brand == second.cpu_brand
    &&& first.physical_core_count == second.physical_core_count
    &&& first.username == second.username
}

/// Two passes over an unchanged host lay out the same banner and the same
/// lines for the user, the kernel, the distribution and the processor;
/// only the lines of uptime, memory and disk can differ, and the uptime
/// shown does not run backwards. Passes over the very same readings lay
/// out the very same screen.
pub proof fn lemma_rerun_is_stable(
    first: ProbeReadingsView,
    second: ProbeReadingsView,
    descriptor: Option<DistroInfoView>,
)
    requires
        same_host(first, second),
        first.uptime <= second.uptime,
    ensures
        ({
            let distro = distro_or_unknown(descriptor);
            let a = collected(first);
            let b = collected(second);
            &&& composed(a, distro).error_stream == composed(b, distro).error_stream
            &&& composed(a, distro).standard_stream.len() == composed(b, distro).standard_stream.len()
            &&& user_line(a) == user_line(b)
            &&& Field::Kernel.line(a, distro) == Field::Kernel.line(b, distro)
            &&& Field::Distro.line(a, distro) == Field::Distro.line(b, distro)
            &&& Field::Cpu.line(a, distro) == Field::Cpu.line(b, distro)
            &&& uptime_hours(a.uptime) <= uptime_hours(b.uptime)
            &&& uptime_hours(a.uptime) == uptime_hours(b.uptime) ==> uptime_minutes(a.uptime)
                <= uptime_minutes(b.uptime)
            &&& first == second ==> composed(a, distro) == composed(b, distro)
        }),
{
    lemma_uptime_split_monotonic(first.uptime, second.uptime);
}

} // verus!
