//! The snapshot of the host: what the probe read, with every gap filled.

use crate::disk::{
    get_total_disk_space, get_used_disk_space, is_summable, lemma_used_within_total,
    total_space_sum, used_space_sum, Volume,
};
use vstd::prelude::*;

verus! {

/// The text that stands in for a text the probe could not read.
pub const UNKNOWN_TEXT: &'static str = "Unknown";

/// The core count that stands in for one the probe could not read.
pub const DEFAULT_CORE_COUNT: usize = 1;

/// What the probe read from the host, as it came: a field the host did
/// not yield is `None`.
#[derive(Clone, Debug, PartialEq, Eq)]
pub struct ProbeReadings {
    pub host_name: Option<String>,
    pub kernel_version: Option<String>,
    pub cpu_brand: String,
    pub physical_core_count: Option<usize>,
    /// Memory in use, in kibibytes.
    pub used_memory: u64,
    /// Memory in all, in kibibytes.
    pub total_memory: u64,
    /// Every mounted volume.
    pub volumes: Vec<Volume>,
    /// Uptime in whole seconds.
    pub uptime: u64,
    pub username: String,
}

/// The mathematical value of [`ProbeReadings`].
pub struct ProbeReadingsView {
    pub host_name: Option<Seq<char>>,
    pub kernel_version: Option<Seq<char>>,
    pub cpu_brand: Seq<char>,
    pub physical_core_count: Option<nat>,
    pub used_memory: nat,
    pub total_memory: nat,
    pub volumes: Seq<Volume>,
    pub uptime: nat,
    pub username: Seq<char>,
}

/// The view of a text that may be missing.
pub open spec fn optional_text(text: Option<String>) -> Option<Seq<char>> {
    match text {
        Some(t) => Some(t@),
        None => None,
    }
}

impl View for ProbeReadings {
    type V = ProbeReadingsView;

    open spec fn view(&self) -> ProbeReadingsView {
        ProbeReadingsView {
            host_name: optional_text(self.host_name),
            kernel_version: optional_text(self.kernel_version),
            cpu_brand: self.cpu_brand@,
            physical_core_count: match self.physical_core_count {
                Some(n) => Some(n as nat),
                None => None,
            },
            used_memory: self.used_memory as nat,
            total_memory: self.total_memory as nat,
            volumes: self.volumes@,
            uptime: self.uptime as nat,
            username: self.username@,
        }
    }
}

/// A point-in-time capture of the host, with no field missing.
#[derive(Clone, Debug, PartialEq, Eq)]
pub struct SystemSnapshot {
    pub hostname: String,
    /// Uptime in whole seconds.
    pub uptime: u64,
    pub kernel_version: String,
    pub cpu_brand: String,
    /// Physical cores; at least one.
    pub core_count: usize,
    /// Memory in use, in kibibytes.
    pub used_memory: u64,
    /// Memory in all, in kibibytes.
    pub total_memory: u64,
    /// Disk space in use over all volumes, in bytes.
    pub used_disk: u64,
    /// Disk space in all over all volumes, in bytes.
    pub total_disk: u64,
    pub username: String,
}

/// The mathematical value of a [`SystemSnapshot`].
pub struct SystemSnapshotView {
    pub hostname: Seq<char>,
    pub uptime: nat,
    pub kernel_version: Seq<char>,
    pub cpu_brand: Seq<char>,
    pub core_count: nat,
    pub used_memory: nat,
    pub total_memory: nat,
    pub used_disk: nat,
    pub total_disk: nat,
    pub username: Seq<char>,
}

impl SystemSnapshotView {
    /// A snapshot counts at least one core and uses no more disk space
    /// than there is.
    pub open spec fn is_well_formed(self) -> bool {
        self.core_count >= 1 && self.used_disk <= self.total_disk
    }
}

impl View for SystemSnapshot {
    type V = SystemSnapshotView;

    open spec fn view(&self) -> SystemSnapshotView {
        SystemSnapshotView {
            hostname: self.hostname@,
            uptime: self.uptime as nat,
            kernel_version: self.kernel_version@,
            cpu_brand: self.cpu_brand@,
            core_count: self.core_count as nat,
            used_memory: self.used_memory as nat,
            total_memory: self.total_memory as nat,
            used_disk: self.used_disk as nat,
            total_disk: self.total_disk as nat,
            username: self.username@,
        }
    }
}

/// A text as read, or the stand-in when it is missing.
pub open spec fn text_or_unknown(text: Option<Seq<char>>) -> Seq<char> {
    match text {
        Some(t) => t,
        None => UNKNOWN_TEXT@,
    }
}

/// A core count as read, or one when it is missing or zero.
pub open spec fn cores_or_default(count: Option<nat>) -> nat {
    match count {
        Some(n) => if n >= 1 {
            n
        } else {
            1
        },
        None => 1,
    }
}

/// The snapshot that a set of readings gives.
pub open spec fn collected(readings: ProbeReadingsView) -> SystemSnapshotView {
    SystemSnapshotView {
        hostname: text_or_unknown(readings.host_name),
        uptime: readings.uptime,
        kernel_version: text_or_unknown(readings.kernel_version),
        cpu_brand: readings.cpu_brand,
        core_count: cores_or_default(readings.physical_core_count),
        used_memory: readings.used_memory,
        total_memory: readings.total_memory,
        used_disk: used_space_sum(readings.volumes) as nat,
        total_disk: total_space_sum(readings.volumes) as nat,
        username: readings.username,
    }
}

/// Fills in a text that the probe could not read.
pub fn or_unknown(text: Option<String>) -> (out: String)
    ensures
        out@ == text_or_unknown(optional_text(text)),
{
    match text {
        Some(t) => t,
        None => String::from_str(UNKNOWN_TEXT),
    }
}

/// Fills in a core count that the probe could not read, or read as zero.
pub fn or_default_cores(count: Option<usize>) -> (cores: usize)
    ensures
        cores >= 1,
        cores == cores_or_default(
            match count {
                Some(n) => Some(n as nat),
                None => None,
            },
        ),
{
    match count {
        Some(n) => if n >= 1 {
            n
        } else {
            DEFAULT_CORE_COUNT
        },
        None => DEFAULT_CORE_COUNT,
    }
}

/// Builds the snapshot from what the probe read: fills every gap with its
/// stand-in and sums the disk space over the volumes.
pub fn collect(readings: ProbeReadings) -> (snapshot: SystemSnapshot)
    requires
        is_summable(readings.volumes@),
    ensures
        snapshot@ == collected(readings@),
        snapshot@.is_well_formed(),
{
    proof {
        lemma_used_within_total(readings.volumes@);
    }
    let used_disk: u64 = get_used_disk_space(readings.volumes.as_slice());
    let total_disk: u64 = get_total_disk_space(readings.volumes.as_slice());
    SystemSnapshot {
        hostname: or_unknown(readings.host_name),
        uptime: readings.uptime,
        kernel_version: or_unknown(readings.kernel_version),
        cpu_brand: readings.cpu_brand,
        core_count: or_default_cores(readings.physical_core_count),
        used_memory: readings.used_memory,
        total_memory: readings.total_memory,
        used_disk,
        total_disk,
        username: readings.username,
    }
}

} // verus!
