//! The identity of the distribution the host runs.

use vstd::prelude::*;

verus! {

/// The identifier of a distribution whose release descriptor could not be
/// had.
pub const UNKNOWN_ID: &'static str = "unknown";

/// The display name of a distribution whose release descriptor could not
/// be had.
pub const UNKNOWN_NAME: &'static str = "Unknown";

/// A distribution: its short identifier and its display name.
#[derive(Clone, Debug, PartialEq, Eq)]
pub struct DistroInfo {
    pub id: String,
    pub name: String,
}

/// The mathematical value of a [`DistroInfo`].
pub struct DistroInfoView {
    pub id: Seq<char>,
    pub name: Seq<char>,
}

impl View for DistroInfo {
    type V = DistroInfoView;

    open spec fn view(&self) -> DistroInfoView {
        DistroInfoView { id: self.id@, name: self.name@ }
    }
}

/// The distribution that stands in when nothing is known.
pub open spec fn unknown_distro() -> DistroInfoView {
    DistroInfoView { id: UNKNOWN_ID@, name: UNKNOWN_NAME@ }
}

/// The distribution that a release descriptor yields: the one it holds,
/// or the unknown one when the descriptor is absent or could not be
/// parsed.
pub open spec fn distro_or_unknown(descriptor: Option<DistroInfoView>) -> DistroInfoView {
    match descriptor {
        Some(distro) => distro,
        None => unknown_distro(),
    }
}

/// The view of an optional distribution.
pub open spec fn descriptor_view(descriptor: Option<DistroInfo>) -> Option<DistroInfoView> {
    match descriptor {
        Some(distro) => Some(distro@),
        None => None,
    }
}

impl DistroInfo {
    /// The distribution that stands in when nothing is known.
    pub fn unknown() -> (distro: DistroInfo)
        ensures
            distro@ == unknown_distro(),
    {
        DistroInfo { id: String::from_str(UNKNOWN_ID), name: String::from_str(UNKNOWN_NAME) }
    }
}

/// Turns what was read of the release descriptor into a distribution.
/// A descriptor that is absent or could not be parsed gives the unknown
/// distribution; it is never an error.
pub fn get_distro(descriptor: Option<DistroInfo>) -> (distro: DistroInfo)
    ensures
        distro@ == distro_or_unknown(descriptor_view(descriptor)),
        descriptor is None ==> distro@ == unknown_distro(),
{
    match descriptor {
        Some(distro) => distro,
        None => DistroInfo::unknown(),
    }
}

} // verus!
