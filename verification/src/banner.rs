//! The banner of a distribution: which one an identifier selects, and the
//! art that goes with it.

use crate::paint::Style;
use crate::screen::{plain, styled, Screen, ScreenView, Span};
use crate::text::{
    eq_ignore_ascii_case, is_case_variant, lemma_case_variant_folds, str_eq, to_ascii_lowercase,
};
use vstd::prelude::*;

verus! {

/// The banners the program can show.
#[derive(Clone, Copy, Debug, PartialEq, Eq, Structural)]
pub enum Banner {
    Arch,
    Ubuntu,
    Manjaro,
    Unsupported,
}

/// The art shown for Arch and the distributions derived from it.
pub const ARCH_ART: &'static str = "       /\\
      /  \\
     /    \\
    /  /\\  \\
   /  /  \\  \\
  /  /    \\  \\
 /__/      \\__\\";

/// The art shown for Ubuntu.
pub const UBUNTU_ART: &'static str = "     .-----.
   .'  (_)  '.
  /  .-----.  \\
 (_) |     | (_)
  \\  '-----'  /
   '.  (_)  .'
     '-----'";

/// The art shown for Manjaro.
pub const MANJARO_ART: &'static str = " ########  ###
 ########  ###
 ###       ###
 ###  ###  ###
 ###  ###  ###
 ###  ###  ###
 ###  ###  ###";

/// The notice shown in place of a banner for any other distribution.
pub const UNSUPPORTED_NOTICE: &'static str = "Distro currently not supported!";

/// The identifiers of Arch and of the distributions derived from it.
pub const ARCH_BASED_DISTROS: [&'static str; 2] = ["arch", "arcolinux"];

/// The identifier names Arch or a distribution derived from it, in any
/// letter case: it is one of [`ARCH_BASED_DISTROS`] up to the case of its
/// letters.
pub open spec fn is_arch_alias(id: Seq<char>) -> bool {
    exists|i: int|
        0 <= i < ARCH_BASED_DISTROS@.len() && to_ascii_lowercase(id) == to_ascii_lowercase(
            (#[trigger] ARCH_BASED_DISTROS@[i])@,
        )
}

/// The banner that an identifier selects. The Arch family is looked at
/// first and in any letter case; Ubuntu and Manjaro are selected by their
/// exact identifiers only.
pub open spec fn resolved_banner(id: Seq<char>) -> Banner {
    if is_arch_alias(id) {
        Banner::Arch
    } else if id == "ubuntu"@ {
        Banner::Ubuntu
    } else if id == "manjaro"@ {
        Banner::Manjaro
    } else {
        Banner::Unsupported
    }
}

/// Tells whether an identifier names Arch or a distribution derived from it.
pub fn is_distro_arch_based(distroid: &str) -> (based: bool)
    ensures
        based == is_arch_alias(distroid@),
{
    let mut i: usize = 0;
    while i < ARCH_BASED_DISTROS.len()
        invariant
            0 <= i <= ARCH_BASED_DISTROS@.len(),
            forall|j: int|
                0 <= j < i ==> to_ascii_lowercase(distroid@) != to_ascii_lowercase(
                    (#[trigger] ARCH_BASED_DISTROS@[j])@,
                ),
        decreases ARCH_BASED_DISTROS@.len() - i,
    {
        if eq_ignore_ascii_case(distroid, ARCH_BASED_DISTROS[i]) {
            return true;
        }
        i = i + 1;
    }
    false
}

/// Selects the banner for a distribution identifier.
pub fn resolve_banner(distroid: &str) -> (banner: Banner)
    ensures
        banner == resolved_banner(distroid@),
{
    if is_distro_arch_based(distroid) {
        Banner::Arch
    } else if str_eq(distroid, "ubuntu") {
        Banner::Ubuntu
    } else if str_eq(distroid, "manjaro") {
        Banner::Manjaro
    } else {
        Banner::Unsupported
    }
}

/// The Arch family spelled out: an identifier belongs to it exactly when,
/// with its capital letters made small, it reads "arch" or "arcolinux".
pub proof fn lemma_arch_family(id: Seq<char>)
    ensures
        is_arch_alias(id) <==> to_ascii_lowercase(id) == "arch"@ || to_ascii_lowercase(id)
            == "arcolinux"@,
{
    reveal_strlit("arch");
    reveal_strlit("arcolinux");
    assert(to_ascii_lowercase(ARCH_BASED_DISTROS@[0]@) =~= "arch"@);
    assert(to_ascii_lowercase(ARCH_BASED_DISTROS@[1]@) =~= "arcolinux"@);
}

/// Every spelling of "arch" or "arcolinux", in any letter case, selects
/// the Arch banner.
pub proof fn lemma_arch_family_in_any_case(id: Seq<char>)
    requires
        is_case_variant(id, "arch"@) || is_case_variant(id, "arcolinux"@),
    ensures
        is_arch_alias(id),
        resolved_banner(id) == Banner::Arch,
{
    reveal_strlit("arch");
    reveal_strlit("arcolinux");
    if is_case_variant(id, "arch"@) {
        lemma_case_variant_folds(id, "arch"@);
    } else {
        lemma_case_variant_folds(id, "arcolinux"@);
    }
    lemma_arch_family(id);
}

/// Only the exact identifier "ubuntu" selects the Ubuntu banner; every
/// other spelling of it, in whatever letter case, is unsupported.
pub proof fn lemma_ubuntu_is_exact(id: Seq<char>)
    ensures
        resolved_banner(id) == Banner::Ubuntu <==> id == "ubuntu"@,
        is_case_variant(id, "ubuntu"@) && id != "ubuntu"@ ==> resolved_banner(id)
            == Banner::Unsupported,
{
    reveal_strlit("arch");
    reveal_strlit("arcolinux");
    reveal_strlit("ubuntu");
    reveal_strlit("manjaro");
    lemma_arch_family(id);
    assert(to_ascii_lowercase(id).len() == id.len());
}

/// Only the exact identifier "manjaro" selects the Manjaro banner.
pub proof fn lemma_manjaro_is_exact(id: Seq<char>)
    ensures
        resolved_banner(id) == Banner::Manjaro <==> id == "manjaro"@,
{
    reveal_strlit("arch");
    reveal_strlit("arcolinux");
    reveal_strlit("ubuntu");
    reveal_strlit("manjaro");
    lemma_arch_family(id);
    assert(to_ascii_lowercase(id).len() == id.len());
}

/// Apart from the identifier of Manjaro, whatever is neither "ubuntu" nor
/// of the Arch family is unsupported.
pub proof fn lemma_others_are_unsupported(id: Seq<char>)
    requires
        id != "manjaro"@,
    ensures
        id != "ubuntu"@ && !is_arch_alias(id) ==> resolved_banner(id) == Banner::Unsupported,
{
}

/// The Arch family is looked at first: an identifier of the family selects
/// the Arch banner whatever else it may match, and every identifier
/// selects exactly one banner.
pub proof fn lemma_arch_family_first(id: Seq<char>)
    ensures
        resolved_banner(id) == Banner::Arch <==> is_arch_alias(id),
        resolved_banner(id) == Banner::Unsupported <==> !is_arch_alias(id) && id != "ubuntu"@ && id
            != "manjaro"@,
{
}

impl Banner {
    /// The art of a banner; there is none for an unsupported distribution.
    pub open spec fn art_text(self) -> Option<Seq<char>> {
        match self {
            Banner::Arch => Some(ARCH_ART@),
            Banner::Ubuntu => Some(UBUNTU_ART@),
            Banner::Manjaro => Some(MANJARO_ART@),
            Banner::Unsupported => None,
        }
    }

    /// The style a banner's art is painted in.
    pub open spec fn art_style(self) -> Style {
        match self {
            Banner::Arch => Style::BoldGreen,
            Banner::Ubuntu => Style::BoldRed,
            Banner::Manjaro => Style::BoldGreen,
            Banner::Unsupported => Style::Plain,
        }
    }

    /// The art of this banner, if it has any.
    pub fn art(self) -> (art: Option<&'static str>)
        ensures
            art is Some <==> self != Banner::Unsupported,
            match art {
                Some(text) => self.art_text() == Some(text@),
                None => self.art_text() is None,
            },
    {
        match self {
            Banner::Arch => Some(ARCH_ART),
            Banner::Ubuntu => Some(UBUNTU_ART),
            Banner::Manjaro => Some(MANJARO_ART),
            Banner::Unsupported => None,
        }
    }

    /// The style this banner's art is painted in.
    pub fn style(self) -> (style: Style)
        ensures
            style == self.art_style(),
    {
        match self {
            Banner::Arch => Style::BoldGreen,
            Banner::Ubuntu => Style::BoldRed,
            Banner::Manjaro => Style::BoldGreen,
            Banner::Unsupported => Style::Plain,
        }
    }
}

/// What a banner puts on the two streams: its art, in its style, on the
/// error stream; or, for an unsupported distribution, nothing there and
/// the notice on the standard stream.
pub open spec fn banner_screen(banner: Banner) -> ScreenView {
    match banner.art_text() {
        Some(art) => ScreenView {
            error_stream: seq![seq![styled(art, banner.art_style())]],
            standard_stream: seq![],
        },
        None => ScreenView {
            error_stream: seq![],
            standard_stream: seq![seq![plain(UNSUPPORTED_NOTICE@)]],
        },
    }
}

/// Lays out what a banner puts on the two streams.
pub fn banner_lines(banner: Banner) -> (screen: Screen)
    ensures
        screen@ == banner_screen(banner),
        banner == Banner::Unsupported <==> screen.error_stream.len() == 0,
        banner != Banner::Unsupported <==> screen.standard_stream.len() == 0,
{
    let mut error_stream: Vec<Vec<Span>> = Vec::new();
    let mut standard_stream: Vec<Vec<Span>> = Vec::new();
    let mut line: Vec<Span> = Vec::new();
    match banner.art() {
        Some(art) => {
            line.push(Span { text: String::from_str(art), style: banner.style() });
            assert(line.deep_view() =~= seq![styled(art@, banner.art_style())]);
            error_stream.push(line);
        },
        None => {
            line.push(Span { text: String::from_str(UNSUPPORTED_NOTICE), style: Style::Plain });
            assert(line.deep_view() =~= seq![plain(UNSUPPORTED_NOTICE@)]);
            standard_stream.push(line);
        },
    }
    let screen = Screen { error_stream, standard_stream };
    assert(screen@.error_stream =~= banner_screen(banner).error_stream);
    assert(screen@.standard_stream =~= banner_screen(banner).standard_stream);
    screen
}

} // verus!
