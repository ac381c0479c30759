//! Classification results shown next to a package or a dependency.

use vstd::prelude::*;

verus! {

/// Whether the package on display is installed, and at the displayed version.
#[derive(Clone, Copy, Debug, PartialEq, Eq, Structural)]
pub enum Installed {
    /// A local record exists and its version string equals the displayed one.
    Installed,
    /// A local record exists, at another version.
    Outdated,
    /// No local record exists.
    NotInstalled,
}

/// Whether a dependency is met by what is installed.
#[derive(Clone, Copy, Debug, PartialEq, Eq)]
pub enum DepInstalled<'a> {
    /// An installed package of the dependency's own name meets it.
    Installed,
    /// An installed package of another name meets it; the name is carried.
    SatisfiedBy(&'a str),
    /// No installed package meets it.
    NotSatisfied,
}

/// The mathematical value of a [`DepInstalled`].
pub enum DepInstalledView {
    Installed,
    SatisfiedBy(Seq<char>),
    NotSatisfied,
}

impl<'a> View for DepInstalled<'a> {
    type V = DepInstalledView;

    open spec fn view(&self) -> DepInstalledView {
        match *self {
            DepInstalled::Installed => DepInstalledView::Installed,
            DepInstalled::SatisfiedBy(provider) => DepInstalledView::SatisfiedBy(provider@),
            DepInstalled::NotSatisfied => DepInstalledView::NotSatisfied,
        }
    }
}

} // verus!
