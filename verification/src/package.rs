//! Package records: read-only snapshots of what a package database holds.
//!
//! A record copies the strings and lists that the rest of the library reads;
//! nothing here is written back to a database.

use crate::types::{DepInstalled, DepInstalledView};
use vstd::prelude::*;

verus! {

/// Why an installed package is on the system.
#[derive(Clone, Copy, Debug, PartialEq, Eq, Structural)]
pub enum PackageReason {
    /// The user asked for it.
    Explicit,
    /// It was pulled in to satisfy another package's dependency.
    Depend,
}

/// The view of an optional string.
pub open spec fn opt_view(s: Option<String>) -> Option<Seq<char>> {
    match s {
        Some(s) => Some(s@),
        None => None,
    }
}

/// A declared dependency, with the package database's answer to the question
/// which installed package satisfies it.
#[derive(Clone, Debug, PartialEq, Eq)]
pub struct Dep {
    /// The name that is depended on.
    pub name: String,
    /// The declared version constraint as the screen shows it; `None` where
    /// none is declared. The text is written after the name as it stands: it
    /// holds the required version, and before it the comparison operator only
    /// where the operator is to be shown too.
    pub version: Option<String>,
    /// What the dependency is for, where the package says so.
    pub desc: Option<String>,
    /// The name of the installed package that satisfies the dependency, by its
    /// own name or by what it provides; `None` where no installed package does.
    pub satisfier: Option<String>,
}

/// The mathematical value of a [`Dep`].
pub struct DepView {
    pub name: Seq<char>,
    pub version: Option<Seq<char>>,
    pub desc: Option<Seq<char>>,
    pub satisfier: Option<Seq<char>>,
}

impl View for Dep {
    type V = DepView;

    open spec fn view(&self) -> DepView {
        DepView {
            name: self.name@,
            version: opt_view(self.version),
            desc: opt_view(self.desc),
            satisfier: opt_view(self.satisfier),
        }
    }
}

impl DepView {
    /// How the dependency stands against what is installed: satisfied by a
    /// package of its own name, by a package of another name, or not at all.
    pub open spec fn installed(self) -> DepInstalledView {
        match self.satisfier {
            Some(provider) => if provider == self.name {
                DepInstalledView::Installed
            } else {
                DepInstalledView::SatisfiedBy(provider)
            },
            None => DepInstalledView::NotSatisfied,
        }
    }

    /// The description as it is shown: empty where there is none.
    pub open spec fn shown_desc(self) -> Seq<char> {
        match self.desc {
            Some(desc) => desc,
            None => Seq::empty(),
        }
    }
}

impl Dep {
    /// Classifies the dependency against what is installed.
    pub fn installed(&self) -> (state: DepInstalled<'_>)
        ensures
            state@ == self@.installed(),
    {
        match &self.satisfier {
            Some(provider) => {
                if *provider == self.name {
                    DepInstalled::Installed
                } else {
                    DepInstalled::SatisfiedBy(provider.as_str())
                }
            },
            None => DepInstalled::NotSatisfied,
        }
    }
}

/// The three classes of a dependency. One that an installed package of its
/// own name satisfies is installed. One that an installed package of another
/// name satisfies is satisfied by that package, whose name is kept. One that
/// no installed package satisfies is not satisfied.
pub proof fn lemma_dep_installed_cases(dep: DepView)
    ensures
        dep.satisfier == Some(dep.name) ==> dep.installed() == DepInstalledView::Installed,
        dep.satisfier matches Some(provider) ==> provider != dep.name ==> dep.installed()
            == DepInstalledView::SatisfiedBy(provider),
        dep.satisfier is None ==> dep.installed() == DepInstalledView::NotSatisfied,
{
}

/// The views of a list of dependencies, in the list's order.
pub open spec fn dep_views(deps: Seq<Dep>) -> Seq<DepView> {
    Seq::new(deps.len(), |i: int| deps[i]@)
}

/// One package as a database holds it.
#[derive(Clone, Debug, PartialEq, Eq)]
pub struct Package {
    pub name: String,
    pub version: String,
    /// A description for readers, where the package has one.
    pub desc: Option<String>,
    /// Why the package is installed; read for installed packages only.
    pub reason: PackageReason,
    /// The required dependencies, in the order of their declaration.
    pub depends: Vec<Dep>,
    /// The optional dependencies, in the order of their declaration.
    pub optdepends: Vec<Dep>,
    /// The repository that the record comes from; `None` for a record that
    /// only the local database holds.
    pub db: Option<String>,
}

/// The mathematical value of a [`Package`].
pub struct PackageView {
    pub name: Seq<char>,
    pub version: Seq<char>,
    pub desc: Option<Seq<char>>,
    pub reason: PackageReason,
    pub depends: Seq<DepView>,
    pub optdepends: Seq<DepView>,
    pub db: Option<Seq<char>>,
}

impl View for Package {
    type V = PackageView;

    open spec fn view(&self) -> PackageView {
        PackageView {
            name: self.name@,
            version: self.version@,
            desc: opt_view(self.desc),
            reason: self.reason,
            depends: dep_views(self.depends@),
            optdepends: dep_views(self.optdepends@),
            db: opt_view(self.db),
        }
    }
}

/// The views of a list of packages, in the list's order.
pub open spec fn package_views(pkgs: Seq<Package>) -> Seq<PackageView> {
    Seq::new(pkgs.len(), |i: int| pkgs[i]@)
}

/// Whether some record in `pkgs` has the name `name`.
pub open spec fn has_name(pkgs: Seq<PackageView>, name: Seq<char>) -> bool {
    exists|i: int| 0 <= i < pkgs.len() && #[trigger] pkgs[i].name == name
}

/// Whether `pkgs[i]` is the first record of the name `name`.
pub open spec fn is_first_named(pkgs: Seq<PackageView>, name: Seq<char>, i: int) -> bool {
    &&& 0 <= i < pkgs.len()
    &&& pkgs[i].name == name
    &&& forall|j: int| 0 <= j < i ==> #[trigger] pkgs[j].name != name
}

/// The first record in `pkgs` whose name is exactly `name`.
pub open spec fn pkg_named(pkgs: Seq<PackageView>, name: Seq<char>) -> Option<PackageView>
    decreases pkgs.len(),
{
    if pkgs.len() == 0 {
        None
    } else if pkgs[0].name == name {
        Some(pkgs[0])
    } else {
        pkg_named(pkgs.drop_first(), name)
    }
}

/// A lookup finds a record exactly when one of the name exists, and what it
/// finds is the first such record.
pub proof fn lemma_pkg_named(pkgs: Seq<PackageView>, name: Seq<char>)
    ensures
        pkg_named(pkgs, name) is Some <==> has_name(pkgs, name),
        pkg_named(pkgs, name) matches Some(p) ==> p.name == name && exists|i: int|
            is_first_named(pkgs, name, i) && pkgs[i] == p,
    decreases pkgs.len(),
{
    if pkgs.len() > 0 && pkgs[0].name == name {
        assert(is_first_named(pkgs, name, 0));
    } else if pkgs.len() > 0 {
        let rest = pkgs.drop_first();
        lemma_pkg_named(rest, name);
        if has_name(pkgs, name) {
            let i = choose|i: int| 0 <= i < pkgs.len() && #[trigger] pkgs[i].name == name;
            assert(rest[i - 1].name == name);
        }
        if has_name(rest, name) {
            let i = choose|i: int| 0 <= i < rest.len() && #[trigger] rest[i].name == name;
            assert(pkgs[i + 1].name == name);
        }
        if pkg_named(rest, name) is Some {
            let i = choose|i: int|
                is_first_named(rest, name, i) && rest[i] == pkg_named(rest, name)->0;
            assert forall|j: int| 0 <= j < i + 1 implies #[trigger] pkgs[j].name != name by {
                if j > 0 {
                    assert(rest[j - 1].name != name);
                }
            }
            assert(is_first_named(pkgs, name, i + 1));
        }
    }
}

/// The packages of one database: the installed ones, or those of a repository.
#[derive(Clone, Debug, PartialEq, Eq)]
pub struct Db {
    pub pkgs: Vec<Package>,
}

impl View for Db {
    type V = Seq<PackageView>;

    open spec fn view(&self) -> Seq<PackageView> {
        package_views(self.pkgs@)
    }
}

impl Db {
    /// Looks a package up by its exact name.
    pub fn pkg(&self, name: &str) -> (found: Option<&Package>)
        ensures
            match found {
                Some(p) => pkg_named(self@, name@) == Some(p@),
                None => pkg_named(self@, name@) is None,
            },
    {
        let key = name.to_owned();
        let n = self.pkgs.len();
        let mut i: usize = 0;
        assert(self@.skip(0) =~= self@);
        while i < n
            invariant
                n == self.pkgs@.len(),
                i <= n,
                key@ == name@,
                pkg_named(self@, name@) == pkg_named(self@.skip(i as int), name@),
            decreases n - i,
        {
            let p = &self.pkgs[i];
            if p.name == key {
                return Some(p);
            }
            assert(self@.skip(i as int).drop_first() =~= self@.skip(i + 1));
            i += 1;
        }
        None
    }
}

} // verus!
