//! Finding a package by name: in the installed packages and in the
//! repositories, in the order of their priority.

use crate::package::{has_name, lemma_pkg_named, pkg_named, Db, Package, PackageView};
use crate::types::Installed;
use vstd::prelude::*;

verus! {

/// The installed packages and the repositories, the latter in the order in
/// which they were registered: an earlier repository takes precedence.
#[derive(Clone, Debug, PartialEq, Eq)]
pub struct Database {
    pub local: Db,
    pub syncs: Vec<Db>,
}

/// The mathematical value of a [`Database`].
pub struct DatabaseView {
    pub local: Seq<PackageView>,
    pub syncs: Seq<Seq<PackageView>>,
}

/// The views of a list of repositories, in the list's order.
pub open spec fn db_views(dbs: Seq<Db>) -> Seq<Seq<PackageView>> {
    Seq::new(dbs.len(), |i: int| dbs[i]@)
}

impl View for Database {
    type V = DatabaseView;

    open spec fn view(&self) -> DatabaseView {
        DatabaseView { local: self.local@, syncs: db_views(self.syncs@) }
    }
}

/// A package as a repository holds it, together with the installed package of
/// the same name, if there is one.
#[derive(Clone, Copy, Debug, PartialEq, Eq)]
pub struct PackageExtra<'a> {
    pub sync_pkg: &'a Package,
    pub local_pkg: Option<&'a Package>,
}

/// The mathematical value of a [`PackageExtra`].
pub struct PackageExtraView {
    pub sync_pkg: PackageView,
    pub local_pkg: Option<PackageView>,
}

impl<'a> View for PackageExtra<'a> {
    type V = PackageExtraView;

    open spec fn view(&self) -> PackageExtraView {
        PackageExtraView {
            sync_pkg: self.sync_pkg@,
            local_pkg: match self.local_pkg {
                Some(p) => Some(p@),
                None => None,
            },
        }
    }
}

impl PackageExtraView {
    /// Both records, where there are two, denote the same package.
    pub open spec fn wf(self) -> bool {
        self.local_pkg matches Some(local) ==> local.name == self.sync_pkg.name
    }

    /// Whether the package is installed, and at the version on display. The
    /// version strings are compared as they stand: an installed version that
    /// differs in any way, a newer one too, is reported as outdated.
    pub open spec fn installed(self) -> Installed {
        match self.local_pkg {
            Some(local) => if local.version == self.sync_pkg.version {
                Installed::Installed
            } else {
                Installed::Outdated
            },
            None => Installed::NotInstalled,
        }
    }
}

impl<'a> PackageExtra<'a> {
    /// Classifies the package by its installed version.
    pub fn installed(&self) -> (state: Installed)
        ensures
            state == self@.installed(),
    {
        match self.local_pkg {
            Some(ip) => {
                if ip.version == self.sync_pkg.version {
                    Installed::Installed
                } else {
                    Installed::Outdated
                }
            },
            None => Installed::NotInstalled,
        }
    }
}

/// Whether some repository in `syncs` holds a package of the name `name`.
pub open spec fn some_sync_has_name(syncs: Seq<Seq<PackageView>>, name: Seq<char>) -> bool {
    exists|k: int| 0 <= k < syncs.len() && has_name(#[trigger] syncs[k], name)
}

/// The package of the name `name` in the first repository that holds one.
pub open spec fn first_sync_pkg(syncs: Seq<Seq<PackageView>>, name: Seq<char>) -> Option<
    PackageView,
>
    decreases syncs.len(),
{
    if syncs.len() == 0 {
        None
    } else {
        match pkg_named(syncs[0], name) {
            Some(p) => Some(p),
            None => first_sync_pkg(syncs.drop_first(), name),
        }
    }
}

/// What a lookup of `name` in `db` yields. The first repository that holds
/// the name gives the record on display, paired with the installed record if
/// there is one. Where no repository holds the name, an installed record
/// stands for both. `None` means that the name is found nowhere.
pub open spec fn resolve(db: DatabaseView, name: Seq<char>) -> Option<PackageExtraView> {
    let local = pkg_named(db.local, name);
    match first_sync_pkg(db.syncs, name) {
        Some(sync) => Some(PackageExtraView { sync_pkg: sync, local_pkg: local }),
        None => match local {
            Some(installed) => Some(
                PackageExtraView { sync_pkg: installed, local_pkg: Some(installed) },
            ),
            None => None,
        },
    }
}

/// Look for a package with a given name within the local installed packages
/// and in all of the repositories.
pub fn find_pkg_with_name<'a>(pkg_name: &str, db: &'a Database) -> (found: Option<PackageExtra<'a>>)
    ensures
        match found {
            Some(pkg) => resolve(db@, pkg_name@) == Some(pkg@) && pkg@.wf(),
            None => resolve(db@, pkg_name@) is None,
        },
{
    let installed_pkg = db.local.pkg(pkg_name);
    let n = db.syncs.len();
    let mut i: usize = 0;
    proof {
        lemma_found_iff_held(db@, pkg_name@);
        assert(db@.syncs.skip(0) =~= db@.syncs);
    }
    while i < n
        invariant
            n == db.syncs@.len(),
            i <= n,
            match installed_pkg {
                Some(p) => pkg_named(db@.local, pkg_name@) == Some(p@),
                None => pkg_named(db@.local, pkg_name@) is None,
            },
            first_sync_pkg(db@.syncs, pkg_name@) == first_sync_pkg(
                db@.syncs.skip(i as int),
                pkg_name@,
            ),
            resolve(db@, pkg_name@) matches Some(pkg) ==> pkg.wf(),
        decreases n - i,
    {
        if let Some(pkg) = db.syncs[i].pkg(pkg_name) {
            return Some(PackageExtra { local_pkg: installed_pkg, sync_pkg: pkg });
        }
        assert(db@.syncs.skip(i as int).drop_first() =~= db@.syncs.skip(i + 1));
        i += 1;
    }
    match installed_pkg {
        Some(x) => Some(PackageExtra { local_pkg: Some(x), sync_pkg: x }),
        None => None,
    }
}

/// A search of the repositories finds a record exactly when one of them holds
/// the name, and what it finds has the name.
pub proof fn lemma_first_sync_pkg(syncs: Seq<Seq<PackageView>>, name: Seq<char>)
    ensures
        first_sync_pkg(syncs, name) is Some <==> some_sync_has_name(syncs, name),
        first_sync_pkg(syncs, name) matches Some(p) ==> p.name == name,
    decreases syncs.len(),
{
    if syncs.len() > 0 {
        let rest = syncs.drop_first();
        lemma_pkg_named(syncs[0], name);
        lemma_first_sync_pkg(rest, name);
        if some_sync_has_name(rest, name) {
            let k = choose|k: int| 0 <= k < rest.len() && has_name(#[trigger] rest[k], name);
            assert(has_name(syncs[k + 1], name));
        }
        if some_sync_has_name(syncs, name) && !has_name(syncs[0], name) {
            let k = choose|k: int| 0 <= k < syncs.len() && has_name(#[trigger] syncs[k], name);
            assert(has_name(rest[k - 1], name));
        }
    }
}

/// Only the first repository that holds the name is read: the record found is
/// the one that a lookup in that repository gives.
pub proof fn lemma_first_sync_wins(syncs: Seq<Seq<PackageView>>, name: Seq<char>, k: int)
    requires
        0 <= k < syncs.len(),
        has_name(syncs[k], name),
        forall|j: int| 0 <= j < k ==> !has_name(#[trigger] syncs[j], name),
    ensures
        first_sync_pkg(syncs, name) == pkg_named(syncs[k], name),
    decreases k,
{
    lemma_pkg_named(syncs[0], name);
    if k > 0 {
        let rest = syncs.drop_first();
        assert forall|j: int| 0 <= j < k - 1 implies !has_name(#[trigger] rest[j], name) by {
            assert(rest[j] == syncs[j + 1]);
        }
        lemma_first_sync_wins(rest, name, k - 1);
    }
}

/// A name that neither the installed packages nor any repository holds is
/// not found.
pub proof fn lemma_absent_is_not_found(db: DatabaseView, name: Seq<char>)
    requires
        !has_name(db.local, name),
        !some_sync_has_name(db.syncs, name),
    ensures
        resolve(db, name) is None,
{
    lemma_pkg_named(db.local, name);
    lemma_first_sync_pkg(db.syncs, name);
}

/// A name is found exactly when the installed packages or some repository
/// hold it, and what is found has that name in both of its records.
pub proof fn lemma_found_iff_held(db: DatabaseView, name: Seq<char>)
    ensures
        resolve(db, name) is Some <==> has_name(db.local, name) || some_sync_has_name(
            db.syncs,
            name,
        ),
        resolve(db, name) matches Some(pkg) ==> pkg.wf() && pkg.sync_pkg.name == name,
{
    lemma_pkg_named(db.local, name);
    lemma_first_sync_pkg(db.syncs, name);
}

/// A package that exactly one repository holds and that is not installed is
/// found as that repository has it, and classified as not installed.
pub proof fn lemma_remote_only_is_not_installed(db: DatabaseView, name: Seq<char>, k: int)
    requires
        !has_name(db.local, name),
        0 <= k < db.syncs.len(),
        has_name(db.syncs[k], name),
        forall|j: int|
            0 <= j < db.syncs.len() && j != k ==> !has_name(#[trigger] db.syncs[j], name),
    ensures
        resolve(db, name) == Some(
            PackageExtraView { sync_pkg: pkg_named(db.syncs[k], name)->0, local_pkg: None },
        ),
        resolve(db, name)->0.installed() == Installed::NotInstalled,
{
    lemma_pkg_named(db.local, name);
    lemma_pkg_named(db.syncs[k], name);
    lemma_first_sync_wins(db.syncs, name, k);
}

/// A package that is installed and that some repository holds is classified
/// by the two version strings: installed where they are equal, outdated
/// where they differ.
pub proof fn lemma_installed_or_outdated(db: DatabaseView, name: Seq<char>)
    requires
        has_name(db.local, name),
        some_sync_has_name(db.syncs, name),
    ensures
        resolve(db, name) == Some(
            PackageExtraView {
                sync_pkg: first_sync_pkg(db.syncs, name)->0,
                local_pkg: pkg_named(db.local, name),
            },
        ),
        pkg_named(db.local, name) is Some,
        pkg_named(db.local, name)->0.version == first_sync_pkg(db.syncs, name)->0.version
            ==> resolve(db, name)->0.installed() == Installed::Installed,
        pkg_named(db.local, name)->0.version != first_sync_pkg(db.syncs, name)->0.version
            ==> resolve(db, name)->0.installed() == Installed::Outdated,
{
    lemma_pkg_named(db.local, name);
    lemma_first_sync_pkg(db.syncs, name);
}

/// A package that is installed and that no repository holds is still found:
/// the installed record stands for both records.
pub proof fn lemma_local_only_is_found(db: DatabaseView, name: Seq<char>)
    requires
        has_name(db.local, name),
        !some_sync_has_name(db.syncs, name),
    ensures
        pkg_named(db.local, name) is Some,
        resolve(db, name) == Some(
            PackageExtraView {
                sync_pkg: pkg_named(db.local, name)->0,
                local_pkg: pkg_named(db.local, name),
            },
        ),
        resolve(db, name)->0.installed() == Installed::Installed,
{
    lemma_pkg_named(db.local, name);
    lemma_first_sync_pkg(db.syncs, name);
}

} // verus!
