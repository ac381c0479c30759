//! The information screen of one package: title, description, what is
//! installed, and the two dependency lists.

use crate::output::{dependency_line, plain, title_line, Cell, Output};
use crate::package::{
    dep_views, has_name, pkg_named, Dep, DepView, Package, PackageReason, PackageView,
};
use crate::resolve::{
    first_sync_pkg, lemma_first_sync_pkg, lemma_installed_or_outdated,
    lemma_remote_only_is_not_installed, resolve, some_sync_has_name, DatabaseView, PackageExtra,
    PackageExtraView,
};
use crate::types::Installed;
use crate::wrap::filled;
use vstd::prelude::*;

verus! {

/// The repository name that a title shows: `local` for a record that comes
/// from no repository.
pub open spec fn shown_database(pkg: PackageView) -> Seq<char> {
    match pkg.db {
        Some(name) => name,
        None => "local"@,
    }
}

/// The title line of a package: where it comes from, its name and version,
/// and whether it is installed.
pub open spec fn pkg_title_line(pkg: PackageExtraView) -> Seq<Cell> {
    title_line(
        shown_database(pkg.sync_pkg),
        pkg.sync_pkg.name,
        pkg.sync_pkg.version,
        pkg.installed(),
    )
}

/// The word for an installation reason.
pub open spec fn reason_text(reason: PackageReason) -> Seq<char> {
    match reason {
        PackageReason::Depend => "dependency"@,
        PackageReason::Explicit => "explicit"@,
    }
}

/// The lines on an installed package: its version where that differs from
/// the one on display, and the reason of its installation.
pub open spec fn local_pkg_info(sync_pkg: PackageView, local_pkg: PackageView) -> Seq<Cell> {
    let version_line = if local_pkg.version != sync_pkg.version {
        plain("Installed Version: "@ + local_pkg.version + "\n"@)
    } else {
        Seq::empty()
    };
    version_line + plain("Installed Reason: "@ + reason_text(local_pkg.reason) + "\n"@)
}

/// The lines on the installed package of a pair; nothing where none is
/// installed.
pub open spec fn local_block(pkg: PackageExtraView) -> Seq<Cell> {
    match pkg.local_pkg {
        Some(local) => local_pkg_info(pkg.sync_pkg, local),
        None => Seq::empty(),
    }
}

/// The line of one dependency.
pub open spec fn dep_line(dep: DepView) -> Seq<Cell> {
    dependency_line(dep.name, dep.version, dep.shown_desc(), dep.installed())
}

/// The lines of a list of dependencies, one after the other in the list's
/// order.
pub open spec fn dep_lines(deps: Seq<DepView>) -> Seq<Cell>
    decreases deps.len(),
{
    if deps.len() == 0 {
        Seq::empty()
    } else {
        dep_lines(deps.drop_last()) + dep_line(deps.last())
    }
}

/// A section of dependencies: its heading, then the lines.
pub open spec fn dep_list_section(deps: Seq<DepView>, header: Seq<char>) -> Seq<Cell> {
    plain(header + ":"@ + "\n"@) + dep_lines(deps)
}

/// The description of a package as it is shown: the text wrapped at `width`
/// columns. Nothing where the package has no description.
pub open spec fn description_block(pkg: PackageView, width: usize) -> Seq<Cell> {
    match pkg.desc {
        Some(desc) => plain(filled(desc, width) + "\n"@),
        None => Seq::empty(),
    }
}

/// The whole screen of a package, for descriptions wrapped at `width`
/// columns, in a fixed order: the title line, an empty line, the description,
/// an empty line, the lines on what is installed, the optional dependencies,
/// the required dependencies. Only the description and the lines on what is
/// installed can be missing: a package without a description shows the two
/// empty lines one after the other.
pub open spec fn package_details(pkg: PackageExtraView, width: usize) -> Seq<Cell> {
    pkg_title_line(pkg) + plain("\n"@) + description_block(pkg.sync_pkg, width) + plain("\n"@)
        + local_block(pkg) + dep_list_section(pkg.sync_pkg.optdepends, "Opt Depends"@)
        + dep_list_section(pkg.sync_pkg.depends, "Depends"@)
}

/// The word for an installation reason.
pub fn reason_str(reason: PackageReason) -> (word: &'static str)
    ensures
        word@ == reason_text(reason),
{
    match reason {
        PackageReason::Depend => "dependency",
        PackageReason::Explicit => "explicit",
    }
}

/// Print all of the information regarding a package.
pub fn print_package_details(out: &mut Output, pkg: &PackageExtra)
    ensures
        final(out)@ == old(out)@ + package_details(pkg@, old(out).spec_width()),
        final(out).spec_width() == old(out).spec_width(),
{
    let ghost start = out@;
    let ghost width = out.spec_width();
    print_title_line(out, pkg);

    out.println();
    if let Some(desc) = &pkg.sync_pkg.desc {
        out.print_description(desc.as_str());
    }
    let ghost head = pkg_title_line(pkg@) + plain("\n"@) + description_block(
        pkg@.sync_pkg,
        width,
    );
    assert(out@ =~= start + head);

    out.println();
    if let Some(lp) = pkg.local_pkg {
        print_local_pkg_info(out, pkg.sync_pkg, lp);
    }
    assert(out@ =~= start + (head + plain("\n"@) + local_block(pkg@)));

    print_dep_list(out, &pkg.sync_pkg.optdepends, "Opt Depends");
    print_dep_list(out, &pkg.sync_pkg.depends, "Depends");
    assert(out@ =~= start + package_details(pkg@, width));
}

/// Prints a heading and under it the line of each dependency, in the order of
/// the list.
pub fn print_dep_list(out: &mut Output, dep_list: &Vec<Dep>, header: &str)
    ensures
        final(out)@ == old(out)@ + dep_list_section(dep_views(dep_list@), header@),
        final(out).spec_width() == old(out).spec_width(),
{
    let ghost start = out@;
    let ghost width = out.spec_width();
    let ghost deps = dep_views(dep_list@);
    out.print_section_header(header);
    let n = dep_list.len();
    let mut i: usize = 0;
    while i < n
        invariant
            n == dep_list@.len(),
            i <= n,
            deps == dep_views(dep_list@),
            out.spec_width() == width,
            out@ == start + dep_list_section(deps.take(i as int), header@),
        decreases n - i,
    {
        let dep = &dep_list[i];
        let dep_satisfied = dep.installed();
        let version = match &dep.version {
            Some(v) => Some(v.as_str()),
            None => None,
        };
        let desc = match &dep.desc {
            Some(d) => d.as_str(),
            None => "",
        };
        proof {
            reveal_strlit("");
            assert(deps.take(i + 1).drop_last() =~= deps.take(i as int));
            assert(deps.take(i + 1).last() == dep@);
        }
        out.print_dependency(dep.name.as_str(), version, desc, dep_satisfied);
        assert(out@ =~= start + dep_list_section(deps.take(i + 1), header@));
        i += 1;
    }
    assert(deps.take(n as int) =~= deps);
}

/// Prints the title line of a package.
pub fn print_title_line(out: &mut Output, pkg: &PackageExtra)
    ensures
        final(out)@ == old(out)@ + pkg_title_line(pkg@),
        final(out).spec_width() == old(out).spec_width(),
{
    let installed = pkg.installed();
    let spkg = pkg.sync_pkg;
    let database = match &spkg.db {
        Some(x) => x.as_str(),
        None => "local",
    };
    out.print_title(database, spkg.name.as_str(), spkg.version.as_str(), installed)
}

/// Prints what is installed of a package: the installed version where it is
/// not the one on display, and the reason of the installation.
pub fn print_local_pkg_info(out: &mut Output, sync_pkg: &Package, local_pkg: &Package)
    ensures
        final(out)@ == old(out)@ + local_pkg_info(sync_pkg@, local_pkg@),
        final(out).spec_width() == old(out).spec_width(),
{
    let ghost start = out@;
    if local_pkg.version != sync_pkg.version {
        out.print_installed_version(local_pkg.version.as_str());
    }
    let reason = reason_str(local_pkg.reason);
    out.print_installed_reason(reason);
    assert(out@ =~= start + local_pkg_info(sync_pkg@, local_pkg@));
}

/// The lines of two lists, one after the other, are the lines of the joined
/// list.
pub proof fn lemma_dep_lines_concat(a: Seq<DepView>, b: Seq<DepView>)
    ensures
        dep_lines(a + b) == dep_lines(a) + dep_lines(b),
    decreases b.len(),
{
    if b.len() == 0 {
        assert(a + b =~= a);
    } else {
        lemma_dep_lines_concat(a, b.drop_last());
        assert((a + b).drop_last() =~= a + b.drop_last());
    }
}

/// Dependencies are shown in the order of their declaration: the line of the
/// dependency at `i` stands after the lines of all that are declared before
/// it and before the lines of all that are declared after it.
pub proof fn lemma_dep_lines_in_order(deps: Seq<DepView>, i: int)
    requires
        0 <= i < deps.len(),
    ensures
        dep_lines(deps) == dep_lines(deps.take(i)) + dep_line(deps[i]) + dep_lines(
            deps.skip(i + 1),
        ),
{
    let head = deps.take(i + 1);
    assert(deps =~= head + deps.skip(i + 1));
    lemma_dep_lines_concat(head, deps.skip(i + 1));
    assert(head.drop_last() =~= deps.take(i));
}

/// The empty line before the description does not depend on the
/// description: a package without one shows the title line, two empty lines,
/// and then the rest of the screen.
pub proof fn lemma_no_description_leaves_both_empty_lines(pkg: PackageExtraView, width: usize)
    requires
        pkg.sync_pkg.desc is None,
    ensures
        package_details(pkg, width) == pkg_title_line(pkg) + plain("\n"@) + plain("\n"@)
            + local_block(pkg) + dep_list_section(pkg.sync_pkg.optdepends, "Opt Depends"@)
            + dep_list_section(pkg.sync_pkg.depends, "Depends"@),
{
}

/// For a package that exactly one repository holds and that is not
/// installed, the screen shows no line on an installed version or reason: the
/// dependency sections follow the empty line after the description at once.
pub proof fn lemma_remote_only_shows_no_local_lines(
    db: DatabaseView,
    name: Seq<char>,
    k: int,
    width: usize,
)
    requires
        !has_name(db.local, name),
        0 <= k < db.syncs.len(),
        has_name(db.syncs[k], name),
        forall|j: int|
            0 <= j < db.syncs.len() && j != k ==> !has_name(#[trigger] db.syncs[j], name),
    ensures
        resolve(db, name) matches Some(pkg) && pkg.installed() == Installed::NotInstalled
            && local_block(pkg) == Seq::<Cell>::empty() && package_details(pkg, width)
            == pkg_title_line(pkg) + plain("\n"@) + description_block(pkg.sync_pkg, width)
            + plain("\n"@) + dep_list_section(pkg.sync_pkg.optdepends, "Opt Depends"@)
            + dep_list_section(pkg.sync_pkg.depends, "Depends"@),
{
    lemma_remote_only_is_not_installed(db, name, k);
}

/// For a package that is installed and that some repository holds: where the
/// two version strings are equal it is installed, and only the reason is
/// shown; where they differ it is outdated, and the version line shows the
/// installed version, not the repository's.
pub proof fn lemma_local_lines_show_installed_version(db: DatabaseView, name: Seq<char>)
    requires
        has_name(db.local, name),
        some_sync_has_name(db.syncs, name),
    ensures
        resolve(db, name) is Some,
        pkg_named(db.local, name) is Some,
        first_sync_pkg(db.syncs, name) is Some,
        ({
            let pkg = resolve(db, name)->0;
            let local = pkg_named(db.local, name)->0;
            let sync = first_sync_pkg(db.syncs, name)->0;
            let reason_line = plain("Installed Reason: "@ + reason_text(local.reason) + "\n"@);
            &&& pkg.sync_pkg == sync
            &&& pkg.local_pkg == Some(local)
            &&& local.version == sync.version ==> pkg.installed() == Installed::Installed
                && local_block(pkg) == reason_line
            &&& local.version != sync.version ==> pkg.installed() == Installed::Outdated
                && local_block(pkg) == plain("Installed Version: "@ + local.version + "\n"@)
                + reason_line
        }),
{
    lemma_installed_or_outdated(db, name);
    lemma_first_sync_pkg(db.syncs, name);
}

} // verus!
