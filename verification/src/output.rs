//! The screen as a value: what is written, in which style, in which order.
//!
//! An [`Output`] collects styled text instead of writing it. Its view is the
//! sequence of displayed characters, each with its style, so a contract can
//! say exactly what a call adds to the screen.

use crate::types::{DepInstalled, DepInstalledView, Installed};
use crate::wrap::{fill, filled};
use vstd::prelude::*;

verus! {

/// How a piece of text is shown.
#[derive(Clone, Copy, Debug, PartialEq, Eq, Structural)]
pub enum Style {
    /// The terminal's own colours.
    Plain,
    /// Green foreground.
    Green,
    /// Yellow foreground.
    Yellow,
}

/// A run of text in one style.
#[derive(Clone, Debug, PartialEq, Eq)]
pub struct Span {
    pub style: Style,
    pub text: String,
}

/// One displayed character and its style.
pub struct Cell {
    pub ch: char,
    pub style: Style,
}

/// The character `ch` shown in `style`.
pub open spec fn cell(ch: char, style: Style) -> Cell {
    Cell { ch, style }
}

/// `text` shown in `style`, character by character.
pub open spec fn styled(text: Seq<char>, style: Style) -> Seq<Cell> {
    Seq::new(text.len(), |i: int| cell(text[i], style))
}

/// `text` shown in the terminal's own colours.
pub open spec fn plain(text: Seq<char>) -> Seq<Cell> {
    styled(text, Style::Plain)
}

/// The characters of `cells` without their styles.
pub open spec fn text_of(cells: Seq<Cell>) -> Seq<char> {
    Seq::new(cells.len(), |i: int| cells[i].ch)
}

/// The displayed characters of a list of spans, in order.
pub open spec fn cells_of(spans: Seq<Span>) -> Seq<Cell>
    decreases spans.len(),
{
    if spans.len() == 0 {
        Seq::empty()
    } else {
        cells_of(spans.drop_last()) + styled(spans.last().text@, spans.last().style)
    }
}

/// Appending a span appends its characters.
pub proof fn lemma_cells_of_push(spans: Seq<Span>, span: Span)
    ensures
        cells_of(spans.push(span)) == cells_of(spans) + styled(span.text@, span.style),
{
    assert(spans.push(span).drop_last() =~= spans);
}

/// The text of a concatenation is the concatenation of the texts, and the
/// text of a styled run is the run's text.
pub proof fn lemma_text_of(a: Seq<Cell>, text: Seq<char>, style: Style)
    ensures
        text_of(a + styled(text, style)) == text_of(a) + text,
{
}

/// The badge of an installed package or dependency.
pub open spec fn installed_badge() -> Seq<Cell> {
    styled("[installed]"@, Style::Green)
}

/// The badge of a package that is installed at another version.
pub open spec fn outdated_badge() -> Seq<Cell> {
    styled("[~installed]"@, Style::Yellow)
}

/// The badge of a dependency that the installed package `pkg_name` satisfies
/// under another name.
pub open spec fn satisfied_by_badge(pkg_name: Seq<char>) -> Seq<Cell> {
    styled("[satisfied by "@ + pkg_name + "]"@, Style::Green)
}

/// The badge that ends a title line.
pub open spec fn title_badge(installed: Installed) -> Seq<Cell> {
    match installed {
        Installed::Installed => installed_badge(),
        Installed::Outdated => outdated_badge(),
        Installed::NotInstalled => Seq::empty(),
    }
}

/// The badge that ends a dependency's line.
pub open spec fn dep_badge(satisfied: DepInstalledView) -> Seq<Cell> {
    match satisfied {
        DepInstalledView::Installed => installed_badge(),
        DepInstalledView::SatisfiedBy(pkg_name) => satisfied_by_badge(pkg_name),
        DepInstalledView::NotSatisfied => Seq::empty(),
    }
}

/// The title line: repository, name and version, then the badge.
pub open spec fn title_line(
    database: Seq<char>,
    pkg_name: Seq<char>,
    version: Seq<char>,
    installed: Installed,
) -> Seq<Cell> {
    plain(database + "/"@ + pkg_name + " "@ + version + " "@) + title_badge(installed) + plain(
        "\n"@,
    )
}

/// The text of a dependency's line before its badge: two spaces, the name,
/// the version constraint where one is declared, the description where it is
/// not empty, and a space.
pub open spec fn dependency_text(
    pkg_name: Seq<char>,
    version: Option<Seq<char>>,
    desc: Seq<char>,
) -> Seq<char> {
    let named = "  "@ + pkg_name;
    let versioned = match version {
        Some(ver) => named + " "@ + ver,
        None => named,
    };
    let described = if desc.len() == 0 {
        versioned
    } else {
        versioned + ": "@ + desc
    };
    described + " "@
}

/// A dependency's line.
pub open spec fn dependency_line(
    pkg_name: Seq<char>,
    version: Option<Seq<char>>,
    desc: Seq<char>,
    satisfied: DepInstalledView,
) -> Seq<Cell> {
    plain(dependency_text(pkg_name, version, desc)) + dep_badge(satisfied) + plain("\n"@)
}

/// Collected screen output, wrapped at `width` columns where text is wrapped.
#[derive(Clone, Debug)]
pub struct Output {
    width: usize,
    out: Vec<Span>,
}

impl View for Output {
    type V = Seq<Cell>;

    closed spec fn view(&self) -> Seq<Cell> {
        cells_of(self.out@)
    }
}

impl Output {
    /// The width in columns at which descriptions are wrapped.
    pub closed spec fn spec_width(&self) -> usize {
        self.width
    }

    /// An empty screen of the given width.
    pub fn new(width: usize) -> (out: Self)
        ensures
            out@ == Seq::<Cell>::empty(),
            out.spec_width() == width,
    {
        Output { width, out: Vec::new() }
    }

    /// The width in columns at which descriptions are wrapped.
    #[verifier::when_used_as_spec(spec_width)]
    pub fn width(&self) -> (w: usize)
        ensures
            w == self.spec_width(),
    {
        self.width
    }

    /// What was written so far, as runs of text in one style each.
    pub fn spans(&self) -> (spans: &Vec<Span>)
        ensures
            cells_of(spans@) == self@,
    {
        &self.out
    }

    /// What was written so far, without styles.
    pub fn text(&self) -> (text: String)
        ensures
            text@ == text_of(self@),
    {
        let mut text = String::new();
        let n = self.out.len();
        let mut i: usize = 0;
        while i < n
            invariant
                n == self.out@.len(),
                i <= n,
                text@ == text_of(cells_of(self.out@.take(i as int))),
            decreases n - i,
        {
            let span = &self.out[i];
            proof {
                let before = self.out@.take(i as int);
                assert(self.out@.take(i + 1) =~= before.push(*span));
                lemma_cells_of_push(before, *span);
                lemma_text_of(cells_of(before), span.text@, span.style);
            }
            text.append(span.text.as_str());
            i += 1;
        }
        assert(self.out@.take(n as int) =~= self.out@);
        text
    }

    /// Writes `text` in `style`.
    pub fn write(&mut self, style: Style, text: &str)
        ensures
            final(self)@ == old(self)@ + styled(text@, style),
            final(self).spec_width() == old(self).spec_width(),
    {
        let span = Span { style, text: text.to_owned() };
        proof {
            lemma_cells_of_push(self.out@, span);
        }
        self.out.push(span);
    }

    /// Ends the line.
    pub fn println(&mut self)
        ensures
            final(self)@ == old(self)@ + plain("\n"@),
            final(self).spec_width() == old(self).spec_width(),
    {
        self.write(Style::Plain, "\n");
    }

    /// Writes `text` in the terminal's own colours and ends the line.
    pub fn print_line(&mut self, text: &str)
        ensures
            final(self)@ == old(self)@ + plain(text@ + "\n"@),
            final(self).spec_width() == old(self).spec_width(),
    {
        self.write(Style::Plain, text);
        self.println();
    }

    /// Writes the badge of an installed package or dependency.
    pub fn print_installed(&mut self)
        ensures
            final(self)@ == old(self)@ + installed_badge(),
            final(self).spec_width() == old(self).spec_width(),
    {
        self.write(Style::Green, "[installed]");
    }

    /// Writes the badge of a package that is installed at another version.
    pub fn print_outdated(&mut self)
        ensures
            final(self)@ == old(self)@ + outdated_badge(),
            final(self).spec_width() == old(self).spec_width(),
    {
        self.write(Style::Yellow, "[~installed]");
    }

    /// Writes the badge of a dependency that `pkg_name` satisfies.
    pub fn print_satisifed_by(&mut self, pkg_name: &str)
        ensures
            final(self)@ == old(self)@ + satisfied_by_badge(pkg_name@),
            final(self).spec_width() == old(self).spec_width(),
    {
        let mut badge = String::new();
        badge.append("[satisfied by ");
        badge.append(pkg_name);
        badge.append("]");
        self.write(Style::Green, badge.as_str());
    }

    /// Writes the title line of a package.
    pub fn print_title(
        &mut self,
        database: &str,
        pkg_name: &str,
        version: &str,
        installed: Installed,
    )
        ensures
            final(self)@ == old(self)@ + title_line(database@, pkg_name@, version@, installed),
            final(self).spec_width() == old(self).spec_width(),
    {
        let mut head = String::new();
        head.append(database);
        head.append("/");
        head.append(pkg_name);
        head.append(" ");
        head.append(version);
        head.append(" ");
        assert(head@ =~= database@ + "/"@ + pkg_name@ + " "@ + version@ + " "@);
        self.write(Style::Plain, head.as_str());
        match installed {
            Installed::Installed => self.print_installed(),
            Installed::Outdated => self.print_outdated(),
            Installed::NotInstalled => {},
        }
        self.println();
        assert(self@ =~= old(self)@ + title_line(database@, pkg_name@, version@, installed));
    }

    /// Writes a description, wrapped at the screen's width.
    pub fn print_description(&mut self, desc: &str)
        ensures
            final(self)@ == old(self)@ + plain(filled(desc@, old(self).spec_width()) + "\n"@),
            final(self).spec_width() == old(self).spec_width(),
    {
        let wrapped = fill(desc, self.width);
        self.print_line(wrapped.as_str());
    }

    /// Writes the line that names the installed version.
    pub fn print_installed_version(&mut self, ver: &str)
        ensures
            final(self)@ == old(self)@ + plain("Installed Version: "@ + ver@ + "\n"@),
            final(self).spec_width() == old(self).spec_width(),
    {
        let mut line = String::new();
        line.append("Installed Version: ");
        line.append(ver);
        self.print_line(line.as_str());
    }

    /// Writes the line that names the reason of the installation.
    pub fn print_installed_reason(&mut self, reason: &str)
        ensures
            final(self)@ == old(self)@ + plain("Installed Reason: "@ + reason@ + "\n"@),
            final(self).spec_width() == old(self).spec_width(),
    {
        let mut line = String::new();
        line.append("Installed Reason: ");
        line.append(reason);
        self.print_line(line.as_str());
    }

    /// Writes the heading of a section.
    pub fn print_section_header(&mut self, header: &str)
        ensures
            final(self)@ == old(self)@ + plain(header@ + ":"@ + "\n"@),
            final(self).spec_width() == old(self).spec_width(),
    {
        let mut line = String::new();
        line.append(header);
        line.append(":");
        self.print_line(line.as_str());
    }

    /// Writes the line of one dependency.
    pub fn print_dependency(
        &mut self,
        pkg_name: &str,
        version: Option<&str>,
        desc: &str,
        satisfied: DepInstalled,
    )
        ensures
            final(self)@ == old(self)@ + dependency_line(
                pkg_name@,
                match version {
                    Some(ver) => Some(ver@),
                    None => None,
                },
                desc@,
                satisfied@,
            ),
            final(self).spec_width() == old(self).spec_width(),
    {
        let mut head = String::new();
        head.append("  ");
        head.append(pkg_name);
        if let Some(ver) = version {
            head.append(" ");
            head.append(ver);
        }
        if !desc.is_empty() {
            head.append(": ");
            head.append(desc);
        }
        head.append(" ");
        let ghost spec_version = match version {
            Some(ver) => Some(ver@),
            None => None,
        };
        assert(head@ =~= dependency_text(pkg_name@, spec_version, desc@));
        self.write(Style::Plain, head.as_str());
        match satisfied {
            DepInstalled::Installed => self.print_installed(),
            DepInstalled::SatisfiedBy(x) => self.print_satisifed_by(x),
            DepInstalled::NotSatisfied => {},
        }
        self.println();
        assert(self@ =~= old(self)@ + dependency_line(pkg_name@, spec_version, desc@, satisfied@));
    }
}

} // verus!
