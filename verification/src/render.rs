//! The markup renderer: puts what the extractor found, and what is known of
//! the program besides, into one manual page.
//!
//! The page is built as a document and then written out in groff markup. The
//! title line comes first, then the sections NAME and SYNOPSIS, which every
//! page has, then DESCRIPTION, OPTIONS, SUBCOMMANDS and SEE ALSO, each of
//! which is left out, heading and all, where there is nothing to put under
//! it.

use vstd::prelude::*;
use crate::document::{
    has_kind, has_section, in_canonical_order, rank, rendered, well_formed, without_empty_section,
    ManpageDocument, ManpageDocumentView, Section, SectionKind, SectionView,
};
use crate::extract::{
    dashes_escaped, dehyphenated, description, description_in, is_options_marker,
    lemma_no_options_without_marker, options, options_in, short_description, summary_in, usage,
    usage_in, without_markup,
};
use crate::text::{
    append, append_str, from_chars, lines, replace, replace_first, replaced, replaced_first,
    split_lines, text_of, to_chars, trim, trimmed, views,
};

verus! {

/// What is known of the program besides its help text.
#[derive(Clone, Debug)]
pub struct Metadata {
    /// The name of the program.
    pub name: String,
    /// The version, as the program reports it.
    pub version: String,
    /// The section of the manual that the page belongs to.
    pub section: u8,
    /// The title of that section.
    pub title: String,
    /// The home page of the project, where one is known.
    pub homepage: Option<String>,
    /// The address of the source repository, where one is known.
    pub repository: Option<String>,
}

/// The mathematical value of a `Metadata`.
pub ghost struct MetadataView {
    pub name: Seq<char>,
    pub version: Seq<char>,
    pub section: u8,
    pub title: Seq<char>,
    pub homepage: Option<Seq<char>>,
    pub repository: Option<Seq<char>>,
}

impl View for Metadata {
    type V = MetadataView;

    open spec fn view(&self) -> MetadataView {
        MetadataView {
            name: self.name@,
            version: self.version@,
            section: self.section,
            title: self.title@,
            homepage: text_of(self.homepage),
            repository: text_of(self.repository),
        }
    }
}

/// A subcommand and the help text that the program printed for it; `None`
/// where it printed none.
#[derive(Clone, Debug)]
pub struct SubcommandEntry {
    pub name: String,
    pub help: Option<String>,
}

/// The mathematical value of a `SubcommandEntry`.
pub ghost struct SubcommandEntryView {
    pub name: Seq<char>,
    pub help: Option<Seq<char>>,
}

impl View for SubcommandEntry {
    type V = SubcommandEntryView;

    open spec fn view(&self) -> SubcommandEntryView {
        SubcommandEntryView { name: self.name@, help: text_of(self.help) }
    }
}

impl DeepView for SubcommandEntry {
    type V = SubcommandEntryView;

    open spec fn deep_view(&self) -> SubcommandEntryView {
        self@
    }
}

/// The upper-case form of a text, as `str::to_uppercase` gives it.
pub uninterp spec fn uppercase(s: Seq<char>) -> Seq<char>;

/// `str::to_uppercase` returns the upper-case form of the text. Unicode
/// defines that form character by character, in tables too long to state
/// here: the contract gives the result a name and says no more of it.
pub assume_specification[ str::to_uppercase ](s: &str) -> (upper: String)
    ensures
        upper@ == uppercase(s@),
;

/// The decimal digit that stands for `d`.
pub open spec fn digit(d: nat) -> char
    recommends
        d < 10,
{
    (d + 48) as u8 as char
}

/// `n` written in decimal digits.
pub open spec fn decimal(n: nat) -> Seq<char>
    decreases n,
{
    if n < 10 {
        seq![digit(n)]
    } else {
        decimal(n / 10).push(digit(n % 10))
    }
}

/// `n` written in decimal digits.
pub(crate) fn decimal_of(n: u8) -> (digits: Vec<char>)
    ensures
        digits@ == decimal(n as nat),
{
    let mut digits: Vec<char> = Vec::new();
    if n >= 100 {
        digits.push((n / 100 + 48) as char);
    }
    if n >= 10 {
        digits.push((n / 10 % 10 + 48) as char);
    }
    digits.push((n % 10 + 48) as char);
    proof {
        reveal_with_fuel(decimal, 3);
    }
    digits
}

/// The version to print where the program reported `reported`: `1.0.0` where
/// it reported none.
pub open spec fn version_or_default(reported: Option<Seq<char>>) -> Seq<char> {
    match reported {
        Some(v) => v,
        None => "1.0.0"@,
    }
}

/// The title of a section of the manual. Sections beyond the eight that the
/// manual has are an `Unknown section`.
pub open spec fn section_title(section: u8) -> Seq<char> {
    if section == 1 {
        "General commands"@
    } else if section == 2 {
        "System calls"@
    } else if section == 3 {
        "Library functions"@
    } else if section == 4 {
        "Special files and drivers"@
    } else if section == 5 {
        "File formats and conventions"@
    } else if section == 6 {
        "Games and screensavers"@
    } else if section == 7 {
        "Miscellaneous"@
    } else if section == 8 {
        "System admin commands and daemons"@
    } else {
        "Unknown section"@
    }
}

/// The help text of a subcommand, made fit to stand under its heading: cut
/// words joined, the markers `USAGE:` and `OPTIONS:` turned into headings,
/// double hyphens escaped, backticks and asterisks removed.
pub open spec fn subcommand_markup(text: Seq<char>) -> Seq<char> {
    without_markup(
        dashes_escaped(
            replaced(
                replaced(dehyphenated(text), "USAGE:"@, ".SH USAGE\n"@),
                "OPTIONS:"@,
                ".SH OPTIONS\n"@,
            ),
        ),
    )
}

/// The title line: the name in capitals, the section, the name in capitals
/// with the trimmed version, and the title of the section.
pub open spec fn title_line(m: MetadataView) -> Seq<char> {
    ".TH \""@ + uppercase(m.name) + "\" \""@ + decimal(m.section as nat) + "\" \"\" \""@
        + uppercase(m.name) + " "@ + trimmed(m.version) + "\" \""@ + m.title + "\"\n"@
}

/// The text of the NAME section: the name and the short description.
pub open spec fn name_text(name: Seq<char>, help: Seq<char>) -> Seq<char> {
    name + " \\- "@ + short_description(help) + "\n"@
}

/// What the synopsis says after the name: the usage that the help text
/// states, without the first `name` followed by a space in it, or a stock
/// phrase where the help text states none.
pub open spec fn synopsis(name: Seq<char>, help: Seq<char>) -> Seq<char> {
    match usage(help) {
        Some(u) => replaced_first(u, name + " "@, ""@),
        None => "[OPTIONS] <BINARY_PATH>"@,
    }
}

/// The text of the SYNOPSIS section: the name in bold, then the synopsis.
pub open spec fn synopsis_text(name: Seq<char>, help: Seq<char>) -> Seq<char> {
    ".B "@ + name + "\n"@ + synopsis(name, help) + "\n"@
}

/// The text of the DESCRIPTION section: empty where the help text describes
/// nothing.
pub open spec fn description_text(help: Seq<char>) -> Seq<char> {
    if description(help).len() == 0 {
        Seq::empty()
    } else {
        description(help) + "\n"@
    }
}

/// The text of the OPTIONS section: empty where the help text lists no
/// options.
pub open spec fn options_text(help: Seq<char>) -> Seq<char> {
    match options(help) {
        Some(block) => block + "\n"@,
        None => Seq::empty(),
    }
}

/// What one subcommand adds to the page: its heading and its help text as
/// markup, or nothing where the program printed no help for it.
pub open spec fn subcommand_part(entry: SubcommandEntryView) -> Seq<char> {
    match entry.help {
        Some(help) => ".SS "@ + entry.name + "\n"@ + subcommand_markup(help) + "\n"@,
        None => Seq::empty(),
    }
}

/// The text of the SUBCOMMANDS section: what the subcommands add to the
/// page, one after the other. It is empty where no subcommand has a help
/// text.
pub open spec fn subcommands_text(entries: Seq<SubcommandEntryView>) -> Seq<char>
    decreases entries.len(),
{
    if entries.len() == 0 {
        Seq::empty()
    } else {
        subcommands_text(entries.drop_last()) + subcommand_part(entries.last())
    }
}

/// One line of the SEE ALSO section, followed by an empty line: nothing
/// where the address is not known.
pub open spec fn link_line(label: Seq<char>, address: Option<Seq<char>>) -> Seq<char> {
    match address {
        Some(a) => label + a + "\n\n"@,
        None => Seq::empty(),
    }
}

/// The text of the SEE ALSO section: a line for the home page and one for
/// the repository. It is empty where neither is known.
pub open spec fn see_also_text(
    homepage: Option<Seq<char>>,
    repository: Option<Seq<char>>,
) -> Seq<char> {
    link_line("Homepage: "@, homepage) + link_line("Git repo: "@, repository)
}

/// A section of the given kind with the given text, or no section where
/// there is no text.
pub open spec fn section_if_any(kind: SectionKind, text: Seq<char>) -> Seq<SectionView> {
    if text.len() == 0 {
        Seq::empty()
    } else {
        seq![SectionView { kind, text }]
    }
}

/// The manual page, as a document, of the program that `m` describes, whose
/// help text is `help` and whose subcommands are `entries`: the NAME and the
/// SYNOPSIS section, then each of the others that has a text.
pub open spec fn document(
    m: MetadataView,
    help: Seq<char>,
    entries: Seq<SubcommandEntryView>,
) -> ManpageDocumentView {
    ManpageDocumentView {
        title_line: title_line(m),
        sections: seq![
            SectionView { kind: SectionKind::Name, text: name_text(m.name, help) },
            SectionView { kind: SectionKind::Synopsis, text: synopsis_text(m.name, help) },
        ] + section_if_any(SectionKind::Description, description_text(help)) + section_if_any(
            SectionKind::Options,
            options_text(help),
        ) + section_if_any(SectionKind::Subcommands, subcommands_text(entries)) + section_if_any(
            SectionKind::SeeAlso,
            see_also_text(m.homepage, m.repository),
        ),
    }
}

/// The manual page, in groff markup, of the program that `m` describes,
/// whose help text is `help` and whose subcommands are `entries`.
pub open spec fn manpage(
    m: MetadataView,
    help: Seq<char>,
    entries: Seq<SubcommandEntryView>,
) -> Seq<char> {
    rendered(document(m, help, entries))
}

/// Adding a section of a later kind, or none where its text is empty, to
/// sections that are in canonical order and not empty keeps them so. The new
/// kind is among them just where it has a text, and every other kind is
/// among them just where it was before.
proof fn lemma_section_added(sections: Seq<SectionView>, kind: SectionKind, text: Seq<char>)
    requires
        in_canonical_order(sections),
        without_empty_section(sections),
        forall|i: int| 0 <= i < sections.len() ==> rank(#[trigger] sections[i].kind) < rank(kind),
    ensures
        in_canonical_order(sections + section_if_any(kind, text)),
        without_empty_section(sections + section_if_any(kind, text)),
        forall|i: int|
            0 <= i < (sections + section_if_any(kind, text)).len() ==> rank(
                #[trigger] (sections + section_if_any(kind, text))[i].kind,
            ) <= rank(kind),
        has_kind(sections + section_if_any(kind, text), kind) <==> text.len() > 0,
        forall|other: SectionKind|
            other != kind ==> (has_kind(sections + section_if_any(kind, text), other) <==> has_kind(
                sections,
                other,
            )),
{
    let added = sections + section_if_any(kind, text);
    assert forall|i: int| 0 <= i < sections.len() implies added[i] == sections[i] by {}
    if text.len() > 0 {
        assert(added[sections.len() as int].kind == kind);
    } else {
        assert(added =~= sections);
        if has_kind(sections, kind) {
            let i = choose|i: int| 0 <= i < sections.len() && (#[trigger] sections[i]).kind == kind;
            assert(rank(sections[i].kind) < rank(kind));
        }
    }
    assert forall|i: int, j: int| 0 <= i < j < added.len() implies rank(
        #[trigger] added[i].kind,
    ) < rank(#[trigger] added[j].kind) by {
        assert(added[i] == sections[i]);
    }
    assert forall|other: SectionKind| other != kind implies (has_kind(added, other) <==> has_kind(
        sections,
        other,
    )) by {
        if has_kind(added, other) {
            let i = choose|i: int| 0 <= i < added.len() && (#[trigger] added[i]).kind == other;
            assert(sections[i].kind == other);
        }
        if has_kind(sections, other) {
            let i = choose|i: int|
                0 <= i < sections.len() && (#[trigger] sections[i]).kind == other;
            assert(added[i].kind == other);
        }
    }
}

/// The SUBCOMMANDS section has a text just where a subcommand has a help
/// text.
pub proof fn lemma_subcommands_text(entries: Seq<SubcommandEntryView>)
    ensures
        subcommands_text(entries).len() > 0 <==> exists|i: int|
            0 <= i < entries.len() && (#[trigger] entries[i]).help is Some,
    decreases entries.len(),
{
    reveal_strlit("\n");
    if entries.len() > 0 {
        let before = entries.drop_last();
        lemma_subcommands_text(before);
        if exists|i: int| 0 <= i < before.len() && (#[trigger] before[i]).help is Some {
            let i = choose|i: int| 0 <= i < before.len() && (#[trigger] before[i]).help is Some;
            assert(entries[i].help is Some);
        }
        if exists|i: int| 0 <= i < entries.len() && (#[trigger] entries[i]).help is Some {
            let i = choose|i: int| 0 <= i < entries.len() && (#[trigger] entries[i]).help is Some;
            if i < before.len() {
                assert(before[i].help is Some);
            }
        }
    }
}

/// Whatever the program, its page is a well-formed document: it has the
/// NAME and the SYNOPSIS section, its sections stand in canonical order, and
/// none of them is a heading with nothing under it. Each of the other four
/// sections is there just where there is something to put under it.
pub proof fn lemma_document_is_well_formed(
    m: MetadataView,
    help: Seq<char>,
    entries: Seq<SubcommandEntryView>,
)
    ensures
        well_formed(document(m, help, entries)),
        has_section(document(m, help, entries), SectionKind::Name),
        has_section(document(m, help, entries), SectionKind::Synopsis),
        has_section(document(m, help, entries), SectionKind::Description) <==> description(
            help,
        ).len() > 0,
        has_section(document(m, help, entries), SectionKind::Options) <==> options(help) is Some,
        has_section(document(m, help, entries), SectionKind::Subcommands) <==> exists|i: int|
            0 <= i < entries.len() && (#[trigger] entries[i]).help is Some,
        has_section(document(m, help, entries), SectionKind::SeeAlso) <==> (m.homepage is Some
            || m.repository is Some),
{
    reveal_strlit("\n");
    reveal_strlit("\n\n");
    lemma_subcommands_text(entries);
    let first = seq![
        SectionView { kind: SectionKind::Name, text: name_text(m.name, help) },
        SectionView { kind: SectionKind::Synopsis, text: synopsis_text(m.name, help) },
    ];
    assert(first[0].kind == SectionKind::Name && first[1].kind == SectionKind::Synopsis);
    assert(has_kind(first, SectionKind::Name) && has_kind(first, SectionKind::Synopsis));
    let second = first + section_if_any(SectionKind::Description, description_text(help));
    lemma_section_added(first, SectionKind::Description, description_text(help));
    let third = second + section_if_any(SectionKind::Options, options_text(help));
    lemma_section_added(second, SectionKind::Options, options_text(help));
    let fourth = third + section_if_any(SectionKind::Subcommands, subcommands_text(entries));
    lemma_section_added(third, SectionKind::Subcommands, subcommands_text(entries));
    let fifth = fourth + section_if_any(
        SectionKind::SeeAlso,
        see_also_text(m.homepage, m.repository),
    );
    lemma_section_added(fourth, SectionKind::SeeAlso, see_also_text(m.homepage, m.repository));
    assert(fifth == document(m, help, entries).sections);
    assert(fifth[0] == first[0] && fifth[1] == first[1]);
}

/// A page rendered from a help text none of whose lines opens the options
/// has no OPTIONS section.
pub proof fn lemma_page_without_options(
    m: MetadataView,
    help: Seq<char>,
    entries: Seq<SubcommandEntryView>,
)
    requires
        forall|j: int| 0 <= j < lines(help).len() ==> !is_options_marker(lines(help)[j]),
    ensures
        options(help) is None,
        !has_section(document(m, help, entries), SectionKind::Options),
{
    lemma_no_options_without_marker(help);
    lemma_document_is_well_formed(m, help, entries);
}

/// A page rendered for a program of which neither a home page nor a
/// repository is known has no SEE ALSO section.
pub proof fn lemma_page_without_links(
    m: MetadataView,
    help: Seq<char>,
    entries: Seq<SubcommandEntryView>,
)
    requires
        m.homepage is None,
        m.repository is None,
    ensures
        !has_section(document(m, help, entries), SectionKind::SeeAlso),
{
    lemma_document_is_well_formed(m, help, entries);
}

/// Rendering depends on the values of its inputs alone: two pages rendered
/// from the same help text, the same metadata and the same subcommands are
/// the same text, character by character.
pub proof fn lemma_rendering_is_repeatable(
    first_meta: Metadata,
    first_help: &str,
    first_entries: Vec<SubcommandEntry>,
    first_page: String,
    second_meta: Metadata,
    second_help: &str,
    second_entries: Vec<SubcommandEntry>,
    second_page: String,
)
    requires
        first_meta@ == second_meta@,
        first_help@ == second_help@,
        first_entries.deep_view() == second_entries.deep_view(),
        first_page@ == manpage(first_meta@, first_help@, first_entries.deep_view()),
        second_page@ == manpage(second_meta@, second_help@, second_entries.deep_view()),
    ensures
        first_page@ == second_page@,
{
}

/// Tells whether the manual has a section `section`: it has the sections 1
/// to 8.
pub fn is_valid_section(section: u8) -> (b: bool)
    ensures
        b == (1 <= section <= 8),
{
    1 <= section && section <= 8
}

/// The title of section `section` of the manual.
pub fn default_title(section: u8) -> (title: String)
    ensures
        title@ == section_title(section),
{
    let title = if section == 1 {
        "General commands"
    } else if section == 2 {
        "System calls"
    } else if section == 3 {
        "Library functions"
    } else if section == 4 {
        "Special files and drivers"
    } else if section == 5 {
        "File formats and conventions"
    } else if section == 6 {
        "Games and screensavers"
    } else if section == 7 {
        "Miscellaneous"
    } else if section == 8 {
        "System admin commands and daemons"
    } else {
        "Unknown section"
    };
    title.to_owned()
}

/// The version to print for a program that reported the version `reported`,
/// or none.
pub fn resolve_version(reported: Option<String>) -> (version: String)
    ensures
        version@ == version_or_default(text_of(reported)),
{
    match reported {
        Some(v) => v,
        None => "1.0.0".to_owned(),
    }
}

/// The markup of a subcommand's help text.
pub(crate) fn subcommand_markup_of(help: &Vec<char>) -> (r: Vec<char>)
    ensures
        r@ == subcommand_markup(help@),
{
    let joined = replace(&replace(help, "-\n", ""), "-\r\n", "");
    let headed = replace(&replace(&joined, "USAGE:", ".SH USAGE\n"), "OPTIONS:", ".SH OPTIONS\n");
    let escaped = replace(&headed, "--", "\\-\\-");
    replace(&replace(&escaped, "`", ""), "*", "")
}

/// Makes the help text of a subcommand fit to stand under its heading in the
/// manual page. A hyphen right before a line break is removed together with
/// the break; `USAGE:` and `OPTIONS:` become the headings `.SH USAGE` and
/// `.SH OPTIONS`; each double hyphen is escaped; backticks and asterisks are
/// removed. The steps are taken in this order, each on the whole text.
pub fn convert_subcommand_help(help_text: &str) -> (r: String)
    ensures
        r@ == subcommand_markup(help_text@),
{
    from_chars(&subcommand_markup_of(&to_chars(help_text)))
}

/// The title line of the page.
fn title_line_of(meta: &Metadata) -> (r: Vec<char>)
    ensures
        r@ == title_line(meta@),
{
    let upper = to_chars(meta.name.to_uppercase().as_str());
    let mut out: Vec<char> = Vec::new();
    append_str(&mut out, ".TH \"");
    append(&mut out, &upper);
    append_str(&mut out, "\" \"");
    append(&mut out, &decimal_of(meta.section));
    append_str(&mut out, "\" \"\" \"");
    append(&mut out, &upper);
    append_str(&mut out, " ");
    append(&mut out, &trim(&to_chars(meta.version.as_str())));
    append_str(&mut out, "\" \"");
    append_str(&mut out, meta.title.as_str());
    append_str(&mut out, "\"\n");
    out
}

/// The text of the NAME section.
fn name_text_of(name: &str, ls: &Vec<Vec<char>>, Ghost(help): Ghost<Seq<char>>) -> (r: Vec<char>)
    requires
        views(ls@) == lines(help),
    ensures
        r@ == name_text(name@, help),
{
    let mut out = to_chars(name);
    append_str(&mut out, " \\- ");
    append(&mut out, &summary_in(ls));
    append_str(&mut out, "\n");
    out
}

/// The text of the SYNOPSIS section.
fn synopsis_text_of(name: &str, ls: &Vec<Vec<char>>, Ghost(help): Ghost<Seq<char>>) -> (r: Vec<
    char,
>)
    requires
        views(ls@) == lines(help),
    ensures
        r@ == synopsis_text(name@, help),
{
    let mut out = to_chars(".B ");
    append_str(&mut out, name);
    append_str(&mut out, "\n");
    match usage_in(ls) {
        Some(u) => {
            let mut repeated = to_chars(name);
            append_str(&mut repeated, " ");
            append(&mut out, &replace_first(&u, &repeated, ""));
        },
        None => {
            append_str(&mut out, "[OPTIONS] <BINARY_PATH>");
        },
    }
    append_str(&mut out, "\n");
    out
}

/// The text of the DESCRIPTION section.
fn description_text_of(ls: &Vec<Vec<char>>, Ghost(help): Ghost<Seq<char>>) -> (r: Vec<char>)
    requires
        views(ls@) == lines(help),
    ensures
        r@ == description_text(help),
{
    let mut out = description_in(ls);
    if out.len() > 0 {
        append_str(&mut out, "\n");
    }
    out
}

/// The text of the OPTIONS section.
fn options_text_of(ls: &Vec<Vec<char>>, Ghost(help): Ghost<Seq<char>>) -> (r: Vec<char>)
    requires
        views(ls@) == lines(help),
    ensures
        r@ == options_text(help),
{
    let mut out = options_in(ls);
    if out.len() > 0 {
        append_str(&mut out, "\n");
    }
    out
}

/// The text of the SUBCOMMANDS section.
fn subcommands_text_of(entries: &Vec<SubcommandEntry>) -> (r: Vec<char>)
    ensures
        r@ == subcommands_text(entries.deep_view()),
{
    let mut out: Vec<char> = Vec::new();
    let mut i: usize = 0;
    while i < entries.len()
        invariant
            i <= entries.len(),
            out@ == subcommands_text(entries.deep_view().take(i as int)),
        decreases entries.len() - i,
    {
        let ghost done = entries.deep_view().take(i as int);
        let entry = &entries[i];
        match &entry.help {
            Some(help) => {
                append_str(&mut out, ".SS ");
                append_str(&mut out, entry.name.as_str());
                append_str(&mut out, "\n");
                append(&mut out, &subcommand_markup_of(&to_chars(help.as_str())));
                append_str(&mut out, "\n");
            },
            None => {},
        }
        proof {
            let next = entries.deep_view().take(i + 1);
            assert(next.drop_last() =~= done);
        }
        i += 1;
    }
    proof {
        assert(entries.deep_view().take(i as int) =~= entries.deep_view());
    }
    out
}

/// The text of the SEE ALSO section.
fn see_also_text_of(homepage: &Option<String>, repository: &Option<String>) -> (r: Vec<char>)
    ensures
        r@ == see_also_text(text_of(*homepage), text_of(*repository)),
{
    let mut out: Vec<char> = Vec::new();
    match homepage {
        Some(address) => {
            append_str(&mut out, "Homepage: ");
            append_str(&mut out, address.as_str());
            append_str(&mut out, "\n\n");
        },
        None => {},
    }
    match repository {
        Some(address) => {
            append_str(&mut out, "Git repo: ");
            append_str(&mut out, address.as_str());
            append_str(&mut out, "\n\n");
        },
        None => {},
    }
    out
}

/// Adds to `sections` a section of the given kind with the given text,
/// unless the text is empty.
fn push_section(sections: &mut Vec<Section>, kind: SectionKind, text: &Vec<char>)
    ensures
        final(sections).deep_view() == old(sections).deep_view() + section_if_any(kind, text@),
{
    if text.len() > 0 {
        sections.push(Section { kind, text: from_chars(text) });
    }
}

/// The manual page, as a document, of the program that `meta` describes,
/// whose help text is `main_help` and whose subcommands, each with the help
/// text that the program printed for it, are `subcommands`.
///
/// The document has the NAME section, with the short description, and the
/// SYNOPSIS section, with the usage. Of the sections DESCRIPTION, OPTIONS,
/// SUBCOMMANDS and SEE ALSO it has, in this order, those that have a text:
/// DESCRIPTION where the help text describes something, OPTIONS where it
/// lists options, SUBCOMMANDS where at least one subcommand has a help text,
/// SEE ALSO where a home page or a repository is known.
pub fn build_document(
    meta: &Metadata,
    main_help: &str,
    subcommands: &Vec<SubcommandEntry>,
) -> (page: ManpageDocument)
    ensures
        page@ == document(meta@, main_help@, subcommands.deep_view()),
        well_formed(page@),
{
    let ls = split_lines(&to_chars(main_help));
    let name = meta.name.as_str();
    let mut sections: Vec<Section> = Vec::new();
    sections.push(
        Section {
            kind: SectionKind::Name,
            text: from_chars(&name_text_of(name, &ls, Ghost(main_help@))),
        },
    );
    sections.push(
        Section {
            kind: SectionKind::Synopsis,
            text: from_chars(&synopsis_text_of(name, &ls, Ghost(main_help@))),
        },
    );
    proof {
        assert(sections.deep_view() =~= seq![
            SectionView { kind: SectionKind::Name, text: name_text(meta@.name, main_help@) },
            SectionView {
                kind: SectionKind::Synopsis,
                text: synopsis_text(meta@.name, main_help@),
            },
        ]);
    }
    push_section(
        &mut sections,
        SectionKind::Description,
        &description_text_of(&ls, Ghost(main_help@)),
    );
    push_section(&mut sections, SectionKind::Options, &options_text_of(&ls, Ghost(main_help@)));
    push_section(&mut sections, SectionKind::Subcommands, &subcommands_text_of(subcommands));
    push_section(
        &mut sections,
        SectionKind::SeeAlso,
        &see_also_text_of(&meta.homepage, &meta.repository),
    );
    let page = ManpageDocument { title_line: from_chars(&title_line_of(meta)), sections };
    proof {
        lemma_document_is_well_formed(meta@, main_help@, subcommands.deep_view());
    }
    page
}

/// The manual page, in groff markup, of the program that `meta` describes,
/// whose help text is `main_help` and whose subcommands, each with the help
/// text that the program printed for it, are `subcommands`: the document
/// that `build_document` gives, rendered.
pub fn generate_manpage_content(
    meta: &Metadata,
    main_help: &str,
    subcommands: &Vec<SubcommandEntry>,
) -> (page: String)
    ensures
        page@ == manpage(meta@, main_help@, subcommands.deep_view()),
{
    build_document(meta, main_help, subcommands).render()
}

} // verus!
