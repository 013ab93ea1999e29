//! The manual page as a value: a title line and a sequence of named
//! sections, each holding groff text.
//!
//! A well-formed document has its sections in the order of `SectionKind`,
//! none of them twice and none of them empty, and it always has the NAME and
//! the SYNOPSIS section.

use vstd::prelude::*;
use crate::text::{append_str, from_chars, to_chars};

verus! {

/// The sections that a manual page can have, in the order in which they
/// stand on the page.
#[derive(Clone, Copy, Debug, PartialEq, Eq, Structural)]
pub enum SectionKind {
    Name,
    Synopsis,
    Description,
    Options,
    Subcommands,
    SeeAlso,
}

/// The place of a kind of section on the page.
pub open spec fn rank(kind: SectionKind) -> nat {
    match kind {
        SectionKind::Name => 0,
        SectionKind::Synopsis => 1,
        SectionKind::Description => 2,
        SectionKind::Options => 3,
        SectionKind::Subcommands => 4,
        SectionKind::SeeAlso => 5,
    }
}

/// The heading of a kind of section.
pub open spec fn heading(kind: SectionKind) -> Seq<char> {
    match kind {
        SectionKind::Name => "NAME"@,
        SectionKind::Synopsis => "SYNOPSIS"@,
        SectionKind::Description => "DESCRIPTION"@,
        SectionKind::Options => "OPTIONS"@,
        SectionKind::Subcommands => "SUBCOMMANDS"@,
        SectionKind::SeeAlso => "SEE ALSO"@,
    }
}

/// One section of a manual page: its kind and the groff text that stands
/// under its heading.
#[derive(Clone, Debug)]
pub struct Section {
    pub kind: SectionKind,
    pub text: String,
}

/// The mathematical value of a `Section`.
pub ghost struct SectionView {
    pub kind: SectionKind,
    pub text: Seq<char>,
}

impl View for Section {
    type V = SectionView;

    open spec fn view(&self) -> SectionView {
        SectionView { kind: self.kind, text: self.text@ }
    }
}

impl DeepView for Section {
    type V = SectionView;

    open spec fn deep_view(&self) -> SectionView {
        self@
    }
}

/// A manual page: the title line and the sections that follow it.
#[derive(Clone, Debug)]
pub struct ManpageDocument {
    pub title_line: String,
    pub sections: Vec<Section>,
}

/// The mathematical value of a `ManpageDocument`.
pub ghost struct ManpageDocumentView {
    pub title_line: Seq<char>,
    pub sections: Seq<SectionView>,
}

impl View for ManpageDocument {
    type V = ManpageDocumentView;

    open spec fn view(&self) -> ManpageDocumentView {
        ManpageDocumentView {
            title_line: self.title_line@,
            sections: self.sections.deep_view(),
        }
    }
}

/// The sections stand in the order of their kinds, none of them twice.
pub open spec fn in_canonical_order(sections: Seq<SectionView>) -> bool {
    forall|i: int, j: int|
        0 <= i < j < sections.len() ==> rank(#[trigger] sections[i].kind) < rank(
            #[trigger] sections[j].kind,
        )
}

/// No section is a heading with nothing under it.
pub open spec fn without_empty_section(sections: Seq<SectionView>) -> bool {
    forall|i: int| 0 <= i < sections.len() ==> (#[trigger] sections[i]).text.len() > 0
}

/// A well-formed document begins with the NAME and the SYNOPSIS section,
/// has its sections in canonical order and has no empty section.
pub open spec fn well_formed(document: ManpageDocumentView) -> bool {
    &&& document.sections.len() >= 2
    &&& document.sections[0].kind == SectionKind::Name
    &&& document.sections[1].kind == SectionKind::Synopsis
    &&& in_canonical_order(document.sections)
    &&& without_empty_section(document.sections)
}

/// One of the sections is of the given kind.
pub open spec fn has_kind(sections: Seq<SectionView>, kind: SectionKind) -> bool {
    exists|i: int| 0 <= i < sections.len() && (#[trigger] sections[i]).kind == kind
}

/// The document has a section of the given kind.
pub open spec fn has_section(document: ManpageDocumentView, kind: SectionKind) -> bool {
    has_kind(document.sections, kind)
}

/// The markup of one section: the heading line, then the text.
pub open spec fn section_markup(section: SectionView) -> Seq<char> {
    ".SH "@ + heading(section.kind) + "\n"@ + section.text
}

/// The markup of the sections, one after the other.
pub open spec fn sections_markup(sections: Seq<SectionView>) -> Seq<char>
    decreases sections.len(),
{
    if sections.len() == 0 {
        Seq::empty()
    } else {
        sections_markup(sections.drop_last()) + section_markup(sections.last())
    }
}

/// The document in groff markup: the title line, then the sections.
pub open spec fn rendered(document: ManpageDocumentView) -> Seq<char> {
    document.title_line + sections_markup(document.sections)
}

impl SectionKind {
    /// The heading of this kind of section.
    pub fn heading(&self) -> (r: &'static str)
        ensures
            r@ == heading(*self),
    {
        match self {
            SectionKind::Name => "NAME",
            SectionKind::Synopsis => "SYNOPSIS",
            SectionKind::Description => "DESCRIPTION",
            SectionKind::Options => "OPTIONS",
            SectionKind::Subcommands => "SUBCOMMANDS",
            SectionKind::SeeAlso => "SEE ALSO",
        }
    }
}

impl ManpageDocument {
    /// The document in groff markup: the title line, then each section as
    /// its heading line `.SH` followed by its text.
    pub fn render(&self) -> (page: String)
        ensures
            page@ == rendered(self@),
    {
        let mut out = to_chars(self.title_line.as_str());
        let mut i: usize = 0;
        while i < self.sections.len()
            invariant
                i <= self.sections.len(),
                out@ == self@.title_line + sections_markup(self@.sections.take(i as int)),
            decreases self.sections.len() - i,
        {
            let ghost done = self@.sections.take(i as int);
            let section = &self.sections[i];
            append_str(&mut out, ".SH ");
            append_str(&mut out, section.kind.heading());
            append_str(&mut out, "\n");
            append_str(&mut out, section.text.as_str());
            proof {
                let next = self@.sections.take(i + 1);
                assert(next.drop_last() =~= done);
                assert(out@ =~= self@.title_line + (sections_markup(done) + section_markup(
                    section@,
                )));
            }
            i += 1;
        }
        proof {
            assert(self@.sections.take(i as int) =~= self@.sections);
        }
        from_chars(&out)
    }
}

} // verus!
