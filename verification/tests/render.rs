use helpman::{
    build_document, convert_subcommand_help, default_title, generate_manpage_content,
    is_valid_section, resolve_version, ManpageDocument, Metadata, Section, SectionKind,
    SubcommandEntry,
};

fn metadata(name: &str, version: &str, section: u8, title: &str) -> Metadata {
    Metadata {
        name: name.to_string(),
        version: version.to_string(),
        section,
        title: title.to_string(),
        homepage: None,
        repository: None,
    }
}

fn entry(name: &str, help: Option<&str>) -> SubcommandEntry {
    SubcommandEntry { name: name.to_string(), help: help.map(|h| h.to_string()) }
}

#[test]
fn minimal_page_has_title_line_and_name_section() {
    let meta = metadata("tool", "2.0.0", 1, "General commands");
    let page = generate_manpage_content(&meta, "A sample tool\n\nUsage: tool [OPTIONS]\n", &vec![]);
    let mut lines = page.lines();
    assert_eq!(lines.next(), Some(".TH \"TOOL\" \"1\" \"\" \"TOOL 2.0.0\" \"General commands\""));
    assert_eq!(lines.next(), Some(".SH NAME"));
    assert_eq!(lines.next(), Some("tool \\- A sample tool"));
}

#[test]
fn minimal_page_in_full() {
    let meta = metadata("tool", "2.0.0", 1, "General commands");
    let page = generate_manpage_content(&meta, "A sample tool\n\nUsage: tool [OPTIONS]\n", &vec![]);
    let expected = ".TH \"TOOL\" \"1\" \"\" \"TOOL 2.0.0\" \"General commands\"\n\
                    .SH NAME\n\
                    tool \\- A sample tool\n\
                    .SH SYNOPSIS\n\
                    .B tool\n\
                    [OPTIONS]\n\
                    .SH DESCRIPTION\n\
                    A sample tool\n\nUsage: tool [OPTIONS]\n\n\n";
    assert_eq!(page, expected);
}

#[test]
fn full_page_has_every_section_in_order() {
    let mut meta = metadata("tool", " tool 2.0.0\n", 8, "System admin commands and daemons");
    meta.homepage = Some("https://example.org".to_string());
    meta.repository = Some("git@example.org:tool.git".to_string());
    let help = "A sample tool\n\nUSAGE:\n  tool [OPTIONS]\n\nOPTIONS:\n  -v, --verbose  Talk\n\nCommands:\n  build\n";
    let entries = vec![
        entry("build", Some("Build it\n\nUSAGE: tool build --fast\n")),
        entry("broken", None),
        entry("run", Some("Run `it`")),
    ];
    let page = generate_manpage_content(&meta, help, &entries);
    let expected = ".TH \"TOOL\" \"8\" \"\" \"TOOL tool 2.0.0\" \"System admin commands and daemons\"\n\
                    .SH NAME\n\
                    tool \\- A sample tool\n\
                    .SH SYNOPSIS\n\
                    .B tool\n\
                    \n\
                    .SH DESCRIPTION\n\
                    A sample tool\n\n\n\
                    .SH OPTIONS\n\
                    -v, \\-\\-verbose  Talk\n\n\
                    .SH SUBCOMMANDS\n\
                    .SS build\n\
                    Build it\n\n.SH USAGE\n tool build \\-\\-fast\n\n\
                    .SS run\n\
                    Run it\n\
                    .SH SEE ALSO\n\
                    Homepage: https://example.org\n\n\
                    Git repo: git@example.org:tool.git\n\n";
    assert_eq!(page, expected);
}

#[test]
fn page_without_options_marker_has_no_options_section() {
    let meta = metadata("tool", "1.0.0", 1, "General commands");
    let page = generate_manpage_content(&meta, "A tool\nUsage: tool\n  --flag  loose\n", &vec![]);
    assert!(!page.contains(".SH OPTIONS"));
    assert!(page.contains(".SH DESCRIPTION\n"));
}

#[test]
fn page_with_options_has_options_section_after_description() {
    let meta = metadata("tool", "1.0.0", 1, "General commands");
    let page = generate_manpage_content(&meta, "A tool\nOPTIONS:\n  --flag  f\n", &vec![]);
    assert!(page.ends_with(".SH DESCRIPTION\nA tool\n\n\n.SH OPTIONS\n\\-\\-flag  f\n\n"));
}

#[test]
fn page_without_links_has_no_see_also_section() {
    let meta = metadata("tool", "1.0.0", 1, "General commands");
    let page = generate_manpage_content(&meta, "A tool\n", &vec![entry("run", Some("Run"))]);
    assert!(!page.contains("SEE ALSO"));
    assert!(page.ends_with(".SH SUBCOMMANDS\n.SS run\nRun\n"));
}

#[test]
fn see_also_names_each_known_address() {
    let mut meta = metadata("tool", "1.0.0", 1, "General commands");
    meta.homepage = Some("https://example.org".to_string());
    let page = generate_manpage_content(&meta, "A tool\n", &vec![]);
    assert!(page.ends_with(".SH SEE ALSO\nHomepage: https://example.org\n\n"));
    meta.homepage = None;
    meta.repository = Some("https://example.org/tool.git".to_string());
    let page = generate_manpage_content(&meta, "A tool\n", &vec![]);
    assert!(page.ends_with(".SH SEE ALSO\nGit repo: https://example.org/tool.git\n\n"));
}

#[test]
fn rendering_twice_gives_the_same_page() {
    let mut meta = metadata("tool", "2.0.0", 1, "General commands");
    meta.homepage = Some("https://example.org".to_string());
    let help = "A sample tool\n\nUsage: tool [OPTIONS]\n\nOPTIONS:\n  --x\n";
    let entries = vec![entry("build", Some("Build")), entry("lost", None)];
    let first = generate_manpage_content(&meta, help, &entries);
    let second = generate_manpage_content(&meta.clone(), &help.to_string(), &entries.clone());
    assert_eq!(first.as_bytes(), second.as_bytes());
}

#[test]
fn synopsis_without_usage_is_the_stock_phrase() {
    let meta = metadata("tool", "1.0.0", 1, "General commands");
    let page = generate_manpage_content(&meta, "A tool\n", &vec![]);
    assert!(page.contains(".SH SYNOPSIS\n.B tool\n[OPTIONS] <BINARY_PATH>\n.SH DESCRIPTION\n"));
}

#[test]
fn synopsis_drops_the_first_repeat_of_the_name_only() {
    let meta = metadata("tool", "1.0.0", 1, "General commands");
    let page = generate_manpage_content(&meta, "Usage: my tool run tool now\n", &vec![]);
    assert!(page.contains(".SH SYNOPSIS\n.B tool\nmy run tool now\n"));
}

#[test]
fn synopsis_keeps_usage_that_does_not_repeat_the_name() {
    let meta = metadata("tool", "1.0.0", 1, "General commands");
    let page = generate_manpage_content(&meta, "Usage: other [FLAGS] tool\n", &vec![]);
    assert!(page.contains(".SH SYNOPSIS\n.B tool\nother [FLAGS] tool\n"));
}

#[test]
fn title_line_has_name_in_capitals_and_trimmed_version() {
    let meta = metadata("straße", "\t0.3.1 \n", 123, "Title");
    let page = generate_manpage_content(&meta, "", &vec![]);
    assert!(page.starts_with(".TH \"STRASSE\" \"123\" \"\" \"STRASSE 0.3.1\" \"Title\"\n.SH NAME\nstraße \\- Command line tool\n"));
}

#[test]
fn section_number_is_written_in_decimal() {
    for (section, digits) in [(0u8, "0"), (7, "7"), (10, "10"), (99, "99"), (100, "100"), (255, "255")] {
        let meta = metadata("t", "1", section, "x");
        let page = generate_manpage_content(&meta, "", &vec![]);
        assert!(page.starts_with(&format!(".TH \"T\" \"{}\" \"\" \"T 1\" \"x\"\n", digits)));
    }
}

#[test]
fn empty_help_gives_name_and_synopsis_alone() {
    let meta = metadata("t", "1", 1, "x");
    let page = generate_manpage_content(&meta, "", &vec![]);
    assert_eq!(
        page,
        ".TH \"T\" \"1\" \"\" \"T 1\" \"x\"\n.SH NAME\nt \\- Command line tool\n.SH SYNOPSIS\n.B t\n[OPTIONS] <BINARY_PATH>\n"
    );
}

#[test]
fn help_that_begins_with_a_marker_gives_no_description_section() {
    let meta = metadata("t", "1", 1, "x");
    let page = generate_manpage_content(&meta, "USAGE: t\nOPTIONS:\n  -x\n", &vec![]);
    assert_eq!(
        page,
        ".TH \"T\" \"1\" \"\" \"T 1\" \"x\"\n.SH NAME\nt \\- OPTIONS:\n.SH SYNOPSIS\n.B t\nt\n.SH OPTIONS\n-x\n\n"
    );
}

#[test]
fn subcommands_without_any_help_give_no_section() {
    let meta = metadata("t", "1", 1, "x");
    let page = generate_manpage_content(&meta, "T\n", &vec![entry("a", None), entry("b", None)]);
    assert!(!page.contains("SUBCOMMANDS"));
    assert!(page.ends_with(".SH DESCRIPTION\nT\n\n\n"));
}

fn kinds(document: &ManpageDocument) -> Vec<SectionKind> {
    document.sections.iter().map(|section| section.kind).collect()
}

#[test]
fn document_of_empty_help_has_name_and_synopsis() {
    let meta = metadata("t", "1", 1, "x");
    let document = build_document(&meta, "", &vec![entry("a", None)]);
    assert_eq!(kinds(&document), vec![SectionKind::Name, SectionKind::Synopsis]);
    assert_eq!(document.title_line, ".TH \"T\" \"1\" \"\" \"T 1\" \"x\"\n");
    assert_eq!(document.sections[0].text, "t \\- Command line tool\n");
    assert_eq!(document.sections[1].text, ".B t\n[OPTIONS] <BINARY_PATH>\n");
}

#[test]
fn document_has_its_sections_in_canonical_order() {
    let mut meta = metadata("tool", "2.0.0", 1, "General commands");
    meta.repository = Some("https://example.org/tool.git".to_string());
    let help = "A tool\n\nUsage: tool [OPTIONS]\n\nOPTIONS:\n  --x  An option\n";
    let document = build_document(&meta, help, &vec![entry("run", Some("Run it"))]);
    assert_eq!(
        kinds(&document),
        vec![
            SectionKind::Name,
            SectionKind::Synopsis,
            SectionKind::Description,
            SectionKind::Options,
            SectionKind::Subcommands,
            SectionKind::SeeAlso,
        ]
    );
    assert!(document.sections.iter().all(|section| !section.text.is_empty()));
    assert_eq!(document.sections[3].text, "\\-\\-x  An option\n\n");
    assert_eq!(document.sections[4].text, ".SS run\nRun it\n");
    assert_eq!(document.sections[5].text, "Git repo: https://example.org/tool.git\n\n");
}

#[test]
fn document_leaves_out_sections_without_text() {
    let mut meta = metadata("tool", "2.0.0", 1, "General commands");
    meta.homepage = Some("https://example.org".to_string());
    let document = build_document(&meta, "OPTIONS:\n  -q\n", &vec![]);
    assert_eq!(
        kinds(&document),
        vec![SectionKind::Name, SectionKind::Synopsis, SectionKind::Options, SectionKind::SeeAlso]
    );
}

#[test]
fn rendering_a_document_gives_the_page() {
    let mut meta = metadata("tool", "2.0.0", 1, "General commands");
    meta.homepage = Some("https://example.org".to_string());
    let help = "A tool\nUsage: tool\nOPTIONS:\n  -q\n";
    let entries = vec![entry("run", Some("Run it"))];
    assert_eq!(
        build_document(&meta, help, &entries).render(),
        generate_manpage_content(&meta, help, &entries)
    );
}

#[test]
fn rendering_writes_each_heading_before_its_text() {
    let document = ManpageDocument {
        title_line: ".TH \"X\"\n".to_string(),
        sections: vec![
            Section { kind: SectionKind::SeeAlso, text: "links\n".to_string() },
            Section { kind: SectionKind::Name, text: "x \\- y\n".to_string() },
        ],
    };
    assert_eq!(document.render(), ".TH \"X\"\n.SH SEE ALSO\nlinks\n.SH NAME\nx \\- y\n");
    let bare = ManpageDocument { title_line: String::new(), sections: vec![] };
    assert_eq!(bare.render(), "");
}

#[test]
fn headings_of_the_sections() {
    assert_eq!(SectionKind::Name.heading(), "NAME");
    assert_eq!(SectionKind::Synopsis.heading(), "SYNOPSIS");
    assert_eq!(SectionKind::Description.heading(), "DESCRIPTION");
    assert_eq!(SectionKind::Options.heading(), "OPTIONS");
    assert_eq!(SectionKind::Subcommands.heading(), "SUBCOMMANDS");
    assert_eq!(SectionKind::SeeAlso.heading(), "SEE ALSO");
}

#[test]
fn subcommand_help_is_converted() {
    assert_eq!(
        convert_subcommand_help("Build the pro-\nject\n\nUSAGE:\n  tool build --fast\n\nOPTIONS:\n  --fast  *Quick* `mode`\n"),
        "Build the project\n\n.SH USAGE\n\n  tool build \\-\\-fast\n\n.SH OPTIONS\n\n  \\-\\-fast  Quick mode\n"
    );
}

#[test]
fn subcommand_help_joins_lines_cut_before_carriage_return() {
    assert_eq!(convert_subcommand_help("pro-\r\nject -- x"), "project \\-\\- x");
    assert_eq!(convert_subcommand_help(""), "");
}

#[test]
fn subcommand_help_steps_come_in_order() {
    assert_eq!(convert_subcommand_help("-`-"), "--");
    assert_eq!(convert_subcommand_help("---"), "\\-\\--");
    assert_eq!(convert_subcommand_help("US-\nAGE:"), ".SH USAGE\n");
}

#[test]
fn default_titles_of_the_eight_sections() {
    assert_eq!(default_title(1), "General commands");
    assert_eq!(default_title(2), "System calls");
    assert_eq!(default_title(3), "Library functions");
    assert_eq!(default_title(4), "Special files and drivers");
    assert_eq!(default_title(5), "File formats and conventions");
    assert_eq!(default_title(6), "Games and screensavers");
    assert_eq!(default_title(7), "Miscellaneous");
    assert_eq!(default_title(8), "System admin commands and daemons");
}

#[test]
fn default_title_of_other_sections() {
    assert_eq!(default_title(0), "Unknown section");
    assert_eq!(default_title(9), "Unknown section");
    assert_eq!(default_title(255), "Unknown section");
}

#[test]
fn sections_one_to_eight_are_valid() {
    assert!(!is_valid_section(0));
    assert!(is_valid_section(1));
    assert!(is_valid_section(8));
    assert!(!is_valid_section(9));
}

#[test]
fn version_defaults_when_none_is_reported() {
    assert_eq!(resolve_version(None), "1.0.0");
    assert_eq!(resolve_version(Some("tool 3.1\n".to_string())), "tool 3.1\n");
}
