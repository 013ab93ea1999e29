//! The section extractor: finds in a help text its summary, its usage line,
//! its description, its options and the names of its subcommands.
//!
//! Help text has no grammar. Each extractor scans the lines for a marker and
//! keeps what its rule says; a text without the marker yields an empty or
//! absent result, never an error.

use vstd::prelude::*;
use crate::text::{
    append, blank, eq_ignore_ascii_case, first_word, from_chars, has_prefix, is_blank,
    is_whitespace, leading_word, lemma_first_word, lemma_trimmed, lemma_trimmed_bounds,
    lemma_trimmed_twice, lines, replace, replaced, same_ignoring_ascii_case, same_text, slice,
    split_lines, starts_with, text_of, to_chars, trim, trimmed, views,
};

verus! {

/// A summary line is not blank and does not begin, once trimmed, with the
/// capital `U` of a usage line.
pub open spec fn is_summary_line(line: Seq<char>) -> bool {
    let t = trimmed(line);
    t.len() > 0 && t[0] != 'U'
}

/// The first summary line of `ls`, trimmed; the stock phrase where `ls` has
/// none.
pub open spec fn first_summary(ls: Seq<Seq<char>>) -> Seq<char>
    decreases ls.len(),
{
    if ls.len() == 0 {
        "Command line tool"@
    } else if is_summary_line(ls[0]) {
        trimmed(ls[0])
    } else {
        first_summary(ls.drop_first())
    }
}

/// The short description of the program whose help text is `text`.
pub open spec fn short_description(text: Seq<char>) -> Seq<char> {
    first_summary(lines(text))
}

/// A usage line begins, once trimmed, with `Usage:` or `USAGE:`.
pub open spec fn is_usage_line(line: Seq<char>) -> bool {
    has_prefix(trimmed(line), "Usage:"@) || has_prefix(trimmed(line), "USAGE:"@)
}

/// What a usage line says: the trimmed line without its marker, trimmed
/// again.
pub open spec fn usage_text(line: Seq<char>) -> Seq<char> {
    let t = trimmed(line);
    if has_prefix(t, "Usage:"@) {
        trimmed(t.skip("Usage:"@.len() as int))
    } else {
        trimmed(t.skip("USAGE:"@.len() as int))
    }
}

/// What the first usage line of `ls` says, if `ls` has one.
pub open spec fn first_usage(ls: Seq<Seq<char>>) -> Option<Seq<char>>
    decreases ls.len(),
{
    if ls.len() == 0 {
        None
    } else if is_usage_line(ls[0]) {
        Some(usage_text(ls[0]))
    } else {
        first_usage(ls.drop_first())
    }
}

/// The usage of the program whose help text is `text`, if the text states it.
pub open spec fn usage(text: Seq<char>) -> Option<Seq<char>> {
    first_usage(lines(text))
}

/// A line that begins, once trimmed, with `USAGE:` or `OPTIONS:` ends the
/// description.
pub open spec fn ends_description(line: Seq<char>) -> bool {
    has_prefix(trimmed(line), "USAGE:"@) || has_prefix(trimmed(line), "OPTIONS:"@)
}

/// The lines of `ls` that stand before the first one that ends the
/// description: each of them that is not blank, trimmed and closed by a line
/// feed.
pub open spec fn description_lines(ls: Seq<Seq<char>>) -> Seq<char>
    decreases ls.len(),
{
    if ls.len() == 0 || ends_description(ls[0]) {
        Seq::empty()
    } else if blank(ls[0]) {
        description_lines(ls.drop_first())
    } else {
        trimmed(ls[0]) + seq!['\n'] + description_lines(ls.drop_first())
    }
}

/// `s` with the hyphens that stand right before a line break removed
/// together with that break, so that a word cut in two at the end of a line
/// is whole again.
pub open spec fn dehyphenated(s: Seq<char>) -> Seq<char> {
    replaced(replaced(s, "-\n"@, ""@), "-\r\n"@, ""@)
}

/// `s` without its backticks and asterisks.
pub open spec fn without_markup(s: Seq<char>) -> Seq<char> {
    replaced(replaced(s, "`"@, ""@), "*"@, ""@)
}

/// `s` with each pair of hyphens escaped for groff.
pub open spec fn dashes_escaped(s: Seq<char>) -> Seq<char> {
    replaced(s, "--"@, "\\-\\-"@)
}

/// The description of the program whose help text is `text`: the lines
/// before the first usage or options marker, joined again where a hyphen had
/// cut a word, without markup characters, each followed by an empty line.
pub open spec fn description(text: Seq<char>) -> Seq<char> {
    replaced(without_markup(dehyphenated(description_lines(lines(text)))), "\n"@, "\n\n"@)
}

/// The line that opens the options begins, once trimmed, with `OPTIONS:`.
pub open spec fn is_options_marker(line: Seq<char>) -> bool {
    has_prefix(trimmed(line), "OPTIONS:"@)
}

/// The lines of `ls` that follow its first options marker.
pub open spec fn after_options_marker(ls: Seq<Seq<char>>) -> Seq<Seq<char>>
    decreases ls.len(),
{
    if ls.len() == 0 {
        Seq::empty()
    } else if is_options_marker(ls[0]) {
        ls.drop_first()
    } else {
        after_options_marker(ls.drop_first())
    }
}

/// One line of the options block: its double hyphens escaped, trimmed.
pub open spec fn option_line(line: Seq<char>) -> Seq<char> {
    trimmed(dashes_escaped(line))
}

/// The options block that `ls` begins with, each of its lines closed by a
/// line feed. Further marker lines are passed over. Blank lines are passed
/// over until the block has `started`; the first one after that ends it.
pub open spec fn options_block(ls: Seq<Seq<char>>, started: bool) -> Seq<char>
    decreases ls.len(),
{
    if ls.len() == 0 {
        Seq::empty()
    } else if is_options_marker(ls[0]) {
        options_block(ls.drop_first(), started)
    } else if blank(ls[0]) {
        if started {
            Seq::empty()
        } else {
            options_block(ls.drop_first(), false)
        }
    } else {
        option_line(ls[0]) + seq!['\n'] + options_block(ls.drop_first(), true)
    }
}

/// The options of the program whose help text is `text`, if the text lists
/// any.
pub open spec fn options(text: Seq<char>) -> Option<Seq<char>> {
    let block = options_block(after_options_marker(lines(text)), false);
    if block.len() == 0 {
        None
    } else {
        Some(block)
    }
}

/// The line that opens the list of subcommands reads, once trimmed,
/// `SUBCOMMANDS:` or `Commands:`, in any case of the letters.
pub open spec fn is_commands_marker(line: Seq<char>) -> bool {
    same_ignoring_ascii_case(trimmed(line), "SUBCOMMANDS:"@) || same_ignoring_ascii_case(
        trimmed(line),
        "Commands:"@,
    )
}

/// The lines of `ls` that follow its first commands marker.
pub open spec fn after_commands_marker(ls: Seq<Seq<char>>) -> Seq<Seq<char>>
    decreases ls.len(),
{
    if ls.len() == 0 {
        Seq::empty()
    } else if is_commands_marker(ls[0]) {
        ls.drop_first()
    } else {
        after_commands_marker(ls.drop_first())
    }
}

/// A word names a subcommand unless it begins with a hyphen, as a flag does,
/// or is the built-in `help`.
pub open spec fn names_subcommand(word: Seq<char>) -> bool {
    !has_prefix(word, seq!['-']) && word != "help"@
}

/// A name of a subcommand: a word, not empty and without white space, that
/// names a subcommand.
pub open spec fn is_name(word: Seq<char>) -> bool {
    &&& word.len() > 0
    &&& forall|i: int| 0 <= i < word.len() ==> !is_whitespace(#[trigger] word[i])
    &&& names_subcommand(word)
}

/// The subcommands named in the block that `ls` begins with: the first word
/// of each line up to the first blank one, where that word names a
/// subcommand. Further marker lines are passed over.
pub open spec fn command_names(ls: Seq<Seq<char>>) -> Seq<Seq<char>>
    decreases ls.len(),
{
    if ls.len() == 0 {
        Seq::empty()
    } else if is_commands_marker(ls[0]) {
        command_names(ls.drop_first())
    } else if blank(ls[0]) {
        Seq::empty()
    } else if names_subcommand(first_word(ls[0])) {
        seq![first_word(ls[0])] + command_names(ls.drop_first())
    } else {
        command_names(ls.drop_first())
    }
}

/// The names of the subcommands that the help text `text` lists, in the
/// order in which it lists them.
pub open spec fn subcommands(text: Seq<char>) -> Seq<Seq<char>> {
    command_names(after_commands_marker(lines(text)))
}

/// A help text states as its usage what its first usage line says.
pub proof fn lemma_usage_is_first_usage_line(text: Seq<char>, i: int)
    requires
        0 <= i < lines(text).len(),
        is_usage_line(lines(text)[i]),
        forall|j: int| 0 <= j < i ==> !is_usage_line(lines(text)[j]),
    ensures
        usage(text) == Some(usage_text(lines(text)[i])),
{
    lemma_first_usage(lines(text), i);
}

/// A help text without a usage line states no usage.
pub proof fn lemma_no_usage_without_marker(text: Seq<char>)
    requires
        forall|j: int| 0 <= j < lines(text).len() ==> !is_usage_line(lines(text)[j]),
    ensures
        usage(text) is None,
{
    lemma_first_usage_none(lines(text));
}

/// A line made of white space, then the marker `Usage:` or `USAGE:`, then
/// any text, is a usage line, and it says that text without the white space
/// around it.
pub proof fn lemma_usage_line_says_rest(lead: Seq<char>, marker: Seq<char>, rest: Seq<char>)
    requires
        forall|i: int| 0 <= i < lead.len() ==> is_whitespace(lead[i]),
        marker == "Usage:"@ || marker == "USAGE:"@,
    ensures
        is_usage_line(lead + marker + rest),
        usage_text(lead + marker + rest) == trimmed(rest),
{
    reveal_strlit("Usage:");
    reveal_strlit("USAGE:");
    let line = lead + marker + rest;
    let (from, to) = lemma_trimmed_bounds(rest);
    let kept = if from == to {
        0
    } else {
        to
    };
    let start = lead.len() as int;
    lemma_trimmed(line, start, start + 6 + kept);
    let t = line.subrange(start, start + 6 + kept);
    assert(t.take(6) =~= marker);
    assert(t.skip(6) =~= rest.take(kept));
    if from == to {
        lemma_trimmed(rest.take(kept), 0, 0);
    } else {
        lemma_trimmed(rest.take(kept), from, to);
    }
}

/// The usage that a help text states has no white space at either end, so
/// that trimming it again changes nothing.
pub proof fn lemma_usage_is_trimmed(text: Seq<char>)
    ensures
        match usage(text) {
            Some(u) => trimmed(u) == u,
            None => true,
        },
{
    lemma_first_usage_is_trimmed(lines(text));
}

/// Every name among the subcommands of a help text names a subcommand: it
/// is not empty, holds no white space, does not begin with a hyphen and is
/// not `help`.
pub proof fn lemma_subcommands_are_names(text: Seq<char>)
    ensures
        forall|i: int|
            0 <= i < subcommands(text).len() ==> is_name(#[trigger] subcommands(text)[i]),
{
    lemma_command_names_are_names(after_commands_marker(lines(text)));
}

/// The lines of `block`, each as a line of the options block, closed by a
/// line feed.
pub open spec fn option_lines(block: Seq<Seq<char>>) -> Seq<char>
    decreases block.len(),
{
    if block.len() == 0 {
        Seq::empty()
    } else {
        option_line(block[0]) + seq!['\n'] + option_lines(block.drop_first())
    }
}

/// A help text whose first options marker is followed by the lines `block`,
/// none of them blank and none a marker again, and then by a blank line or
/// by nothing, lists as its options just the lines of `block`: not the blank
/// line, and nothing that comes after it.
pub proof fn lemma_options_are_the_first_block(
    text: Seq<char>,
    before: Seq<Seq<char>>,
    marker: Seq<char>,
    block: Seq<Seq<char>>,
    after: Seq<Seq<char>>,
)
    requires
        lines(text) == before + seq![marker] + block + after,
        forall|i: int| 0 <= i < before.len() ==> !is_options_marker(before[i]),
        is_options_marker(marker),
        block.len() > 0,
        forall|i: int| 0 <= i < block.len() ==> !blank(block[i]) && !is_options_marker(block[i]),
        after.len() == 0 || blank(after[0]),
    ensures
        options(text) == Some(option_lines(block)),
{
    lemma_after_options_marker(before, marker, block + after);
    assert(before + seq![marker] + (block + after) =~= before + seq![marker] + block + after);
    lemma_options_block(block, after, false);
}

/// The lines of `block`, each reduced to its first word, where that word
/// names a subcommand.
pub open spec fn names_among(block: Seq<Seq<char>>) -> Seq<Seq<char>>
    decreases block.len(),
{
    if block.len() == 0 {
        Seq::empty()
    } else if names_subcommand(first_word(block[0])) {
        seq![first_word(block[0])] + names_among(block.drop_first())
    } else {
        names_among(block.drop_first())
    }
}

/// A help text whose first commands marker is followed by the lines
/// `block`, none of them blank and none a marker again, and then by a blank
/// line or by nothing, lists as its subcommands the first words of the lines
/// of `block`, but for flags and `help`, and nothing that comes after.
pub proof fn lemma_subcommands_are_the_first_block(
    text: Seq<char>,
    before: Seq<Seq<char>>,
    marker: Seq<char>,
    block: Seq<Seq<char>>,
    after: Seq<Seq<char>>,
)
    requires
        lines(text) == before + seq![marker] + block + after,
        forall|i: int| 0 <= i < before.len() ==> !is_commands_marker(before[i]),
        is_commands_marker(marker),
        forall|i: int| 0 <= i < block.len() ==> !blank(block[i]) && !is_commands_marker(block[i]),
        after.len() == 0 || blank(after[0]),
    ensures
        subcommands(text) == names_among(block),
{
    lemma_after_commands_marker(before, marker, block + after);
    assert(before + seq![marker] + (block + after) =~= before + seq![marker] + block + after);
    lemma_command_names(block, after);
}

/// A help text none of whose lines opens the options lists no options.
pub proof fn lemma_no_options_without_marker(text: Seq<char>)
    requires
        forall|j: int| 0 <= j < lines(text).len() ==> !is_options_marker(lines(text)[j]),
    ensures
        options(text) is None,
{
    lemma_nothing_after_missing_marker(lines(text));
}

proof fn lemma_after_options_marker(before: Seq<Seq<char>>, marker: Seq<char>, rest: Seq<Seq<char>>)
    requires
        forall|i: int| 0 <= i < before.len() ==> !is_options_marker(before[i]),
        is_options_marker(marker),
    ensures
        after_options_marker(before + seq![marker] + rest) == rest,
    decreases before.len(),
{
    let all = before + seq![marker] + rest;
    if before.len() == 0 {
        assert(all.drop_first() =~= rest);
    } else {
        assert(all[0] == before[0]);
        assert(all.drop_first() =~= before.drop_first() + seq![marker] + rest);
        assert forall|i: int| 0 <= i < before.drop_first().len() implies !is_options_marker(
            before.drop_first()[i],
        ) by {
            assert(before.drop_first()[i] == before[i + 1]);
        }
        lemma_after_options_marker(before.drop_first(), marker, rest);
    }
}

proof fn lemma_options_block(block: Seq<Seq<char>>, after: Seq<Seq<char>>, started: bool)
    requires
        forall|i: int| 0 <= i < block.len() ==> !blank(block[i]) && !is_options_marker(block[i]),
        after.len() == 0 || blank(after[0]),
        block.len() > 0 || started,
    ensures
        options_block(block + after, started) == option_lines(block),
        block.len() > 0 ==> option_lines(block).len() > 0,
    decreases block.len(),
{
    reveal_strlit("OPTIONS:");
    let all = block + after;
    if block.len() == 0 {
        assert(all =~= after);
    } else {
        assert(all[0] == block[0]);
        assert(all.drop_first() =~= block.drop_first() + after);
        assert forall|i: int| 0 <= i < block.drop_first().len() implies !blank(
            block.drop_first()[i],
        ) && !is_options_marker(block.drop_first()[i]) by {
            assert(block.drop_first()[i] == block[i + 1]);
        }
        lemma_options_block(block.drop_first(), after, true);
    }
}

proof fn lemma_after_commands_marker(
    before: Seq<Seq<char>>,
    marker: Seq<char>,
    rest: Seq<Seq<char>>,
)
    requires
        forall|i: int| 0 <= i < before.len() ==> !is_commands_marker(before[i]),
        is_commands_marker(marker),
    ensures
        after_commands_marker(before + seq![marker] + rest) == rest,
    decreases before.len(),
{
    let all = before + seq![marker] + rest;
    if before.len() == 0 {
        assert(all.drop_first() =~= rest);
    } else {
        assert(all[0] == before[0]);
        assert(all.drop_first() =~= before.drop_first() + seq![marker] + rest);
        assert forall|i: int| 0 <= i < before.drop_first().len() implies !is_commands_marker(
            before.drop_first()[i],
        ) by {
            assert(before.drop_first()[i] == before[i + 1]);
        }
        lemma_after_commands_marker(before.drop_first(), marker, rest);
    }
}

proof fn lemma_command_names(block: Seq<Seq<char>>, after: Seq<Seq<char>>)
    requires
        forall|i: int| 0 <= i < block.len() ==> !blank(block[i]) && !is_commands_marker(block[i]),
        after.len() == 0 || blank(after[0]),
    ensures
        command_names(block + after) == names_among(block),
    decreases block.len(),
{
    reveal_strlit("SUBCOMMANDS:");
    reveal_strlit("Commands:");
    let all = block + after;
    if block.len() == 0 {
        assert(all =~= after);
    } else {
        assert(all[0] == block[0]);
        assert(all.drop_first() =~= block.drop_first() + after);
        assert forall|i: int| 0 <= i < block.drop_first().len() implies !blank(
            block.drop_first()[i],
        ) && !is_commands_marker(block.drop_first()[i]) by {
            assert(block.drop_first()[i] == block[i + 1]);
        }
        lemma_command_names(block.drop_first(), after);
    }
}

proof fn lemma_first_usage_is_trimmed(ls: Seq<Seq<char>>)
    ensures
        match first_usage(ls) {
            Some(u) => trimmed(u) == u,
            None => true,
        },
    decreases ls.len(),
{
    if ls.len() > 0 {
        if is_usage_line(ls[0]) {
            let t = trimmed(ls[0]);
            lemma_trimmed_twice(t.skip("Usage:"@.len() as int));
            lemma_trimmed_twice(t.skip("USAGE:"@.len() as int));
        } else {
            lemma_first_usage_is_trimmed(ls.drop_first());
        }
    }
}

proof fn lemma_command_names_are_names(ls: Seq<Seq<char>>)
    ensures
        forall|i: int| 0 <= i < command_names(ls).len() ==> is_name(#[trigger] command_names(ls)[i]),
    decreases ls.len(),
{
    if ls.len() > 0 {
        let rest = command_names(ls.drop_first());
        lemma_command_names_are_names(ls.drop_first());
        if !is_commands_marker(ls[0]) && !blank(ls[0]) && names_subcommand(first_word(ls[0])) {
            lemma_first_word(ls[0]);
            let names = seq![first_word(ls[0])] + rest;
            assert forall|i: int| 0 <= i < names.len() implies is_name(#[trigger] names[i]) by {
                if i > 0 {
                    assert(names[i] == rest[i - 1]);
                }
            }
        }
    }
}

proof fn lemma_first_usage(ls: Seq<Seq<char>>, i: int)
    requires
        0 <= i < ls.len(),
        is_usage_line(ls[i]),
        forall|j: int| 0 <= j < i ==> !is_usage_line(ls[j]),
    ensures
        first_usage(ls) == Some(usage_text(ls[i])),
    decreases i,
{
    if i > 0 {
        lemma_first_usage(ls.drop_first(), i - 1);
    }
}

proof fn lemma_first_usage_none(ls: Seq<Seq<char>>)
    requires
        forall|j: int| 0 <= j < ls.len() ==> !is_usage_line(ls[j]),
    ensures
        first_usage(ls) is None,
    decreases ls.len(),
{
    if ls.len() > 0 {
        assert forall|j: int| 0 <= j < ls.drop_first().len() implies !is_usage_line(
            ls.drop_first()[j],
        ) by {
            assert(ls.drop_first()[j] == ls[j + 1]);
        }
        lemma_first_usage_none(ls.drop_first());
    }
}

proof fn lemma_nothing_after_missing_marker(ls: Seq<Seq<char>>)
    requires
        forall|j: int| 0 <= j < ls.len() ==> !is_options_marker(ls[j]),
    ensures
        after_options_marker(ls).len() == 0,
    decreases ls.len(),
{
    if ls.len() > 0 {
        assert forall|j: int| 0 <= j < ls.drop_first().len() implies !is_options_marker(
            ls.drop_first()[j],
        ) by {
            assert(ls.drop_first()[j] == ls[j + 1]);
        }
        lemma_nothing_after_missing_marker(ls.drop_first());
    }
}

/// The first summary line among `ls`.
pub(crate) fn summary_in(ls: &Vec<Vec<char>>) -> (r: Vec<char>)
    ensures
        r@ == first_summary(views(ls@)),
{
    let mut i: usize = 0;
    proof {
        assert(views(ls@).skip(0) =~= views(ls@));
    }
    while i < ls.len()
        invariant
            i <= ls.len(),
            first_summary(views(ls@).skip(i as int)) == first_summary(views(ls@)),
        decreases ls.len() - i,
    {
        let t = trim(&ls[i]);
        if t.len() > 0 && t[0] != 'U' {
            return t;
        }
        proof {
            assert(views(ls@).skip(i as int).drop_first() =~= views(ls@).skip(i + 1));
        }
        i += 1;
    }
    to_chars("Command line tool")
}

/// The short description of the program: the first line of its help text
/// that is neither blank nor a usage line, trimmed. A help text without such
/// a line yields `Command line tool`.
pub fn get_short_description(help_text: &str) -> (r: String)
    ensures
        r@ == short_description(help_text@),
{
    let ls = split_lines(&to_chars(help_text));
    from_chars(&summary_in(&ls))
}

/// Tells whether `line` opens the options.
pub(crate) fn options_marker(line: &Vec<char>) -> (b: bool)
    ensures
        b == is_options_marker(line@),
{
    let t = trim(line);
    starts_with(&t, "OPTIONS:")
}

/// The index of the line after the first options marker among `ls`: the
/// number of lines where there is no marker.
pub(crate) fn options_start(ls: &Vec<Vec<char>>) -> (start: usize)
    ensures
        start <= ls.len(),
        after_options_marker(views(ls@)) == views(ls@).skip(start as int),
{
    let mut i: usize = 0;
    proof {
        assert(views(ls@).skip(0) =~= views(ls@));
    }
    while i < ls.len()
        invariant
            i <= ls.len(),
            after_options_marker(views(ls@).skip(i as int)) == after_options_marker(views(ls@)),
        decreases ls.len() - i,
    {
        proof {
            assert(views(ls@).skip(i as int).drop_first() =~= views(ls@).skip(i + 1));
        }
        if options_marker(&ls[i]) {
            return i + 1;
        }
        i += 1;
    }
    i
}

/// The options block among `ls`: empty where `ls` has no options.
pub(crate) fn options_in(ls: &Vec<Vec<char>>) -> (block: Vec<char>)
    ensures
        block@ == options_block(after_options_marker(views(ls@)), false),
{
    let start = options_start(ls);
    let mut block: Vec<char> = Vec::new();
    let mut i: usize = start;
    while i < ls.len()
        invariant
            start <= i <= ls.len(),
            after_options_marker(views(ls@)) == views(ls@).skip(start as int),
            block@ + options_block(views(ls@).skip(i as int), block@.len() > 0) == options_block(
                views(ls@).skip(start as int),
                false,
            ),
        decreases ls.len() - i,
    {
        let ghost rest = views(ls@).skip(i as int);
        let ghost before = block@;
        proof {
            assert(rest.drop_first() =~= views(ls@).skip(i + 1));
        }
        if !options_marker(&ls[i]) {
            if is_blank(&ls[i]) {
                if block.len() > 0 {
                    return block;
                }
            } else {
                let line = trim(&replace(&ls[i], "--", "\\-\\-"));
                append(&mut block, &line);
                block.push('\n');
                proof {
                    let tail = options_block(rest.drop_first(), true);
                    assert((before + line@).push('\n') + tail =~= before + (line@ + seq!['\n']
                        + tail));
                }
            }
        }
        i += 1;
    }
    block
}

/// The options of the program: the lines of its help text that follow the
/// first line beginning with `OPTIONS:`, up to the first blank line that
/// comes after an option. Each line is trimmed, has its double hyphens
/// escaped and ends with a line feed. A help text without options yields
/// `None`.
pub fn extract_options(help_text: &str) -> (r: Option<String>)
    ensures
        text_of(r) == options(help_text@),
{
    let ls = split_lines(&to_chars(help_text));
    let block = options_in(&ls);
    if block.len() == 0 {
        None
    } else {
        Some(from_chars(&block))
    }
}

/// Tells whether `line` opens the list of subcommands.
pub(crate) fn commands_marker(line: &Vec<char>) -> (b: bool)
    ensures
        b == is_commands_marker(line@),
{
    let t = trim(line);
    eq_ignore_ascii_case(&t, "SUBCOMMANDS:") || eq_ignore_ascii_case(&t, "Commands:")
}

/// The index of the line after the first commands marker among `ls`: the
/// number of lines where there is no marker.
pub(crate) fn commands_start(ls: &Vec<Vec<char>>) -> (start: usize)
    ensures
        start <= ls.len(),
        after_commands_marker(views(ls@)) == views(ls@).skip(start as int),
{
    let mut i: usize = 0;
    proof {
        assert(views(ls@).skip(0) =~= views(ls@));
    }
    while i < ls.len()
        invariant
            i <= ls.len(),
            after_commands_marker(views(ls@).skip(i as int)) == after_commands_marker(
                views(ls@),
            ),
        decreases ls.len() - i,
    {
        proof {
            assert(views(ls@).skip(i as int).drop_first() =~= views(ls@).skip(i + 1));
        }
        if commands_marker(&ls[i]) {
            return i + 1;
        }
        i += 1;
    }
    i
}

/// Tells whether `word` names a subcommand.
pub(crate) fn is_subcommand_name(word: &Vec<char>) -> (b: bool)
    ensures
        b == names_subcommand(word@),
{
    let flag = word.len() > 0 && word[0] == '-';
    proof {
        assert(flag ==> word@.take(1) =~= seq!['-']);
        assert(has_prefix(word@, seq!['-']) ==> word@.take(1)[0] == '-');
    }
    !flag && !same_text(word, "help")
}

/// The names of the subcommands listed among `ls`.
pub(crate) fn subcommands_in(ls: &Vec<Vec<char>>) -> (names: Vec<String>)
    ensures
        names.deep_view() == command_names(after_commands_marker(views(ls@))),
{
    let start = commands_start(ls);
    let mut names: Vec<String> = Vec::new();
    let mut i: usize = start;
    proof {
        assert(Seq::<Seq<char>>::empty() + command_names(views(ls@).skip(start as int))
            =~= command_names(views(ls@).skip(start as int)));
    }
    while i < ls.len()
        invariant
            start <= i <= ls.len(),
            after_commands_marker(views(ls@)) == views(ls@).skip(start as int),
            names.deep_view() + command_names(views(ls@).skip(i as int)) == command_names(
                views(ls@).skip(start as int),
            ),
        decreases ls.len() - i,
    {
        let ghost rest = views(ls@).skip(i as int);
        proof {
            assert(rest.drop_first() =~= views(ls@).skip(i + 1));
        }
        if !commands_marker(&ls[i]) {
            if is_blank(&ls[i]) {
                return names;
            }
            let word = leading_word(&ls[i]);
            if is_subcommand_name(&word) {
                let name = from_chars(&word);
                names.push(name);
            }
        }
        i += 1;
    }
    names
}

/// The names of the subcommands that a help text lists: the first word of
/// each line that follows the line `SUBCOMMANDS:` or `Commands:` (in any case
/// of the letters), up to the first blank line. Words that begin with a
/// hyphen and the word `help` are left out. The names come in the order of
/// the help text.
pub fn get_subcommands(help_text: &str) -> (names: Vec<String>)
    ensures
        names.deep_view() == subcommands(help_text@),
{
    let ls = split_lines(&to_chars(help_text));
    subcommands_in(&ls)
}

/// The lines among `ls` that make up the description, not yet cleaned.
pub(crate) fn description_lines_in(ls: &Vec<Vec<char>>) -> (kept: Vec<char>)
    ensures
        kept@ == description_lines(views(ls@)),
{
    let mut kept: Vec<char> = Vec::new();
    let mut i: usize = 0;
    proof {
        assert(views(ls@).skip(0) =~= views(ls@));
    }
    while i < ls.len()
        invariant
            i <= ls.len(),
            kept@ + description_lines(views(ls@).skip(i as int)) == description_lines(views(ls@)),
        decreases ls.len() - i,
    {
        let ghost rest = views(ls@).skip(i as int);
        proof {
            assert(rest.drop_first() =~= views(ls@).skip(i + 1));
        }
        let t = trim(&ls[i]);
        if starts_with(&t, "USAGE:") || starts_with(&t, "OPTIONS:") {
            return kept;
        }
        if t.len() > 0 {
            append(&mut kept, &t);
            kept.push('\n');
        }
        i += 1;
    }
    kept
}

/// The description among `ls`.
pub(crate) fn description_in(ls: &Vec<Vec<char>>) -> (r: Vec<char>)
    ensures
        r@ == replaced(
            without_markup(dehyphenated(description_lines(views(ls@)))),
            "\n"@,
            "\n\n"@,
        ),
{
    let kept = description_lines_in(ls);
    let joined = replace(&replace(&kept, "-\n", ""), "-\r\n", "");
    let plain = replace(&replace(&joined, "`", ""), "*", "");
    replace(&plain, "\n", "\n\n")
}

/// The description of the program: the lines of its help text before the
/// first one that begins with `USAGE:` or `OPTIONS:`. Blank lines are left
/// out and the others trimmed. A hyphen at the end of a line joins the line
/// to the next one, backticks and asterisks are removed, and each line that
/// remains is followed by an empty line, so that groff sets it as a
/// paragraph.
pub fn format_description(help_text: &str) -> (r: String)
    ensures
        r@ == description(help_text@),
{
    let ls = split_lines(&to_chars(help_text));
    from_chars(&description_in(&ls))
}

/// What the first usage line among `ls` says.
pub(crate) fn usage_in(ls: &Vec<Vec<char>>) -> (r: Option<Vec<char>>)
    ensures
        match r {
            Some(u) => first_usage(views(ls@)) == Some(u@),
            None => first_usage(views(ls@)) is None,
        },
{
    let mut i: usize = 0;
    proof {
        assert(views(ls@).skip(0) =~= views(ls@));
    }
    while i < ls.len()
        invariant
            i <= ls.len(),
            first_usage(views(ls@).skip(i as int)) == first_usage(views(ls@)),
        decreases ls.len() - i,
    {
        proof {
            assert(views(ls@).skip(i as int).drop_first() =~= views(ls@).skip(i + 1));
        }
        let t = trim(&ls[i]);
        if starts_with(&t, "Usage:") {
            let marker = to_chars("Usage:");
            let rest = slice(&t, marker.len(), t.len());
            return Some(trim(&rest));
        }
        if starts_with(&t, "USAGE:") {
            let marker = to_chars("USAGE:");
            let rest = slice(&t, marker.len(), t.len());
            return Some(trim(&rest));
        }
        i += 1;
    }
    None
}

/// The usage of the program: the first line of its help text that begins,
/// once trimmed, with `Usage:` or `USAGE:`, without that marker and trimmed
/// again. A help text without such a line yields `None`.
pub fn get_usage(help_text: &str) -> (r: Option<String>)
    ensures
        text_of(r) == usage(help_text@),
{
    let ls = split_lines(&to_chars(help_text));
    match usage_in(&ls) {
        Some(u) => Some(from_chars(&u)),
        None => None,
    }
}

} // verus!
