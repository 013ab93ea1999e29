//! The conversation with the binary: what to ask it, in which order, and
//! what to make of its answers.
//!
//! The library runs nothing itself. A session hands its caller one action at
//! a time; the caller runs the binary as the action says and hands back what
//! came of it. The binary is asked for its help text first, then for its
//! version, then for the help text of each subcommand that the help text
//! lists. Without the help text there is no page; a missing version or a
//! missing help text of a subcommand is made up for.

use vstd::prelude::*;
use crate::extract::{get_subcommands, subcommands};
use crate::render::{
    generate_manpage_content, manpage, resolve_version, version_or_default, Metadata,
    MetadataView, SubcommandEntry, SubcommandEntryView,
};

verus! {

/// How far a session has come.
#[derive(Clone, Copy, Debug, PartialEq, Eq, Structural)]
pub enum Stage {
    /// The binary has been asked for its help text.
    Help,
    /// The binary has been asked for its version.
    Version,
    /// The binary has been asked for the help text of a subcommand.
    Subcommands,
    /// The page is made.
    Done,
    /// The binary gave no help text.
    Failed,
}

/// What a session asks its caller to do next.
#[derive(Clone, Debug)]
pub enum Action {
    /// Run the binary with these arguments and hand back what it printed.
    Run(Vec<String>),
    /// Take the page: the session is over.
    Done(String),
    /// Give up with this message: the session is over.
    Failed(String),
}

/// The mathematical value of an `Action`.
pub ghost enum ActionView {
    Run(Seq<Seq<char>>),
    Done(Seq<char>),
    Failed(Seq<char>),
}

impl View for Action {
    type V = ActionView;

    open spec fn view(&self) -> ActionView {
        match self {
            Action::Run(arguments) => ActionView::Run(arguments.deep_view()),
            Action::Done(page) => ActionView::Done(page@),
            Action::Failed(message) => ActionView::Failed(message@),
        }
    }
}

/// A session: what is known of the program so far.
#[derive(Clone, Debug)]
pub struct Session {
    pub stage: Stage,
    /// What is known of the program besides its help text. The version is
    /// `1.0.0` until the binary has reported its own.
    pub meta: Metadata,
    /// The help text of the binary.
    pub help: String,
    /// The names of the subcommands that the help text lists.
    pub names: Vec<String>,
    /// The subcommands that the binary has been asked about so far.
    pub entries: Vec<SubcommandEntry>,
    /// Why the session failed, where it did.
    pub failure: String,
}

/// The mathematical value of a `Session`.
pub ghost struct SessionView {
    pub stage: Stage,
    pub meta: MetadataView,
    pub help: Seq<char>,
    pub names: Seq<Seq<char>>,
    pub entries: Seq<SubcommandEntryView>,
    pub failure: Seq<char>,
}

impl View for Session {
    type V = SessionView;

    open spec fn view(&self) -> SessionView {
        SessionView {
            stage: self.stage,
            meta: self.meta@,
            help: self.help@,
            names: self.names.deep_view(),
            entries: self.entries.deep_view(),
            failure: self.failure@,
        }
    }
}

/// What came of running the binary: what it printed on standard output, or,
/// where it failed, the reason.
pub open spec fn outcome(output: Result<String, String>) -> Result<Seq<char>, Seq<char>> {
    match output {
        Ok(text) => Ok(text@),
        Err(message) => Err(message@),
    }
}

/// What the binary printed, if it did not fail.
pub open spec fn printed(output: Result<Seq<char>, Seq<char>>) -> Option<Seq<char>> {
    match output {
        Ok(text) => Some(text),
        Err(_) => None,
    }
}

/// The session that begins for a program of which `meta` is known, with the
/// version still to be asked for.
pub open spec fn begun(meta: MetadataView) -> SessionView {
    SessionView {
        stage: Stage::Help,
        meta: MetadataView { version: version_or_default(None), ..meta },
        help: Seq::empty(),
        names: Seq::empty(),
        entries: Seq::empty(),
        failure: Seq::empty(),
    }
}

/// The first action of every session: to ask the binary for its help text.
pub open spec fn first_action() -> ActionView {
    ActionView::Run(seq!["--help"@])
}

/// How a session goes on once the version is known: it asks about the next
/// subcommand not asked about yet, or, where there is none, makes the page.
pub open spec fn proceed(s: SessionView) -> (SessionView, ActionView) {
    if s.entries.len() < s.names.len() {
        (
            SessionView { stage: Stage::Subcommands, ..s },
            ActionView::Run(seq![s.names[s.entries.len() as int], "--help"@]),
        )
    } else {
        (
            SessionView { stage: Stage::Done, ..s },
            ActionView::Done(manpage(s.meta, s.help, s.entries)),
        )
    }
}

/// The session after the answer `output` to its last action, and its next
/// action.
///
/// A help text makes the session ask for the version; no help text ends it
/// in failure, with the reason that the binary gave. Any answer on the
/// version makes the session go on, with the version that the binary
/// printed or with `1.0.0`. Any answer on a subcommand is noted with its
/// name, the help text being absent where the binary failed, and the session
/// goes on. A session that is over stays as it is and repeats its last
/// action.
pub open spec fn next(s: SessionView, output: Result<Seq<char>, Seq<char>>) -> (
    SessionView,
    ActionView,
) {
    match s.stage {
        Stage::Help => match output {
            Ok(help) => (
                SessionView { stage: Stage::Version, help, names: subcommands(help), ..s },
                ActionView::Run(seq!["--version"@]),
            ),
            Err(message) => (
                SessionView { stage: Stage::Failed, failure: message, ..s },
                ActionView::Failed(message),
            ),
        },
        Stage::Version => proceed(
            SessionView {
                meta: MetadataView { version: version_or_default(printed(output)), ..s.meta },
                ..s
            },
        ),
        Stage::Subcommands => proceed(
            if s.entries.len() < s.names.len() {
                SessionView {
                    entries: s.entries.push(
                        SubcommandEntryView {
                            name: s.names[s.entries.len() as int],
                            help: printed(output),
                        },
                    ),
                    ..s
                }
            } else {
                s
            },
        ),
        Stage::Done => (s, ActionView::Done(manpage(s.meta, s.help, s.entries))),
        Stage::Failed => (s, ActionView::Failed(s.failure)),
    }
}

/// The subcommands `names`, each with what the binary printed when asked
/// about it, as `answers` has it.
pub open spec fn asked(
    names: Seq<Seq<char>>,
    answers: Seq<Result<Seq<char>, Seq<char>>>,
) -> Seq<SubcommandEntryView>
    recommends
        names.len() == answers.len(),
{
    Seq::new(
        names.len(),
        |i: int| SubcommandEntryView { name: names[i], help: printed(answers[i]) },
    )
}

/// The last action of the session `s` when it is given the answers
/// `answers`, one after the other.
pub open spec fn last_action(
    s: SessionView,
    answers: Seq<Result<Seq<char>, Seq<char>>>,
) -> ActionView
    recommends
        answers.len() > 0,
    decreases answers.len(),
{
    if answers.len() <= 1 {
        next(s, answers[0]).1
    } else {
        last_action(next(s, answers[0]).0, answers.drop_first())
    }
}

/// A session that is given the help text of the binary, then an answer on
/// the version, then an answer on each subcommand that the help text lists,
/// ends with the page: the page of the program with that help text, with the
/// version that the binary printed or else `1.0.0`, and with each listed
/// subcommand, in the order of the help text, together with what the binary
/// printed about it.
pub proof fn lemma_session_makes_the_page(
    meta: MetadataView,
    help: Seq<char>,
    version: Result<Seq<char>, Seq<char>>,
    answers: Seq<Result<Seq<char>, Seq<char>>>,
)
    requires
        answers.len() == subcommands(help).len(),
    ensures
        last_action(begun(meta), seq![Ok(help), version] + answers) == ActionView::Done(
            manpage(
                MetadataView { version: version_or_default(printed(version)), ..meta },
                help,
                asked(subcommands(help), answers),
            ),
        ),
{
    let all = seq![Ok(help), version] + answers;
    let with_help = next(begun(meta), all[0]).0;
    let with_version = next(with_help, version).0;
    assert(all.drop_first() =~= seq![version] + answers);
    assert(last_action(begun(meta), all) == last_action(with_help, all.drop_first()));
    if answers.len() == 0 {
        assert(asked(subcommands(help), answers) =~= with_version.entries);
        assert(last_action(with_help, all.drop_first()) == next(with_help, version).1);
    } else {
        assert(last_action(with_help, all.drop_first()) == last_action(
            with_version,
            all.drop_first().drop_first(),
        ));
        assert(all.drop_first().drop_first() =~= answers);
        lemma_session_asks_about_the_rest(with_version, answers);
        assert(with_version.names.skip(0) =~= subcommands(help));
        assert(with_version.entries + asked(subcommands(help), answers) =~= asked(
            subcommands(help),
            answers,
        ));
    }
}

/// A session that is given no help text ends in failure, with the reason
/// that the binary gave.
pub proof fn lemma_session_fails_without_help(meta: MetadataView, reason: Seq<char>)
    ensures
        next(begun(meta), Err(reason)).0.stage == Stage::Failed,
        next(begun(meta), Err(reason)).1 == ActionView::Failed(reason),
{
}

/// A session that has asked about a subcommand, and is given an answer on
/// it and on each of those that follow, ends with the page that has all of
/// them.
proof fn lemma_session_asks_about_the_rest(
    s: SessionView,
    answers: Seq<Result<Seq<char>, Seq<char>>>,
)
    requires
        s.stage == Stage::Subcommands,
        s.entries.len() < s.names.len(),
        answers.len() == s.names.len() - s.entries.len(),
    ensures
        last_action(s, answers) == ActionView::Done(
            manpage(
                s.meta,
                s.help,
                s.entries + asked(s.names.skip(s.entries.len() as int), answers),
            ),
        ),
    decreases answers.len(),
{
    let k = s.entries.len() as int;
    let after = next(s, answers[0]).0;
    let all = s.entries + asked(s.names.skip(k), answers);
    if answers.len() == 1 {
        assert(after.entries =~= all);
    } else {
        lemma_session_asks_about_the_rest(after, answers.drop_first());
        assert(after.entries + asked(s.names.skip(k + 1), answers.drop_first()) =~= all);
    }
}

impl Session {
    /// Begins a session for a program of which `meta` is known. The version
    /// in `meta` does not count: the binary will be asked for it. The first
    /// action is to ask the binary for its help text.
    pub fn begin(meta: Metadata) -> (r: (Session, Action))
        ensures
            r.0@ == begun(meta@),
            r.1@ == first_action(),
    {
        let mut meta = meta;
        meta.version = resolve_version(None);
        let session = Session {
            stage: Stage::Help,
            meta,
            help: String::new(),
            names: Vec::new(),
            entries: Vec::new(),
            failure: String::new(),
        };
        let arguments: Vec<String> = vec!["--help".to_owned()];
        proof {
            assert(session.names.deep_view() =~= Seq::<Seq<char>>::empty());
            assert(session.entries.deep_view() =~= Seq::<SubcommandEntryView>::empty());
            assert(arguments.deep_view() =~= seq!["--help"@]);
        }
        (session, Action::Run(arguments))
    }

    /// Goes on once the version is known.
    fn proceed(&mut self) -> (action: Action)
        ensures
            (final(self)@, action@) == proceed(old(self)@),
    {
        if self.entries.len() < self.names.len() {
            self.stage = Stage::Subcommands;
            let name = self.names[self.entries.len()].clone();
            let arguments: Vec<String> = vec![name, "--help".to_owned()];
            proof {
                assert(arguments.deep_view() =~= seq![
                    old(self)@.names[old(self)@.entries.len() as int],
                    "--help"@,
                ]);
            }
            Action::Run(arguments)
        } else {
            self.stage = Stage::Done;
            Action::Done(generate_manpage_content(&self.meta, self.help.as_str(), &self.entries))
        }
    }

    /// Takes the answer to the last action and says what to do next.
    pub fn step(&mut self, output: Result<String, String>) -> (action: Action)
        ensures
            (final(self)@, action@) == next(old(self)@, outcome(output)),
    {
        match self.stage {
            Stage::Help => match output {
                Ok(help) => {
                    self.names = get_subcommands(help.as_str());
                    self.help = help;
                    self.stage = Stage::Version;
                    let arguments: Vec<String> = vec!["--version".to_owned()];
                    proof {
                        assert(arguments.deep_view() =~= seq!["--version"@]);
                    }
                    Action::Run(arguments)
                },
                Err(message) => {
                    self.stage = Stage::Failed;
                    self.failure = message.clone();
                    Action::Failed(message)
                },
            },
            Stage::Version => {
                self.meta.version = resolve_version(output.ok());
                self.proceed()
            },
            Stage::Subcommands => {
                if self.entries.len() < self.names.len() {
                    let name = self.names[self.entries.len()].clone();
                    self.entries.push(SubcommandEntry { name, help: output.ok() });
                    proof {
                        assert(self.entries.deep_view() =~= old(self)@.entries.push(
                            SubcommandEntryView {
                                name: old(self)@.names[old(self)@.entries.len() as int],
                                help: printed(outcome(output)),
                            },
                        ));
                    }
                }
                self.proceed()
            },
            Stage::Done => Action::Done(
                generate_manpage_content(&self.meta, self.help.as_str(), &self.entries),
            ),
            Stage::Failed => Action::Failed(self.failure.clone()),
        }
    }
}

} // verus!
