//! Whether the terminal answers capability queries, decided from the platform
//! and three variables of the environment. The tables below are the whole
//! configuration: the decision never looks at anything else.

use crate::text::{entries, listed, same_text, starts_with};
use vstd::prelude::*;

verus! {

/// What is known of a terminal's answer to a capability query.
#[derive(Clone, Copy, Debug, PartialEq, Eq, Structural)]
pub enum TerminalKind {
    /// The terminal answers capability queries.
    Supported,
    /// The terminal ignores or mishandles capability queries, or cannot be put
    /// into raw mode.
    Unsupported,
    /// No rule matched: the caller chooses a fallback.
    Unknown,
}

/// The kind of host the process runs on.
#[derive(Clone, Copy, Debug, PartialEq, Eq, Structural)]
pub enum Platform {
    /// A host whose console layer removes capability queries before any
    /// terminal sees them.
    Windows,
    /// Any other host.
    Other,
}

/// The three variables that the decision reads, each `None` where it is unset
/// or holds no valid text.
#[derive(Clone, Debug)]
pub struct TerminalEnv {
    /// `TERM`: the terminal type.
    pub term: Option<String>,
    /// `TERM_PROGRAM`: the terminal program.
    pub term_program: Option<String>,
    /// `TERMINAL_EMULATOR`: the terminal emulator.
    pub terminal_emulator: Option<String>,
}

/// A `TerminalEnv` as plain text.
pub struct TerminalEnvView {
    /// The characters of the terminal type, where it is set.
    pub term: Option<Seq<char>>,
    /// The characters of the terminal program, where it is set.
    pub term_program: Option<Seq<char>>,
    /// The characters of the terminal emulator, where it is set.
    pub terminal_emulator: Option<Seq<char>>,
}

/// The characters of a variable's value, where it has one.
pub open spec fn value_text(value: Option<String>) -> Option<Seq<char>> {
    match value {
        Some(text) => Some(text@),
        None => None,
    }
}

impl View for TerminalEnv {
    type V = TerminalEnvView;

    open spec fn view(&self) -> TerminalEnvView {
        TerminalEnvView {
            term: value_text(self.term),
            term_program: value_text(self.term_program),
            terminal_emulator: value_text(self.terminal_emulator),
        }
    }
}

/// Terminal types that answer queries.
pub open spec fn supported_terms() -> Seq<Seq<char>> {
    seq!["contour"@, "foot"@, "tmux"@]
}

/// Every terminal type that begins with this answers queries too.
pub open spec fn supported_term_prefix() -> Seq<char> {
    "tmux-"@
}

/// Terminal types that do not answer queries.
pub open spec fn unsupported_terms() -> Seq<Seq<char>> {
    seq!["linux"@, "dumb"@]
}

/// The terminal type that many terminals claim, whatever they are.
pub open spec fn ambiguous_term() -> Seq<char> {
    "xterm"@
}

/// The beginning of the variants of the ambiguous terminal type.
pub open spec fn ambiguous_term_prefix() -> Seq<char> {
    "xterm-"@
}

/// Terminal programs that answer queries.
pub open spec fn supported_programs() -> Seq<Seq<char>> {
    seq!["Apple_Terminal"@, "iTerm.app"@, "vscode"@, "kgx"@, "Hyper"@]
}

/// Terminal programs that do not answer queries or cannot be put into raw
/// mode.
pub open spec fn unsupported_programs() -> Seq<Seq<char>> {
    seq!["mintty"@, "Jetbrains.Fleet"@]
}

/// The terminal emulator that answers queries.
pub open spec fn supported_emulator() -> Seq<char> {
    "JetBrains-JediTerm"@
}

/// Whether a terminal type is one that answers queries.
pub open spec fn term_is_supported(term: Seq<char>) -> bool {
    supported_terms().contains(term) || supported_term_prefix().is_prefix_of(term)
}

/// Whether a terminal type is the ambiguous one or a variant of it.
pub open spec fn term_is_ambiguous(term: Seq<char>) -> bool {
    term == ambiguous_term() || ambiguous_term_prefix().is_prefix_of(term)
}

/// The decision for a terminal of the ambiguous type: by the terminal program
/// where a table lists it, else by the terminal emulator.
pub open spec fn classified_as_xterm(env: TerminalEnvView) -> TerminalKind {
    if env.term_program is Some && supported_programs().contains(env.term_program->0) {
        TerminalKind::Supported
    } else if env.term_program is Some && unsupported_programs().contains(env.term_program->0) {
        TerminalKind::Unsupported
    } else if env.terminal_emulator == Some(supported_emulator()) {
        TerminalKind::Supported
    } else {
        TerminalKind::Unknown
    }
}

/// The decision by the terminal type; the first rule that matches wins.
pub open spec fn classified_by_term(env: TerminalEnvView) -> TerminalKind {
    match env.term {
        None => TerminalKind::Unknown,
        Some(term) => if term_is_supported(term) {
            TerminalKind::Supported
        } else if unsupported_terms().contains(term) {
            TerminalKind::Unsupported
        } else if term_is_ambiguous(term) {
            classified_as_xterm(env)
        } else {
            TerminalKind::Unknown
        },
    }
}

/// The whole decision: the platform first, then the environment.
pub open spec fn classified(platform: Platform, env: TerminalEnvView) -> TerminalKind {
    match platform {
        Platform::Windows => TerminalKind::Unsupported,
        Platform::Other => classified_by_term(env),
    }
}

impl TerminalKind {
    /// Classifies the terminal of a process on `platform` whose environment
    /// holds `env`. Nothing of `env` is read on a platform that removes the
    /// queries.
    pub fn classify(platform: Platform, env: &TerminalEnv) -> (kind: TerminalKind)
        ensures
            kind == classified(platform, env@),
    {
        match platform {
            Platform::Windows => TerminalKind::Unsupported,
            Platform::Other => TerminalKind::from_env(env),
        }
    }

    /// Classifies the terminal by its type, and a terminal of the ambiguous
    /// type by `from_env_for_xterm`.
    pub fn from_env(env: &TerminalEnv) -> (kind: TerminalKind)
        ensures
            kind == classified_by_term(env@),
    {
        if let Some(term) = &env.term {
            let term: &str = term.as_str();
            let supported: [&str; 3] = ["contour", "foot", "tmux"];
            let unsupported: [&str; 2] = ["linux", "dumb"];
            assert(entries(supported@) =~= supported_terms());
            assert(entries(unsupported@) =~= unsupported_terms());
            if listed(&supported, term) || starts_with(term, "tmux-") {
                return TerminalKind::Supported;
            } else if listed(&unsupported, term) {
                return TerminalKind::Unsupported;
            } else if same_text(term, "xterm") || starts_with(term, "xterm-") {
                return TerminalKind::from_env_for_xterm(env);
            }
        }
        TerminalKind::Unknown
    }

    /// Classifies a terminal that claims the ambiguous type, by the program
    /// and the emulator that the environment names.
    pub fn from_env_for_xterm(env: &TerminalEnv) -> (kind: TerminalKind)
        ensures
            kind == classified_as_xterm(env@),
    {
        if let Some(program) = &env.term_program {
            let program: &str = program.as_str();
            let supported: [&str; 5] = ["Apple_Terminal", "iTerm.app", "vscode", "kgx", "Hyper"];
            let unsupported: [&str; 2] = ["mintty", "Jetbrains.Fleet"];
            assert(entries(supported@) =~= supported_programs());
            assert(entries(unsupported@) =~= unsupported_programs());
            if listed(&supported, program) {
                return TerminalKind::Supported;
            } else if listed(&unsupported, program) {
                return TerminalKind::Unsupported;
            }
        }
        if let Some(emulator) = &env.terminal_emulator {
            if same_text(emulator.as_str(), "JetBrains-JediTerm") {
                return TerminalKind::Supported;
            }
        }
        TerminalKind::Unknown
    }
}

/// On a platform that removes the queries the terminal is unsupported,
/// whatever the environment holds.
pub proof fn lemma_windows_unsupported(env: TerminalEnvView)
    ensures
        classified(Platform::Windows, env) == TerminalKind::Unsupported,
{
}

/// Without a terminal type nothing is known, whatever the other two
/// variables hold.
pub proof fn lemma_unset_term_unknown(env: TerminalEnvView)
    requires
        env.term is None,
    ensures
        classified(Platform::Other, env) == TerminalKind::Unknown,
{
}

/// A terminal type of the supported table, or one that begins with the
/// supported prefix, is supported, whatever the other two variables hold.
pub proof fn lemma_supported_term(env: TerminalEnvView)
    requires
        env.term is Some,
        term_is_supported(env.term->0),
    ensures
        classified(Platform::Other, env) == TerminalKind::Supported,
{
}

/// `tmux`, and every terminal type that begins with `tmux-`, is supported,
/// whatever the other two variables hold.
pub proof fn lemma_tmux_family_supported(env: TerminalEnvView)
    requires
        env.term is Some,
        env.term->0 == "tmux"@ || "tmux-"@.is_prefix_of(env.term->0),
    ensures
        classified(Platform::Other, env) == TerminalKind::Supported,
{
    assert(supported_terms()[2] == "tmux"@);
}

/// A terminal type of the unsupported table is unsupported, whatever the
/// other two variables hold.
pub proof fn lemma_unsupported_term(env: TerminalEnvView)
    requires
        env.term is Some,
        unsupported_terms().contains(env.term->0),
    ensures
        classified(Platform::Other, env) == TerminalKind::Unsupported,
{
    lemma_term_tables_disjoint(env.term->0);
}

/// A `dumb` terminal is unsupported, whatever the other two variables hold.
pub proof fn lemma_dumb_unsupported(env: TerminalEnvView)
    requires
        env.term == Some("dumb"@),
    ensures
        classified(Platform::Other, env) == TerminalKind::Unsupported,
{
    assert(unsupported_terms()[1] == "dumb"@);
    lemma_unsupported_term(env);
}

/// A terminal of the ambiguous type is classified by the other two
/// variables alone.
pub proof fn lemma_ambiguous_term(env: TerminalEnvView)
    requires
        env.term is Some,
        term_is_ambiguous(env.term->0),
    ensures
        classified(Platform::Other, env) == classified_as_xterm(env),
{
    lemma_term_tables_disjoint(env.term->0);
}

/// For a terminal of the ambiguous type: a program of the supported table
/// makes it supported; one of the unsupported table, unsupported; and where
/// neither table lists the program and the emulator is not the supported one,
/// nothing is known.
pub proof fn lemma_ambiguous_term_by_program(env: TerminalEnvView)
    requires
        env.term is Some,
        term_is_ambiguous(env.term->0),
        env.term_program is Some,
    ensures
        supported_programs().contains(env.term_program->0) ==> classified(Platform::Other, env)
            == TerminalKind::Supported,
        unsupported_programs().contains(env.term_program->0) ==> classified(Platform::Other, env)
            == TerminalKind::Unsupported,
        !supported_programs().contains(env.term_program->0) && !unsupported_programs().contains(
            env.term_program->0,
        ) && env.terminal_emulator != Some(supported_emulator()) ==> classified(
            Platform::Other,
            env,
        ) == TerminalKind::Unknown,
{
    lemma_term_tables_disjoint(env.term->0);
    lemma_program_tables_disjoint(env.term_program->0);
}

/// No terminal type falls under two of the three rules: supported,
/// unsupported, ambiguous.
pub proof fn lemma_term_tables_disjoint(term: Seq<char>)
    ensures
        !(term_is_supported(term) && unsupported_terms().contains(term)),
        !(term_is_supported(term) && term_is_ambiguous(term)),
        !(unsupported_terms().contains(term) && term_is_ambiguous(term)),
{
    reveal_strlit("contour");
    reveal_strlit("foot");
    reveal_strlit("tmux");
    reveal_strlit("tmux-");
    reveal_strlit("linux");
    reveal_strlit("dumb");
    reveal_strlit("xterm");
    reveal_strlit("xterm-");
    assert("contour"@[0] == 'c' && "foot"@[0] == 'f' && "tmux"@[0] == 't' && "tmux-"@[0] == 't');
    assert("linux"@[0] == 'l' && "dumb"@[0] == 'd');
    assert("xterm"@[0] == 'x' && "xterm-"@[0] == 'x');
    if supported_terms().contains(term) {
        let i = choose|i: int| 0 <= i < supported_terms().len() && supported_terms()[i] == term;
        assert(i == 0 || i == 1 || i == 2);
    }
    if unsupported_terms().contains(term) {
        let i = choose|i: int|
            0 <= i < unsupported_terms().len() && unsupported_terms()[i] == term;
        assert(i == 0 || i == 1);
    }
    if term.len() > 0 {
        assert("tmux-"@.is_prefix_of(term) ==> term[0] == 't') by {
            if "tmux-"@.is_prefix_of(term) {
                assert(term.subrange(0, 5)[0] == term[0]);
            }
        }
        assert("xterm-"@.is_prefix_of(term) ==> term[0] == 'x') by {
            if "xterm-"@.is_prefix_of(term) {
                assert(term.subrange(0, 6)[0] == term[0]);
            }
        }
    }
}

/// No terminal program stands in both tables.
pub proof fn lemma_program_tables_disjoint(program: Seq<char>)
    ensures
        !(supported_programs().contains(program) && unsupported_programs().contains(program)),
{
    reveal_strlit("Apple_Terminal");
    reveal_strlit("iTerm.app");
    reveal_strlit("vscode");
    reveal_strlit("kgx");
    reveal_strlit("Hyper");
    reveal_strlit("mintty");
    reveal_strlit("Jetbrains.Fleet");
    assert("Apple_Terminal"@[0] == 'A' && "iTerm.app"@[0] == 'i' && "vscode"@[0] == 'v');
    assert("kgx"@[0] == 'k' && "Hyper"@[0] == 'H');
    assert("mintty"@[0] == 'm' && "Jetbrains.Fleet"@[0] == 'J');
    if supported_programs().contains(program) && unsupported_programs().contains(program) {
        let i = choose|i: int|
            0 <= i < supported_programs().len() && supported_programs()[i] == program;
        let j = choose|j: int|
            0 <= j < unsupported_programs().len() && unsupported_programs()[j] == program;
        assert(0 <= i < 5);
        assert(j == 0 || j == 1);
    }
}

} // verus!
