//! The input resolver: decides which command an invocation selects, whether
//! that command needs a directory scan, and what description text feeds the
//! renderer, applying one fixed precedence order.

use vstd::prelude::*;

use crate::cli::{Commands, GenericArgs};

verus! {

/// What an invocation resolves to: either render a command, or print the
/// help text and stop (exit code zero, no prompt rendered).
#[derive(Clone, Debug)]
pub enum Resolution {
    Help,
    Run(Commands),
}

/// Command precedence: an explicit subcommand wins; otherwise a free-text
/// prompt becomes a generic command; otherwise the invocation asks for help.
pub open spec fn spec_resolve_command(command: Option<Commands>, prompt: Option<String>) -> Resolution {
    match command {
        Some(cmd) => Resolution::Run(cmd),
        None => match prompt {
            Some(p) => Resolution::Run(Commands::Generic(GenericArgs { prompt: p })),
            None => Resolution::Help,
        },
    }
}

/// Resolves the active command. Help is asked for exactly when neither a
/// subcommand nor a free-text prompt was supplied.
pub fn resolve_command(command: Option<Commands>, prompt: Option<String>) -> (r: Resolution)
    ensures
        r == spec_resolve_command(command, prompt),
        r is Help <==> (command is None && prompt is None),
{
    match command {
        Some(cmd) => Resolution::Run(cmd),
        None => match prompt {
            Some(p) => Resolution::Run(Commands::Generic(GenericArgs { prompt: p })),
            None => Resolution::Help,
        },
    }
}

/// Every command triggers a scan of the working directory except the
/// architecture command, which needs only a description and constraints.
pub open spec fn spec_needs_scan(command: Commands) -> bool {
    !(command is Architecture)
}

/// Whether the active command requires the tree-scanning collaborator.
pub fn needs_scan(command: &Commands) -> (r: bool)
    ensures
        r == spec_needs_scan(*command),
{
    !(matches!(command, Commands::Architecture(_)))
}

/// The whitespace characters stripped from both ends of a description read
/// from standard input.
pub open spec fn is_space_char(c: char) -> bool {
    c == ' ' || c == '\t' || c == '\n' || c == '\r'
}

/// `s` without its leading whitespace.
pub open spec fn trim_start_spec(s: Seq<char>) -> Seq<char>
    decreases s.len(),
{
    if s.len() > 0 && is_space_char(s[0]) {
        trim_start_spec(s.drop_first())
    } else {
        s
    }
}

/// `s` without its trailing whitespace.
pub open spec fn trim_end_spec(s: Seq<char>) -> Seq<char>
    decreases s.len(),
{
    if s.len() > 0 && is_space_char(s.last()) {
        trim_end_spec(s.drop_last())
    } else {
        s
    }
}

/// `s` without surrounding whitespace.
pub open spec fn trim_spec(s: Seq<char>) -> Seq<char> {
    trim_end_spec(trim_start_spec(s))
}

proof fn lemma_trim_start_prefix(s: Seq<char>, a: int)
    requires
        0 <= a <= s.len(),
        forall|j: int| 0 <= j < a ==> is_space_char(s[j]),
        a == s.len() || !is_space_char(s[a]),
    ensures
        trim_start_spec(s) == s.subrange(a, s.len() as int),
    decreases a,
{
    if a == 0 {
        assert(s =~= s.subrange(0, s.len() as int));
    } else {
        let t = s.drop_first();
        lemma_trim_start_prefix(t, a - 1);
        assert(t.subrange(a - 1, t.len() as int) =~= s.subrange(a, s.len() as int));
    }
}

proof fn lemma_trim_end_suffix(s: Seq<char>, b: int)
    requires
        0 <= b <= s.len(),
        forall|j: int| b <= j < s.len() ==> is_space_char(s[j]),
        b == 0 || !is_space_char(s[b - 1]),
    ensures
        trim_end_spec(s) == s.subrange(0, b),
    decreases s.len() - b,
{
    if b == s.len() {
        assert(s =~= s.subrange(0, b));
    } else {
        let t = s.drop_last();
        lemma_trim_end_suffix(t, b);
        assert(t.subrange(0, b) =~= s.subrange(0, b));
    }
}

fn is_space_exec(c: char) -> (r: bool)
    ensures
        r == is_space_char(c),
{
    c == ' ' || c == '\t' || c == '\n' || c == '\r'
}

/// Index of the first non-whitespace character of `s`, or its length.
fn first_non_space(s: &str) -> (a: usize)
    ensures
        a <= s@.len(),
        forall|j: int| 0 <= j < a ==> is_space_char(s@[j]),
        a == s@.len() || !is_space_char(s@[a as int]),
{
    let n = s.unicode_len();
    let mut a: usize = 0;
    while a < n
        invariant
            a <= n,
            n == s@.len(),
            forall|j: int| 0 <= j < a ==> is_space_char(s@[j]),
        decreases n - a,
    {
        let c = s.get_char(a);
        if !is_space_exec(c) {
            return a;
        }
        a = a + 1;
    }
    a
}

/// One past the last non-whitespace character of `s` at or after `a`, or
/// `a` when everything from `a` on is whitespace.
fn last_non_space_from(s: &str, a: usize) -> (b: usize)
    requires
        a <= s@.len(),
    ensures
        a <= b <= s@.len(),
        forall|j: int| b <= j < s@.len() ==> is_space_char(s@[j]),
        b == a || !is_space_char(s@[b - 1]),
{
    let n = s.unicode_len();
    let mut b: usize = n;
    while b > a
        invariant
            a <= b <= n,
            n == s@.len(),
            forall|j: int| b <= j < s@.len() ==> is_space_char(s@[j]),
        decreases b,
    {
        let c = s.get_char(b - 1);
        if !is_space_exec(c) {
            return b;
        }
        b = b - 1;
    }
    b
}

/// `s` with surrounding whitespace removed.
pub fn trim(s: &str) -> (r: String)
    ensures
        r@ == trim_spec(s@),
{
    let a = first_non_space(s);
    let b = last_non_space_from(s, a);
    let t = s.substring_char(a, b);
    proof {
        lemma_trim_start_prefix(s@, a as int);
        let mid = s@.subrange(a as int, s@.len() as int);
        assert forall|j: int| b - a <= j < mid.len() implies is_space_char(mid[j]) by {
            assert(mid[j] == s@[j + a]);
        }
        lemma_trim_end_suffix(mid, b - a);
        assert(mid.subrange(0, b - a) =~= s@.subrange(a as int, b as int));
    }
    String::from_str(t)
}

/// Description precedence: text read from standard input (trimmed) wins
/// over an explicitly supplied description, which wins over the fixed
/// default description.
pub open spec fn spec_resolve_description(stdin_text: Option<&str>, explicit: Option<&str>) -> Seq<
    char,
> {
    match stdin_text {
        Some(t) => trim_spec(t@),
        None => match explicit {
            Some(e) => e@,
            None => crate::DEFAULT_DESCRIPTION@,
        },
    }
}

/// Resolves the description text that feeds the renderer. Whenever standard
/// input was read, its trimmed content is the description, whatever else was
/// supplied.
pub fn resolve_description(stdin_text: Option<&str>, explicit: Option<&str>) -> (r: String)
    ensures
        r@ == spec_resolve_description(stdin_text, explicit),
        stdin_text matches Some(t) ==> r@ == trim_spec(t@),
        stdin_text is None && explicit is None ==> r@ == crate::DEFAULT_DESCRIPTION@,
{
    match stdin_text {
        Some(t) => trim(t),
        None => match explicit {
            Some(e) => String::from_str(e),
            None => String::from_str(crate::DEFAULT_DESCRIPTION),
        },
    }
}

} // verus!
