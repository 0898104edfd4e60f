//! The pure core of the context-acquisition facade: resolving the preset
//! key handed to the tree scanner, deriving a database identifier from a
//! connection string, and appending the schema reporter's outcome to the
//! scanned reference text.
//!
//! The collaborators themselves (directory traversal, the database round
//! trip) are I/O and live outside this library; their results come in here
//! as plain strings.

use vstd::prelude::*;

verus! {

/// What the schema reporter produced for one invocation. A missing
/// connection string skips reporting; a report is appended inside a tagged
/// section; a failure is recorded as a visible inline comment. The failure
/// is a value, not an error: it can never abort prompt generation.
#[derive(Clone, Debug)]
pub enum SchemaOutcome {
    /// No database-connection string was present in the environment.
    Absent,
    /// The schema reporter returned a report.
    Report(String),
    /// The schema reporter failed with a message.
    Failure(String),
}

/// Preset precedence: an explicit preset key wins over the name of the
/// scanned directory's last path segment; with neither there is no preset.
pub open spec fn spec_resolve_preset_key(preset: Option<String>, folder_name: Option<String>) -> Option<String> {
    if preset is Some {
        preset
    } else {
        folder_name
    }
}

/// Resolves the preset key handed to the tree-scanning collaborator.
pub fn resolve_preset_key(preset: Option<String>, folder_name: Option<String>) -> (r: Option<
    String,
>)
    ensures
        r == spec_resolve_preset_key(preset, folder_name),
{
    match preset {
        Some(p) => Some(p),
        None => folder_name,
    }
}

/// The part of `s` after its last `/`; all of `s` when it has none.
pub open spec fn last_segment(s: Seq<char>) -> Seq<char>
    decreases s.len(),
{
    if s.len() == 0 {
        s
    } else if s.last() == '/' {
        Seq::empty()
    } else {
        last_segment(s.drop_last()).push(s.last())
    }
}

proof fn lemma_last_segment_suffix(s: Seq<char>, cut: int)
    requires
        0 <= cut <= s.len(),
        cut == 0 || s[cut - 1] == '/',
        forall|j: int| cut <= j < s.len() ==> s[j] != '/',
    ensures
        last_segment(s) == s.subrange(cut, s.len() as int),
    decreases s.len(),
{
    if cut == s.len() {
        assert(last_segment(s) =~= s.subrange(cut, s.len() as int));
    } else {
        let t = s.drop_last();
        lemma_last_segment_suffix(t, cut);
        assert(t.subrange(cut, t.len() as int).push(s.last()) =~= s.subrange(
            cut,
            s.len() as int,
        ));
    }
}

/// Index just after the last `/` of `url`, or zero when it has none.
fn segment_start(url: &str) -> (cut: usize)
    ensures
        cut <= url@.len(),
        cut == 0 || url@[cut - 1] == '/',
        forall|j: int| cut <= j < url@.len() ==> url@[j] != '/',
{
    let n = url.unicode_len();
    let mut cut: usize = n;
    while cut > 0
        invariant
            cut <= n,
            n == url@.len(),
            forall|j: int| cut <= j < url@.len() ==> url@[j] != '/',
        decreases cut,
    {
        let c = url.get_char(cut - 1);
        if c == '/' {
            return cut;
        }
        cut = cut - 1;
    }
    cut
}

/// Short database identifier derived from a connection string: its last
/// `/`-separated segment.
pub fn db_name_of(url: &str) -> (r: String)
    ensures
        r@ == last_segment(url@),
{
    let cut = segment_start(url);
    proof {
        lemma_last_segment_suffix(url@, cut as int);
    }
    let n = url.unicode_len();
    let t = url.substring_char(cut, n);
    String::from_str(t)
}

/// The reference string after the schema outcome is appended: untouched when
/// no connection string was present; the report inside a tagged section on
/// success; a visible inline comment recording the reason on failure.
pub open spec fn spec_compose_reference(scan: Seq<char>, schema: SchemaOutcome) -> Seq<char> {
    match schema {
        SchemaOutcome::Absent => scan,
        SchemaOutcome::Report(rep) => scan + "\n\n<database_schema>\n"@ + rep@
            + "\n</database_schema>"@,
        SchemaOutcome::Failure(msg) => scan + "\n\n<!-- SQL Context Generation Failed: "@ + msg@
            + " -->"@,
    }
}

/// Appends the schema reporter's outcome to the scanned reference text.
pub fn compose_reference(scan: String, schema: SchemaOutcome) -> (r: String)
    ensures
        r@ == spec_compose_reference(scan@, schema),
{
    let ghost scan0 = scan@;
    let ghost schema0 = schema;
    let mut out = scan;
    match schema {
        SchemaOutcome::Absent => {},
        SchemaOutcome::Report(rep) => {
            out.append("\n\n<database_schema>\n");
            out.append(rep.as_str());
            out.append("\n</database_schema>");
        },
        SchemaOutcome::Failure(msg) => {
            out.append("\n\n<!-- SQL Context Generation Failed: ");
            out.append(msg.as_str());
            out.append(" -->");
        },
    }
    proof {
        assert(out@ =~= spec_compose_reference(scan0, schema0));
    }
    out
}

/// Soft-failure law: whatever the schema reporter's outcome, the scanned
/// reference text is kept in full as a prefix of the composed string; a
/// schema failure can lose nothing that the scanner produced.
pub proof fn lemma_compose_reference_keeps_scan(scan: Seq<char>, schema: SchemaOutcome)
    ensures
        spec_compose_reference(scan, schema).len() >= scan.len(),
        spec_compose_reference(scan, schema).subrange(0, scan.len() as int) == scan,
{
    match schema {
        SchemaOutcome::Absent => {
            assert(spec_compose_reference(scan, schema).subrange(0, scan.len() as int) =~= scan);
        },
        SchemaOutcome::Report(rep) => {
            assert(spec_compose_reference(scan, schema).subrange(0, scan.len() as int) =~= scan);
        },
        SchemaOutcome::Failure(msg) => {
            assert(spec_compose_reference(scan, schema).subrange(0, scan.len() as int) =~= scan);
        },
    }
}

} // verus!
