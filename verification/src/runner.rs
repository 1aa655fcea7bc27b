//! Registrations and the run coordinator.
//!
//! A [`Requirements`] value binds one test function shape, one fixture
//! source, one selection pattern and one group name. Expanding it filters
//! the source's candidate paths by the pattern and derives a display name
//! for each survivor; resolving an exact filter maps one display name back
//! to one file, without consulting the pattern. The [`Coordinator`] owns the
//! run-scoped state: the chosen mode, the collected case list, and the
//! counters that show setup and teardown ran exactly once around the cases.

use vstd::prelude::*;

verus! {

use crate::codec::encode_name;
use crate::codec::encode_name_spec;
use crate::codec::join_path;
use crate::codec::name_sep;
use crate::dispatch::TestFn;
use crate::errors::ConfigError;
use crate::pattern::CompiledPattern;
use crate::pattern::pattern_compiles;
use crate::pattern::pattern_match_answers;
use crate::pattern::pattern_matches;
use crate::source::FixtureSource;
use crate::source::table_lookup;
use crate::strutil::is_prefix_of;
use crate::strutil::lemma_lex_le_total;
use crate::strutil::lemma_lex_le_trans;
use crate::strutil::lex_le;
use crate::strutil::str_eq;
use crate::strutil::str_lex_le;
use crate::strutil::strip_prefix_chars;
use crate::strutil::to_owned_string;
use vstd::seq_lib::group_to_multiset_ensures;

broadcast use group_to_multiset_ensures;

/// One concrete, runnable test: a display name, the path handed to the
/// registered function, and the shape under which that function was
/// registered.
pub struct Case {
    /// The display name, `"{group}::{relative path}"`.
    pub name: String,
    /// The path the function receives: the root-joined path for a directory
    /// source, the relative path for an embedded tree.
    pub path: String,
    /// The registered function's shape and index.
    pub test: TestFn,
}

/// One registration: a test function shape, a group name, a fixture source
/// and a selection pattern. Created once at startup and never mutated.
pub struct Requirements {
    /// The registered function's shape and index.
    pub test: TestFn,
    /// The group name the registration's cases are reported under.
    pub test_name: String,
    /// Where the fixture files come from.
    pub source: FixtureSource,
    /// The regular expression candidate paths are filtered by.
    pub pattern: String,
}

/// The relative paths among `rels` that the pattern selects, in order.
pub open spec fn matching_rels(pattern: Seq<char>, rels: Seq<Seq<char>>) -> Seq<Seq<char>>
    decreases rels.len(),
{
    if rels.len() == 0 {
        Seq::<Seq<char>>::empty()
    } else {
        let rest = matching_rels(pattern, rels.drop_last());
        if pattern_matches(pattern, rels.last()) {
            rest.push(rels.last())
        } else {
            rest
        }
    }
}

/// The pattern filter keeps the selected paths and nothing else: every kept
/// path is a candidate the pattern matches, and every candidate the pattern
/// matches is kept.
pub proof fn lemma_matching_rels_exact(pattern: Seq<char>, rels: Seq<Seq<char>>)
    ensures
        forall|i: int|
            0 <= i < matching_rels(pattern, rels).len() ==> pattern_matches(
                pattern,
                matching_rels(pattern, rels)[i],
            ) && rels.contains(matching_rels(pattern, rels)[i]),
        forall|i: int|
            #![trigger rels[i]]
            0 <= i < rels.len() && pattern_matches(pattern, rels[i]) ==> matching_rels(
                pattern,
                rels,
            ).contains(rels[i]),
    decreases rels.len(),
{
    if rels.len() > 0 {
        lemma_matching_rels_exact(pattern, rels.drop_last());
        let rest = matching_rels(pattern, rels.drop_last());
        let whole = matching_rels(pattern, rels);
        assert forall|i: int|
            0 <= i < whole.len() implies pattern_matches(pattern, whole[i]) && rels.contains(
            whole[i],
        ) by {
            if i < rest.len() {
                let j = choose|j: int|
                    0 <= j < rels.drop_last().len() && rels.drop_last()[j] == rest[i];
                assert(rels[j] == whole[i]);
            } else {
                assert(rels[rels.len() - 1] == whole[i]);
            }
        }
        assert forall|i: int|
            #![trigger rels[i]]
            0 <= i < rels.len() && pattern_matches(pattern, rels[i]) implies whole.contains(
            rels[i],
        ) by {
            if i < rels.len() - 1 {
                assert(rels.drop_last()[i] == rels[i]);
                let k = choose|k: int| 0 <= k < rest.len() && rest[k] == rels[i];
                assert(whole[k] == rels[i]);
            } else {
                assert(whole.last() == rels[i]);
            }
        }
    }
}

impl Requirements {
    /// Builds a registration.
    pub fn new(test: TestFn, test_name: String, source: FixtureSource, pattern: String) -> (r:
        Requirements)
        ensures
            r.test == test,
            r.test_name@ == test_name@,
            r.source == source,
            r.pattern@ == pattern@,
    {
        Requirements { test, test_name, source, pattern }
    }

    /// `c` is the case this registration derives from the relative path
    /// `rel`.
    pub open spec fn is_case_for(&self, rel: Seq<char>, c: Case) -> bool {
        &&& c.name@ == encode_name_spec(self.test_name@, rel)
        &&& c.path@ == self.source.spec_case_path(rel)
        &&& c.test == self.test
    }

    /// Derives the case for the relative path `rel`.
    pub fn trial(&self, rel: &str) -> (c: Case)
        ensures
            self.is_case_for(rel@, c),
    {
        let name = encode_name(self.test_name.as_str(), rel);
        let path = match &self.source {
            FixtureSource::Directory { root } => join_path(root.as_str(), rel),
            FixtureSource::EmbeddedTree { .. } => to_owned_string(rel),
        };
        Case { name, path, test: self.test }
    }

    /// Every candidate path the engine answers for, by this registration's
    /// pattern.
    pub open spec fn spec_engine_answers(&self, rels: Seq<Seq<char>>) -> bool {
        forall|i: int| 0 <= i < rels.len() ==> pattern_match_answers(self.pattern@, rels[i])
    }

    /// Expands this registration over the enumerated candidate paths: keeps
    /// every path the pattern selects, in order, as a case. An invalid
    /// pattern, an engine fault on one path, and an empty selection are
    /// each a fatal configuration error; in particular a registration that
    /// selects nothing never yields a case list. When the pattern compiles
    /// and the engine answers on every candidate, the outcome is owed: the
    /// case list when anything is selected, the no-tests error — naming the
    /// group, the root and the pattern — when nothing is.
    pub fn expand(&self, entries: &Vec<String>) -> (r: Result<Vec<Case>, ConfigError>)
        ensures
            !pattern_compiles(self.pattern@) ==> (r matches Err(e) && e matches
                ConfigError::InvalidPattern { pattern } && pattern@ == self.pattern@),
            r matches Ok(cases) ==> {
                let ms = matching_rels(self.pattern@, entries@.map_values(|s: String| s@));
                &&& pattern_compiles(self.pattern@)
                &&& ms.len() > 0
                &&& cases@.len() == ms.len()
                &&& forall|i: int| 0 <= i < ms.len() ==> self.is_case_for(ms[i], cases@[i])
            },
            ({
                let rels = entries@.map_values(|s: String| s@);
                &&& (pattern_compiles(self.pattern@) && self.spec_engine_answers(rels)
                    && matching_rels(self.pattern@, rels).len() > 0 ==> r is Ok)
                &&& (pattern_compiles(self.pattern@) && self.spec_engine_answers(rels)
                    && matching_rels(self.pattern@, rels).len() == 0 ==> (r matches Err(e) && e
                    matches ConfigError::NoTestsFound { .. }))
            }),
            r matches Err(e) ==> !(e matches ConfigError::NoTestsFound { .. }) || (e matches
                ConfigError::NoTestsFound { test_name, root, pattern } && test_name@
                == self.test_name@ && root@ == self.source.spec_root() && pattern@ == self.pattern@
                && pattern_compiles(self.pattern@) && matching_rels(
                self.pattern@,
                entries@.map_values(|s: String| s@),
            ).len() == 0),
            r matches Err(e) ==> !(e matches ConfigError::MatchFault { .. }) || (e matches
                ConfigError::MatchFault { pattern, path, .. } && pattern@ == self.pattern@
                && pattern_compiles(self.pattern@) && entries@.map_values(|s: String| s@).contains(
                path@,
            ) && !pattern_match_answers(self.pattern@, path@)),
            (r matches Err(e) && e matches ConfigError::InvalidPattern { .. })
                ==> !pattern_compiles(self.pattern@),
            r matches Err(e) ==> (e matches ConfigError::InvalidPattern { .. } || e matches
                ConfigError::NoTestsFound { .. } || e matches ConfigError::MatchFault { .. }),
    {
        let compiled = match CompiledPattern::compile(self.pattern.as_str()) {
            Some(c) => c,
            None => {
                return Err(ConfigError::InvalidPattern { pattern: self.pattern.clone() });
            },
        };
        let ghost rels = entries@.map_values(|s: String| s@);
        let mut cases: Vec<Case> = Vec::new();
        let mut i: usize = 0;
        proof {
            assert(rels.take(0) =~= Seq::<Seq<char>>::empty());
        }
        while i < entries.len()
            invariant
                0 <= i <= entries@.len(),
                rels == entries@.map_values(|s: String| s@),
                compiled.pattern() == self.pattern@,
                pattern_compiles(self.pattern@),
                cases@.len() == matching_rels(self.pattern@, rels.take(i as int)).len(),
                forall|j: int|
                    0 <= j < cases@.len() ==> self.is_case_for(
                        matching_rels(self.pattern@, rels.take(i as int))[j],
                        cases@[j],
                    ),
            decreases entries@.len() - i,
        {
            proof {
                assert(rels.take(i + 1).drop_last() =~= rels.take(i as int));
                assert(rels.take(i + 1).last() == rels[i as int]);
                assert(rels[i as int] == entries@[i as int]@);
            }
            match compiled.is_match(entries[i].as_str()) {
                Err(fault) => {
                    proof {
                        assert(rels.contains(rels[i as int]));
                        assert(!pattern_match_answers(self.pattern@, rels[i as int]));
                    }
                    return Err(
                        ConfigError::MatchFault {
                            pattern: self.pattern.clone(),
                            path: entries[i].clone(),
                            fault,
                        },
                    );
                },
                Ok(true) => {
                    let c = self.trial(entries[i].as_str());
                    cases.push(c);
                },
                Ok(false) => {},
            }
            i = i + 1;
        }
        proof {
            assert(rels.take(entries@.len() as int) =~= rels);
        }
        if cases.len() == 0 {
            return Err(
                ConfigError::NoTestsFound {
                    test_name: self.test_name.clone(),
                    root: self.source.root().clone(),
                    pattern: self.pattern.clone(),
                },
            );
        }
        Ok(cases)
    }

    /// The relative path an exact filter decodes to against this
    /// registration's group name, when it belongs to it.
    pub open spec fn spec_exact_rel(&self, filter: Seq<char>) -> Option<Seq<char>> {
        if is_prefix_of(self.test_name@, filter) && is_prefix_of(
            name_sep(),
            filter.skip(self.test_name@.len() as int),
        ) {
            Some(filter.skip(self.test_name@.len() as int).skip(2))
        } else {
            None
        }
    }

    /// Resolves an exact filter against this registration: name-driven, the
    /// registered pattern is never consulted. For an embedded tree the
    /// file's existence is settled here; for a directory the caller must
    /// confirm it on disk.
    pub fn exact(&self, filter: &str) -> (r: ExactOutcome)
        ensures
            self.spec_exact_rel(filter@) is None ==> r is NotThisRequirement,
            self.spec_exact_rel(filter@) matches Some(rel) ==> match r {
                ExactOutcome::NotThisRequirement => self.source is EmbeddedTree && table_lookup(
                    self.source->files@,
                    rel,
                ) is None,
                ExactOutcome::Resolved(c) => self.source is EmbeddedTree && table_lookup(
                    self.source->files@,
                    rel,
                ) is Some && self.is_case_for(rel, c),
                ExactOutcome::OnDisk(c) => self.source is Directory && self.is_case_for(rel, c),
            },
    {
        proof {
            reveal_strlit("::");
            assert("::"@ =~= name_sep());
        }
        let rest = match strip_prefix_chars(filter, self.test_name.as_str()) {
            Some(rest) => rest,
            None => {
                return ExactOutcome::NotThisRequirement;
            },
        };
        let rel = match strip_prefix_chars(rest, "::") {
            Some(rel) => rel,
            None => {
                return ExactOutcome::NotThisRequirement;
            },
        };
        proof {
            assert(rel@ =~= filter@.skip(self.test_name@.len() as int).skip(2));
        }
        match &self.source {
            FixtureSource::Directory { .. } => ExactOutcome::OnDisk(self.trial(rel)),
            FixtureSource::EmbeddedTree { .. } => {
                match self.source.embedded_contents(rel) {
                    Some(_) => ExactOutcome::Resolved(self.trial(rel)),
                    None => ExactOutcome::NotThisRequirement,
                }
            },
        }
    }
}

/// What resolving an exact filter against one registration yields.
pub enum ExactOutcome {
    /// The filter does not name this registration's group, or names a file
    /// its embedded tree does not hold.
    NotThisRequirement,
    /// The filter names a file of this registration's embedded tree.
    Resolved(Case),
    /// The filter decodes to a file of this registration's directory; the
    /// case stands only if the file exists on disk.
    OnDisk(Case),
}

/// Exact resolution is independent of the registered pattern: two
/// registrations that differ only in their pattern decode every filter to
/// the same relative path and derive the same cases from it. A file that
/// the pattern would exclude from expansion therefore still resolves.
pub proof fn lemma_exact_resolution_ignores_pattern(
    a: Requirements,
    b: Requirements,
    filter: Seq<char>,
)
    requires
        a.test == b.test,
        a.test_name@ == b.test_name@,
        a.source == b.source,
    ensures
        a.spec_exact_rel(filter) == b.spec_exact_rel(filter),
        forall|rel: Seq<char>, c: Case| a.is_case_for(rel, c) == b.is_case_for(rel, c),
{
}

/// The selective half of the two-registration scenario: over the
/// candidates `a.txt` and `b.skip.txt`, a pattern that selects the first
/// and rejects the second expands to exactly one case, named `g1::a.txt`.
/// The premises about the expansion are what [`Requirements::expand`]
/// ensures of a returned case list; that the pattern selects and rejects
/// so is the engine's answer on given strings, which no contract here
/// states, so it stands as a hypothesis.
pub proof fn lemma_scenario_skip_selection(req: Requirements, cases: Seq<Case>)
    requires
        req.test_name@ == "g1"@,
        pattern_matches(req.pattern@, "a.txt"@),
        !pattern_matches(req.pattern@, "b.skip.txt"@),
        cases.len() == matching_rels(req.pattern@, seq!["a.txt"@, "b.skip.txt"@]).len(),
        forall|i: int|
            0 <= i < cases.len() ==> req.is_case_for(
                matching_rels(req.pattern@, seq!["a.txt"@, "b.skip.txt"@])[i],
                cases[i],
            ),
    ensures
        cases.len() == 1,
        cases[0].name@ == "g1::a.txt"@,
{
    let rels = seq!["a.txt"@, "b.skip.txt"@];
    assert(rels.drop_last() =~= seq!["a.txt"@]);
    assert(seq!["a.txt"@].drop_last() =~= Seq::<Seq<char>>::empty());
    assert(matching_rels(req.pattern@, Seq::<Seq<char>>::empty()) =~= Seq::<Seq<char>>::empty());
    assert(seq!["a.txt"@].last() == "a.txt"@);
    assert(matching_rels(req.pattern@, seq!["a.txt"@]) =~= seq!["a.txt"@]);
    assert(rels.last() == "b.skip.txt"@);
    assert(matching_rels(req.pattern@, rels) =~= seq!["a.txt"@]);
    reveal_strlit("g1");
    reveal_strlit("a.txt");
    reveal_strlit("g1::a.txt");
    assert(encode_name_spec("g1"@, "a.txt"@) =~= "g1::a.txt"@);
}

/// The unselective half of the scenario: over the same candidates, a
/// pattern that selects both expands to exactly two cases, named
/// `g2::a.txt` and `g2::b.skip.txt`, in that order. As above, what the
/// pattern selects stands as a hypothesis.
pub proof fn lemma_scenario_full_selection(req: Requirements, cases: Seq<Case>)
    requires
        req.test_name@ == "g2"@,
        pattern_matches(req.pattern@, "a.txt"@),
        pattern_matches(req.pattern@, "b.skip.txt"@),
        cases.len() == matching_rels(req.pattern@, seq!["a.txt"@, "b.skip.txt"@]).len(),
        forall|i: int|
            0 <= i < cases.len() ==> req.is_case_for(
                matching_rels(req.pattern@, seq!["a.txt"@, "b.skip.txt"@])[i],
                cases[i],
            ),
    ensures
        cases.len() == 2,
        cases[0].name@ == "g2::a.txt"@,
        cases[1].name@ == "g2::b.skip.txt"@,
{
    let rels = seq!["a.txt"@, "b.skip.txt"@];
    assert(rels.drop_last() =~= seq!["a.txt"@]);
    assert(seq!["a.txt"@].drop_last() =~= Seq::<Seq<char>>::empty());
    assert(matching_rels(req.pattern@, Seq::<Seq<char>>::empty()) =~= Seq::<Seq<char>>::empty());
    assert(seq!["a.txt"@].last() == "a.txt"@);
    assert(matching_rels(req.pattern@, seq!["a.txt"@]) =~= seq!["a.txt"@]);
    assert(rels.last() == "b.skip.txt"@);
    assert(matching_rels(req.pattern@, rels) =~= seq!["a.txt"@, "b.skip.txt"@]);
    reveal_strlit("g2");
    reveal_strlit("a.txt");
    reveal_strlit("b.skip.txt");
    reveal_strlit("g2::a.txt");
    reveal_strlit("g2::b.skip.txt");
    assert(encode_name_spec("g2"@, "a.txt"@) =~= "g2::a.txt"@);
    assert(encode_name_spec("g2"@, "b.skip.txt"@) =~= "g2::b.skip.txt"@);
}

/// The external engine's invocation, as far as mode selection reads it.
pub struct TestArgs {
    /// An exact, full-name match was requested.
    pub exact: bool,
    /// The skip list; exact mode is only eligible when it is empty.
    pub skip: Vec<String>,
    /// The filter string, if one was given.
    pub filter: Option<String>,
    /// List the cases instead of running them.
    pub list: bool,
}

/// An exact match is eligible: it was requested, no skips were given, and
/// a filter was supplied.
pub open spec fn spec_exact_eligible(args: TestArgs) -> bool {
    args.exact && args.skip@.len() == 0 && args.filter is Some
}

/// The filter to resolve exactly: present when an exact match was requested
/// with no skips and a filter was given.
pub fn exact_filter(args: &TestArgs) -> (r: Option<&String>)
    ensures
        match r {
            Some(f) => spec_exact_eligible(*args) && f@ == args.filter->Some_0@,
            None => !spec_exact_eligible(*args),
        },
{
    if args.exact && args.skip.len() == 0 {
        args.filter.as_ref()
    } else {
        None
    }
}

/// Whether an external orchestrator drives this run, and whether it runs
/// exactly one process per selected test.
#[derive(Clone, Copy, Debug, PartialEq, Eq, Structural)]
pub enum NextestKind {
    /// No orchestrator signal.
    NotInUse,
    /// The orchestrator is driving; under `process_per_test` it expects
    /// exactly one test per process.
    InUse {
        /// One process runs exactly one selected test.
        process_per_test: bool,
    },
}

impl NextestKind {
    /// What the two orchestration signals mean: the orchestrator is in use
    /// when the first reads `1`, and runs one process per test when the
    /// second reads `process-per-test`.
    pub open spec fn spec_determine(nextest: Option<Seq<char>>, mode: Option<Seq<char>>) -> NextestKind {
        if nextest matches Some(v) && v == "1"@ {
            NextestKind::InUse {
                process_per_test: mode matches Some(m) && m == "process-per-test"@,
            }
        } else {
            NextestKind::NotInUse
        }
    }

    /// Decides the orchestration kind from the two signals.
    pub fn determine(nextest: Option<&str>, mode: Option<&str>) -> (r: NextestKind)
        ensures
            r == NextestKind::spec_determine(
                match nextest {
                    Some(v) => Some(v@),
                    None => None,
                },
                match mode {
                    Some(m) => Some(m@),
                    None => None,
                },
            ),
    {
        match nextest {
            Some(v) if str_eq(v, "1") => {
                let ppt = match mode {
                    Some(m) => str_eq(m, "process-per-test"),
                    None => false,
                };
                NextestKind::InUse { process_per_test: ppt }
            },
            _ => NextestKind::NotInUse,
        }
    }
}

/// A full scan is forbidden when the forbid signal reads `1` and the run
/// is not a listing.
pub open spec fn spec_full_scan_forbidden(list: bool, forbid: Option<Seq<char>>) -> bool {
    !list && (forbid matches Some(v) && v == "1"@)
}

/// Whether a full scan is forbidden.
pub fn is_full_scan_forbidden(args: &TestArgs, forbid: Option<&str>) -> (r: bool)
    ensures
        r == spec_full_scan_forbidden(
            args.list,
            match forbid {
                Some(v) => Some(v@),
                None => None,
            },
        ),
{
    if args.list {
        return false;
    }
    match forbid {
        Some(v) => str_eq(v, "1"),
        None => false,
    }
}

/// The mode a run proceeds in.
pub enum RunMode {
    /// Resolve exactly the named case across all registrations.
    Exact(String),
    /// Expand every registration and run everything selected.
    Expand,
}

/// Chooses the run mode: the exact filter when one is eligible; otherwise a
/// full expansion, unless a full scan is forbidden, which is then a fatal
/// configuration error.
pub fn select_mode(args: &TestArgs, forbid: Option<&str>) -> (r: Result<RunMode, ConfigError>)
    ensures
        ({
            let fb = spec_full_scan_forbidden(
                args.list,
                match forbid {
                    Some(v) => Some(v@),
                    None => None,
                },
            );
            &&& spec_exact_eligible(*args) ==> (r matches Ok(m) && m matches RunMode::Exact(f)
                && f@ == args.filter->Some_0@)
            &&& !spec_exact_eligible(*args) && fb ==> (r matches Err(e) && e
                is FullScanForbidden)
            &&& !spec_exact_eligible(*args) && !fb ==> (r matches Ok(m) && m is Expand)
        }),
{
    match exact_filter(args) {
        Some(f) => Ok(RunMode::Exact(f.clone())),
        None => {
            if is_full_scan_forbidden(args, forbid) {
                Err(ConfigError::FullScanForbidden)
            } else {
                Ok(RunMode::Expand)
            }
        },
    }
}

/// Enforces the exact-match cardinality: under an orchestrator that runs
/// one process per test, zero matches and more than one match are each
/// fatal. Under every other orchestration mode the list passes through
/// unchanged — an empty one means nothing was selected.
pub fn check_exact_matches(kind: NextestKind, found: Vec<Case>, filter: &str) -> (r: Result<
    Vec<Case>,
    ConfigError,
>)
    ensures
        kind matches NextestKind::InUse { process_per_test: true } && found@.len() == 0 ==> (r
            matches Err(e) && e matches ConfigError::NoExactMatch { filter: f } && f@ == filter@),
        kind matches NextestKind::InUse { process_per_test: true } && found@.len() > 1 ==> (r
            matches Err(e) && e matches ConfigError::MultipleExactMatches { filter: f, count } && f@
            == filter@ && count == found@.len()),
        kind matches NextestKind::InUse { process_per_test: true } && found@.len() == 1 ==> (r
            matches Ok(cs) && cs == found),
        kind is NotInUse ==> (r matches Ok(cs) && cs == found),
        kind matches NextestKind::InUse { process_per_test: false } ==> (r matches Ok(cs) && cs
            == found),
    {
    match kind {
        NextestKind::InUse { process_per_test: true } => {
            if found.len() == 0 {
                return Err(ConfigError::NoExactMatch { filter: to_owned_string(filter) });
            }
            if found.len() > 1 {
                let count = found.len();
                return Err(
                    ConfigError::MultipleExactMatches { filter: to_owned_string(filter), count },
                );
            }
            Ok(found)
        },
        _ => Ok(found),
    }
}

/// The case list is ordered by display name.
pub open spec fn cases_sorted(s: Seq<Case>) -> bool {
    forall|i: int, j: int| 0 <= i <= j < s.len() ==> lex_le(s[i].name@, s[j].name@)
}

/// Sorts a case list by display name, for deterministic reporting order.
/// The result holds exactly the cases handed in.
pub fn sort_test_cases(cases: Vec<Case>) -> (r: Vec<Case>)
    ensures
        cases_sorted(r@),
        r@.to_multiset() == cases@.to_multiset(),
{
    let mut rest = cases;
    let mut out: Vec<Case> = Vec::new();
    while rest.len() > 0
        invariant
            out@.to_multiset().add(rest@.to_multiset()) =~= cases@.to_multiset(),
            cases_sorted(out@),
            forall|i: int, j: int|
                0 <= i < out@.len() && 0 <= j < rest@.len() ==> lex_le(
                    out@[i].name@,
                    rest@[j].name@,
                ),
        decreases rest@.len(),
    {
        let mut m: usize = 0;
        let mut k: usize = 1;
        proof {
            lemma_lex_le_total(rest@[0].name@, rest@[0].name@);
        }
        while k < rest.len()
            invariant
                0 < rest@.len(),
                0 <= m < k,
                k <= rest@.len(),
                forall|j: int| 0 <= j < k ==> lex_le(rest@[m as int].name@, rest@[j].name@),
            decreases rest@.len() - k,
        {
            if str_lex_le(rest[k].name.as_str(), rest[m].name.as_str()) {
                proof {
                    assert forall|j: int| 0 <= j < k + 1 implies lex_le(
                        rest@[k as int].name@,
                        rest@[j].name@,
                    ) by {
                        if j < k {
                            lemma_lex_le_trans(
                                rest@[k as int].name@,
                                rest@[m as int].name@,
                                rest@[j].name@,
                            );
                        } else {
                            lemma_lex_le_total(rest@[k as int].name@, rest@[k as int].name@);
                        }
                    }
                }
                m = k;
            } else {
                proof {
                    lemma_lex_le_total(rest@[k as int].name@, rest@[m as int].name@);
                }
            }
            k = k + 1;
        }
        let ghost old_rest = rest@;
        let ghost old_out = out@;
        let x = rest.remove(m);
        out.push(x);
        proof {
            assert(old_rest.contains(old_rest[m as int]));
            assert(old_rest.to_multiset().count(x) > 0);
            assert(out@.to_multiset().add(rest@.to_multiset()) =~= old_out.to_multiset().add(
                old_rest.to_multiset(),
            ));
            assert forall|i: int, j: int|
                0 <= i <= j < out@.len() implies lex_le(out@[i].name@, out@[j].name@) by {
                if j == out@.len() - 1 && i < j {
                }
            }
            assert forall|i: int, j: int|
                0 <= i < out@.len() && 0 <= j < rest@.len() implies lex_le(
                out@[i].name@,
                rest@[j].name@,
            ) by {
                if i == out@.len() - 1 {
                    if j < m {
                        assert(rest@[j] == old_rest[j]);
                    } else {
                        assert(rest@[j] == old_rest[j + 1]);
                    }
                }
            }
        }
    }
    out
}

/// The phase a run is in.
#[derive(Clone, Copy, Debug, PartialEq, Eq, Structural)]
pub enum RunPhase {
    /// Nothing has been decided yet.
    Idle,
    /// The run mode has been chosen.
    ModeSelected,
    /// The case list is final.
    Collected,
    /// The outcome has been reported.
    Reported,
}

/// The final status of a run.
#[derive(Clone, Copy, Debug, PartialEq, Eq, Structural)]
pub enum RunStatus {
    /// Every case passed.
    Success,
    /// At least one case failed.
    Failed,
}

/// The run coordinator: owns the run-scoped state — the chosen mode, the
/// collected cases, and the counters showing that setup ran once before
/// the cases, every collected case ran, and teardown ran once after them.
pub struct Coordinator {
    phase: RunPhase,
    exact_mode: bool,
    cases: Vec<Case>,
    setup_calls: usize,
    teardown_calls: usize,
    cases_run: usize,
    failures: usize,
}

impl Coordinator {
    /// The current phase.
    pub closed spec fn spec_phase(&self) -> RunPhase {
        self.phase
    }

    /// Whether the exact mode was chosen.
    pub closed spec fn spec_exact_mode(&self) -> bool {
        self.exact_mode
    }

    /// The collected cases.
    pub closed spec fn spec_cases(&self) -> Seq<Case> {
        self.cases@
    }

    /// How often setup was recorded.
    pub closed spec fn spec_setup_calls(&self) -> usize {
        self.setup_calls
    }

    /// How often teardown was recorded.
    pub closed spec fn spec_teardown_calls(&self) -> usize {
        self.teardown_calls
    }

    /// How many cases were recorded as run.
    pub closed spec fn spec_cases_run(&self) -> usize {
        self.cases_run
    }

    /// How many recorded cases failed.
    pub closed spec fn spec_failures(&self) -> usize {
        self.failures
    }

    /// The run-scoped bookkeeping is consistent with the phase: nothing
    /// runs before the case list is final, cases run only after the single
    /// setup, teardown comes only after every case, and a report only
    /// after teardown.
    pub closed spec fn wf(&self) -> bool {
        &&& self.setup_calls <= 1
        &&& self.teardown_calls <= 1
        &&& ((self.phase is Idle || self.phase is ModeSelected) ==> self.setup_calls == 0
            && self.cases@.len() == 0)
        &&& (self.setup_calls == 0 ==> self.cases_run == 0 && self.teardown_calls == 0)
        &&& (self.teardown_calls == 1 ==> self.setup_calls == 1 && self.cases_run
            == self.cases@.len())
        &&& (self.phase is Reported ==> self.teardown_calls == 1)
        &&& self.cases_run <= self.cases@.len()
        &&& self.failures <= self.cases_run
    }

    /// A fresh coordinator, before any decision.
    pub fn new() -> (r: Coordinator)
        ensures
            r.wf(),
            r.spec_phase() is Idle,
            r.spec_setup_calls() == 0,
            r.spec_teardown_calls() == 0,
            r.spec_cases_run() == 0,
            r.spec_failures() == 0,
    {
        Coordinator {
            phase: RunPhase::Idle,
            exact_mode: false,
            cases: Vec::new(),
            setup_calls: 0,
            teardown_calls: 0,
            cases_run: 0,
            failures: 0,
        }
    }

    /// Chooses the run mode, as [`select_mode`] does, and moves to
    /// `ModeSelected`; a configuration error leaves the coordinator idle.
    pub fn select(&mut self, args: &TestArgs, forbid: Option<&str>) -> (r: Result<
        RunMode,
        ConfigError,
    >)
        requires
            old(self).wf(),
            old(self).spec_phase() is Idle,
        ensures
            final(self).wf(),
            final(self).spec_setup_calls() == 0,
            final(self).spec_cases().len() == 0,
            r is Ok ==> final(self).spec_phase() is ModeSelected,
            r is Err ==> final(self).spec_phase() is Idle,
            r matches Ok(m) ==> (final(self).spec_exact_mode() <==> m is Exact),
            spec_exact_eligible(*args) ==> (r matches Ok(m) && m matches RunMode::Exact(f) && f@
                == args.filter->Some_0@),
            ({
                let fb = spec_full_scan_forbidden(
                    args.list,
                    match forbid {
                        Some(v) => Some(v@),
                        None => None,
                    },
                );
                &&& !spec_exact_eligible(*args) && fb ==> (r matches Err(e) && e
                    is FullScanForbidden)
                &&& !spec_exact_eligible(*args) && !fb ==> (r matches Ok(m) && m is Expand)
            }),
    {
        match select_mode(args, forbid) {
            Ok(m) => {
                self.phase = RunPhase::ModeSelected;
                self.exact_mode = match &m {
                    RunMode::Exact(_) => true,
                    RunMode::Expand => false,
                };
                Ok(m)
            },
            Err(e) => Err(e),
        }
    }

    /// Records the final case list and moves to `Collected`.
    pub fn collect(&mut self, cases: Vec<Case>)
        requires
            old(self).wf(),
            old(self).spec_phase() is ModeSelected,
        ensures
            final(self).wf(),
            final(self).spec_phase() is Collected,
            final(self).spec_cases() == cases@,
            final(self).spec_exact_mode() == old(self).spec_exact_mode(),
            final(self).spec_setup_calls() == 0,
            final(self).spec_teardown_calls() == 0,
            final(self).spec_cases_run() == 0,
            final(self).spec_failures() == 0,
    {
        self.phase = RunPhase::Collected;
        self.cases = cases;
    }

    /// The number of collected cases.
    pub fn case_count(&self) -> (r: usize)
        ensures
            r == self.spec_cases().len(),
    {
        self.cases.len()
    }

    /// The case at position `i`.
    pub fn case_at(&self, i: usize) -> (c: &Case)
        requires
            i < self.spec_cases().len(),
        ensures
            *c == self.spec_cases()[i as int],
    {
        &self.cases[i]
    }

    /// Records that the run's single setup step ran.
    pub fn record_setup(&mut self)
        requires
            old(self).wf(),
            old(self).spec_phase() is Collected,
            old(self).spec_setup_calls() == 0,
        ensures
            final(self).wf(),
            final(self).spec_setup_calls() == 1,
            final(self).spec_teardown_calls() == 0,
            final(self).spec_cases_run() == 0,
            final(self).spec_failures() == 0,
            final(self).spec_phase() == old(self).spec_phase(),
            final(self).spec_cases() == old(self).spec_cases(),
            final(self).spec_exact_mode() == old(self).spec_exact_mode(),
    {
        self.setup_calls = 1;
    }

    /// Records that one more case ran, and whether it failed.
    pub fn record_case_result(&mut self, failed: bool)
        requires
            old(self).wf(),
            old(self).spec_phase() is Collected,
            old(self).spec_setup_calls() == 1,
            old(self).spec_teardown_calls() == 0,
            old(self).spec_cases_run() < old(self).spec_cases().len(),
        ensures
            final(self).wf(),
            final(self).spec_cases_run() == old(self).spec_cases_run() + 1,
            final(self).spec_failures() == old(self).spec_failures() + (if failed {
                1int
            } else {
                0int
            }),
            final(self).spec_setup_calls() == 1,
            final(self).spec_teardown_calls() == 0,
            final(self).spec_phase() == old(self).spec_phase(),
            final(self).spec_cases() == old(self).spec_cases(),
            final(self).spec_exact_mode() == old(self).spec_exact_mode(),
    {
        // the collected length bounds the counters, so the increments fit
        let _len = self.cases.len();
        self.cases_run = self.cases_run + 1;
        if failed {
            self.failures = self.failures + 1;
        }
    }

    /// Records that the run's single teardown step ran, after every case.
    pub fn record_teardown(&mut self)
        requires
            old(self).wf(),
            old(self).spec_phase() is Collected,
            old(self).spec_setup_calls() == 1,
            old(self).spec_teardown_calls() == 0,
            old(self).spec_cases_run() == old(self).spec_cases().len(),
        ensures
            final(self).wf(),
            final(self).spec_teardown_calls() == 1,
            final(self).spec_setup_calls() == 1,
            final(self).spec_cases_run() == old(self).spec_cases_run(),
            final(self).spec_failures() == old(self).spec_failures(),
            final(self).spec_phase() == old(self).spec_phase(),
            final(self).spec_cases() == old(self).spec_cases(),
            final(self).spec_exact_mode() == old(self).spec_exact_mode(),
    {
        self.teardown_calls = 1;
    }

    /// Reports the run's outcome: failed when any case failed.
    pub fn report(&mut self) -> (r: RunStatus)
        requires
            old(self).wf(),
            old(self).spec_phase() is Collected,
            old(self).spec_teardown_calls() == 1,
        ensures
            final(self).wf(),
            final(self).spec_phase() is Reported,
            r == (if old(self).spec_failures() > 0 {
                RunStatus::Failed
            } else {
                RunStatus::Success
            }),
            final(self).spec_failures() == old(self).spec_failures(),
            final(self).spec_setup_calls() == old(self).spec_setup_calls(),
            final(self).spec_teardown_calls() == 1,
            final(self).spec_cases_run() == old(self).spec_cases_run(),
            final(self).spec_cases() == old(self).spec_cases(),
    {
        self.phase = RunPhase::Reported;
        if self.failures > 0 {
            RunStatus::Failed
        } else {
            RunStatus::Success
        }
    }

    /// Returns how often setup was recorded.
    pub fn setup_count(&self) -> (r: usize)
        ensures
            r == self.spec_setup_calls(),
    {
        self.setup_calls
    }

    /// Returns how often teardown was recorded.
    pub fn teardown_count(&self) -> (r: usize)
        ensures
            r == self.spec_teardown_calls(),
    {
        self.teardown_calls
    }

    /// Returns how many cases were recorded as run.
    pub fn run_count(&self) -> (r: usize)
        ensures
            r == self.spec_cases_run(),
    {
        self.cases_run
    }

    /// Returns how many recorded cases failed.
    pub fn failure_count(&self) -> (r: usize)
        ensures
            r == self.spec_failures(),
    {
        self.failures
    }
}

/// Once a run has reported, setup ran exactly once, teardown ran exactly
/// once, and every collected case was run.
pub proof fn lemma_reported_run_is_complete(c: Coordinator)
    requires
        c.wf(),
        c.spec_phase() is Reported,
    ensures
        c.spec_setup_calls() == 1,
        c.spec_teardown_calls() == 1,
        c.spec_cases_run() == c.spec_cases().len(),
{
}

} // verus!
