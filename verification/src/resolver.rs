//! Locating and resolving the project-local configuration.
//!
//! The configuration file is searched for from the project root upward: the
//! first ancestor (the root itself included) that holds the file wins.
//! Probing the filesystem and parsing the file's text are the unverified
//! shell's work; this module derives the candidate directories, fixes the
//! three-state outcome of the search (no file / malformed / parsed), and
//! extracts the optional external-source override from the document.

use vstd::prelude::*;
use crate::config::{ConfigDocument, ConfigValue};
use crate::config::spec_lookup;
use crate::errors::Error;
use crate::paths::AbsPath;

verus! {

/// The candidate directories of the upward search: the root itself, then
/// each parent, ending at the filesystem root. Element `i` is the root with
/// its last `i` components removed.
pub fn ancestors(root: &AbsPath) -> (r: Vec<AbsPath>)
    ensures
        r@.len() == root@.len() + 1,
        forall|i: int|
            0 <= i <= root@.len() ==> #[trigger] r@[i]@ == root@.take(root@.len() - i),
{
    let mut r: Vec<AbsPath> = Vec::new();
    let mut cur = root.clone_path();
    let n = cur.segments.len();
    let mut i: usize = 0;
    proof {
        assert(root@.take(root@.len() - 0) =~= root@);
    }
    while i < n
        invariant
            n == root@.len(),
            i <= n,
            cur@ =~= root@.take(n - i),
            r@.len() == i,
            forall|j: int| 0 <= j < i ==> #[trigger] r@[j]@ == root@.take(n - j),
        decreases n - i,
    {
        r.push(cur.clone_path());
        let ghost before = cur@;
        proof {
            assert(before.len() == n - i);
            assert(cur.segments@.len() == n - i);
        }
        let _ = cur.segments.pop();
        proof {
            assert(cur.segments@.len() == n - (i + 1));
            assert forall|j: int| 0 <= j < n - (i + 1) implies cur@[j] == root@[j] by {
                assert(cur@[j] == cur.segments@[j]@);
                assert(before[j] == root@.take(n - i)[j]);
            }
            assert(cur@ =~= root@.take(n - (i + 1)));
        }
        i += 1;
    }
    r.push(cur);
    r
}

/// The name of the configuration file the upward search looks for.
pub fn config_file_name() -> (r: String)
    ensures
        r@ == "Xargo.toml"@,
{
    "Xargo.toml".to_owned()
}

/// Which candidate wins the upward search: `present[i]` says whether the
/// `i`-th candidate of `ancestors` holds the configuration file, and the
/// winner is the first that does — the closest to the project root.
pub fn nearest_candidate(present: &Vec<bool>) -> (r: Option<usize>)
    ensures
        match r {
            Some(i) => i < present@.len() && present@[i as int] && forall|j: int|
                0 <= j < i ==> !present@[j],
            None => forall|j: int| 0 <= j < present@.len() ==> !present@[j],
        },
{
    let mut i: usize = 0;
    while i < present.len()
        invariant
            i <= present@.len(),
            forall|j: int| 0 <= j < i ==> !present@[j],
        decreases present@.len() - i,
    {
        if present[i] {
            return Some(i);
        }
        i += 1;
    }
    None
}

/// The outcome of looking for the configuration file, as an explicit
/// three-state value: found nowhere, found but malformed, or found and
/// parsed. Absence of a file is a valid, common state, not an error.
pub enum ConfigResolution {
    /// No ancestor of the project root holds the configuration file.
    NoFile,
    /// The nearest file exists in `dir` but did not parse; `message` is the
    /// parser's diagnostic.
    Malformed { dir: AbsPath, message: String },
    /// The nearest file exists in `dir` and parsed into `doc`.
    Parsed { dir: AbsPath, doc: ConfigDocument },
}

/// Folds the shell's search-and-parse outcome into the three-state
/// resolution: `probe` is the nearest directory holding the file (if any)
/// together with the parse outcome of that one file.
pub fn find_and_parse(probe: Option<(AbsPath, Result<ConfigDocument, String>)>) -> (r:
    ConfigResolution)
    ensures
        probe is None <==> r is NoFile,
        probe matches Some((dir, Ok(doc))) ==> (r matches ConfigResolution::Parsed {
            dir: d,
            doc: c,
        } && d == dir && c == doc),
        probe matches Some((dir, Err(m))) ==> (r matches ConfigResolution::Malformed {
            dir: d,
            message: msg,
        } && d == dir && msg == m),
{
    match probe {
        None => ConfigResolution::NoFile,
        Some((dir, Ok(doc))) => ConfigResolution::Parsed { dir, doc },
        Some((dir, Err(message))) => ConfigResolution::Malformed { dir, message },
    }
}

/// The `package.rust-src` string of a resolution, when one is declared.
pub open spec fn spec_declared_src(res: ConfigResolution) -> Option<Seq<char>> {
    match res {
        ConfigResolution::Parsed { doc, .. } => match spec_lookup(
            doc.root,
            seq!["package"@, "rust-src"@],
        ) {
            Some(ConfigValue::Str(s)) => Some(s@),
            _ => None,
        },
        _ => None,
    }
}

/// The `package.rust-src` string of `res`, when one is declared.
pub fn declared_src(res: &ConfigResolution) -> (r: Option<&String>)
    ensures
        r matches Some(s) ==> spec_declared_src(*res) == Some(s@),
        r is None ==> spec_declared_src(*res) is None,
{
    match res {
        ConfigResolution::Parsed { doc, .. } => doc.rust_src(),
        _ => None,
    }
}

/// An external source tree to build from, instead of the bundled one: the
/// canonical absolute path of the directory the configuration declared.
pub struct ExternalSourceRef {
    pub path: AbsPath,
}

/// Whether the external-source override applies.
pub enum SourceResolution {
    /// Declared and the directory exists: use this canonical path.
    Applied(ExternalSourceRef),
    /// Declared but the directory does not exist: the override is dropped
    /// with exactly one warning, and the build proceeds without it.
    MissingDirectory,
    /// Nothing declared (no file, no `package` table, no `rust-src` string):
    /// silently absent.
    NotDeclared,
}

/// Decides the fate of the external-source override.
///
/// `canonical` is the shell's canonicalisation of the declared path (its
/// components re-joined with the native separator, resolved against the
/// filesystem), `None` when the directory does not exist; it is only
/// consulted when a declaration exists. A malformed configuration file is
/// the one fatal case.
pub fn resolve_external_source(res: &ConfigResolution, canonical: Option<AbsPath>) -> (r: Result<
    SourceResolution,
    Error,
>)
    ensures
        r is Err <==> res is Malformed,
        r matches Err(e) ==> (e matches Error::ConfigParseError { dir, message } && (
        res matches ConfigResolution::Malformed { dir: d, message: m } && dir@ == d@
            && message@ == m@)),
        r matches Ok(s) ==> match s {
            SourceResolution::Applied(src) => spec_declared_src(*res) is Some && (
            canonical matches Some(c) && src.path == c),
            SourceResolution::MissingDirectory => spec_declared_src(*res) is Some
                && canonical is None,
            SourceResolution::NotDeclared => spec_declared_src(*res) is None,
        },
{
    if let ConfigResolution::Malformed { dir, message } = res {
        return Err(
            Error::ConfigParseError {
                dir: dir.clone_path(),
                message: message.clone(),
            },
        );
    }
    match declared_src(res) {
        Some(_) => match canonical {
            Some(path) => Ok(SourceResolution::Applied(ExternalSourceRef { path })),
            None => Ok(SourceResolution::MissingDirectory),
        },
        None => Ok(SourceResolution::NotDeclared),
    }
}

/// How a declared source string splits on the forward slashes it was
/// written with; the shell re-joins the components with the platform's
/// native separator. Splitting keeps empty components, as the separator
/// convention of the build tool does.
pub open spec fn spec_split(s: Seq<char>, sep: char) -> Seq<Seq<char>>
    decreases s.len(),
{
    if s.len() == 0 {
        seq![Seq::<char>::empty()]
    } else if s[0] == sep {
        seq![Seq::<char>::empty()] + spec_split(s.drop_first(), sep)
    } else {
        let rest = spec_split(s.drop_first(), sep);
        seq![seq![s[0]] + rest[0]] + rest.drop_first()
    }
}

proof fn lemma_split_len(t: Seq<char>, sep: char)
    ensures
        spec_split(t, sep).len() >= 1,
    decreases t.len(),
{
    if t.len() == 0 {
    } else {
        lemma_split_len(t.drop_first(), sep);
    }
}

proof fn lemma_split_no_sep(t: Seq<char>, sep: char)
    requires
        forall|k: int| 0 <= k < t.len() ==> t[k] != sep,
    ensures
        spec_split(t, sep) =~~= seq![t],
    decreases t.len(),
{
    if t.len() == 0 {
    } else {
        lemma_split_no_sep(t.drop_first(), sep);
        assert(seq![t[0]] + t.drop_first() =~= t);
    }
}

proof fn lemma_split_at_sep(t: Seq<char>, sep: char, k: int)
    requires
        0 <= k < t.len(),
        t[k] == sep,
        forall|j: int| 0 <= j < k ==> t[j] != sep,
    ensures
        spec_split(t, sep) =~~= seq![t.take(k)] + spec_split(t.skip(k + 1), sep),
    decreases k,
{
    if k == 0 {
        assert(t.drop_first() =~= t.skip(1));
        assert(t.take(0) =~= Seq::<char>::empty());
    } else {
        lemma_split_at_sep(t.drop_first(), sep, k - 1);
        lemma_split_len(t.drop_first().skip(k), sep);
        assert(seq![t[0]] + t.drop_first().take(k - 1) =~= t.take(k));
        assert(t.drop_first().skip(k) =~= t.skip(k + 1));
        assert(spec_split(t, sep) =~~= seq![t.take(k)] + spec_split(t.skip(k + 1), sep));
    }
}

/// What re-joining components with a separator yields; the shell does this
/// with the platform's native separator.
pub open spec fn spec_join(parts: Seq<Seq<char>>, sep: char) -> Seq<char>
    decreases parts.len(),
{
    if parts.len() == 0 {
        Seq::<char>::empty()
    } else if parts.len() == 1 {
        parts[0]
    } else {
        parts[0] + seq![sep] + spec_join(parts.drop_first(), sep)
    }
}

/// Law: splitting loses nothing. Re-joining the components of a declared
/// source string with the separator it was split on restores the string, so
/// the shell's native re-join preserves every component and their order.
pub proof fn lemma_split_join_round_trip(s: Seq<char>, sep: char)
    ensures
        spec_join(spec_split(s, sep), sep) =~= s,
    decreases s.len(),
{
    if s.len() == 0 {
    } else {
        lemma_split_join_round_trip(s.drop_first(), sep);
        lemma_split_len(s.drop_first(), sep);
        let rest = spec_split(s.drop_first(), sep);
        if s[0] == sep {
            assert(spec_split(s, sep) == seq![Seq::<char>::empty()] + rest);
            assert((seq![Seq::<char>::empty()] + rest).drop_first() =~= rest);
            assert(spec_join(spec_split(s, sep), sep) =~= seq![sep] + spec_join(rest, sep));
            assert(seq![sep] + s.drop_first() =~= s);
        } else {
            let parts = seq![seq![s[0]] + rest[0]] + rest.drop_first();
            assert(spec_split(s, sep) == parts);
            if rest.len() == 1 {
                assert(parts.len() == 1);
                assert(spec_join(rest, sep) == rest[0]);
                assert(seq![s[0]] + rest[0] =~= seq![s[0]] + s.drop_first());
                assert(seq![s[0]] + s.drop_first() =~= s);
            } else {
                assert(parts.len() >= 2);
                assert(parts[0] == seq![s[0]] + rest[0]);
                assert(parts.drop_first() =~= rest.drop_first());
                assert(spec_join(rest, sep) == rest[0] + seq![sep] + spec_join(
                    rest.drop_first(),
                    sep,
                ));
                assert(spec_join(parts, sep) =~= seq![s[0]] + spec_join(rest, sep));
                assert(seq![s[0]] + s.drop_first() =~= s);
            }
        }
    }
}

/// Splits a declared source string on `/`, keeping empty components, so the
/// shell can re-join the components with the native separator.
pub fn split_slashes(s: &str) -> (r: Vec<String>)
    ensures
        r.deep_view() =~~= spec_split(s@, '/'),
{
    let n = s.unicode_len();
    let mut r: Vec<String> = Vec::new();
    let mut seg_start: usize = 0;
    let mut i: usize = 0;
    proof {
        assert(s@.skip(0) =~= s@);
        assert(r.deep_view() + spec_split(s@, '/') =~~= spec_split(s@, '/'));
    }
    while i < n
        invariant
            n == s@.len(),
            seg_start <= i <= n,
            forall|j: int| seg_start <= j < i ==> s@[j] != '/',
            spec_split(s@, '/') =~~= r.deep_view() + spec_split(s@.skip(seg_start as int), '/'),
        decreases n - i,
    {
        let c = s.get_char(i);
        if c == '/' {
            let seg = s.substring_char(seg_start, i).to_owned();
            let ghost dv = r.deep_view();
            proof {
                lemma_split_at_sep(s@.skip(seg_start as int), '/', i - seg_start);
                assert(s@.skip(seg_start as int).take(i - seg_start) =~= s@.subrange(
                    seg_start as int,
                    i as int,
                ));
                assert(s@.skip(seg_start as int).skip(i - seg_start + 1) =~= s@.skip(
                    i as int + 1,
                ));
            }
            r.push(seg);
            proof {
                assert(r.deep_view() =~~= dv.push(seg@));
            }
            seg_start = i + 1;
        }
        i += 1;
    }
    let seg = s.substring_char(seg_start, n).to_owned();
    let ghost dv = r.deep_view();
    proof {
        lemma_split_no_sep(s@.skip(seg_start as int), '/');
        assert(s@.subrange(seg_start as int, n as int) =~= s@.skip(seg_start as int));
    }
    r.push(seg);
    proof {
        assert(r.deep_view() =~~= dv.push(seg@));
    }
    r
}

} // verus!
