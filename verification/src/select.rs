//! The entry selector: decides which entries discovered by a directory walk
//! are handed to the transformer. An entry carries its full path (the string
//! the glob is tested against), its path components below the traversal root,
//! and whether it is a directory. The filters run in a fixed order: hidden
//! pruning, glob, depth, directory exclusion.
use vstd::prelude::*;
use crate::pattern::{GlobMatcher, glob_accepts};

verus! {

/// One candidate filesystem entry, as the traversal reports it.
pub struct Entry {
    /// The full path, root prefix included, as a string.
    pub path: String,
    /// The path components below the traversal root, outermost first;
    /// empty for the root itself.
    pub rel: Vec<String>,
    /// Whether the entry is a directory.
    pub is_dir: bool,
}

/// The selection options of one run.
pub struct Filters {
    /// The compiled glob, if one was supplied; `None` means every path
    /// is accepted.
    pub glob: Option<GlobMatcher>,
    /// Bound on traversal depth; negative means unbounded.
    pub max_depth: i32,
    /// Whether entries whose name starts with a dot take part.
    pub include_hidden: bool,
}

/// A name is hidden when its first character is a dot.
pub open spec fn is_hidden_name(name: Seq<char>) -> bool {
    name.len() > 0 && name[0] == '.'
}

/// No component of the path below the root is hidden.
pub open spec fn hidden_free(rel: Seq<String>) -> bool {
    forall|i: int| 0 <= i < rel.len() ==> !is_hidden_name(#[trigger] rel[i]@)
}

/// The hidden filter: hidden components only bar an entry when hidden
/// entries are excluded.
pub open spec fn hidden_ok(e: Entry, f: Filters) -> bool {
    f.include_hidden || hidden_free(e.rel@)
}

/// The glob filter: with no glob supplied every path passes; otherwise the
/// full path must satisfy the glob.
pub open spec fn glob_ok(e: Entry, f: Filters) -> bool {
    match f.glob {
        None => true,
        Some(g) => glob_accepts(g.pattern(), e.path@),
    }
}

/// The depth filter: a negative bound is unbounded; otherwise the root's
/// immediate contents count as depth zero, so an entry with `d` components
/// below the root passes when `d <= max_depth + 1`.
pub open spec fn depth_ok(e: Entry, f: Filters) -> bool {
    f.max_depth < 0 || e.rel@.len() <= f.max_depth + 1
}

/// An entry reaches the transformer exactly when it passes the hidden, glob
/// and depth filters and is not a directory.
pub open spec fn selected(e: Entry, f: Filters) -> bool {
    &&& hidden_ok(e, f)
    &&& glob_ok(e, f)
    &&& depth_ok(e, f)
    &&& !e.is_dir
}

/// Whether `name` is a hidden name (leading dot).
pub fn is_hidden(name: &str) -> (b: bool)
    ensures
        b == is_hidden_name(name@),
{
    if name.unicode_len() == 0 {
        false
    } else {
        name.get_char(0) == '.'
    }
}

/// Whether the traversal may descend into (or report) an entry with this
/// name: always when hidden entries are included, otherwise only when the
/// name is not hidden. Pruning with this test keeps every path component of
/// a reported entry free of hidden names.
pub fn should_descend(name: &str, include_hidden: bool) -> (b: bool)
    ensures
        b == (include_hidden || !is_hidden_name(name@)),
{
    include_hidden || !is_hidden(name)
}

/// Whether no component below the root is hidden.
fn components_visible(rel: &Vec<String>) -> (b: bool)
    ensures
        b == hidden_free(rel@),
{
    let mut i: usize = 0;
    while i < rel.len()
        invariant
            i <= rel@.len(),
            forall|j: int| 0 <= j < i ==> !is_hidden_name(#[trigger] rel@[j]@),
        decreases rel@.len() - i,
    {
        if is_hidden(rel[i].as_str()) {
            return false;
        }
        i = i + 1;
    }
    true
}

/// The depth filter alone, on an entry with `depth` components below the
/// root.
fn depth_passes(depth: usize, max_depth: i32) -> (b: bool)
    ensures
        b == (max_depth < 0 || depth <= max_depth + 1),
{
    if max_depth < 0 {
        true
    } else {
        depth <= (max_depth as usize) + 1
    }
}

/// The whole filter chain on one entry: exactly the entries this accepts
/// are handed to the transformer.
pub fn is_candidate(e: &Entry, f: &Filters) -> (b: bool)
    ensures
        b == selected(*e, *f),
{
    if e.is_dir {
        return false;
    }
    if !f.include_hidden && !components_visible(&e.rel) {
        return false;
    }
    if !depth_passes(e.rel.len(), f.max_depth) {
        return false;
    }
    match &f.glob {
        None => true,
        Some(g) => g.matches(e.path.as_str()),
    }
}

/// The entry selector on a whole batch: keeps, in order, exactly the
/// entries that pass every filter.
pub fn select_candidates(entries: Vec<Entry>, f: &Filters) -> (out: Vec<Entry>)
    ensures
        out@ == entries@.filter(|e: Entry| selected(e, *f)),
{
    let ghost pred = (|e: Entry| selected(e, *f));
    let ghost all = entries@;
    let mut rest = entries;
    let mut out: Vec<Entry> = Vec::new();
    proof {
        assert(all.subrange(0, 0).filter(pred) =~= Seq::<Entry>::empty()) by {
            reveal(Seq::filter);
        }
    }
    while rest.len() > 0
        invariant
            pred == (|e: Entry| selected(e, *f)),
            rest@.len() <= all.len(),
            rest@ == all.subrange(all.len() - rest@.len(), all.len() as int),
            out@ == all.subrange(0, all.len() - rest@.len()).filter(pred),
        decreases rest@.len(),
    {
        let ghost k: int = all.len() - rest@.len();
        let e = rest.remove(0);
        proof {
            assert(e == all[k]);
            assert(rest@ =~= all.subrange(k + 1, all.len() as int));
        }
        let keep = is_candidate(&e, f);
        if keep {
            out.push(e);
        }
        proof {
            reveal(Seq::filter);
            let sub0 = all.subrange(0, k);
            let sub1 = all.subrange(0, k + 1);
            assert(sub1.drop_last() =~= sub0);
            assert(sub1.last() == all[k]);
            assert(sub1.filter(pred) == if pred(all[k]) {
                sub0.filter(pred).push(all[k])
            } else {
                sub0.filter(pred)
            });
            assert(pred(all[k]) == keep);
        }
    }
    proof {
        assert(all.subrange(0, all.len() as int) =~= all);
    }
    out
}

/// Law: with hidden entries excluded, no path component (below the root) of
/// any selected entry starts with a dot.
pub proof fn lemma_hidden_pruning(e: Entry, f: Filters)
    requires
        !f.include_hidden,
        selected(e, f),
    ensures
        forall|i: int| 0 <= i < e.rel@.len() ==> !is_hidden_name(#[trigger] e.rel@[i]@),
{
}

/// Law: with hidden entries included, a hidden name bars nothing — an entry
/// that passes the glob, depth and kind filters is selected.
pub proof fn lemma_hidden_included(e: Entry, f: Filters)
    requires
        f.include_hidden,
        glob_ok(e, f),
        depth_ok(e, f),
        !e.is_dir,
    ensures
        selected(e, f),
{
}

/// Law: with a depth bound of zero, only the root's immediate contents (and
/// the root itself, when it is a single file) are ever selected.
pub proof fn lemma_depth_zero(e: Entry, f: Filters)
    requires
        f.max_depth == 0,
        selected(e, f),
    ensures
        e.rel@.len() <= 1,
{
}

/// Law: with a negative depth bound, depth bars nothing — an entry of any
/// depth that passes the hidden, glob and kind filters is selected.
pub proof fn lemma_depth_unbounded(e: Entry, f: Filters)
    requires
        f.max_depth < 0,
        hidden_ok(e, f),
        glob_ok(e, f),
        !e.is_dir,
    ensures
        selected(e, f),
{
}

/// Law: an entry whose full path does not satisfy the supplied glob is never
/// selected, whatever the other options say.
pub proof fn lemma_glob_excludes(e: Entry, f: Filters)
    requires
        f.glob is Some,
        !glob_accepts(f.glob->0.pattern(), e.path@),
    ensures
        !selected(e, f),
{
}

} // verus!
