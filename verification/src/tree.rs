//! File Tree Operations on an in-memory model of a directory tree.
//!
//! A `FileTree` is the flat list of entries (files with their bytes, and
//! directories) under one root, each named by its relative path.  The
//! synchronization engine works on this model: cleaning a target, mirroring a
//! whole tree, and the selective extraction that copies only the entries a
//! pattern set selects and fails when the patterns select no file at all.

use vstd::prelude::*;

use crate::error::{DomainError, DomainErrorView};
use crate::selector::{
    all_patterns_ok, first_invalid, invalid_pattern_message, selects, CompiledSelector,
};
use crate::text::{comma_joined, join_with_commas};

verus! {

/// Abstract value of a `TreeEntry`.
pub struct TreeEntryView {
    pub path: Seq<char>,
    pub is_dir: bool,
    pub data: Seq<u8>,
}

/// One entry of a file tree: a file (with its bytes) or a directory, at a
/// relative path.
#[derive(Debug, Clone, PartialEq, Eq)]
pub struct TreeEntry {
    pub path: String,
    pub is_dir: bool,
    pub data: Vec<u8>,
}

impl View for TreeEntry {
    type V = TreeEntryView;

    open spec fn view(&self) -> TreeEntryView {
        TreeEntryView { path: self.path@, is_dir: self.is_dir, data: self.data@ }
    }
}

impl DeepView for TreeEntry {
    type V = TreeEntryView;

    open spec fn deep_view(&self) -> TreeEntryView {
        self.view()
    }
}

/// An equal copy of a byte vector.
fn clone_bytes(v: &Vec<u8>) -> (r: Vec<u8>)
    ensures
        r@ == v@,
{
    let mut out: Vec<u8> = Vec::new();
    let mut i: usize = 0;
    while i < v.len()
        invariant
            i <= v.len(),
            out@ == v@.take(i as int),
        decreases v.len() - i,
    {
        out.push(v[i]);
        proof {
            assert(out@ =~= v@.take(i + 1));
        }
        i = i + 1;
    }
    proof {
        assert(v@.take(v@.len() as int) =~= v@);
    }
    out
}

impl TreeEntry {
    /// An equal copy; written out because a derived `Clone` says nothing to the verifier.
    pub fn duplicate(&self) -> (r: TreeEntry)
        ensures
            r@ == self@,
    {
        TreeEntry { path: self.path.clone(), is_dir: self.is_dir, data: clone_bytes(&self.data) }
    }
}

/// An in-memory file tree: the contents of one directory, as a list of
/// entries with relative paths.
#[derive(Debug, Clone, PartialEq, Eq)]
pub struct FileTree {
    pub entries: Vec<TreeEntry>,
}

/// Some entry of `entries` has exactly this path.
pub open spec fn has_path(entries: Seq<TreeEntryView>, path: Seq<char>) -> bool {
    exists|i: int| 0 <= i < entries.len() && entries[i].path == path
}

/// The entries of `entries` whose path no entry of `mask` shares, in order.
pub open spec fn without_paths(entries: Seq<TreeEntryView>, mask: Seq<TreeEntryView>) -> Seq<
    TreeEntryView,
>
    decreases entries.len(),
{
    if entries.len() == 0 {
        Seq::empty()
    } else {
        without_paths(entries.drop_last(), mask) + if has_path(mask, entries.last().path) {
            Seq::empty()
        } else {
            seq![entries.last()]
        }
    }
}

/// The result of copying `new` over `old`: entries of `old` whose paths are
/// not overwritten, followed by all of `new`.  Pre-existing unrelated content
/// stays; same-path content is replaced.
pub open spec fn merged(old: Seq<TreeEntryView>, new: Seq<TreeEntryView>) -> Seq<TreeEntryView> {
    without_paths(old, new) + new
}

/// The entries a pattern set selects, in tree order.
pub open spec fn selected_entries(patterns: Seq<Seq<char>>, entries: Seq<TreeEntryView>) -> Seq<
    TreeEntryView,
>
    decreases entries.len(),
{
    if entries.len() == 0 {
        Seq::empty()
    } else {
        selected_entries(patterns, entries.drop_last()) + if selects(
            patterns,
            entries.last().path,
        ) {
            seq![entries.last()]
        } else {
            Seq::empty()
        }
    }
}

/// The error text reported when a non-empty pattern set selects no file,
/// naming the patterns that matched nothing.
pub open spec fn no_match_message(patterns: Seq<Seq<char>>) -> Seq<char> {
    "No files matched the provided patterns: "@ + comma_joined(patterns)
}

/// Whether the pattern set selects at least one entry that is a file.
pub open spec fn has_selected_file(patterns: Seq<Seq<char>>, entries: Seq<TreeEntryView>) -> bool {
    exists|i: int|
        0 <= i < entries.len() && !entries[i].is_dir && selects(patterns, entries[i].path)
}

impl View for FileTree {
    type V = Seq<TreeEntryView>;

    open spec fn view(&self) -> Seq<TreeEntryView> {
        self.entries.deep_view()
    }
}

impl DeepView for FileTree {
    type V = Seq<TreeEntryView>;

    open spec fn deep_view(&self) -> Seq<TreeEntryView> {
        self.view()
    }
}

impl FileTree {
    /// A tree with no entries.
    pub fn empty() -> (r: FileTree)
        ensures
            r@ == Seq::<TreeEntryView>::empty(),
    {
        let t = FileTree { entries: Vec::new() };
        proof {
            assert(t@ =~= Seq::<TreeEntryView>::empty());
        }
        t
    }

    /// An equal copy; written out because a derived `Clone` says nothing to the verifier.
    pub fn duplicate(&self) -> (r: FileTree)
        ensures
            r@ == self@,
    {
        let mut out: Vec<TreeEntry> = Vec::new();
        let mut i: usize = 0;
        while i < self.entries.len()
            invariant
                i <= self.entries.len(),
                out.len() == i,
                forall|j: int| 0 <= j < i ==> out@[j]@ == self.entries@[j]@,
            decreases self.entries.len() - i,
        {
            out.push(self.entries[i].duplicate());
            i = i + 1;
        }
        let t = FileTree { entries: out };
        proof {
            assert(t@ =~= self@);
        }
        t
    }

    /// Number of entries.
    pub fn len(&self) -> (r: usize)
        ensures
            r == self@.len(),
    {
        self.entries.len()
    }

    /// Whether some entry has exactly this path.
    pub fn contains_path(&self, path: &str) -> (r: bool)
        ensures
            r == has_path(self@, path@),
    {
        let mut i: usize = 0;
        while i < self.entries.len()
            invariant
                i <= self.entries.len(),
                forall|j: int| 0 <= j < i ==> self@[j].path != path@,
            decreases self.entries.len() - i,
        {
            if crate::text::str_eq(self.entries[i].path.as_str(), path) {
                proof {
                    assert(self@[i as int].path == path@);
                }
                return true;
            }
            i = i + 1;
        }
        false
    }

    /// Removes every entry, leaving the tree empty.  Cleaning is idempotent:
    /// on an already-empty tree it is a no-op that still succeeds.
    pub fn clean(&mut self)
        ensures
            final(self)@ == Seq::<TreeEntryView>::empty(),
    {
        self.entries.clear();
        proof {
            assert(self@ =~= Seq::<TreeEntryView>::empty());
        }
    }
}

/// Copies every entry of `add` into `target`.  Entries of `target` whose path
/// `add` also holds are replaced; all other pre-existing entries stay.
pub fn merge_into(target: &mut FileTree, add: &FileTree)
    ensures
        final(target)@ == merged(old(target)@, add@),
{
    let mut kept: Vec<TreeEntry> = Vec::new();
    let mut i: usize = 0;
    while i < target.entries.len()
        invariant
            i <= target.entries.len(),
            kept.deep_view() == without_paths(target@.take(i as int), add@),
        decreases target.entries.len() - i,
    {
        proof {
            assert(target@.take(i + 1).drop_last() =~= target@.take(i as int));
            assert(target@.take(i + 1).last() == target@[i as int]);
        }
        if !add.contains_path(target.entries[i].path.as_str()) {
            kept.push(target.entries[i].duplicate());
        }
        proof {
            assert(kept.deep_view() =~= without_paths(target@.take(i + 1), add@));
        }
        i = i + 1;
    }
    proof {
        assert(target@.take(target@.len() as int) =~= target@);
    }
    let ghost base = kept.deep_view();
    let ghost base_len = kept@.len() as int;
    let mut j: usize = 0;
    while j < add.entries.len()
        invariant
            j <= add.entries.len(),
            kept@.len() == base_len + j,
            base_len == base.len(),
            forall|k: int| 0 <= k < base_len ==> #[trigger] kept@[k]@ == base[k],
            forall|k: int| 0 <= k < j ==> #[trigger] kept@[base_len + k]@ == add@[k],
        decreases add.entries.len() - j,
    {
        kept.push(add.entries[j].duplicate());
        proof {
            assert(add@[j as int] == add.entries@[j as int]@);
            assert(kept@[base_len + j]@ == add@[j as int]);
        }
        j = j + 1;
    }
    proof {
        assert forall|i: int| 0 <= i < kept@.len() implies kept.deep_view()[i] == (base + add@)[i] by {
            assert(kept.deep_view()[i] == kept@[i]@);
            if i < base_len {
                assert(kept@[i]@ == base[i]);
            } else {
                assert(kept@[base_len + (i - base_len)]@ == add@[i - base_len]);
            }
        }
        assert(kept.deep_view() =~= base + add@);
    }
    target.entries = kept;
}

/// Full-tree copy: mirrors every entry of `source` into `target`, keeping
/// unrelated pre-existing entries.  Clearing is a separate, explicit step.
pub fn copy_all(source: &FileTree, target: &mut FileTree)
    ensures
        final(target)@ == merged(old(target)@, source@),
{
    merge_into(target, source);
}

/// Selective extraction.  With an empty pattern set, mirrors the whole source
/// into the target.  With a non-empty set, first compiles the patterns
/// (failing on an invalid one before anything is copied), then copies exactly
/// the selected entries, and fails if no selected entry was a file — a
/// non-empty pattern set that vendors nothing is an error, not a no-op.
pub fn extract_into(source: &FileTree, patterns: &Vec<String>, target: &mut FileTree) -> (r:
    Result<(), DomainError>)
    ensures
        patterns.deep_view().len() == 0 ==> r is Ok && final(target)@ == merged(
            old(target)@,
            source@,
        ),
        patterns.deep_view().len() > 0 && !all_patterns_ok(patterns.deep_view()) ==> (r matches
            Err(e) && e@ == DomainErrorView::PathPatternError(
            invalid_pattern_message(first_invalid(patterns.deep_view()))))
            && final(target)@ == old(target)@,
        patterns.deep_view().len() > 0 && all_patterns_ok(patterns.deep_view())
            ==> final(target)@ == merged(
                old(target)@,
                selected_entries(patterns.deep_view(), source@),
            )
            && (r is Ok <==> has_selected_file(patterns.deep_view(), source@))
            && (r matches Err(e) ==> e@ == DomainErrorView::PathPatternError(
            no_match_message(patterns.deep_view()))),
{
    if patterns.len() == 0 {
        copy_all(source, target);
        return Ok(());
    }
    let sel = match CompiledSelector::compile(patterns) {
        Ok(s) => s,
        Err(e) => {
            return Err(e);
        },
    };
    let mut picked: Vec<TreeEntry> = Vec::new();
    let mut copied_file = false;
    let mut i: usize = 0;
    while i < source.entries.len()
        invariant
            i <= source.entries.len(),
            sel@ == patterns.deep_view(),
            picked.deep_view() == selected_entries(patterns.deep_view(), source@.take(i as int)),
            copied_file == has_selected_file(patterns.deep_view(), source@.take(i as int)),
        decreases source.entries.len() - i,
    {
        proof {
            assert(source@.take(i + 1).drop_last() =~= source@.take(i as int));
            assert(source@.take(i + 1).last() == source@[i as int]);
        }
        let entry = &source.entries[i];
        if sel.matches(entry.path.as_str()) {
            if !entry.is_dir {
                proof {
                    assert(has_selected_file(patterns.deep_view(), source@.take(i + 1)));
                }
                copied_file = true;
            }
            picked.push(entry.duplicate());
        }
        proof {
            assert(picked.deep_view() =~= selected_entries(
                patterns.deep_view(),
                source@.take(i + 1),
            ));
            assert(has_selected_file(patterns.deep_view(), source@.take(i + 1))
                == (has_selected_file(patterns.deep_view(), source@.take(i as int)) || (selects(
                patterns.deep_view(),
                source@[i as int].path,
            ) && !source@[i as int].is_dir)));
        }
        i = i + 1;
    }
    proof {
        assert(source@.take(source@.len() as int) =~= source@);
    }
    let picked_tree = FileTree { entries: picked };
    merge_into(target, &picked_tree);
    if !copied_file {
        let mut m = ("No files matched the provided patterns: ").to_owned();
        let joined = join_with_commas(patterns);
        m.append(joined.as_str());
        return Err(DomainError::PathPatternError(m));
    }
    Ok(())
}

} // verus!
