use vstd::prelude::*;

use crate::paths::{parent_of, path_parent};

verus! {

/// What a listed entry stands for.
#[derive(Clone, Copy, Debug, PartialEq, Eq, Structural)]
pub enum EntryKind {
    /// The synthetic first row that leads to the parent directory.
    ParentRef,
    Directory,
    File,
    /// Anything else the directory holds (a dangling link, a socket, ...).
    Other,
}

/// Mathematical model of one entry.
pub struct EntryView {
    pub path: Seq<char>,
    pub label: Seq<char>,
    pub kind: EntryKind,
}

/// One row of a directory listing.
#[derive(Debug)]
pub struct Dir {
    pub path: String,
    pub display: String,
    pub kind: EntryKind,
}

impl View for Dir {
    type V = EntryView;

    open spec fn view(&self) -> EntryView {
        EntryView { path: self.path@, label: self.display@, kind: self.kind }
    }
}

/// The parent-reference entry: path and label are both `"../"`.
pub open spec fn parent_ref_view() -> EntryView {
    EntryView { path: "../"@, label: "../"@, kind: EntryKind::ParentRef }
}

pub open spec fn entry_views(ds: Seq<Dir>) -> Seq<EntryView> {
    ds.map_values(|d: Dir| d@)
}

impl Dir {
    pub fn new(path: String, display: String, kind: EntryKind) -> (r: Dir)
        ensures
            r@ == (EntryView { path: path@, label: display@, kind }),
    {
        Dir { path, display, kind }
    }

    pub fn parent_ref() -> (r: Dir)
        ensures
            r@ == parent_ref_view(),
    {
        Dir { path: String::from_str("../"), display: String::from_str("../"), kind: EntryKind::ParentRef }
    }

    pub fn is_parent_ref(&self) -> (r: bool)
        ensures
            r == (self.kind == EntryKind::ParentRef),
    {
        self.kind == EntryKind::ParentRef
    }
}

/// Successor of a selected index in a list of `n` entries, wrapping to the top.
pub open spec fn next_index(i: int, n: int) -> int {
    if i + 1 < n { i + 1 } else { 0 }
}

/// Predecessor of a selected index in a list of `n` entries, wrapping to the bottom.
pub open spec fn prev_index(i: int, n: int) -> int {
    if i > 0 { i - 1 } else { n - 1 }
}

/// The entries of a listing of `path` whose real children are `children`.
pub open spec fn listing_entries(path: Seq<char>, children: Seq<EntryView>) -> Seq<EntryView> {
    if parent_of(path) is Some {
        seq![parent_ref_view()] + children
    } else {
        children
    }
}

/// The selection of a freshly loaded listing of `n` entries.
pub open spec fn first_selection(n: int) -> Option<int> {
    if n > 0 { Some(0) } else { None }
}

/// Mathematical model of a directory listing.
pub struct ListingView {
    pub path: Seq<char>,
    pub entries: Seq<EntryView>,
    pub selected: Option<int>,
}

impl ListingView {
    /// A selection exists exactly when there are entries, and lies among them; the
    /// parent reference comes first exactly when the directory has a parent, and
    /// nowhere else.
    pub open spec fn wf(self) -> bool {
        &&& (self.selected is None <==> self.entries.len() == 0)
        &&& (self.selected is Some ==> 0 <= self.selected->0 < self.entries.len())
        &&& (parent_of(self.path) is Some <==> (self.entries.len() > 0 && self.entries[0].kind
            == EntryKind::ParentRef))
        &&& forall|j: int|
            1 <= j < self.entries.len() ==> #[trigger] self.entries[j].kind != EntryKind::ParentRef
    }

    pub open spec fn with_selected(self, s: Option<int>) -> ListingView {
        ListingView { path: self.path, entries: self.entries, selected: s }
    }

    pub open spec fn selected_entry(self) -> Option<EntryView> {
        match self.selected {
            Some(i) => Some(self.entries[i]),
            None => None,
        }
    }

    pub open spec fn after_next(self) -> ListingView {
        match self.selected {
            Some(i) => self.with_selected(Some(next_index(i, self.entries.len() as int))),
            None => self,
        }
    }

    pub open spec fn after_prev(self) -> ListingView {
        match self.selected {
            Some(i) => self.with_selected(Some(prev_index(i, self.entries.len() as int))),
            None => self,
        }
    }

    pub open spec fn after_first(self) -> ListingView {
        self.with_selected(first_selection(self.entries.len() as int))
    }

    pub open spec fn after_last(self) -> ListingView {
        if self.entries.len() > 0 {
            self.with_selected(Some(self.entries.len() - 1))
        } else {
            self
        }
    }

    /// The path to load when moving up: the parent, or the root where there is none.
    pub open spec fn up_path(self) -> Seq<char> {
        match parent_of(self.path) {
            Some(p) => p,
            None => "/"@,
        }
    }
}

/// The entries of one directory and a selection over them.
pub struct DirList {
    curr_dir: String,
    items: Vec<Dir>,
    selected: Option<usize>,
}

impl View for DirList {
    type V = ListingView;

    closed spec fn view(&self) -> ListingView {
        ListingView {
            path: self.curr_dir@,
            entries: entry_views(self.items@),
            selected: match self.selected {
                Some(i) => Some(i as int),
                None => None,
            },
        }
    }
}

/// Where moving into the selected entry leads.
pub enum Descend {
    /// The parent reference is selected: move up.
    Ascend,
    /// A directory is selected: load this path.
    Enter(String),
    /// A file, something else, or nothing is selected.
    Stay,
}

impl DirList {
    pub open spec fn wf(&self) -> bool {
        self@.wf()
    }

    /// The listing of `path` whose real children, as read from the file system, are
    /// `children`; the parent reference goes first where `path` has a parent, and the
    /// first entry is selected.
    pub fn new(path: String, children: Vec<Dir>) -> (r: DirList)
        requires
            forall|j: int|
                0 <= j < children@.len() ==> #[trigger] children@[j].kind != EntryKind::ParentRef,
        ensures
            r.wf(),
            r@.path == path@,
            r@.entries == listing_entries(path@, entry_views(children@)),
            r@.selected == first_selection(r@.entries.len() as int),
    {
        let mut items = children;
        let parent = path_parent(path.as_str());
        if parent.is_some() {
            items.insert(0, Dir::parent_ref());
            assert(entry_views(items@) =~= seq![parent_ref_view()] + entry_views(children@));
        }
        let selected = if items.len() > 0 {
            Some(0)
        } else {
            None
        };
        let r = DirList { curr_dir: path, items, selected };
        assert(r@.entries =~= listing_entries(path@, entry_views(children@)));
        assert forall|j: int| 1 <= j < r@.entries.len() implies #[trigger] r@.entries[j].kind
            != EntryKind::ParentRef by {
            if parent.is_some() {
                assert(r@.entries[j] == entry_views(children@)[j - 1]);
            } else {
                assert(r@.entries[j] == entry_views(children@)[j]);
            }
        }
        r
    }

    pub fn curr_dir(&self) -> (r: &String)
        ensures
            r@ == self@.path,
    {
        &self.curr_dir
    }

    pub fn items(&self) -> (r: &Vec<Dir>)
        ensures
            entry_views(r@) == self@.entries,
    {
        &self.items
    }

    pub fn len(&self) -> (r: usize)
        ensures
            r == self@.entries.len(),
    {
        self.items.len()
    }

    pub fn selected(&self) -> (r: Option<usize>)
        ensures
            r is Some <==> self@.selected is Some,
            r is Some ==> r->0 as int == self@.selected->0,
    {
        self.selected
    }

    /// The selected entry; `None` exactly when the listing is empty.
    pub fn selected_entry(&self) -> (r: Option<&Dir>)
        requires
            self.wf(),
        ensures
            r is None <==> self@.entries.len() == 0,
            r is Some ==> self@.selected_entry() == Some(r->0@),
    {
        match self.selected {
            Some(i) => Some(&self.items[i]),
            None => None,
        }
    }

    /// Moves the selection one down, from the last entry back to the first.
    pub fn select_next(&mut self)
        requires
            old(self).wf(),
        ensures
            final(self).wf(),
            final(self)@ == old(self)@.after_next(),
    {
        if let Some(i) = self.selected {
            assert(self@.entries.len() == self.items@.len());
            assert(self@.selected == Some(i as int));
            assert(i < self.items.len());
            let next = if i + 1 < self.items.len() {
                i + 1
            } else {
                0
            };
            self.selected = Some(next);
        }
    }

    /// Moves the selection one up, from the first entry round to the last.
    pub fn select_prev(&mut self)
        requires
            old(self).wf(),
        ensures
            final(self).wf(),
            final(self)@ == old(self)@.after_prev(),
    {
        if let Some(i) = self.selected {
            assert(self@.entries.len() == self.items@.len());
            let prev = if i > 0 {
                i - 1
            } else {
                self.items.len() - 1
            };
            self.selected = Some(prev);
        }
    }

    pub fn select_first(&mut self)
        requires
            old(self).wf(),
        ensures
            final(self).wf(),
            final(self)@ == old(self)@.after_first(),
    {
        if self.items.len() > 0 {
            self.selected = Some(0);
        }
    }

    pub fn select_last(&mut self)
        requires
            old(self).wf(),
        ensures
            final(self).wf(),
            final(self)@ == old(self)@.after_last(),
    {
        if self.items.len() > 0 {
            self.selected = Some(self.items.len() - 1);
        }
    }

    /// Where moving into the selected entry leads.
    pub fn descend(&self) -> (r: Descend)
        requires
            self.wf(),
        ensures
            self@.selected_entry() is None ==> r is Stay,
            self@.selected_entry() is Some ==> {
                let e = self@.selected_entry()->0;
                &&& (e.kind == EntryKind::ParentRef <==> r is Ascend)
                &&& (e.kind == EntryKind::Directory <==> r is Enter)
                &&& (r is Enter ==> r->0@ == e.path)
            },
    {
        match self.selected {
            None => Descend::Stay,
            Some(i) => {
                let e = &self.items[i];
                match e.kind {
                    EntryKind::ParentRef => Descend::Ascend,
                    EntryKind::Directory => Descend::Enter(e.path.clone()),
                    _ => Descend::Stay,
                }
            },
        }
    }

    /// The path to load when moving up: the parent of the current directory, or the
    /// root where it has none.
    pub fn up_path(&self) -> (r: String)
        ensures
            r@ == self@.up_path(),
    {
        match path_parent(self.curr_dir.as_str()) {
            Some(p) => p,
            None => String::from_str("/"),
        }
    }
}

impl ListingView {
    /// The listing after `k` moves down.
    pub open spec fn after_next_times(self, k: nat) -> ListingView
        decreases k,
    {
        if k == 0 {
            self
        } else {
            self.after_next_times((k - 1) as nat).after_next()
        }
    }
}

proof fn lemma_after_next_times(v: ListingView, k: nat)
    requires
        v.wf(),
        v.entries.len() > 0,
    ensures
        v.after_next_times(k) == v.with_selected(
            Some((v.selected->0 + k) % (v.entries.len() as int)),
        ),
    decreases k,
{
    let n = v.entries.len() as int;
    let i = v.selected->0;
    if k == 0 {
        assert(i % n == i) by (nonlinear_arith)
            requires
                0 <= i < n,
        ;
    } else {
        lemma_after_next_times(v, (k - 1) as nat);
        let j = (i + k - 1) % n;
        assert(0 <= j < n) by (nonlinear_arith)
            requires
                n > 0,
                j == (i + k - 1) % n,
        ;
        assert(next_index(j, n) == (i + k) % n) by {
            vstd::arithmetic::div_mod::lemma_add_mod_noop(i + k - 1, 1, n);
            if n == 1 {
                vstd::arithmetic::div_mod::lemma_mod_self_0(1);
                assert((i + k) % n == 0);
            } else {
                vstd::arithmetic::div_mod::lemma_small_mod(1, n as nat);
                if j + 1 < n {
                    vstd::arithmetic::div_mod::lemma_small_mod((j + 1) as nat, n as nat);
                } else {
                    vstd::arithmetic::div_mod::lemma_mod_self_0(n);
                }
            }
        }
    }
}

/// Moving down as many times as there are entries brings the selection back to
/// where it started.
pub proof fn lemma_select_next_cycle(v: ListingView)
    requires
        v.wf(),
        v.entries.len() > 0,
    ensures
        v.after_next_times(v.entries.len()) == v,
{
    let n = v.entries.len() as int;
    let i = v.selected->0;
    lemma_after_next_times(v, v.entries.len());
    vstd::arithmetic::div_mod::lemma_add_mod_noop(i, n, n);
    vstd::arithmetic::div_mod::lemma_mod_self_0(n);
    vstd::arithmetic::div_mod::lemma_small_mod(i as nat, n as nat);
}

/// Where the directory has a parent, the first entry leads to it; where it has none
/// (the root), no entry does.
pub proof fn lemma_parent_entry_first(v: ListingView)
    requires
        v.wf(),
    ensures
        parent_of(v.path) is Some ==> v.entries.len() > 0 && v.entries[0].kind
            == EntryKind::ParentRef,
        parent_of(v.path) is None ==> forall|j: int|
            0 <= j < v.entries.len() ==> #[trigger] v.entries[j].kind != EntryKind::ParentRef,
{
}

} // verus!
