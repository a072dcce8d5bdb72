//! What a replacement asks of the output unit besides its own expression:
//! helper items that must be defined once, imports, and crates that the output
//! then depends on. Each is a list without repetition, in order of first
//! request, so asking twice changes nothing.

use vstd::prelude::*;
use crate::text::owned;
use crate::text::str_eq;

verus! {

/// `list` after `x` was asked for: unchanged where it holds `x`, else with `x`
/// at its end.
pub open spec fn added_once<T>(list: Seq<T>, x: T) -> Seq<T> {
    if list.contains(x) {
        list
    } else {
        list.push(x)
    }
}

/// `list` after `x` was asked for `n` times.
pub open spec fn added_times<T>(list: Seq<T>, x: T, n: nat) -> Seq<T>
    decreases n,
{
    if n == 0 {
        list
    } else {
        added_once(added_times(list, x, (n - 1) as nat), x)
    }
}

/// How many times `x` occurs in `list`.
pub open spec fn occurrences<T>(list: Seq<T>, x: T) -> nat
    decreases list.len(),
{
    if list.len() == 0 {
        0
    } else {
        occurrences(list.drop_last(), x) + if list.last() == x {
            1nat
        } else {
            0nat
        }
    }
}

/// An element that a list does not hold occurs in it zero times.
pub proof fn lemma_absent_occurs_never<T>(list: Seq<T>, x: T)
    requires
        !list.contains(x),
    ensures
        occurrences(list, x) == 0,
    decreases list.len(),
{
    if list.len() > 0 {
        assert(list.last() == list[list.len() - 1]);
        assert forall|i: int| 0 <= i < list.drop_last().len() implies list.drop_last()[i] != x by {
            assert(list.drop_last()[i] == list[i]);
        }
        lemma_absent_occurs_never(list.drop_last(), x);
    }
}

/// In a list without repetition, an element that it holds occurs exactly once.
pub proof fn lemma_present_occurs_once<T>(list: Seq<T>, x: T)
    requires
        list.no_duplicates(),
        list.contains(x),
    ensures
        occurrences(list, x) == 1,
    decreases list.len(),
{
    let front = list.drop_last();
    assert forall|i: int, j: int| 0 <= i < front.len() && 0 <= j < front.len() && i != j implies front[i]
        != front[j] by {
        assert(front[i] == list[i] && front[j] == list[j]);
    }
    if list.last() == x {
        assert forall|i: int| 0 <= i < front.len() implies front[i] != x by {
            assert(front[i] == list[i]);
            assert(list[list.len() - 1] == x);
        }
        lemma_absent_occurs_never(front, x);
    } else {
        let k = choose|k: int| 0 <= k < list.len() && list[k] == x;
        assert(front[k] == x);
        lemma_present_occurs_once(front, x);
    }
}

/// Asking once keeps a list free of repetition and leaves exactly one copy of
/// what was asked for.
pub proof fn lemma_added_once<T>(list: Seq<T>, x: T)
    requires
        list.no_duplicates(),
    ensures
        added_once(list, x).no_duplicates(),
        added_once(list, x).contains(x),
        occurrences(added_once(list, x), x) == 1,
        added_once(added_once(list, x), x) == added_once(list, x),
{
    let after = added_once(list, x);
    if !list.contains(x) {
        assert(after[list.len() as int] == x);
        assert forall|i: int, j: int| 0 <= i < after.len() && 0 <= j < after.len() && i != j implies after[i]
            != after[j] by {
            if i < list.len() {
                assert(after[i] == list[i]);
            }
            if j < list.len() {
                assert(after[j] == list[j]);
            }
        }
    }
    lemma_present_occurs_once(after, x);
}

/// Asking for the same thing at any number of places, at least one, leaves
/// exactly one copy of it: the list is what one request would have made.
pub proof fn lemma_added_any_number_of_times<T>(list: Seq<T>, x: T, n: nat)
    requires
        list.no_duplicates(),
        n >= 1,
    ensures
        added_times(list, x, n) == added_once(list, x),
        added_times(list, x, n).no_duplicates(),
        occurrences(added_times(list, x, n), x) == 1,
    decreases n,
{
    lemma_added_once(list, x);
    if n > 1 {
        lemma_added_any_number_of_times(list, x, (n - 1) as nat);
    } else {
        assert(added_times(list, x, 0) == list);
    }
}

/// An import: the path of a module and the name taken from it.
#[derive(Debug, Clone, PartialEq, Eq)]
pub struct UseDecl {
    pub path: Vec<String>,
    pub name: String,
}

/// The mathematical value of a [`UseDecl`].
pub struct UseDeclView {
    pub path: Seq<Seq<char>>,
    pub name: Seq<char>,
}

impl View for UseDecl {
    type V = UseDeclView;

    open spec fn view(&self) -> UseDeclView {
        UseDeclView { path: self.path@.map_values(|s: String| s@), name: self.name@ }
    }
}

impl UseDecl {
    /// Whether both imports have the same value.
    pub fn same_as(&self, other: &UseDecl) -> (r: bool)
        ensures
            r == (self@ == other@),
    {
        if !str_eq(self.name.as_str(), other.name.as_str()) || self.path.len() != other.path.len() {
            assert(self@.path.len() != other@.path.len() || self@.name != other@.name);
            return false;
        }
        let mut i: usize = 0;
        while i < self.path.len()
            invariant
                i <= self.path.len(),
                self.path.len() == other.path.len(),
                self@.name == other@.name,
                forall|j: int| 0 <= j < i ==> self.path[j]@ == other.path[j]@,
            decreases self.path.len() - i,
        {
            if !str_eq(self.path[i].as_str(), other.path[i].as_str()) {
                assert(self@.path[i as int] == self.path[i as int]@);
                assert(other@.path[i as int] == other.path[i as int]@);
                return false;
            }
            i += 1;
        }
        assert(self@.path =~= other@.path);
        true
    }
}

/// The mathematical value of an [`ItemStore`].
pub struct ItemStoreView {
    pub items: Seq<Seq<char>>,
    pub uses: Seq<UseDeclView>,
    pub crates: Seq<Seq<char>>,
}

impl ItemStoreView {
    /// Whether no list holds anything twice.
    pub open spec fn well_formed(self) -> bool {
        self.items.no_duplicates() && self.uses.no_duplicates() && self.crates.no_duplicates()
    }
}

/// The registry of one output unit: helper items by their exact text, imports,
/// and the crates that the output depends on.
#[derive(Debug)]
pub struct ItemStore {
    items: Vec<String>,
    uses: Vec<UseDecl>,
    crates: Vec<String>,
}

impl View for ItemStore {
    type V = ItemStoreView;

    closed spec fn view(&self) -> ItemStoreView {
        ItemStoreView {
            items: self.items@.map_values(|s: String| s@),
            uses: self.uses@.map_values(|u: UseDecl| u@),
            crates: self.crates@.map_values(|s: String| s@),
        }
    }
}

/// Whether `list` holds `text`.
fn holds_text(list: &Vec<String>, text: &str) -> (r: bool)
    ensures
        r == list@.map_values(|s: String| s@).contains(text@),
{
    let ghost views = list@.map_values(|s: String| s@);
    let mut i: usize = 0;
    while i < list.len()
        invariant
            i <= list.len(),
            views == list@.map_values(|s: String| s@),
            forall|j: int| 0 <= j < i ==> views[j] != text@,
        decreases list.len() - i,
    {
        if str_eq(list[i].as_str(), text) {
            assert(views[i as int] == text@);
            return true;
        }
        i += 1;
    }
    false
}

/// Adds `text` to `list` unless it is there.
fn add_text_once(list: &mut Vec<String>, text: &str)
    ensures
        final(list)@.map_values(|s: String| s@) == added_once(
            old(list)@.map_values(|s: String| s@),
            text@,
        ),
{
    if !holds_text(list, text) {
        list.push(owned(text));
        assert(list@.map_values(|s: String| s@) =~= old(list)@.map_values(|s: String| s@).push(
            text@,
        ));
    }
}

impl ItemStore {
    #[verifier::type_invariant]
    pub closed spec fn without_repetition(&self) -> bool {
        self@.well_formed()
    }

    /// An empty registry.
    pub fn new() -> (r: ItemStore)
        ensures
            r@.items.len() == 0,
            r@.uses.len() == 0,
            r@.crates.len() == 0,
    {
        ItemStore { items: Vec::new(), uses: Vec::new(), crates: Vec::new() }
    }

    /// Registers a helper item by its text. A text that is registered already
    /// is not registered again.
    pub fn add_item_str_once(&mut self, text: &str)
        ensures
            final(self)@.items == added_once(old(self)@.items, text@),
            final(self)@.uses == old(self)@.uses,
            final(self)@.crates == old(self)@.crates,
            final(self)@.well_formed(),
            occurrences(final(self)@.items, text@) == 1,
    {
        proof {
            use_type_invariant(&*self);
            lemma_added_once(old(self)@.items, text@);
        }
        let mut taken = ItemStore::new();
        core::mem::swap(self, &mut taken);
        let ItemStore { mut items, uses, crates } = taken;
        add_text_once(&mut items, text);
        *self = ItemStore { items, uses, crates };
    }

    /// Registers a crate that the output depends on. A crate that is
    /// registered already is not registered again.
    pub fn use_crate(&mut self, name: &str)
        ensures
            final(self)@.crates == added_once(old(self)@.crates, name@),
            final(self)@.items == old(self)@.items,
            final(self)@.uses == old(self)@.uses,
            final(self)@.well_formed(),
            occurrences(final(self)@.crates, name@) == 1,
    {
        proof {
            use_type_invariant(&*self);
            lemma_added_once(old(self)@.crates, name@);
        }
        let mut taken = ItemStore::new();
        core::mem::swap(self, &mut taken);
        let ItemStore { items, uses, mut crates } = taken;
        add_text_once(&mut crates, name);
        *self = ItemStore { items, uses, crates };
    }

    /// Registers the import of `name` from the module at `path`. An import
    /// that is registered already is not registered again.
    pub fn add_use(&mut self, path: Vec<String>, name: &str)
        ensures
            final(self)@.uses == added_once(
                old(self)@.uses,
                UseDeclView { path: path@.map_values(|s: String| s@), name: name@ },
            ),
            final(self)@.items == old(self)@.items,
            final(self)@.crates == old(self)@.crates,
            final(self)@.well_formed(),
    {
        let decl = UseDecl { path, name: owned(name) };
        proof {
            use_type_invariant(&*self);
            lemma_added_once(old(self)@.uses, decl@);
        }
        let mut taken = ItemStore::new();
        core::mem::swap(self, &mut taken);
        let ItemStore { items, mut uses, crates } = taken;
        let ghost before = uses@.map_values(|u: UseDecl| u@);
        let mut found = false;
        let mut i: usize = 0;
        while i < uses.len() && !found
            invariant
                i <= uses.len(),
                before == uses@.map_values(|u: UseDecl| u@),
                !found ==> forall|j: int| 0 <= j < i ==> before[j] != decl@,
                found ==> before.contains(decl@),
            decreases uses.len() - i + if found { 0int } else { 1int },
        {
            if uses[i].same_as(&decl) {
                assert(before[i as int] == decl@);
                found = true;
            } else {
                i += 1;
            }
        }
        if !found {
            uses.push(decl);
            assert(uses@.map_values(|u: UseDecl| u@) =~= before.push(decl@));
        }
        *self = ItemStore { items, uses, crates };
    }

    /// The helper items, in order of first registration.
    pub fn items(&self) -> (r: &Vec<String>)
        ensures
            r@.map_values(|s: String| s@) == self@.items,
            self@.well_formed(),
    {
        proof {
            use_type_invariant(self);
        }
        &self.items
    }

    /// The imports, in order of first registration.
    pub fn uses(&self) -> (r: &Vec<UseDecl>)
        ensures
            r@.map_values(|u: UseDecl| u@) == self@.uses,
    {
        &self.uses
    }

    /// The crates that the output depends on, in order of first registration.
    pub fn crates(&self) -> (r: &Vec<String>)
        ensures
            r@.map_values(|s: String| s@) == self@.crates,
    {
        &self.crates
    }
}

} // verus!
