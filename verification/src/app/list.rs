//! The list of files on offer and the cursor that moves over it.

use crate::app::{file_views, File, FileView};
use tui::widgets::ListState;
use vstd::arithmetic::div_mod::{lemma_mod_self_0, lemma_small_mod};
use vstd::prelude::*;

verus! {

/// `tui::widgets::ListState`, the state that a list widget keeps from frame
/// to frame. Its fields are private to `tui`, so contracts speak of it
/// through `selection`.
#[verifier::external_type_specification]
#[verifier::external_body]
pub struct ExListState(ListState);

/// The index that a `ListState` holds as selected, if it holds one: what
/// `ListState::selected` returns and `ListState::select` sets.
pub uninterp spec fn selection(state: ListState) -> Option<usize>;

/// `ListState::default`, which `tui` derives: a fresh state has nothing
/// selected.
pub assume_specification[ <ListState as Default>::default ]() -> (state: ListState)
    ensures
        selection(state) is None,
;

/// `ListState::selected`: hands out the selected index and changes nothing.
pub assume_specification[ ListState::selected ](state: &ListState) -> (index: Option<usize>)
    ensures
        index == selection(*state),
;

/// `ListState::select`: makes `index` the selection, whatever it was before.
/// No index is refused; the state knows nothing of the list it goes with.
pub assume_specification[ ListState::select ](state: &mut ListState, index: Option<usize>)
    ensures
        selection(*final(state)) == index,
;

/// Why a claim was refused.
#[derive(Debug, Clone, Copy, PartialEq, Eq, Structural)]
pub enum ListError {
    /// The index names no entry of the list.
    IndexOutOfRange,
}

/// A list as contracts see it: the entries in order, and the position of the
/// cursor if it is set.
pub struct ListView {
    pub items: Seq<FileView>,
    pub cursor: Option<int>,
}

impl ListView {
    /// The cursor, where set, points at an entry. An empty list therefore
    /// has no cursor.
    pub open spec fn wf(self) -> bool {
        match self.cursor {
            Some(i) => 0 <= i < self.items.len(),
            None => true,
        }
    }

    /// The list over `items` as it starts out: the cursor on the first
    /// entry, or unset where there is none.
    pub open spec fn initial(items: Seq<FileView>) -> ListView {
        ListView { items, cursor: if items.len() > 0 { Some(0int) } else { None } }
    }

    /// One step forward: past the last entry the cursor comes back to the
    /// first, and an unset cursor lands on the first. An empty list stays as
    /// it is.
    pub open spec fn next(self) -> ListView {
        if self.items.len() == 0 {
            self
        } else {
            let at = match self.cursor {
                Some(i) => if i + 1 < self.items.len() { i + 1 } else { 0 },
                None => 0,
            };
            ListView { cursor: Some(at), ..self }
        }
    }

    /// One step back: before the first entry the cursor goes to the last.
    /// An unset cursor lands on the first entry, not the last. An empty list
    /// stays as it is.
    pub open spec fn prev(self) -> ListView {
        if self.items.len() == 0 {
            self
        } else {
            let at = match self.cursor {
                Some(i) => if i == 0 { self.items.len() - 1 } else { i - 1 },
                None => 0,
            };
            ListView { cursor: Some(at), ..self }
        }
    }

    /// The same entries with no cursor.
    pub open spec fn unselect(self) -> ListView {
        ListView { cursor: None, ..self }
    }

    /// `item` added behind the last entry; the cursor stays.
    pub open spec fn push(self, item: FileView) -> ListView {
        ListView { items: self.items.push(item), ..self }
    }

    /// What a claim of entry `i` answers: an error where `i` names no entry,
    /// nothing where the entry is already claimed, else the entry as it is
    /// after the claim.
    pub open spec fn claim_outcome(self, i: int) -> Result<Option<FileView>, ListError> {
        if !(0 <= i < self.items.len()) {
            Err(ListError::IndexOutOfRange)
        } else if self.items[i].claimed {
            Ok(None)
        } else {
            Ok(Some(FileView { claimed: true, ..self.items[i] }))
        }
    }

    /// The list after a claim of entry `i`: that entry is claimed, and
    /// nothing else has changed. An index out of range changes nothing.
    pub open spec fn claim(self, i: int) -> ListView {
        if 0 <= i < self.items.len() {
            ListView {
                items: self.items.update(i, FileView { claimed: true, ..self.items[i] }),
                ..self
            }
        } else {
            self
        }
    }
}

/// The files on offer, in order, with the cursor kept in the state of the
/// list widget that shows them.
pub struct StatefulFileList {
    state: ListState,
    items: Vec<File>,
}

impl View for StatefulFileList {
    type V = ListView;

    closed spec fn view(&self) -> ListView {
        ListView {
            items: file_views(self.items@),
            cursor: match selection(self.state) {
                Some(i) => Some(i as int),
                None => None,
            },
        }
    }
}

impl StatefulFileList {
    /// A list of `items` with the cursor on the first of them, or unset
    /// where there is none.
    pub fn new(items: Vec<File>) -> (list: Self)
        ensures
            list@ == ListView::initial(file_views(items@)),
            list@.wf(),
    {
        let mut state = ListState::default();
        if items.len() > 0 {
            state.select(Some(0));
        }
        StatefulFileList { state, items }
    }

    /// Moves the cursor one entry forward, cyclically.
    pub fn next(&mut self)
        ensures
            final(self)@ == old(self)@.next(),
            old(self)@.wf() ==> final(self)@.wf(),
    {
        if self.items.len() > 0 {
            let i: usize = match self.state.selected() {
                Some(i) => if i >= self.items.len() - 1 { 0 } else { i + 1 },
                None => 0,
            };
            self.state.select(Some(i));
        }
    }

    /// Moves the cursor one entry back, cyclically.
    pub fn prev(&mut self)
        ensures
            final(self)@ == old(self)@.prev(),
            old(self)@.wf() ==> final(self)@.wf(),
    {
        if self.items.len() > 0 {
            let i: usize = match self.state.selected() {
                Some(i) => if i == 0 { self.items.len() - 1 } else { i - 1 },
                None => 0,
            };
            self.state.select(Some(i));
        }
    }

    /// Clears the cursor.
    pub fn unselect(&mut self)
        ensures
            final(self)@ == old(self)@.unselect(),
            final(self)@.wf(),
    {
        self.state.select(None);
    }

    /// Appends `value`; the cursor stays where it is.
    pub fn push(&mut self, value: File)
        ensures
            final(self)@ == old(self)@.push(value@),
            old(self)@.wf() ==> final(self)@.wf(),
    {
        self.items.push(value);
        assert(file_views(self.items@) =~= file_views(old(self).items@).push(value@));
    }

    /// Claims entry `i`. The first claim of an entry marks it and hands out
    /// a copy; every later one answers `Ok(None)`; an index beyond the list
    /// is an error and changes nothing.
    pub fn get_selected(&mut self, i: usize) -> (outcome: Result<Option<File>, ListError>)
        ensures
            final(self)@ == old(self)@.claim(i as int),
            old(self)@.wf() ==> final(self)@.wf(),
            outcome is Err <==> i >= old(self)@.items.len(),
            outcome is Err ==> *final(self) == *old(self),
            match old(self)@.claim_outcome(i as int) {
                Err(e) => outcome == Err::<Option<File>, ListError>(e),
                Ok(None) => outcome == Ok::<Option<File>, ListError>(None),
                Ok(Some(claimed)) => outcome matches Ok(Some(file)) && file@ == claimed,
            },
    {
        if i >= self.items.len() {
            return Err(ListError::IndexOutOfRange);
        }
        let file = &mut self.items[i];
        if file.is_selected() {
            assert(file_views(self.items@) =~= file_views(old(self).items@).update(
                i as int,
                FileView { claimed: true, ..old(self).items@[i as int]@ },
            ));
            Ok(None)
        } else {
            file.mark_selected();
            let copy = file.clone();
            assert(file_views(self.items@) =~= file_views(old(self).items@).update(
                i as int,
                FileView { claimed: true, ..old(self).items@[i as int]@ },
            ));
            Ok(Some(copy))
        }
    }

    /// The position of the cursor, if it is set.
    pub fn selected(&self) -> (index: Option<usize>)
        ensures
            match index {
                Some(i) => self@.cursor == Some(i as int),
                None => self@.cursor is None,
            },
    {
        self.state.selected()
    }

    /// The entries, in order.
    pub fn items(&self) -> (items: &Vec<File>)
        ensures
            file_views(items@) == self@.items,
    {
        &self.items
    }

    /// The number of entries.
    pub fn len(&self) -> (n: usize)
        ensures
            n == self@.items.len(),
    {
        self.items.len()
    }
}

/// One operation on a list. The laws of this module speak of every sequence
/// of them.
pub enum ListOp {
    Next,
    Prev,
    Unselect,
    Push(FileView),
    Claim(int),
}

impl ListView {
    /// The list after `n` steps forward.
    pub open spec fn next_n(self, n: nat) -> ListView
        decreases n,
    {
        if n == 0 {
            self
        } else {
            self.next_n((n - 1) as nat).next()
        }
    }

    /// The list after `n` steps back.
    pub open spec fn prev_n(self, n: nat) -> ListView
        decreases n,
    {
        if n == 0 {
            self
        } else {
            self.prev_n((n - 1) as nat).prev()
        }
    }

    /// The list after the operation `op`.
    pub open spec fn apply(self, op: ListOp) -> ListView {
        match op {
            ListOp::Next => self.next(),
            ListOp::Prev => self.prev(),
            ListOp::Unselect => self.unselect(),
            ListOp::Push(item) => self.push(item),
            ListOp::Claim(i) => self.claim(i),
        }
    }

    /// The list after the operations `ops`, one after the other.
    pub open spec fn apply_all(self, ops: Seq<ListOp>) -> ListView
        decreases ops.len(),
    {
        if ops.len() == 0 {
            self
        } else {
            self.apply_all(ops.drop_last()).apply(ops.last())
        }
    }
}

/// Every operation keeps the cursor inside the list.
pub proof fn lemma_apply_keeps_wf(list: ListView, op: ListOp)
    requires
        list.wf(),
    ensures
        list.apply(op).wf(),
{
}

/// On a list with entries and a cursor, a step moves the cursor by one
/// modulo the length of the list.
pub proof fn lemma_steps_are_modular(list: ListView)
    requires
        list.wf(),
        list.cursor is Some,
    ensures
        list.next().cursor == Some((list.cursor->0 + 1) % (list.items.len() as int)),
        list.prev().cursor == Some(
            (list.cursor->0 + list.items.len() - 1) % (list.items.len() as int),
        ),
        list.next().items == list.items,
        list.prev().items == list.items,
{
    let len = list.items.len();
    let at = list.cursor->0;
    if at + 1 < len {
        lemma_small_mod((at + 1) as nat, len);
    } else {
        lemma_mod_self_0(len as int);
    }
    if at == 0 {
        lemma_small_mod((len - 1) as nat, len);
    } else {
        lemma_small_mod((at - 1) as nat, len);
        vstd::arithmetic::div_mod::lemma_mod_add_multiples_vanish(at - 1, len as int);
    }
}

/// After `k` steps forward, at most once round the list, the cursor stands
/// `k` entries further on, counted cyclically.
proof fn lemma_next_n_position(list: ListView, k: nat)
    requires
        list.wf(),
        list.cursor is Some,
        k <= list.items.len(),
    ensures
        list.next_n(k) == (ListView {
            cursor: Some(
                if list.cursor->0 + k < list.items.len() {
                    list.cursor->0 + k
                } else {
                    list.cursor->0 + k - list.items.len()
                },
            ),
            ..list
        }),
    decreases k,
{
    if k > 0 {
        lemma_next_n_position(list, (k - 1) as nat);
    }
}

/// After `k` steps back, at most once round the list, the cursor stands
/// `k` entries before where it was, counted cyclically.
proof fn lemma_prev_n_position(list: ListView, k: nat)
    requires
        list.wf(),
        list.cursor is Some,
        k <= list.items.len(),
    ensures
        list.prev_n(k) == (ListView {
            cursor: Some(
                if list.cursor->0 - k >= 0 {
                    list.cursor->0 - k
                } else {
                    list.cursor->0 - k + list.items.len()
                },
            ),
            ..list
        }),
    decreases k,
{
    if k > 0 {
        lemma_prev_n_position(list, (k - 1) as nat);
    }
}

/// Stepping forward as many times as the list has entries brings the cursor
/// back to where it started.
pub proof fn lemma_next_comes_round(list: ListView)
    requires
        list.wf(),
        list.items.len() > 0,
        list.cursor is Some,
    ensures
        list.next_n(list.items.len()) == list,
{
    lemma_next_n_position(list, list.items.len());
}

/// Stepping back as many times as the list has entries brings the cursor
/// back to where it started.
pub proof fn lemma_prev_comes_round(list: ListView)
    requires
        list.wf(),
        list.items.len() > 0,
        list.cursor is Some,
    ensures
        list.prev_n(list.items.len()) == list,
{
    lemma_prev_n_position(list, list.items.len());
}

/// An empty list has no cursor, and no number of steps gives it one.
pub proof fn lemma_empty_list_stays_unset(list: ListView, n: nat)
    requires
        list.wf(),
        list.items.len() == 0,
    ensures
        list.cursor is None,
        list.next() == list,
        list.prev() == list,
        list.next_n(n) == list,
        list.prev_n(n) == list,
    decreases n,
{
    if n > 0 {
        lemma_empty_list_stays_unset(list, (n - 1) as nat);
    }
}

/// A claimed entry stays where it is and stays claimed, whatever is done to
/// the list afterwards.
pub proof fn lemma_claimed_is_permanent(list: ListView, i: int, ops: Seq<ListOp>)
    requires
        0 <= i < list.items.len(),
        list.items[i].claimed,
    ensures
        i < list.apply_all(ops).items.len(),
        list.apply_all(ops).items[i] == list.items[i],
    decreases ops.len(),
{
    if ops.len() > 0 {
        lemma_claimed_is_permanent(list, i, ops.drop_last());
    }
}

/// An entry is handed out at most once: after one claim of an entry, every
/// later claim of it answers that there is nothing to claim and changes
/// nothing, whatever was done to the list in between.
pub proof fn lemma_claim_succeeds_at_most_once(list: ListView, i: int, ops: Seq<ListOp>)
    requires
        0 <= i < list.items.len(),
    ensures
        list.claim(i).apply_all(ops).claim_outcome(i) == Ok::<Option<FileView>, ListError>(None),
        list.claim(i).apply_all(ops).claim(i) == list.claim(i).apply_all(ops),
{
    let later = list.claim(i).apply_all(ops);
    lemma_claimed_is_permanent(list.claim(i), i, ops);
    assert(later.claim(i).items =~= later.items);
}

/// A claim of an index that names no entry is refused and changes nothing.
pub proof fn lemma_claim_out_of_range(list: ListView, i: int)
    requires
        !(0 <= i < list.items.len()),
    ensures
        list.claim_outcome(i) == Err::<Option<FileView>, ListError>(ListError::IndexOutOfRange),
        list.claim(i) == list,
{
}

} // verus!
