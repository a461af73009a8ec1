//! Edits applied to the selected shapes from the properties panel: which value a toggle
//! should set, which colour the selection shows, how an edit is tallied, and the toast
//! that reports it.
use vstd::prelude::*;
use crate::text::string_of;
use crate::undo::UndoAction;

verus! {

/// Kind of a transient UI toast.
#[derive(Debug, Clone, Copy, PartialEq, Eq, Structural)]
pub enum UiToastKind {
    Info,
    Warning,
    Error,
}

/// A transient message shown over the canvas.
#[derive(Debug, Clone, PartialEq, Eq)]
pub struct UiToast {
    pub kind: UiToastKind,
    pub message: String,
}

/// A selected shape as one edit sees it: the value the edit reads from it (none when the
/// shape is gone or the edit does not apply to it), and whether it is locked.
#[derive(Debug, Clone, Copy, PartialEq, Eq, Structural)]
pub struct SelectedValue<V> {
    pub value: Option<V>,
    pub locked: bool,
}

/// The values of the unlocked shapes among `entries`, in selection order.
pub open spec fn editable_values(entries: Seq<SelectedValue<bool>>) -> Seq<bool>
    decreases entries.len(),
{
    if entries.len() == 0 {
        Seq::empty()
    } else {
        let rest = editable_values(entries.drop_last());
        let last = entries.last();
        if last.value is Some && !last.locked {
            rest.push(last.value->0)
        } else {
            rest
        }
    }
}

/// Whether any entry has a value.
pub open spec fn any_applicable<V>(entries: Seq<SelectedValue<V>>) -> bool {
    exists|i: int| 0 <= i < entries.len() && (#[trigger] entries[i]).value is Some
}

/// The value a boolean toggle should set on the selection: none when no selected shape has
/// the property; true when only locked shapes have it, or the editable values are mixed;
/// otherwise the flip of the common value.
pub open spec fn spec_bool_target(entries: Seq<SelectedValue<bool>>) -> Option<bool> {
    let vals = editable_values(entries);
    if !any_applicable(entries) {
        None
    } else if vals.len() == 0 {
        Some(true)
    } else if exists|j: int| 0 <= j < vals.len() && #[trigger] vals[j] != vals[0] {
        Some(true)
    } else {
        Some(!vals[0])
    }
}

/// The value a boolean toggle should set on the selection (see `spec_bool_target`).
pub fn selection_bool_target(entries: &Vec<SelectedValue<bool>>) -> (t: Option<bool>)
    ensures
        t == spec_bool_target(entries@),
{
    let mut applicable = false;
    let mut vals: Vec<bool> = Vec::new();
    let mut i: usize = 0;
    while i < entries.len()
        invariant
            i <= entries.len(),
            vals@ == editable_values(entries@.take(i as int)),
            applicable == any_applicable(entries@.take(i as int)),
        decreases entries.len() - i,
    {
        let e = entries[i];
        proof {
            let t = entries@.take(i as int + 1);
            assert(t.drop_last() == entries@.take(i as int));
            assert(t.last() == e);
            if e.value is Some {
                assert(t[i as int] == e);
            }
            if applicable {
                let w = choose|k: int| 0 <= k < i && (#[trigger] entries@.take(i as int)[k]).value is Some;
                assert(t[w] == entries@.take(i as int)[w]);
            }
            if any_applicable(t) {
                let w = choose|k: int| 0 <= k < t.len() && (#[trigger] t[k]).value is Some;
                if w < i {
                    assert(entries@.take(i as int)[w] == t[w]);
                }
            }
        }
        match e.value {
            Some(v) => {
                applicable = true;
                if !e.locked {
                    vals.push(v);
                }
            },
            None => {},
        }
        i += 1;
    }
    assert(entries@.take(entries.len() as int) == entries@);
    if !applicable {
        return None;
    }
    if vals.len() == 0 {
        return Some(true);
    }
    let first = vals[0];
    let mut mixed = false;
    let mut j: usize = 0;
    while j < vals.len()
        invariant
            j <= vals.len(),
            vals.len() > 0,
            first == vals@[0],
            mixed == (exists|k: int| 0 <= k < j && #[trigger] vals@[k] != vals@[0]),
        decreases vals.len() - j,
    {
        if vals[j] != first {
            mixed = true;
        }
        j += 1;
    }
    if mixed {
        Some(true)
    } else {
        Some(!first)
    }
}

/// The first value among the unlocked shapes, if any.
pub open spec fn first_unlocked<C>(entries: Seq<SelectedValue<C>>) -> Option<C>
    decreases entries.len(),
{
    if entries.len() == 0 {
        None
    } else if entries[0].value is Some && !entries[0].locked {
        entries[0].value
    } else {
        first_unlocked(entries.skip(1))
    }
}

proof fn lemma_first_unlocked_step<C>(entries: Seq<SelectedValue<C>>, i: int)
    requires
        0 <= i < entries.len(),
    ensures
        first_unlocked(entries.skip(i)) == if entries[i].value is Some && !entries[i].locked {
            entries[i].value
        } else {
            first_unlocked(entries.skip(i + 1))
        },
{
    assert(entries.skip(i)[0] == entries[i]);
    assert(entries.skip(i).skip(1) =~= entries.skip(i + 1));
}

/// The colour the selection shows: that of the first unlocked shape that has one.
pub fn selection_primary_color<C: Copy>(entries: &Vec<SelectedValue<C>>) -> (c: Option<C>)
    ensures
        c == first_unlocked(entries@),
{
    let mut i: usize = 0;
    assert(entries@.skip(0) =~= entries@);
    while i < entries.len()
        invariant
            i <= entries.len(),
            first_unlocked(entries@) == first_unlocked(entries@.skip(i as int)),
        decreases entries.len() - i,
    {
        proof {
            lemma_first_unlocked_step(entries@, i as int);
        }
        let e = entries[i];
        if !e.locked {
            if let Some(v) = e.value {
                return Some(v);
            }
        }
        i += 1;
    }
    assert(entries@.skip(entries.len() as int).len() == 0);
    None
}

/// The counts of one edit over the selection.
#[derive(Debug, Clone, Copy, PartialEq, Eq, Structural, Default)]
pub struct SelectionApplyResult {
    /// Shapes the edit changed.
    pub changed: usize,
    /// Shapes the edit applied to that were locked (and so left alone).
    pub locked: usize,
    /// Shapes the edit applied to.
    pub applicable: usize,
}

/// How one selected shape fared under an edit.
#[derive(Debug, Clone, Copy, PartialEq, Eq, Structural)]
pub struct EditedShape {
    pub id: u64,
    /// The edit applies to the shape (and the shape exists).
    pub applicable: bool,
    pub locked: bool,
    /// The edit changed the shape (only asked of applicable, unlocked shapes).
    pub changed: bool,
}

pub open spec fn count_applicable(s: Seq<EditedShape>) -> nat
    decreases s.len(),
{
    if s.len() == 0 {
        0
    } else {
        count_applicable(s.drop_last()) + if s.last().applicable { 1nat } else { 0nat }
    }
}

pub open spec fn count_locked(s: Seq<EditedShape>) -> nat
    decreases s.len(),
{
    if s.len() == 0 {
        0
    } else {
        count_locked(s.drop_last()) + if s.last().applicable && s.last().locked { 1nat } else { 0nat }
    }
}

pub open spec fn count_changed(s: Seq<EditedShape>) -> nat
    decreases s.len(),
{
    if s.len() == 0 {
        0
    } else {
        count_changed(s.drop_last()) + if s.last().applicable && !s.last().locked && s.last().changed {
            1nat
        } else {
            0nat
        }
    }
}

proof fn lemma_counts_bounded(s: Seq<EditedShape>)
    ensures
        count_applicable(s) <= s.len(),
        count_locked(s) + count_changed(s) <= count_applicable(s),
    decreases s.len(),
{
    if s.len() > 0 {
        lemma_counts_bounded(s.drop_last());
    }
}

/// Tallies an edit over the selection: applicable shapes, the locked ones among them, and
/// the unlocked ones the edit changed.
pub fn tally_selection_change(shapes: &Vec<EditedShape>) -> (r: SelectionApplyResult)
    ensures
        r.applicable == count_applicable(shapes@),
        r.locked == count_locked(shapes@),
        r.changed == count_changed(shapes@),
        r.locked + r.changed <= r.applicable,
{
    let mut r = SelectionApplyResult { changed: 0, locked: 0, applicable: 0 };
    let mut i: usize = 0;
    while i < shapes.len()
        invariant
            i <= shapes.len(),
            r.applicable == count_applicable(shapes@.take(i as int)),
            r.locked == count_locked(shapes@.take(i as int)),
            r.changed == count_changed(shapes@.take(i as int)),
        decreases shapes.len() - i,
    {
        let e = shapes[i];
        proof {
            let t = shapes@.take(i as int + 1);
            assert(t.drop_last() == shapes@.take(i as int));
            assert(t.last() == e);
            lemma_counts_bounded(shapes@.take(i as int));
        }
        if e.applicable {
            r.applicable = r.applicable + 1;
            if e.locked {
                r.locked = r.locked + 1;
            } else if e.changed {
                r.changed = r.changed + 1;
            }
        }
        i += 1;
    }
    assert(shapes@.take(shapes.len() as int) == shapes@);
    proof {
        lemma_counts_bounded(shapes@);
    }
    r
}

/// The ids of the shapes an edit changed, in selection order.
pub open spec fn changed_ids(s: Seq<EditedShape>) -> Seq<u64>
    decreases s.len(),
{
    if s.len() == 0 {
        Seq::empty()
    } else {
        changed_ids(s.drop_last()) + if s.last().applicable && !s.last().locked && s.last().changed {
            seq![s.last().id]
        } else {
            Seq::empty()
        }
    }
}

/// The undo entry recorded for changed shapes `ids`: nothing when none changed, one
/// modification for a single shape, else a compound of one modification per shape, in order.
pub open spec fn undo_entry_for(ids: Seq<u64>, undo: Option<UndoAction>) -> bool {
    if ids.len() == 0 {
        undo is None
    } else if ids.len() == 1 {
        undo == Some(UndoAction::Modify { shape_id: ids[0] })
    } else {
        undo matches Some(UndoAction::Compound(parts)) && parts@.len() == ids.len() && forall|i: int|
            0 <= i < ids.len() ==> #[trigger] parts@[i] == (UndoAction::Modify { shape_id: ids[i] })
    }
}

/// What applying an edit to the selection does.
#[derive(Debug)]
pub struct SelectionChangePlan {
    pub result: SelectionApplyResult,
    /// The changed shapes, in selection order: each has its bounds before and after marked
    /// dirty and its hit-test cache invalidated.
    pub changed_ids: Vec<u64>,
    /// The one undo entry pushed for the edit, if anything changed.
    pub undo: Option<UndoAction>,
    /// The session is marked dirty.
    pub session_dirty: bool,
    /// A redraw is asked for.
    pub redraw: bool,
}

fn modifications(ids: &Vec<u64>) -> (v: Vec<UndoAction>)
    ensures
        v@.len() == ids@.len(),
        forall|i: int| 0 <= i < ids@.len() ==> #[trigger] v@[i] == (UndoAction::Modify { shape_id: ids@[i] }),
{
    let mut v: Vec<UndoAction> = Vec::new();
    let mut i: usize = 0;
    while i < ids.len()
        invariant
            i <= ids@.len(),
            v@.len() == i,
            forall|k: int| 0 <= k < i ==> #[trigger] v@[k] == (UndoAction::Modify { shape_id: ids@[k] }),
        decreases ids.len() - i,
    {
        v.push(UndoAction::Modify { shape_id: ids[i] });
        i += 1;
    }
    v
}

/// Applies the outcome of an edit over the selection: tallies it (see
/// `tally_selection_change`), and when some shape changed records one undo entry for all the
/// changed shapes, marks the session dirty, marks their regions dirty and asks for a redraw.
/// When nothing changed none of that happens.
pub fn plan_selection_change(shapes: &Vec<EditedShape>) -> (p: SelectionChangePlan)
    ensures
        p.result.applicable == count_applicable(shapes@),
        p.result.locked == count_locked(shapes@),
        p.result.changed == count_changed(shapes@),
        p.changed_ids@ == changed_ids(shapes@),
        p.changed_ids@.len() == p.result.changed,
        undo_entry_for(changed_ids(shapes@), p.undo),
        p.session_dirty == (p.result.changed > 0),
        p.redraw == (p.result.changed > 0),
{
    let result = tally_selection_change(shapes);
    let mut ids: Vec<u64> = Vec::new();
    let mut i: usize = 0;
    while i < shapes.len()
        invariant
            i <= shapes.len(),
            ids@ == changed_ids(shapes@.take(i as int)),
            ids@.len() == count_changed(shapes@.take(i as int)),
        decreases shapes.len() - i,
    {
        let e = shapes[i];
        proof {
            let t = shapes@.take(i as int + 1);
            assert(t.drop_last() == shapes@.take(i as int));
            assert(t.last() == e);
        }
        if e.applicable && !e.locked && e.changed {
            ids.push(e.id);
        }
        i += 1;
    }
    assert(shapes@.take(shapes.len() as int) == shapes@);
    let n = ids.len();
    let undo = if n == 0 {
        None
    } else if n == 1 {
        Some(UndoAction::Modify { shape_id: ids[0] })
    } else {
        Some(UndoAction::Compound(modifications(&ids)))
    };
    SelectionChangePlan { result, changed_ids: ids, undo, session_dirty: n > 0, redraw: n > 0 }
}

/// The decimal digit character for `d` below ten.
pub open spec fn digit_char(d: nat) -> char {
    ((d + 48) as u8) as char
}

/// The decimal representation of `n`, without leading zeros.
pub open spec fn decimal(n: nat) -> Seq<char>
    decreases n,
{
    if n < 10 {
        seq![digit_char(n)]
    } else {
        decimal(n / 10).push(digit_char(n % 10))
    }
}

fn push_decimal(n: u64, out: &mut Vec<char>)
    ensures
        final(out)@ == old(out)@ + decimal(n as nat),
    decreases n,
{
    if n >= 10 {
        push_decimal(n / 10, out);
    }
    let d: u8 = (n % 10) as u8;
    out.push((48u8 + d) as char);
    proof {
        assert(old(out)@ + decimal(n as nat) =~= if n >= 10 {
            old(out)@ + decimal((n / 10) as nat) + seq![digit_char((n % 10) as nat)]
        } else {
            old(out)@ + seq![digit_char(n as nat)]
        });
    }
}

/// The decimal text of a count.
pub fn decimal_string(n: usize) -> (s: String)
    ensures
        s@ == decimal(n as nat),
{
    let mut v: Vec<char> = Vec::new();
    push_decimal(n as u64, &mut v);
    assert(v@ =~= decimal(n as nat));
    string_of(&v)
}

/// The decimal text of a 64-bit number.
pub fn decimal_string_u64(n: u64) -> (s: String)
    ensures
        s@ == decimal(n as nat),
{
    let mut v: Vec<char> = Vec::new();
    push_decimal(n, &mut v);
    assert(v@ =~= decimal(n as nat));
    string_of(&v)
}

/// The report of an edit: whether anything was applied, and the toast to show.
#[derive(Debug, Clone, PartialEq, Eq)]
pub struct SelectionReport {
    pub applied: bool,
    pub toast: Option<UiToast>,
}

pub open spec fn toast_is(t: Option<UiToast>, kind: UiToastKind, message: Seq<char>) -> bool {
    t matches Some(u) && u.kind == kind && u.message@ == message
}

/// Reports an edit over the selection, for an edit of `label`: a warning when nothing had
/// the property; when nothing changed, a warning if everything applicable was locked and an
/// info toast otherwise; when something changed, a warning counting the locked shapes left
/// alone, if any. Returns whether anything was applied.
pub fn report_selection_apply_result(result: SelectionApplyResult, label: &str) -> (r: SelectionReport)
    ensures
        result.applicable == 0 ==> !r.applied && toast_is(
            r.toast,
            UiToastKind::Warning,
            "No "@ + label@ + " to edit in selection."@,
        ),
        result.applicable != 0 && result.changed == 0 && result.locked == result.applicable ==> !r.applied
            && toast_is(r.toast, UiToastKind::Warning, "All "@ + label@ + " shapes are locked."@),
        result.applicable != 0 && result.changed == 0 && result.locked != result.applicable ==> !r.applied
            && toast_is(r.toast, UiToastKind::Info, "No changes applied."@),
        result.applicable != 0 && result.changed != 0 && result.locked > 0 ==> r.applied && toast_is(
            r.toast,
            UiToastKind::Warning,
            decimal(result.locked as nat) + " locked shape(s) unchanged."@,
        ),
        result.applicable != 0 && result.changed != 0 && result.locked == 0 ==> r.applied && r.toast is None,
{
    if result.applicable == 0 {
        let mut m = String::from_str("No ");
        m.append(label);
        m.append(" to edit in selection.");
        return SelectionReport { applied: false, toast: Some(UiToast { kind: UiToastKind::Warning, message: m }) };
    }
    if result.changed == 0 {
        if result.locked == result.applicable {
            let mut m = String::from_str("All ");
            m.append(label);
            m.append(" shapes are locked.");
            return SelectionReport { applied: false, toast: Some(UiToast { kind: UiToastKind::Warning, message: m }) };
        }
        return SelectionReport {
            applied: false,
            toast: Some(UiToast { kind: UiToastKind::Info, message: String::from_str("No changes applied.") }),
        };
    }
    if result.locked > 0 {
        let mut m = decimal_string(result.locked);
        m.append(" locked shape(s) unchanged.");
        return SelectionReport { applied: true, toast: Some(UiToast { kind: UiToastKind::Warning, message: m }) };
    }
    SelectionReport { applied: true, toast: None }
}

/// The decimal text of a number is never empty, is made of decimal digits only, and has no
/// leading zero unless the number is below ten.
pub proof fn lemma_decimal_digits(n: nat)
    ensures
        decimal(n).len() >= 1,
        forall|i: int| 0 <= i < decimal(n).len() ==> '0' <= #[trigger] decimal(n)[i] <= '9',
        n >= 10 ==> decimal(n)[0] != '0',
    decreases n,
{
    if n >= 10 {
        lemma_decimal_digits(n / 10);
        let d = decimal(n / 10);
        assert forall|i: int| 0 <= i < decimal(n).len() implies '0' <= #[trigger] decimal(n)[i] <= '9' by {
            if i < d.len() {
                assert(decimal(n)[i] == d[i]);
            }
        }
        if n / 10 >= 10 {
            assert(decimal(n)[0] == d[0]);
        } else {
            assert(decimal(n)[0] == digit_char(n / 10));
        }
    }
}

} // verus!
