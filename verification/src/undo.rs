//! Undoable actions on the shapes of a frame, by shape id, and what applying one asks of
//! the input state: which shapes' hit-test caches go stale, and the flags it raises.
use vstd::prelude::*;

verus! {

/// An undoable change to a frame, by the ids of the shapes it touches.
#[derive(Debug)]
pub enum UndoAction {
    Create { shapes: Vec<u64> },
    Delete { shapes: Vec<u64> },
    Modify { shape_id: u64 },
    Reorder { shape_id: u64 },
    Compound(Vec<UndoAction>),
}

/// The shapes an action touches, in order (compound actions in the order of their parts).
pub open spec fn action_ids(a: UndoAction) -> Seq<u64>
    decreases a, 1nat,
{
    match a {
        UndoAction::Create { shapes } => shapes@,
        UndoAction::Delete { shapes } => shapes@,
        UndoAction::Modify { shape_id } => seq![shape_id],
        UndoAction::Reorder { shape_id } => seq![shape_id],
        UndoAction::Compound(parts) => {
            proof {
                assert(decreases_to!(a => parts));
                assert(decreases_to!(parts => parts@));
            }
            actions_ids(parts@)
        },
    }
}

/// The shapes a list of actions touches, in order.
pub open spec fn actions_ids(s: Seq<UndoAction>) -> Seq<u64>
    decreases s, 0nat,
{
    if s.len() == 0 {
        Seq::empty()
    } else {
        proof {
            assert(decreases_to!(s => s[s.len() - 1]));
        }
        actions_ids(s.drop_last()) + action_ids(s[s.len() - 1])
    }
}

fn push_all(out: &mut Vec<u64>, ids: &Vec<u64>)
    ensures
        final(out)@ == old(out)@ + ids@,
{
    let mut i: usize = 0;
    while i < ids.len()
        invariant
            i <= ids.len(),
            out@ == old(out)@ + ids@.take(i as int),
        decreases ids.len() - i,
    {
        out.push(ids[i]);
        i += 1;
        assert(ids@.take(i as int) == ids@.take(i - 1).push(ids@[i - 1]));
    }
    assert(ids@.take(ids.len() as int) == ids@);
}

/// Appends the shapes an action touches to `out`.
pub fn collect_action_ids(a: &UndoAction, out: &mut Vec<u64>)
    ensures
        final(out)@ == old(out)@ + action_ids(*a),
    decreases a,
{
    match a {
        UndoAction::Create { shapes } => push_all(out, shapes),
        UndoAction::Delete { shapes } => push_all(out, shapes),
        UndoAction::Modify { shape_id } => {
            out.push(*shape_id);
        },
        UndoAction::Reorder { shape_id } => {
            out.push(*shape_id);
        },
        UndoAction::Compound(parts) => {
            let mut i: usize = 0;
            let ghost start = out@;
            while i < parts.len()
                invariant
                    i <= parts.len(),
                    *a == UndoAction::Compound(*parts),
                    out@ == start + actions_ids(parts@.take(i as int)),
                decreases parts.len() - i,
            {
                proof {
                    assert(decreases_to!(*a => (*a)->0));
                    assert((*a)->0 == *parts);
                    assert(decreases_to!(*parts => parts@));
                    assert(decreases_to!(parts@ => parts@[i as int]));
                }
                collect_action_ids(&parts[i], out);
                proof {
                    let t = parts@.take(i as int + 1);
                    assert(t.drop_last() == parts@.take(i as int));
                    assert(t[t.len() - 1] == parts@[i as int]);
                    assert(start + actions_ids(t) == start + actions_ids(parts@.take(i as int)) + action_ids(parts@[i as int]));
                }
                i += 1;
            }
            assert(parts@.take(parts.len() as int) == parts@);
        },
    }
}

/// The shapes whose regions an applied action marks dirty, in order: the created, deleted
/// and modified shapes (a modification marks its shape's bounds before and after), a
/// reordered shape only while it is still in the frame (`present`), compound actions part
/// by part.
pub open spec fn dirty_ids(a: UndoAction, present: Seq<u64>) -> Seq<u64>
    decreases a, 1nat,
{
    match a {
        UndoAction::Create { shapes } => shapes@,
        UndoAction::Delete { shapes } => shapes@,
        UndoAction::Modify { shape_id } => seq![shape_id],
        UndoAction::Reorder { shape_id } => if present.contains(shape_id) {
            seq![shape_id]
        } else {
            Seq::empty()
        },
        UndoAction::Compound(parts) => {
            proof {
                assert(decreases_to!(a => parts));
                assert(decreases_to!(parts => parts@));
            }
            all_dirty_ids(parts@, present)
        },
    }
}

/// The dirty shapes of a list of actions, in order.
pub open spec fn all_dirty_ids(s: Seq<UndoAction>, present: Seq<u64>) -> Seq<u64>
    decreases s, 0nat,
{
    if s.len() == 0 {
        Seq::empty()
    } else {
        proof {
            assert(decreases_to!(s => s[s.len() - 1]));
        }
        all_dirty_ids(s.drop_last(), present) + dirty_ids(s[s.len() - 1], present)
    }
}

fn vec_contains(v: &Vec<u64>, x: u64) -> (b: bool)
    ensures
        b == v@.contains(x),
{
    let mut i: usize = 0;
    while i < v.len()
        invariant
            i <= v.len(),
            forall|k: int| 0 <= k < i ==> v@[k] != x,
        decreases v.len() - i,
    {
        if v[i] == x {
            assert(v@[i as int] == x);
            return true;
        }
        i += 1;
    }
    false
}

/// Appends the shapes whose regions an action marks dirty to `out` (see `dirty_ids`).
pub fn collect_dirty_ids(a: &UndoAction, present: &Vec<u64>, out: &mut Vec<u64>)
    ensures
        final(out)@ == old(out)@ + dirty_ids(*a, present@),
    decreases a,
{
    match a {
        UndoAction::Create { shapes } => push_all(out, shapes),
        UndoAction::Delete { shapes } => push_all(out, shapes),
        UndoAction::Modify { shape_id } => {
            out.push(*shape_id);
        },
        UndoAction::Reorder { shape_id } => {
            if vec_contains(present, *shape_id) {
                out.push(*shape_id);
            } else {
                assert(out@ == old(out)@ + Seq::<u64>::empty());
            }
        },
        UndoAction::Compound(parts) => {
            let mut i: usize = 0;
            let ghost start = out@;
            while i < parts.len()
                invariant
                    i <= parts.len(),
                    *a == UndoAction::Compound(*parts),
                    out@ == start + all_dirty_ids(parts@.take(i as int), present@),
                decreases parts.len() - i,
            {
                proof {
                    assert(decreases_to!(*a => (*a)->0));
                    assert((*a)->0 == *parts);
                    assert(decreases_to!(*parts => parts@));
                    assert(decreases_to!(parts@ => parts@[i as int]));
                }
                collect_dirty_ids(&parts[i], present, out);
                proof {
                    let t = parts@.take(i as int + 1);
                    assert(t.drop_last() == parts@.take(i as int));
                    assert(t[t.len() - 1] == parts@[i as int]);
                    assert(start + all_dirty_ids(t, present@) == start + all_dirty_ids(parts@.take(i as int), present@)
                        + dirty_ids(parts@[i as int], present@));
                }
                i += 1;
            }
            assert(parts@.take(parts.len() as int) == parts@);
        },
    }
}

/// The shapes whose regions an applied action marks dirty (see `dirty_ids`).
pub fn dirty_regions_of(a: &UndoAction, present: &Vec<u64>) -> (ids: Vec<u64>)
    ensures
        ids@ == dirty_ids(*a, present@),
{
    let mut out: Vec<u64> = Vec::new();
    collect_dirty_ids(a, present, &mut out);
    assert(out@ =~= dirty_ids(*a, present@));
    out
}

/// The shapes whose hit-test cache an applied action makes stale.
pub fn hit_cache_invalidations(a: &UndoAction) -> (ids: Vec<u64>)
    ensures
        ids@ == action_ids(*a),
{
    let mut out: Vec<u64> = Vec::new();
    collect_action_ids(a, &mut out);
    assert(out@ =~= action_ids(*a));
    out
}

/// What applying an action asks of the input state besides invalidating caches and
/// marking the touched shapes' regions dirty: the selection is cleared, a redraw and a
/// session save are due, and an open properties panel is flagged for refresh and then, with
/// the selection gone, closed.
#[derive(Debug, Clone, Copy, PartialEq, Eq, Structural)]
pub struct ActionSideEffects {
    pub clear_selection: bool,
    pub needs_redraw: bool,
    pub session_dirty: bool,
    pub refresh_properties_panel: bool,
    pub close_properties_panel: bool,
}

pub fn action_side_effects(properties_panel_open: bool) -> (e: ActionSideEffects)
    ensures
        e == (ActionSideEffects {
            clear_selection: true,
            needs_redraw: true,
            session_dirty: true,
            refresh_properties_panel: properties_panel_open,
            close_properties_panel: properties_panel_open,
        }),
{
    ActionSideEffects {
        clear_selection: true,
        needs_redraw: true,
        session_dirty: true,
        refresh_properties_panel: properties_panel_open,
        close_properties_panel: properties_panel_open,
    }
}

/// A compound action touches exactly the shapes of its parts, in order: wrapping actions
/// in a compound changes nothing about which caches go stale.
pub proof fn lemma_compound_is_concatenation(parts: Seq<UndoAction>, more: UndoAction)
    ensures
        actions_ids(parts.push(more)) == actions_ids(parts) + action_ids(more),
{
    assert(parts.push(more).drop_last() == parts);
    assert(parts.push(more)[parts.len() as int] == more);
}

} // verus!
