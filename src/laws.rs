use vstd::prelude::*;

use crate::buffer::BufferView;
use crate::event::{Event, Key};

verus! {

/// One event never breaks the buffer's invariants.
pub proof fn step_preserves_wf(v: BufferView, e: Event)
    requires
        v.wf(),
    ensures
        v.step(e).wf(),
{
}

/// From any well-formed state, the invariants hold after every prefix of a
/// sequence of events, not only at its end.
pub proof fn run_preserves_wf(v: BufferView, events: Seq<Event>)
    requires
        v.wf(),
    ensures
        forall|k: int| 0 <= k <= events.len() ==> (#[trigger] v.run(events.take(k))).wf(),
    decreases events.len(),
{
    if events.len() > 0 {
        let next = v.step(events[0]);
        step_preserves_wf(v, events[0]);
        run_preserves_wf(next, events.drop_first());
        assert forall|k: int| 0 <= k <= events.len() implies (#[trigger] v.run(
            events.take(k),
        )).wf() by {
            if k > 0 {
                assert(events.take(k).drop_first() =~= events.drop_first().take(k - 1));
                assert(v.run(events.take(k)) == next.run(events.drop_first().take(k - 1)));
            } else {
                assert(events.take(k) =~= Seq::<Event>::empty());
            }
        }
    } else {
        assert forall|k: int| 0 <= k <= events.len() implies (#[trigger] v.run(
            events.take(k),
        )).wf() by {
            assert(events.take(k) =~= Seq::<Event>::empty());
        }
    }
}

/// Starting from a fresh buffer, every sequence of events keeps the
/// invariants after each single event.
pub proof fn invariants_hold_from_start(events: Seq<Event>)
    ensures
        forall|k: int|
            0 <= k <= events.len() ==> (#[trigger] BufferView::initial().run(
                events.take(k),
            )).wf(),
{
    run_preserves_wf(BufferView::initial(), events);
}

/// Inserting `s` at column `c` of a line `l` gives `l[..c] + s + l[c..]` and
/// leaves the cursor at column `c + |s|` of the same line; other lines stay.
pub proof fn insert_round_trip(v: BufferView, s: String)
    requires
        v.wf(),
    ensures
        ({
            let w = v.step(Event::InsertText(s));
            let l = v.current();
            let c = v.column as int;
            &&& w.lines.len() == v.lines.len()
            &&& w.lines[v.line as int] == l.subrange(0, c) + s@ + l.subrange(c, l.len() as int)
            &&& forall|j: int|
                0 <= j < v.lines.len() && j != v.line ==> #[trigger] w.lines[j] == v.lines[j]
            &&& w.line == v.line
            &&& w.column == c + s@.len()
        }),
{
}

/// Splitting a line at the cursor and then deleting backward from the start
/// of the new line gives back the original lines and cursor.
pub proof fn split_then_merge_restores(v: BufferView)
    requires
        v.wf(),
    ensures
        v.step(Event::Key { key: Key::Enter, pressed: true }).step(
            Event::Key { key: Key::Backspace, pressed: true },
        ) == v,
{
    let w = v.split_line();
    let u = w.delete_backward();
    let l = v.current();
    let c = v.column as int;
    assert(w.lines[v.line as int] == l.subrange(0, c));
    assert(w.lines[v.line + 1 as int] == l.subrange(c, l.len() as int));
    assert(l.subrange(0, c) + l.subrange(c, l.len() as int) =~= l);
    assert(u.lines =~= v.lines);
}

/// Delete-backward and cursor-left at the very start of the buffer, and
/// cursor-right at the very end of its last line, change nothing.
pub proof fn boundary_moves_are_no_ops(v: BufferView)
    requires
        v.wf(),
    ensures
        v.line == 0 && v.column == 0 ==> v.step(Event::Key { key: Key::Backspace, pressed: true })
            == v,
        v.line == 0 && v.column == 0 ==> v.step(Event::Key { key: Key::ArrowLeft, pressed: true })
            == v,
        v.line + 1 == v.lines.len() && v.column == v.current().len() ==> v.step(
            Event::Key { key: Key::ArrowRight, pressed: true },
        ) == v,
{
}

/// A key release never changes the lines or the cursor, whatever the key.
pub proof fn release_changes_nothing(v: BufferView, key: Key)
    ensures
        v.step(Event::Key { key, pressed: false }) == v,
{
}

} // verus!
