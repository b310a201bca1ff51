//! What holds of the editor whatever the input, stated over sessions as
//! mathematical values.

use vstd::prelude::*;
use crate::action::Action;
use crate::editor::Halt;
use crate::input::{key_event, Event, Key, KeyKind};
use crate::keymap::{echo, mapped, quits, translate};
use crate::mode::Mode;
use crate::session::Session;
use crate::status::{frames_in, OutputView};

verus! {

/// A key outside the current mode's mapping table stands for no action,
/// echoes nothing and leaves the session exactly as it was, however often it
/// is pressed. The same holds of every event that is no key press.
pub proof fn lemma_unmapped_input_is_ignored(s: Session, ev: Event)
    requires
        ev matches Event::Key(key) ==> !mapped(s.mode, key),
    ensures
        translate(s.mode, ev) is None,
        echo(s.mode, ev) is None,
        s.after_event(ev) == s,
{
}

/// Only key presses are interpreted: what the terminal reports of a key
/// held or released stands for no action in any mode, echoes nothing,
/// leaves the session as it was, and can always be taken.
pub proof fn lemma_only_presses_are_interpreted(s: Session, kind: KeyKind, key: Key)
    requires
        !(kind is Press),
    ensures
        translate(s.mode, key_event(kind, key)) is None,
        echo(s.mode, key_event(kind, key)) is None,
        s.after_event(key_event(kind, key)) == s,
        s.addressable() ==> s.admits(key_event(kind, key)),
{
}

/// The mapping table of a mode holds no idle key: each of its keys stands
/// for an action or moves the cursor.
pub proof fn lemma_mapped_key_has_effect(s: Session, key: Key)
    requires
        mapped(s.mode, key),
    ensures
        translate(s.mode, Event::Key(key)) is Some || s.after_input(Event::Key(key)) != s,
{
}

/// The current mode changes in one way only: by applying an `EnterMode`
/// action, which names the new mode. Reading input never changes it, and no
/// other action does.
pub proof fn lemma_mode_changes_only_by_enter_mode(s: Session, ev: Event, action: Action)
    ensures
        s.after_input(ev).mode == s.mode,
        s.after_action(action).mode != s.mode ==> action == Action::EnterMode(
            s.after_action(action).mode,
        ),
        s.after_event(ev).mode != s.mode ==> translate(s.mode, ev) == Some(
            Action::EnterMode(s.after_event(ev).mode),
        ),
        s.after_action(Action::EnterMode(s.mode)) == s,
{
}

/// The trigger keys that lead from mode `from` to mode `to`: `i` and `v`
/// leave command mode, Escape returns to it, and the way between insert and
/// visual mode goes through command mode.
pub open spec fn route(from: Mode, to: Mode) -> Seq<Event> {
    if from == to {
        seq![]
    } else {
        match (from, to) {
            (Mode::Command, Mode::Insert) => seq![Event::Key(Key::Char('i'))],
            (Mode::Command, Mode::Visual) => seq![Event::Key(Key::Char('v'))],
            (_, Mode::Command) => seq![Event::Key(Key::Esc)],
            (_, Mode::Insert) => seq![Event::Key(Key::Esc), Event::Key(Key::Char('i'))],
            (_, Mode::Visual) => seq![Event::Key(Key::Esc), Event::Key(Key::Char('v'))],
        }
    }
}

/// Every mode can be reached from every mode: the trigger keys of
/// [`route`] lead there, each of them stands for an `EnterMode` action, and
/// nothing but the mode has changed on arrival.
pub proof fn lemma_every_mode_is_reachable(s: Session, to: Mode)
    ensures
        s.after_events(route(s.mode, to)) == (Session { mode: to, ..s }),
        forall|i: int|
            0 <= i < route(s.mode, to).len() ==> (#[trigger] translate(
                s.after_events(route(s.mode, to).take(i)).mode,
                route(s.mode, to)[i],
            )) matches Some(Action::EnterMode(_)),
{
    let keys = route(s.mode, to);
    reveal_with_fuel(Session::after_events, 3);
    if keys.len() == 1 {
        assert(keys.drop_last() =~= seq![]);
        assert(keys.take(0) =~= seq![]);
    } else if keys.len() == 2 {
        assert(keys.drop_last() =~= seq![keys[0]]);
        assert(keys.drop_last().drop_last() =~= seq![]);
        assert(keys.take(0) =~= seq![]);
        assert(keys.take(1) =~= seq![keys[0]]);
        assert(keys.take(1).drop_last() =~= seq![]);
    }
}

/// Whether `action` moves the cursor towards the origin.
pub open spec fn retreats(action: Action) -> bool {
    action == Action::MoveUp || action == Action::MoveLeft
}

/// The cursor never leaves the viewport's first row or column to the
/// negative side: from the origin, any number of moves up and left, in any
/// order, leaves the session as it was.
pub proof fn lemma_origin_absorbs_retreat(s: Session, actions: Seq<Action>)
    requires
        s.column == 0,
        s.row == 0,
        forall|i: int| 0 <= i < actions.len() ==> retreats(#[trigger] actions[i]),
    ensures
        s.after_actions(actions) == s,
    decreases actions.len(),
{
    if actions.len() > 0 {
        lemma_origin_absorbs_retreat(s, actions.drop_last());
        assert(retreats(actions[actions.len() - 1]));
    }
}

/// `n` moves up take the cursor up by `n` rows or to the first row,
/// whichever comes first; `n` moves left do the same to the column.
pub proof fn lemma_retreat_saturates(s: Session, n: nat)
    ensures
        s.after_actions(Seq::new(n, |i: int| Action::MoveUp)) == (Session {
            row: if s.row >= n { (s.row - n) as nat } else { 0 },
            ..s
        }),
        s.after_actions(Seq::new(n, |i: int| Action::MoveLeft)) == (Session {
            column: if s.column >= n { (s.column - n) as nat } else { 0 },
            ..s
        }),
    decreases n,
{
    if n > 0 {
        let m: nat = (n - 1) as nat;
        lemma_retreat_saturates(s, m);
        assert(Seq::new(n, |i: int| Action::MoveUp).drop_last() =~= Seq::new(
            m,
            |i: int| Action::MoveUp,
        ));
        assert(Seq::new(n, |i: int| Action::MoveLeft).drop_last() =~= Seq::new(
            m,
            |i: int| Action::MoveLeft,
        ));
    }
}

/// Moves down and right are not clamped: `n` of them take the cursor
/// exactly `n` cells further, whatever the size of the viewport. As many
/// moves as the viewport has rows, or columns, take the cursor out of it.
pub proof fn lemma_advance_is_unbounded(s: Session, n: nat)
    ensures
        s.after_actions(Seq::new(n, |i: int| Action::MoveDown)) == (Session {
            row: s.row + n,
            ..s
        }),
        s.after_actions(Seq::new(n, |i: int| Action::MoveRight)) == (Session {
            column: s.column + n,
            ..s
        }),
        n >= s.height ==> s.after_actions(Seq::new(n, |i: int| Action::MoveDown)).row >= s.height,
        n >= s.width ==> s.after_actions(Seq::new(n, |i: int| Action::MoveRight)).column
            >= s.width,
    decreases n,
{
    if n > 0 {
        let m: nat = (n - 1) as nat;
        lemma_advance_is_unbounded(s, m);
        assert(Seq::new(n, |i: int| Action::MoveDown).drop_last() =~= Seq::new(
            m,
            |i: int| Action::MoveDown,
        ));
        assert(Seq::new(n, |i: int| Action::MoveRight).drop_last() =~= Seq::new(
            m,
            |i: int| Action::MoveRight,
        ));
    }
}

/// The viewport plays no part in what input does: its size is never
/// changed by an event, and on a viewport of any other size the same event
/// leads to the same mode and cursor.
pub proof fn lemma_viewport_plays_no_part(s: Session, ev: Event, width: nat, height: nat)
    ensures
        s.after_event(ev).width == s.width,
        s.after_event(ev).height == s.height,
        s.sized(width, height).after_event(ev) == s.after_event(ev).sized(width, height),
{
}

/// Whether `ev` is the press of a key that produces a character.
pub open spec fn types(ev: Event) -> bool {
    ev matches Event::Key(Key::Char(_))
}

/// In insert mode a character typed is echoed and advances the column by
/// exactly one; row and mode stay. Enter starts the next row at column zero
/// and keeps the mode.
pub proof fn lemma_typing_moves_cursor(s: Session, c: char)
    requires
        s.mode == Mode::Insert,
    ensures
        s.after_event(Event::Key(Key::Char(c))) == (Session { column: s.column + 1, ..s }),
        echo(s.mode, Event::Key(Key::Char(c))) == Some(c),
        s.after_event(Event::Key(Key::Enter)) == (Session { column: 0, row: s.row + 1, ..s }),
{
}

/// In insert mode a script of `n` character keys advances the column by
/// exactly `n` and changes nothing else.
pub proof fn lemma_typing_advances_column(s: Session, script: Seq<Event>)
    requires
        s.mode == Mode::Insert,
        forall|i: int| 0 <= i < script.len() ==> types(#[trigger] script[i]),
    ensures
        s.after_events(script) == (Session { column: s.column + script.len(), ..s }),
    decreases script.len(),
{
    if script.len() > 0 {
        lemma_typing_advances_column(s, script.drop_last());
        assert(types(script[script.len() - 1]));
    }
}

/// Reading one script and then another is reading the two as one.
pub proof fn lemma_scripts_compose(s: Session, script: Seq<Event>, rest: Seq<Event>)
    ensures
        s.after_events(script + rest) == s.after_events(script).after_events(rest),
    decreases rest.len(),
{
    if rest.len() == 0 {
        assert(script + rest =~= script);
    } else {
        lemma_scripts_compose(s, script, rest.drop_last());
        assert((script + rest).drop_last() =~= script + rest.drop_last());
    }
}

/// The session after `n` events of a script that begins with `first` is
/// the session that has read `first`, after `n - 1` events of what follows.
proof fn lemma_after_events_shift(s: Session, script: Seq<Event>, n: int)
    requires
        1 <= n <= script.len(),
    ensures
        s.after_events(script.take(n)) == s.after_event(script.first()).after_events(
            script.drop_first().take(n - 1),
        ),
{
    let first = seq![script.first()];
    assert(script.take(n) =~= first + script.drop_first().take(n - 1));
    lemma_scripts_compose(s, first, script.drop_first().take(n - 1));
    assert(first.drop_last() =~= seq![]);
    assert(s.after_events(first.drop_last()) == s);
}

/// `Quit` is the only action that ends the run loop. The loop reads on
/// until an event stands for `Quit` in the mode then current, or until the
/// input is at its end: no event before the last one read quits, and the
/// loop stops short of the end only where the last one read does.
pub proof fn lemma_only_quit_ends_the_run(s: Session, script: Seq<Event>)
    ensures
        s.reads(script) <= script.len(),
        forall|i: int|
            0 <= i < s.reads(script) - 1 ==> !quits(
                s.after_events(script.take(i)).mode,
                #[trigger] script[i],
            ),
        s.finishes(script) <==> s.reads(script) > 0 && quits(
            s.after_events(script.take(s.reads(script) - 1)).mode,
            script[s.reads(script) - 1],
        ),
        !s.finishes(script) ==> s.reads(script) == script.len(),
    decreases script.len(),
{
    if script.len() > 0 {
        assert(script.take(0) =~= seq![]);
        assert(s.after_events(script.take(0)) == s);
        if !quits(s.mode, script.first()) {
            let rest = script.drop_first();
            let next = s.after_event(script.first());
            let n: int = next.reads(rest) as int;
            lemma_only_quit_ends_the_run(next, rest);
            assert(s.reads(script) == n + 1);
            assert forall|i: int| 0 <= i < n implies !quits(
                s.after_events(script.take(i)).mode,
                #[trigger] script[i],
            ) by {
                if i > 0 {
                    lemma_after_events_shift(s, script, i);
                    assert(script[i] == rest[i - 1]);
                }
            }
            if n > 0 {
                lemma_after_events_shift(s, script, n);
                assert(script[n] == rest[n - 1]);
            }
        }
    }
}

/// The session has room for at least as many events of a longer script,
/// and for no more where it had not room for all of the shorter one.
proof fn lemma_room_extends(s: Session, script: Seq<Event>, rest: Seq<Event>)
    ensures
        s.room(script) <= s.room(script + rest),
        s.room(script) < script.len() ==> s.room(script + rest) == s.room(script),
    decreases script.len(),
{
    if script.len() > 0 && s.admits(script.first()) {
        lemma_room_extends(s.after_event(script.first()), script.drop_first(), rest);
        assert((script + rest).drop_first() =~= script.drop_first() + rest);
    }
}

/// Where the run loop comes to an event that quits, it reads as much of a
/// longer script and comes to the same event.
proof fn lemma_reads_extends(s: Session, script: Seq<Event>, rest: Seq<Event>)
    requires
        s.finishes(script),
    ensures
        s.finishes(script + rest),
        s.reads(script + rest) == s.reads(script),
    decreases script.len(),
{
    if !quits(s.mode, script.first()) {
        lemma_reads_extends(s.after_event(script.first()), script.drop_first(), rest);
        assert((script + rest).drop_first() =~= script.drop_first() + rest);
    }
}

/// After `Quit` the session is not mutated any further. The event that
/// quits leaves the session as it was, and whatever follows it in the input
/// is never read: the run over a longer script takes as many events, stops
/// for the same reason and ends in the same session.
pub proof fn lemma_nothing_after_quit(s: Session, script: Seq<Event>, rest: Seq<Event>)
    requires
        s.halt(script) == Halt::Quit,
    ensures
        s.taken(script) >= 1,
        s.after_events(script.take(s.taken(script) as int)) == s.after_events(
            script.take(s.taken(script) - 1),
        ),
        s.halt(script + rest) == Halt::Quit,
        s.taken(script + rest) == s.taken(script),
        s.after_events((script + rest).take(s.taken(script + rest) as int)) == s.after_events(
            script.take(s.taken(script) as int),
        ),
{
    let n: int = s.taken(script) as int;
    lemma_only_quit_ends_the_run(s, script);
    lemma_reads_extends(s, script, rest);
    lemma_room_extends(s, script, rest);
    assert(script.take(n).drop_last() =~= script.take(n - 1));
    assert(script.take(n).last() == script[n - 1]);
    assert((script + rest).take(n) =~= script.take(n));
}

/// A script no longer than the distance from the cursor to the last
/// addressable row and column never runs into that limit.
pub proof fn lemma_short_script_has_room(s: Session, script: Seq<Event>)
    requires
        s.addressable(),
        s.column + script.len() <= u16::MAX,
        s.row + script.len() <= u16::MAX,
    ensures
        s.room(script) == script.len(),
        s.halt(script) != Halt::Limit,
    decreases script.len(),
{
    lemma_only_quit_ends_the_run(s, script);
    if script.len() > 0 {
        lemma_short_script_has_room(s.after_event(script.first()), script.drop_first());
    }
}

/// While the run loop takes a script it draws exactly one frame before
/// each event it reads, so as many frames as events.
pub proof fn lemma_one_frame_for_each_event(s: Session, script: Seq<Event>)
    ensures
        frames_in(s.written(script)) == script.len(),
    decreases script.len(),
{
    if script.len() > 0 {
        let before = s.after_events(script.drop_last());
        let drawn = s.written(script.drop_last()).push(OutputView::Frame(before.frame()));
        lemma_one_frame_for_each_event(s, script.drop_last());
        assert(drawn.last() is Frame);
        assert(drawn.drop_last() =~= s.written(script.drop_last()));
        assert(frames_in(drawn) == script.len());
        match echo(before.mode, script.last()) {
            Some(c) => {
                assert(s.written(script) == drawn.push(OutputView::Echo(c)));
                assert(s.written(script).last() is Echo);
                assert(s.written(script).drop_last() =~= drawn);
            },
            None => {},
        }
    }
}

/// Rendering and reading alternate. On a whole run the loop draws one
/// frame for every read: one before each event it takes, and one more
/// before the read that ends the run without an event taken. A run that
/// ends by `Quit` has no such read.
pub proof fn lemma_one_frame_before_each_read(s: Session, script: Seq<Event>)
    ensures
        frames_in(s.trace(script)) == s.taken(script) + (if s.halt(script) is Quit {
            0nat
        } else {
            1nat
        }),
{
    lemma_only_quit_ends_the_run(s, script);
    let taken = script.take(s.taken(script) as int);
    lemma_one_frame_for_each_event(s, taken);
    if !(s.halt(script) is Quit) {
        assert(s.trace(script).last() is Frame);
        assert(s.trace(script).drop_last() =~= s.written(taken));
    }
}

/// After the event that quits nothing more is drawn or written. On a run
/// that ends by `Quit`, the last thing written is the frame that was drawn
/// before the quitting event was read; the run has drawn one frame for
/// each event it took; and whatever follows in the input adds nothing to
/// what is written.
pub proof fn lemma_nothing_drawn_after_quit(s: Session, script: Seq<Event>, rest: Seq<Event>)
    requires
        s.halt(script) == Halt::Quit,
    ensures
        s.trace(script).len() >= 1,
        s.trace(script).last() == OutputView::Frame(
            s.after_events(script.take(s.taken(script) - 1)).frame(),
        ),
        frames_in(s.trace(script)) == s.taken(script),
        s.trace(script + rest) == s.trace(script),
{
    let n: int = s.taken(script) as int;
    lemma_only_quit_ends_the_run(s, script);
    lemma_nothing_after_quit(s, script, rest);
    lemma_one_frame_before_each_read(s, script);
    let taken = script.take(n);
    assert(taken.drop_last() =~= script.take(n - 1));
    assert(taken.last() == script[n - 1]);
    assert((script + rest).take(n) =~= taken);
}

} // verus!
