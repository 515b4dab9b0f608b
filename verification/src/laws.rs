//! Laws of the dispatch loop, each proved over the specs that `dispatch` and
//! `start` are verified against: held-button bookkeeping, callback firing,
//! and the last-write-wins state updates.

use vstd::prelude::*;

use crate::event::{Button, ButtonArgs, ButtonState, Event, InputEvent, LoopEvent, Motion};
use crate::state::StateModel;
use crate::dispatch::{
    lemma_next_preserves_wf, lemma_remove_value_removes, lemma_run_snoc, spec_calls, spec_next,
    spec_run, spec_run_calls, Call, DrawType,
};

verus! {

/// The button input event for one press or release of `b`.
pub open spec fn button_event(b: Button, state: ButtonState) -> Event {
    Event::Input(InputEvent::Button(ButtonArgs { state, button: b }))
}

/// A whole stream of press/release events on the same button.
pub open spec fn button_events(b: Button, states: Seq<ButtonState>) -> Seq<Event> {
    states.map_values(|state: ButtonState| button_event(b, state))
}

/// The running balance of presses minus releases, clamped to {0, 1} at every
/// step: a press on 1 stays 1, a release on 0 stays 0.
pub open spec fn clamped_net(states: Seq<ButtonState>) -> int
    decreases states.len(),
{
    if states.len() == 0 {
        0
    } else {
        let prev = clamped_net(states.drop_last());
        match states.last() {
            ButtonState::Press => if prev + 1 > 1 {
                1
            } else {
                prev + 1
            },
            ButtonState::Release => if prev - 1 < 0 {
                0
            } else {
                prev - 1
            },
        }
    }
}

/// For any sequence of press/release events on one button that is not held
/// at the outset, the button ends up held exactly when the clamped
/// press/release balance is 1. The held list stays duplicate-free however
/// often the press is repeated, and releasing a button that is not held is a
/// no-op.
pub proof fn lemma_press_release_net(s: StateModel, b: Button, states: Seq<ButtonState>)
    requires
        s.wf(),
        !s.button_held.contains(b),
    ensures
        spec_run(s, button_events(b, states)).wf(),
        0 <= clamped_net(states) <= 1,
        spec_run(s, button_events(b, states)).button_held.contains(b) <==> clamped_net(states)
            == 1,
    decreases states.len(),
{
    if states.len() == 0 {
        assert(button_events(b, states) =~= Seq::<Event>::empty());
    } else {
        let pre = states.drop_last();
        let last = states.last();
        lemma_press_release_net(s, b, pre);
        let t = spec_run(s, button_events(b, pre));
        assert(button_events(b, states) =~= button_events(b, pre).push(button_event(b, last)));
        lemma_run_snoc(s, button_events(b, pre), button_event(b, last));
        lemma_next_preserves_wf(t, button_event(b, last));
        match last {
            ButtonState::Press => {
                if !t.button_held.contains(b) {
                    assert(t.button_held.push(b)[t.button_held.len() as int] == b);
                    assert(t.button_held.push(b).contains(b));
                }
            },
            ButtonState::Release => {
                lemma_remove_value_removes(t.button_held, b);
            },
        }
    }
}

/// The pressed-category callback fires exactly on the transition from
/// not-held to held: once when a press arrives for a button not yet held,
/// never on a repeated press while it is already held (then the state does
/// not change either), and never on a release, held or not. After a press
/// the button is held in every case.
pub proof fn lemma_pressed_once_per_transition(s: StateModel, b: Button, draw_type: DrawType)
    ensures
        spec_next(s, button_event(b, ButtonState::Press)).button_held.contains(b),
        spec_calls(s, button_event(b, ButtonState::Press), draw_type).contains(Call::Pressed(b))
            <==> !s.button_held.contains(b),
        !s.button_held.contains(b) ==> spec_calls(s, button_event(b, ButtonState::Press), draw_type)
            == seq![Call::Pressed(b)],
        s.button_held.contains(b) ==> spec_calls(s, button_event(b, ButtonState::Press), draw_type)
            == Seq::<Call>::empty() && spec_next(s, button_event(b, ButtonState::Press)) == s,
        spec_calls(s, button_event(b, ButtonState::Release), draw_type) == Seq::<Call>::empty(),
{
    if !s.button_held.contains(b) {
        assert(s.button_held.push(b)[s.button_held.len() as int] == b);
        assert(s.button_held.push(b).contains(b));
        assert(seq![Call::Pressed(b)][0] == Call::Pressed(b));
        assert(seq![Call::Pressed(b)].contains(Call::Pressed(b)));
    } else {
        assert(spec_next(s, button_event(b, ButtonState::Press)) =~= s);
        assert(!Seq::<Call>::empty().contains(Call::Pressed(b)));
    }
}

/// On an update tick the held-category callbacks fire once per currently
/// held button — in the stored order, pairwise distinct — and all of them
/// strictly before the single general update callback. The tick changes no
/// state.
pub proof fn lemma_held_callbacks_per_update(s: StateModel, timing: u64, draw_type: DrawType)
    requires
        s.wf(),
    ensures
        ({
            let calls = spec_calls(s, Event::Loop(LoopEvent::Update(timing)), draw_type);
            &&& calls.len() == s.button_held.len() + 1
            &&& forall|i: int|
                0 <= i < s.button_held.len() ==> calls[i] == Call::Held(s.button_held[i])
            &&& calls.last() == Call::Update(timing)
            &&& forall|i: int, j: int| 0 <= i < j < s.button_held.len() ==> calls[i] != calls[j]
            &&& spec_next(s, Event::Loop(LoopEvent::Update(timing))) == s
        }),
{
    let calls = spec_calls(s, Event::Loop(LoopEvent::Update(timing)), draw_type);
    assert forall|i: int|
        0 <= i < s.button_held.len() implies calls[i] == Call::Held(s.button_held[i]) by {}
    assert forall|i: int, j: int| 0 <= i < j < s.button_held.len() implies calls[i] != calls[j] by {
        assert(s.button_held[i] != s.button_held[j]);
    }
}

/// A resize overwrites the stored size with the latest values and changes
/// nothing else: of two resizes, the last one wins, with no accumulation.
pub proof fn lemma_resize_last_write_wins(s: StateModel, w1: u32, h1: u32, w2: u32, h2: u32)
    ensures
        spec_next(s, Event::Input(InputEvent::Resize(w1, h1))) == (StateModel {
            screen_width: w1,
            screen_height: h1,
            ..s
        }),
        spec_run(
            s,
            seq![
                Event::Input(InputEvent::Resize(w1, h1)),
                Event::Input(InputEvent::Resize(w2, h2)),
            ],
        ) == (StateModel { screen_width: w2, screen_height: h2, ..s }),
{
    let e1 = Event::Input(InputEvent::Resize(w1, h1));
    let e2 = Event::Input(InputEvent::Resize(w2, h2));
    let evs = seq![e1, e2];
    assert(evs.drop_first() =~= seq![e2]);
    assert(seq![e2].drop_first() =~= Seq::<Event>::empty());
    let s1 = spec_next(s, e1);
    let s2 = spec_next(s1, e2);
    assert(spec_run(s2, Seq::<Event>::empty()) == s2);
    assert(spec_run(s1, seq![e2]) == s2);
    assert(s2 =~= (StateModel { screen_width: w2, screen_height: h2, ..s }));
}

/// A move event touches the stored mouse position only for cursor motion;
/// every other motion kind leaves the state unchanged. No callback fires for
/// any motion.
pub proof fn lemma_move_only_cursor(s: StateModel, m: Motion, draw_type: DrawType)
    ensures
        spec_calls(s, Event::Input(InputEvent::Move(m)), draw_type) == Seq::<Call>::empty(),
        (match m {
            Motion::Cursor(x, y) => spec_next(s, Event::Input(InputEvent::Move(m)))
                == (StateModel { mouse_x: x, mouse_y: y, ..s }),
            _ => spec_next(s, Event::Input(InputEvent::Move(m))) == s,
        }),
{
}

/// Each close input produces exactly one close callback and leaves the state
/// unchanged. It does not end the run: the events after it are dispatched
/// exactly as they would be without it.
pub proof fn lemma_close_is_advisory(s: StateModel, rest: Seq<Event>, draw_type: DrawType)
    ensures
        spec_calls(s, Event::Input(InputEvent::Close), draw_type) == seq![Call::Close],
        spec_next(s, Event::Input(InputEvent::Close)) == s,
        spec_run(s, seq![Event::Input(InputEvent::Close)] + rest) == spec_run(s, rest),
        spec_run_calls(s, seq![Event::Input(InputEvent::Close)] + rest, draw_type) == seq![
            Call::Close,
        ] + spec_run_calls(s, rest, draw_type),
{
    let e = Event::Input(InputEvent::Close);
    let evs = seq![e] + rest;
    assert(evs[0] == e);
    assert(evs.drop_first() =~= rest);
    assert(spec_next(s, e) == s);
}

} // verus!

