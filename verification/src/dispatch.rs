//! The dispatch loop: classifies each event, updates the shared state and
//! invokes the matching handler callbacks. `spec_next` is the state
//! transition, `spec_calls` the exact callback sequence, per event;
//! `spec_run` and `spec_run_calls` extend both over a whole event stream.

use vstd::prelude::*;

use crate::event::{Button, ButtonState, Event, InputEvent, LoopEvent, Motion};
use crate::state::{no_dups, Data, StateModel};

verus! {

/// Which drawing submission a render tick performs.
#[derive(Clone, Copy, PartialEq, Eq, Structural, Debug)]
pub enum DrawType {
    Dim2,
    Dim3,
}

/// One callback invocation on the application handler, with the arguments
/// that identify it. `dispatch` returns the exact sequence it performed.
#[derive(Clone, Copy, PartialEq, Eq, Structural, Debug)]
pub enum Call {
    /// The lifecycle init hook, invoked once before the first event.
    Init,
    /// The pre-render hook, with the frame timing payload.
    PreRender(u64),
    /// The 2D draw callback.
    Render2d(u64),
    /// The 3D draw callback.
    Render3d(u64),
    /// A held-button callback for one currently-held button.
    Held(Button),
    /// The general update callback, with the tick timing payload.
    Update(u64),
    /// The post-render hook.
    PostRender,
    /// The idle hook, with its timing payload.
    Idle(u64),
    /// A pressed-category callback: fires only on the transition from
    /// not-held to held, never on a repeated press and never on a release.
    Pressed(Button),
    /// The cursor enter/leave callback.
    Cursor(bool),
    /// The focus gain/loss callback.
    Focus(bool),
    /// The close-request callback.
    Close,
}

/// The application handler: one method per event category. The loop
/// guarantees call ordering and argument content; behaviour is entirely the
/// implementer's. Every callback may rely on the state it is shown being
/// well-formed: the held list never contains duplicates.
pub trait App {
    /// Invoked once, before the first event is dispatched.
    fn init(&mut self);

    /// Invoked on a render tick, before the draw callback.
    fn pre_render(&mut self, timing: u64, data: &Data)
        requires
            data@.wf(),
    ;

    /// The 2D draw callback of a render tick.
    fn render_2d(&mut self, timing: u64, data: &Data)
        requires
            data@.wf(),
    ;

    /// The 3D draw callback of a render tick.
    fn render_3d(&mut self, timing: u64, data: &Data)
        requires
            data@.wf(),
    ;

    /// The general update callback, after all held-button callbacks.
    fn update(&mut self, timing: u64, data: &Data)
        requires
            data@.wf(),
    ;

    /// Invoked on an after-render tick.
    fn post_render(&mut self, data: &Data)
        requires
            data@.wf(),
    ;

    /// Invoked on an idle tick.
    fn idle(&mut self, timing: u64, data: &Data)
        requires
            data@.wf(),
    ;

    /// Pressed-category callback for a keyboard key, on its transition from
    /// not-held to held.
    fn handle_key(&mut self, key: u32, data: &Data)
        requires
            data@.wf(),
    ;

    /// Pressed-category callback for a mouse button, on its transition from
    /// not-held to held.
    fn handle_mouse(&mut self, mouse_button: u32, data: &Data)
        requires
            data@.wf(),
    ;

    /// Pressed-category callback for a controller button, on its transition
    /// from not-held to held.
    fn handle_controller(&mut self, controller_id: u32, controller_button: u8, data: &Data)
        requires
            data@.wf(),
    ;

    /// Held-category callback for a keyboard key, once per update tick.
    fn handle_key_held(&mut self, key: u32, data: &Data)
        requires
            data@.wf(),
    ;

    /// Held-category callback for a mouse button, once per update tick.
    fn handle_mouse_held(&mut self, mouse_button: u32, data: &Data)
        requires
            data@.wf(),
    ;

    /// Held-category callback for a controller button, once per update tick.
    fn handle_controller_held(&mut self, controller_id: u32, controller_button: u8, data: &Data)
        requires
            data@.wf(),
    ;

    /// Invoked after the cursor flag changed.
    fn handle_cursor(&mut self, cursor: bool, data: &Data)
        requires
            data@.wf(),
    ;

    /// Invoked after the focus flag changed.
    fn handle_focus(&mut self, focus: bool, data: &Data)
        requires
            data@.wf(),
    ;

    /// Invoked on a close request. Advisory: the loop itself keeps running.
    fn on_close(&mut self, data: &Data)
        requires
            data@.wf(),
    ;
}

/// The held list after a button event: a press appends the button unless it
/// is already present; a release removes its first occurrence, if any.
pub open spec fn next_held(held: Seq<Button>, b: Button, state: ButtonState) -> Seq<Button> {
    match state {
        ButtonState::Press => if held.contains(b) {
            held
        } else {
            held.push(b)
        },
        ButtonState::Release => held.remove_value(b),
    }
}

/// The state transition one event performs.
pub open spec fn spec_next(s: StateModel, e: Event) -> StateModel {
    match e {
        Event::Custom => s,
        Event::Loop(_) => s,
        Event::Input(i) => match i {
            InputEvent::Button(args) => StateModel {
                button_held: next_held(s.button_held, args.button, args.state),
                ..s
            },
            InputEvent::Move(m) => match m {
                Motion::Cursor(x, y) => StateModel { mouse_x: x, mouse_y: y, ..s },
                _ => s,
            },
            InputEvent::Resize(w, h) => StateModel { screen_width: w, screen_height: h, ..s },
            InputEvent::Text => s,
            InputEvent::Cursor(c) => StateModel { is_cursor_on: c, ..s },
            InputEvent::Focus(f) => StateModel { is_window_focus: f, ..s },
            InputEvent::Close => s,
        },
    }
}

/// The held-button callbacks of one update tick, in the stored order.
pub open spec fn held_calls(held: Seq<Button>) -> Seq<Call> {
    held.map_values(|b: Button| Call::Held(b))
}

/// The exact callback sequence one event produces.
pub open spec fn spec_calls(s: StateModel, e: Event, draw_type: DrawType) -> Seq<Call> {
    match e {
        Event::Custom => Seq::empty(),
        Event::Loop(l) => match l {
            LoopEvent::Render(t) => match draw_type {
                DrawType::Dim2 => seq![Call::PreRender(t), Call::Render2d(t)],
                DrawType::Dim3 => seq![Call::PreRender(t), Call::Render3d(t)],
            },
            LoopEvent::Update(t) => held_calls(s.button_held).push(Call::Update(t)),
            LoopEvent::AfterRender => seq![Call::PostRender],
            LoopEvent::Idle(t) => seq![Call::Idle(t)],
        },
        Event::Input(i) => match i {
            InputEvent::Button(args) => match args.state {
                ButtonState::Press => if s.button_held.contains(args.button) {
                    Seq::empty()
                } else {
                    seq![Call::Pressed(args.button)]
                },
                ButtonState::Release => Seq::empty(),
            },
            InputEvent::Move(_) => Seq::empty(),
            InputEvent::Resize(_, _) => Seq::empty(),
            InputEvent::Text => Seq::empty(),
            InputEvent::Cursor(c) => seq![Call::Cursor(c)],
            InputEvent::Focus(f) => seq![Call::Focus(f)],
            InputEvent::Close => seq![Call::Close],
        },
    }
}

/// Pushing a button that is absent keeps the held list duplicate-free.
pub proof fn lemma_no_dups_push(s: Seq<Button>, b: Button)
    requires
        no_dups(s),
        !s.contains(b),
    ensures
        no_dups(s.push(b)),
{
    assert forall|i: int, j: int| 0 <= i < j < s.push(b).len() implies s.push(b)[i] != s.push(b)[j] by {
        if j == s.len() {
            assert(s.push(b)[i] == s[i]);
            if s[i] == b {
                assert(s.contains(b));
            }
        } else {
            assert(s.push(b)[i] == s[i]);
            assert(s.push(b)[j] == s[j]);
        }
    }
}

/// Removing any one entry keeps the held list duplicate-free.
pub proof fn lemma_no_dups_remove(s: Seq<Button>, i: int)
    requires
        no_dups(s),
        0 <= i < s.len(),
    ensures
        no_dups(s.remove(i)),
{
    s.remove_ensures(i);
    assert forall|x: int, y: int| 0 <= x < y < s.remove(i).len() implies s.remove(i)[x] != s.remove(i)[y] by {
        let xs: int = if x < i { x } else { x + 1 };
        let ys: int = if y < i { y } else { y + 1 };
        assert(s.remove(i)[x] == s[xs]);
        assert(s.remove(i)[y] == s[ys]);
    }
}

/// Removing a button's first occurrence keeps the held list duplicate-free.
pub proof fn lemma_no_dups_remove_value(s: Seq<Button>, b: Button)
    requires
        no_dups(s),
    ensures
        no_dups(s.remove_value(b)),
{
    s.index_of_first_ensures(b);
    if let Some(i) = s.index_of_first(b) {
        lemma_no_dups_remove(s, i);
    }
}

/// With no duplicates, removing a button's first occurrence removes it
/// entirely: the button is no longer held afterwards.
pub proof fn lemma_remove_value_removes(s: Seq<Button>, b: Button)
    requires
        no_dups(s),
    ensures
        !s.remove_value(b).contains(b),
{
    s.index_of_first_ensures(b);
    if let Some(i) = s.index_of_first(b) {
        s.remove_ensures(i);
        let r = s.remove(i);
        assert forall|k: int| 0 <= k < r.len() implies r[k] != b by {
            if k < i {
                assert(r[k] == s[k]);
            } else {
                assert(r[k] == s[k + 1]);
                assert(s[i] == b);
            }
        }
        if r.contains(b) {
            let w = choose|k: int| 0 <= k < r.len() && r[k] == b;
            assert(false);
        }
    }
}

/// Removing the first occurrence found by a linear scan is exactly
/// `remove_value`.
pub proof fn lemma_first_occurrence_remove(s: Seq<Button>, b: Button, i: int)
    requires
        0 <= i < s.len(),
        s[i] == b,
        forall|j: int| 0 <= j < i ==> s[j] != b,
    ensures
        s.remove_value(b) == s.remove(i),
{
    assert(s.contains(b));
    s.index_of_first_ensures(b);
    if let Some(k) = s.index_of_first(b) {
        if k < i {
            assert(s[k] == b);
            assert(false);
        }
        if k > i {
            assert(s[i] != b);
            assert(false);
        }
    }
}

/// Every event keeps the state well-formed: the held list stays free of
/// duplicates.
pub proof fn lemma_next_preserves_wf(s: StateModel, e: Event)
    requires
        s.wf(),
    ensures
        spec_next(s, e).wf(),
{
    if let Event::Input(InputEvent::Button(args)) = e {
        match args.state {
            ButtonState::Press => {
                if !s.button_held.contains(args.button) {
                    lemma_no_dups_push(s.button_held, args.button);
                }
            },
            ButtonState::Release => {
                lemma_no_dups_remove_value(s.button_held, args.button);
            },
        }
    }
}

/// Dispatches one event: updates the state as `spec_next` says and invokes
/// the handler callbacks exactly as `spec_calls` says, in that order,
/// returning the performed sequence. Pressed-category callbacks see the state
/// before the transition; cursor and focus callbacks see it after.
pub fn dispatch<T: App>(app: &mut T, data: &mut Data, e: &Event, draw_type: DrawType) -> (calls:
    Vec<Call>)
    requires
        old(data)@.wf(),
    ensures
        final(data)@.wf(),
        final(data)@ == spec_next(old(data)@, *e),
        calls@ == spec_calls(old(data)@, *e, draw_type),
{
    let mut calls: Vec<Call> = Vec::new();
    let ev = *e;
    match ev {
        Event::Custom => {},
        Event::Loop(l) => match l {
            LoopEvent::Render(t) => {
                app.pre_render(t, data);
                calls.push(Call::PreRender(t));
                match draw_type {
                    DrawType::Dim2 => {
                        app.render_2d(t, data);
                        calls.push(Call::Render2d(t));
                    },
                    DrawType::Dim3 => {
                        app.render_3d(t, data);
                        calls.push(Call::Render3d(t));
                    },
                }
                proof {
                    assert(calls@ =~= spec_calls(old(data)@, ev, draw_type));
                }
            },
            LoopEvent::Update(t) => {
                let ghost held = data.button_held@;
                let mut i: usize = 0;
                while i < data.button_held.len()
                    invariant
                        i <= held.len(),
                        *data == *old(data),
                        data@.wf(),
                        held == data.button_held@,
                        calls@ == held_calls(held.take(i as int)),
                    decreases held.len() - i,
                {
                    let b = data.button_held[i];
                    match b {
                        Button::Keyboard(key) => app.handle_key_held(key, data),
                        Button::Mouse(mouse_button) => app.handle_mouse_held(mouse_button, data),
                        Button::Controller(controller_id, controller_button) => app
                            .handle_controller_held(controller_id, controller_button, data),
                    }
                    calls.push(Call::Held(b));
                    proof {
                        assert(held.take(i as int + 1) =~= held.take(i as int).push(held[i as int]));
                        assert(held_calls(held.take(i as int + 1)) =~= held_calls(
                            held.take(i as int),
                        ).push(Call::Held(held[i as int])));
                    }
                    i += 1;
                }
                app.update(t, data);
                calls.push(Call::Update(t));
                proof {
                    assert(held.take(held.len() as int) =~= held);
                }
            },
            LoopEvent::AfterRender => {
                app.post_render(data);
                calls.push(Call::PostRender);
                proof {
                    assert(calls@ =~= spec_calls(old(data)@, ev, draw_type));
                }
            },
            LoopEvent::Idle(t) => {
                app.idle(t, data);
                calls.push(Call::Idle(t));
                proof {
                    assert(calls@ =~= spec_calls(old(data)@, ev, draw_type));
                }
            },
        },
        Event::Input(inp) => match inp {
            InputEvent::Button(args) => {
                let contains = data.is_held(args.button);
                match args.state {
                    ButtonState::Press => {
                        if !contains {
                            match args.button {
                                Button::Keyboard(key) => app.handle_key(key, data),
                                Button::Mouse(mouse_button) => app.handle_mouse(
                                    mouse_button,
                                    data,
                                ),
                                Button::Controller(controller_id, controller_button) => app
                                    .handle_controller(controller_id, controller_button, data),
                            }
                            calls.push(Call::Pressed(args.button));
                            proof {
                                assert(calls@ =~= spec_calls(old(data)@, ev, draw_type));
                            }
                            data.button_held.push(args.button);
                        }
                    },
                    ButtonState::Release => {
                        if contains {
                            let index = data.held_position(args.button);
                            proof {
                                lemma_first_occurrence_remove(
                                    old(data)@.button_held,
                                    args.button,
                                    index as int,
                                );
                            }
                            data.button_held.remove(index);
                        } else {
                            proof {
                                old(data)@.button_held.index_of_first_ensures(args.button);
                            }
                        }
                    },
                }
            },
            InputEvent::Move(m) => {
                if let Motion::Cursor(x, y) = m {
                    data.mouse_x = x;
                    data.mouse_y = y;
                }
            },
            InputEvent::Resize(w, h) => {
                data.screen_width = w;
                data.screen_height = h;
            },
            InputEvent::Text => {},
            InputEvent::Cursor(c) => {
                data.is_cursor_on = c;
                app.handle_cursor(c, data);
                calls.push(Call::Cursor(c));
            },
            InputEvent::Focus(f) => {
                data.is_window_focus = f;
                app.handle_focus(f, data);
                calls.push(Call::Focus(f));
            },
            InputEvent::Close => {
                app.on_close(data);
                calls.push(Call::Close);
            },
        },
    }
    proof {
        assert(data@ =~= spec_next(old(data)@, ev));
        lemma_next_preserves_wf(old(data)@, ev);
    }
    calls
}

/// The state after a whole event stream, first event first.
pub open spec fn spec_run(s: StateModel, events: Seq<Event>) -> StateModel
    decreases events.len(),
{
    if events.len() == 0 {
        s
    } else {
        spec_run(spec_next(s, events[0]), events.drop_first())
    }
}

/// The callback sequence a whole event stream produces.
pub open spec fn spec_run_calls(s: StateModel, events: Seq<Event>, draw_type: DrawType) -> Seq<
    Call,
>
    decreases events.len(),
{
    if events.len() == 0 {
        Seq::empty()
    } else {
        spec_calls(s, events[0], draw_type) + spec_run_calls(
            spec_next(s, events[0]),
            events.drop_first(),
            draw_type,
        )
    }
}

/// Running one more event is one more transition.
pub proof fn lemma_run_snoc(s: StateModel, events: Seq<Event>, e: Event)
    ensures
        spec_run(s, events.push(e)) == spec_next(spec_run(s, events), e),
    decreases events.len(),
{
    if events.len() == 0 {
        assert(events.push(e)[0] == e);
        assert(events.push(e).drop_first() =~= Seq::<Event>::empty());
        assert(spec_run(spec_next(s, e), Seq::<Event>::empty()) == spec_next(s, e));
    } else {
        assert(events.push(e)[0] == events[0]);
        assert(events.push(e).drop_first() =~= events.drop_first().push(e));
        lemma_run_snoc(spec_next(s, events[0]), events.drop_first(), e);
    }
}

/// Running one more event appends exactly that event's calls.
pub proof fn lemma_run_calls_snoc(s: StateModel, events: Seq<Event>, e: Event, draw_type: DrawType)
    ensures
        spec_run_calls(s, events.push(e), draw_type) == spec_run_calls(s, events, draw_type)
            + spec_calls(spec_run(s, events), e, draw_type),
    decreases events.len(),
{
    if events.len() == 0 {
        assert(events.push(e)[0] == e);
        assert(events.push(e).drop_first() =~= Seq::<Event>::empty());
        assert(spec_run_calls(spec_next(s, e), Seq::<Event>::empty(), draw_type) == Seq::<
            Call,
        >::empty());
        assert(spec_run_calls(s, events.push(e), draw_type) =~= spec_run_calls(
            s,
            events,
            draw_type,
        ) + spec_calls(spec_run(s, events), e, draw_type));
    } else {
        assert(events.push(e)[0] == events[0]);
        assert(events.push(e).drop_first() =~= events.drop_first().push(e));
        lemma_run_snoc(s, events, e);
        lemma_run_calls_snoc(spec_next(s, events[0]), events.drop_first(), e, draw_type);
        assert(spec_calls(s, events[0], draw_type) + (spec_run_calls(
            spec_next(s, events[0]),
            events.drop_first(),
            draw_type,
        ) + spec_calls(spec_run(s, events), e, draw_type)) =~= (spec_calls(s, events[0], draw_type)
            + spec_run_calls(spec_next(s, events[0]), events.drop_first(), draw_type)) + spec_calls(
            spec_run(s, events),
            e,
            draw_type,
        ));
    }
}

/// The dispatch loop over a finite event stream: invokes the handler's init
/// hook, dispatches every event in order until the stream is exhausted, and
/// returns. The state ends as `spec_run` says, and the performed callbacks
/// are exactly the init hook followed by `spec_run_calls`: nothing fires
/// after the stream ends.
pub fn start<T: App>(app: &mut T, data: &mut Data, events: &Vec<Event>, draw_type: DrawType) -> (
    calls: Vec<Call>)
    requires
        old(data)@.wf(),
    ensures
        final(data)@.wf(),
        final(data)@ == spec_run(old(data)@, events@),
        calls@ == seq![Call::Init] + spec_run_calls(old(data)@, events@, draw_type),
{
    app.init();
    let mut calls: Vec<Call> = Vec::new();
    calls.push(Call::Init);
    proof {
        assert(events@.take(0) =~= Seq::<Event>::empty());
        assert(calls@ =~= seq![Call::Init] + spec_run_calls(
            old(data)@,
            Seq::<Event>::empty(),
            draw_type,
        ));
    }
    let mut i: usize = 0;
    while i < events.len()
        invariant
            i <= events@.len(),
            data@.wf(),
            data@ == spec_run(old(data)@, events@.take(i as int)),
            calls@ == seq![Call::Init] + spec_run_calls(old(data)@, events@.take(i as int), draw_type),
        decreases events@.len() - i,
    {
        let e = events[i];
        let ghost pre = events@.take(i as int);
        let mut step_calls = dispatch(app, data, &e, draw_type);
        calls.append(&mut step_calls);
        proof {
            assert(events@.take(i as int + 1) =~= pre.push(e));
            lemma_run_snoc(old(data)@, pre, e);
            lemma_run_calls_snoc(old(data)@, pre, e, draw_type);
            assert((seq![Call::Init] + spec_run_calls(old(data)@, pre, draw_type)) + spec_calls(
                spec_run(old(data)@, pre),
                e,
                draw_type,
            ) =~= seq![Call::Init] + (spec_run_calls(old(data)@, pre, draw_type) + spec_calls(
                spec_run(old(data)@, pre),
                e,
                draw_type,
            )));
        }
        i += 1;
    }
    proof {
        assert(events@.take(events@.len() as int) =~= events@);
    }
    calls
}

} // verus!
