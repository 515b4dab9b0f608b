use piston_graphics::dispatch::{dispatch, start, App, Call, DrawType};
use piston_graphics::event::{Button, ButtonArgs, ButtonState, Event, InputEvent, LoopEvent, Motion};
use piston_graphics::state::Data;
use piston_graphics::window::create_window;

/// A handler that records every callback it receives, in order.
struct Recorder {
    log: Vec<Call>,
}

impl Recorder {
    fn new() -> Recorder {
        Recorder { log: Vec::new() }
    }
}

impl App for Recorder {
    fn init(&mut self) {
        self.log.push(Call::Init);
    }
    fn pre_render(&mut self, timing: u64, _data: &Data) {
        self.log.push(Call::PreRender(timing));
    }
    fn render_2d(&mut self, timing: u64, _data: &Data) {
        self.log.push(Call::Render2d(timing));
    }
    fn render_3d(&mut self, timing: u64, _data: &Data) {
        self.log.push(Call::Render3d(timing));
    }
    fn update(&mut self, timing: u64, _data: &Data) {
        self.log.push(Call::Update(timing));
    }
    fn post_render(&mut self, _data: &Data) {
        self.log.push(Call::PostRender);
    }
    fn idle(&mut self, timing: u64, _data: &Data) {
        self.log.push(Call::Idle(timing));
    }
    fn handle_key(&mut self, key: u32, _data: &Data) {
        self.log.push(Call::Pressed(Button::Keyboard(key)));
    }
    fn handle_mouse(&mut self, mouse_button: u32, _data: &Data) {
        self.log.push(Call::Pressed(Button::Mouse(mouse_button)));
    }
    fn handle_controller(&mut self, controller_id: u32, controller_button: u8, _data: &Data) {
        self.log.push(Call::Pressed(Button::Controller(controller_id, controller_button)));
    }
    fn handle_key_held(&mut self, key: u32, _data: &Data) {
        self.log.push(Call::Held(Button::Keyboard(key)));
    }
    fn handle_mouse_held(&mut self, mouse_button: u32, _data: &Data) {
        self.log.push(Call::Held(Button::Mouse(mouse_button)));
    }
    fn handle_controller_held(&mut self, controller_id: u32, controller_button: u8, _data: &Data) {
        self.log.push(Call::Held(Button::Controller(controller_id, controller_button)));
    }
    fn handle_cursor(&mut self, cursor: bool, _data: &Data) {
        self.log.push(Call::Cursor(cursor));
    }
    fn handle_focus(&mut self, focus: bool, _data: &Data) {
        self.log.push(Call::Focus(focus));
    }
    fn on_close(&mut self, _data: &Data) {
        self.log.push(Call::Close);
    }
}

fn press(b: Button) -> Event {
    Event::Input(InputEvent::Button(ButtonArgs { state: ButtonState::Press, button: b }))
}

fn release(b: Button) -> Event {
    Event::Input(InputEvent::Button(ButtonArgs { state: ButtonState::Release, button: b }))
}

#[test]
fn press_once_then_repeat_then_release() {
    let key_a = Button::Keyboard(30);
    let mut app = Recorder::new();
    let mut data = Data::new(640, 480);

    let calls = dispatch(&mut app, &mut data, &press(key_a), DrawType::Dim2);
    assert_eq!(calls, vec![Call::Pressed(key_a)]);
    assert_eq!(app.log, vec![Call::Pressed(key_a)]);
    assert_eq!(data.button_held, vec![key_a]);

    let calls = dispatch(&mut app, &mut data, &press(key_a), DrawType::Dim2);
    assert_eq!(calls, vec![]);
    assert_eq!(app.log, vec![Call::Pressed(key_a)]);
    assert_eq!(data.button_held, vec![key_a]);

    let calls = dispatch(&mut app, &mut data, &release(key_a), DrawType::Dim2);
    assert_eq!(calls, vec![]);
    assert_eq!(data.button_held, vec![]);

    let calls = dispatch(&mut app, &mut data, &Event::Loop(LoopEvent::Update(7)), DrawType::Dim2);
    assert_eq!(calls, vec![Call::Update(7)]);
}

#[test]
fn held_callbacks_fire_in_order_before_update() {
    let key = Button::Keyboard(1);
    let mouse = Button::Mouse(2);
    let pad = Button::Controller(0, 3);
    let mut app = Recorder::new();
    let mut data = Data::new(640, 480);

    dispatch(&mut app, &mut data, &press(key), DrawType::Dim2);
    dispatch(&mut app, &mut data, &press(mouse), DrawType::Dim2);
    dispatch(&mut app, &mut data, &press(pad), DrawType::Dim2);
    app.log.clear();

    let calls = dispatch(&mut app, &mut data, &Event::Loop(LoopEvent::Update(5)), DrawType::Dim2);
    let expected = vec![Call::Held(key), Call::Held(mouse), Call::Held(pad), Call::Update(5)];
    assert_eq!(calls, expected);
    assert_eq!(app.log, expected);
    assert_eq!(data.button_held, vec![key, mouse, pad]);
}

#[test]
fn release_of_non_held_is_a_noop() {
    let key = Button::Keyboard(9);
    let mut app = Recorder::new();
    let mut data = Data::new(640, 480);

    let calls = dispatch(&mut app, &mut data, &release(key), DrawType::Dim2);
    assert_eq!(data.button_held, vec![]);
    assert_eq!(calls, vec![]);
    assert_eq!(app.log, vec![]);
}

#[test]
fn resize_is_last_write_wins() {
    let mut app = Recorder::new();
    let mut data = Data::new(640, 480);

    let calls = dispatch(&mut app, &mut data, &Event::Input(InputEvent::Resize(800, 600)), DrawType::Dim2);
    assert_eq!(calls, vec![]);
    assert_eq!((data.screen_width, data.screen_height), (800, 600));

    dispatch(&mut app, &mut data, &Event::Input(InputEvent::Resize(1024, 768)), DrawType::Dim2);
    assert_eq!((data.screen_width, data.screen_height), (1024, 768));
    assert_eq!(app.log, vec![]);
}

#[test]
fn only_cursor_motion_moves_the_mouse() {
    let mut app = Recorder::new();
    let mut data = Data::new(640, 480);

    dispatch(&mut app, &mut data, &Event::Input(InputEvent::Move(Motion::Cursor(11, 22))), DrawType::Dim2);
    assert_eq!((data.mouse_x, data.mouse_y), (11, 22));

    dispatch(&mut app, &mut data, &Event::Input(InputEvent::Move(Motion::Relative(7, 8))), DrawType::Dim2);
    dispatch(&mut app, &mut data, &Event::Input(InputEvent::Move(Motion::Scroll(1, 2))), DrawType::Dim2);
    dispatch(&mut app, &mut data, &Event::Input(InputEvent::Move(Motion::ControllerAxis)), DrawType::Dim2);
    dispatch(&mut app, &mut data, &Event::Input(InputEvent::Move(Motion::Touch)), DrawType::Dim2);
    assert_eq!((data.mouse_x, data.mouse_y), (11, 22));
    assert_eq!(app.log, vec![]);
}

#[test]
fn cursor_and_focus_update_state_before_callback() {
    let mut app = Recorder::new();
    let mut data = Data::new(640, 480);

    let calls = dispatch(&mut app, &mut data, &Event::Input(InputEvent::Cursor(true)), DrawType::Dim2);
    assert!(data.is_cursor_on);
    assert_eq!(calls, vec![Call::Cursor(true)]);

    let calls = dispatch(&mut app, &mut data, &Event::Input(InputEvent::Focus(true)), DrawType::Dim2);
    assert!(data.is_window_focus);
    assert_eq!(calls, vec![Call::Focus(true)]);

    dispatch(&mut app, &mut data, &Event::Input(InputEvent::Cursor(false)), DrawType::Dim2);
    assert!(!data.is_cursor_on);
    dispatch(&mut app, &mut data, &Event::Input(InputEvent::Focus(false)), DrawType::Dim2);
    assert!(!data.is_window_focus);
}

#[test]
fn render_ticks_follow_the_draw_mode() {
    let mut app = Recorder::new();
    let mut data = Data::new(640, 480);

    let calls = dispatch(&mut app, &mut data, &Event::Loop(LoopEvent::Render(3)), DrawType::Dim2);
    assert_eq!(calls, vec![Call::PreRender(3), Call::Render2d(3)]);

    let calls = dispatch(&mut app, &mut data, &Event::Loop(LoopEvent::Render(4)), DrawType::Dim3);
    assert_eq!(calls, vec![Call::PreRender(4), Call::Render3d(4)]);

    let calls = dispatch(&mut app, &mut data, &Event::Loop(LoopEvent::AfterRender), DrawType::Dim2);
    assert_eq!(calls, vec![Call::PostRender]);

    let calls = dispatch(&mut app, &mut data, &Event::Loop(LoopEvent::Idle(9)), DrawType::Dim2);
    assert_eq!(calls, vec![Call::Idle(9)]);
}

#[test]
fn text_and_custom_events_are_ignored() {
    let mut app = Recorder::new();
    let mut data = Data::new(640, 480);

    let calls = dispatch(&mut app, &mut data, &Event::Input(InputEvent::Text), DrawType::Dim2);
    assert_eq!(calls, vec![]);
    let calls = dispatch(&mut app, &mut data, &Event::Custom, DrawType::Dim2);
    assert_eq!(calls, vec![]);
    assert_eq!(app.log, vec![]);
    assert_eq!(data.button_held, vec![]);
}

#[test]
fn close_fires_once_and_does_not_stop_the_loop() {
    let mut app = Recorder::new();
    let mut data = Data::new(640, 480);

    let events = vec![
        Event::Input(InputEvent::Close),
        Event::Input(InputEvent::Resize(320, 200)),
    ];
    let calls = start(&mut app, &mut data, &events, DrawType::Dim2);
    assert_eq!(calls, vec![Call::Init, Call::Close]);
    assert_eq!((data.screen_width, data.screen_height), (320, 200));

    let close_count = app.log.iter().filter(|c| **c == Call::Close).count();
    assert_eq!(close_count, 1);
}

#[test]
fn start_returns_after_exactly_the_given_events() {
    let key = Button::Keyboard(5);
    let mut app = Recorder::new();
    let mut data = Data::new(640, 480);

    let events = vec![
        press(key),
        Event::Loop(LoopEvent::Update(1)),
        Event::Input(InputEvent::Resize(100, 50)),
        release(key),
        Event::Loop(LoopEvent::Update(2)),
    ];
    let calls = start(&mut app, &mut data, &events, DrawType::Dim2);
    let expected = vec![
        Call::Init,
        Call::Pressed(key),
        Call::Held(key),
        Call::Update(1),
        Call::Update(2),
    ];
    assert_eq!(calls, expected);
    assert_eq!(app.log, expected);
    assert_eq!(data.button_held, vec![]);
    assert_eq!((data.screen_width, data.screen_height), (100, 50));
}

#[test]
fn start_on_an_empty_stream_only_inits() {
    let mut app = Recorder::new();
    let mut data = Data::new(640, 480);

    let calls = start(&mut app, &mut data, &Vec::new(), DrawType::Dim2);
    assert_eq!(calls, vec![Call::Init]);
    assert_eq!(app.log, vec![Call::Init]);
}

#[test]
fn fresh_data_defaults() {
    let data = Data::new(640, 480);
    assert!(!data.is_cursor_on);
    assert!(!data.is_window_focus);
    assert_eq!((data.screen_width, data.screen_height), (640, 480));
    assert_eq!((data.mouse_x, data.mouse_y), (0, 0));
    assert_eq!(data.button_held, vec![]);
}

#[test]
fn window_config_policy() {
    let config = create_window("demo", 640, 480);
    assert_eq!(config.title, "demo");
    assert_eq!((config.width, config.height), (640, 480));
    assert_eq!((config.gl_major, config.gl_minor), (4, 5));
    assert!(config.exit_on_esc);
}

#[test]
fn is_held_and_held_position_report_membership() {
    let key = Button::Keyboard(1);
    let mouse = Button::Mouse(2);
    let mut app = Recorder::new();
    let mut data = Data::new(640, 480);

    dispatch(&mut app, &mut data, &press(key), DrawType::Dim2);
    dispatch(&mut app, &mut data, &press(mouse), DrawType::Dim2);
    assert!(data.is_held(key));
    assert!(data.is_held(mouse));
    assert!(!data.is_held(Button::Keyboard(2)));
    assert_eq!(data.held_position(key), 0);
    assert_eq!(data.held_position(mouse), 1);

    dispatch(&mut app, &mut data, &release(key), DrawType::Dim2);
    assert!(!data.is_held(key));
    assert_eq!(data.button_held, vec![mouse]);
}
