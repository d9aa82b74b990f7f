use pronto_graphics::color::Color;
use pronto_graphics::font::{Font, FontInfo};
use pronto_graphics::key::{Button, Event, Key};
use pronto_graphics::render_parameters::RenderParameterState;
use pronto_graphics::shape::{DrawCommand, RenderTask, Shapes};
use pronto_graphics::texture::{Texture, TextureInfo};
use pronto_graphics::window::{FrameOutcome, Window};

fn sans() -> FontInfo {
    FontInfo { family: String::from("Processing Sans Pro") }
}

fn window() -> Window {
    Window::new(800, 600, "Window Title", Some(sans()))
}

fn tasks(window: &Window) -> Vec<&RenderTask> {
    window.render_queue().iter().collect()
}

fn commands(outcome: FrameOutcome) -> Vec<DrawCommand> {
    match outcome {
        FrameOutcome::Present { commands } => commands,
        FrameOutcome::Exit => panic!("the frame was to be drawn"),
    }
}

#[test]
fn new_window_state() {
    let pg = window();
    assert_eq!(pg.width(), 800);
    assert_eq!(pg.height(), 600);
    assert_eq!(pg.title(), "Window Title");
    assert!(!pg.is_fullscreen());
    assert_eq!(pg.background(), Color::LIGHT_GRAY());
    assert_eq!(pg.render_parameter_state(), RenderParameterState::default());
    assert_eq!(pg.render_queue().len(), 0);
    assert_eq!(pg.time(), 0);
    assert_eq!(pg.deltatime(), 16_667);
    assert!(pg.has_default_font());
    assert_eq!(pg.texture_store().len(), 0);
    assert_eq!(pg.font_store().len(), 0);
    assert!(!pg.key_pressed(Key::Space));
    assert!(!pg.mouse_pressed(Button::Left));
    assert_eq!(pg.mouse_position(), (0, 0));
    assert_eq!(pg.mouse_wheel(), 0);
    assert_eq!(pg.mouse_wheel_delta(), 0);
}

#[test]
fn new_fullscreen_window_state() {
    let pg = Window::new_fullscreen(1920, 1080, None);
    assert_eq!(pg.width(), 1920);
    assert_eq!(pg.height(), 1080);
    assert_eq!(pg.title(), "");
    assert!(pg.is_fullscreen());
    assert!(!pg.has_default_font());
    assert_eq!(pg.background(), Color::LIGHT_GRAY());
    assert_eq!(pg.render_parameter_state(), RenderParameterState::default());
}

#[test]
fn setters_change_the_pen_only() {
    let mut pg = window();
    let font = pg.load_font(Some(FontInfo { family: String::from("Whisper") })).unwrap();
    pg.fill_color(Color::RED());
    pg.outline_color(Color::GREEN());
    pg.line_color(Color::BLUE());
    pg.font_color(Color::WHITE());
    pg.font_size(40);
    pg.font(Some(font));
    assert_eq!(
        pg.render_parameter_state(),
        RenderParameterState {
            fill_color: Color::RED(),
            outline_color: Color::GREEN(),
            line_color: Color::BLUE(),
            font_color: Color::WHITE(),
            font_size: 40,
            active_font: Some(font),
        }
    );
    assert_eq!(pg.background(), Color::LIGHT_GRAY());
    assert_eq!(pg.render_queue().len(), 0);
    pg.background_color(Color::from((0x11, 0x11, 0x11)));
    assert_eq!(pg.background(), Color::rgb(0x11, 0x11, 0x11));
    assert_eq!(pg.render_parameter_state().fill_color, Color::RED());
}

#[test]
fn draw_call_captures_the_pen_of_its_moment() {
    let mut pg = window();
    pg.fill_color(Color::BLUE());
    pg.outline_color(Color::WHITE());
    pg.font_size(12);
    let pen = pg.render_parameter_state();
    pg.circle((400, 300), 64);
    // later setter calls do not reach the queued task
    pg.fill_color(Color::RED());
    pg.outline_color(Color::BLACK());
    pg.line_color(Color::GREEN());
    pg.font_color(Color::GRAY());
    pg.font_size(99);
    pg.font(None);
    pg.background_color(Color::BLACK());
    assert_eq!(
        tasks(&pg),
        vec![&RenderTask {
            pos: (400, 300),
            shape: Shapes::Circle { radius: 64 },
            render_parameter_state: pen,
        }]
    );
    assert_eq!(pen.fill_color, Color::BLUE());
    // the next draw call captures the pen as it is now
    pg.rectangle((1, 2), 3, 4);
    assert_eq!(tasks(&pg)[0].render_parameter_state, pen);
    assert_eq!(tasks(&pg)[1].render_parameter_state, pg.render_parameter_state());
    assert_eq!(tasks(&pg)[1].render_parameter_state.fill_color, Color::RED());
}

#[test]
fn draw_calls_queue_in_order() {
    let mut pg = window();
    let texture = pg.load_texture(Some(TextureInfo { width: 64, height: 32 })).unwrap();
    let pen = pg.render_parameter_state();
    pg.circle((1, 1), 10);
    pg.rectangle((2, 2), 20, 30);
    pg.square((3, 3), 40);
    pg.texture((4, 4), texture, 50, 60);
    pg.text((5, 5), "Hello World!");
    pg.line((6, 6), (7, 7));
    let expected = vec![
        RenderTask { pos: (1, 1), shape: Shapes::Circle { radius: 10 }, render_parameter_state: pen },
        RenderTask {
            pos: (2, 2),
            shape: Shapes::Rectangle { width: 20, height: 30 },
            render_parameter_state: pen,
        },
        RenderTask {
            pos: (3, 3),
            shape: Shapes::Rectangle { width: 40, height: 40 },
            render_parameter_state: pen,
        },
        RenderTask {
            pos: (4, 4),
            shape: Shapes::Texture { texture, width: 50, height: 60 },
            render_parameter_state: pen,
        },
        RenderTask {
            pos: (5, 5),
            shape: Shapes::Text { string: String::from("Hello World!"), font: None },
            render_parameter_state: pen,
        },
        RenderTask {
            pos: (0, 0),
            shape: Shapes::Lines { coords: vec![(6, 6), (7, 7)] },
            render_parameter_state: pen,
        },
    ];
    assert_eq!(tasks(&pg), expected.iter().collect::<Vec<_>>());
}

#[test]
fn text_carries_the_selected_font() {
    let mut pg = window();
    let font = pg.load_font(Some(FontInfo { family: String::from("Whisper") })).unwrap();
    pg.text((0, 0), "default");
    pg.font(Some(font));
    pg.text((0, 20), "whisper");
    pg.font(None);
    pg.text((0, 40), "default again");
    let queued = tasks(&pg);
    assert_eq!(queued[0].shape, Shapes::Text { string: String::from("default"), font: None });
    assert_eq!(queued[0].render_parameter_state.active_font, None);
    assert_eq!(
        queued[1].shape,
        Shapes::Text { string: String::from("whisper"), font: Some(font) }
    );
    assert_eq!(queued[1].render_parameter_state.active_font, Some(font));
    assert_eq!(
        queued[2].shape,
        Shapes::Text { string: String::from("default again"), font: None }
    );
}

#[test]
fn lines_in_a_row_share_one_task() {
    let mut pg = window();
    pg.line((1, 2), (3, 4));
    pg.line((5, 6), (7, 8));
    assert_eq!(
        tasks(&pg),
        vec![&RenderTask {
            pos: (0, 0),
            shape: Shapes::Lines { coords: vec![(1, 2), (3, 4), (5, 6), (7, 8)] },
            render_parameter_state: RenderParameterState::default(),
        }]
    );
    pg.line((9, 10), (11, 12));
    assert_eq!(pg.render_queue().len(), 1);
    assert_eq!(
        tasks(&pg)[0].shape,
        Shapes::Lines { coords: vec![(1, 2), (3, 4), (5, 6), (7, 8), (9, 10), (11, 12)] }
    );
}

#[test]
fn line_color_change_starts_a_new_task() {
    let mut pg = window();
    pg.line((1, 2), (3, 4));
    pg.line_color(Color::RED());
    pg.line((5, 6), (7, 8));
    let red = RenderParameterState { line_color: Color::RED(), ..RenderParameterState::default() };
    assert_eq!(
        tasks(&pg),
        vec![
            &RenderTask {
                pos: (0, 0),
                shape: Shapes::Lines { coords: vec![(1, 2), (3, 4)] },
                render_parameter_state: RenderParameterState::default(),
            },
            &RenderTask {
                pos: (0, 0),
                shape: Shapes::Lines { coords: vec![(5, 6), (7, 8)] },
                render_parameter_state: red,
            },
        ]
    );
}

#[test]
fn line_color_set_to_the_same_color_keeps_the_task() {
    let mut pg = window();
    pg.line((1, 2), (3, 4));
    pg.line_color(Color::RED());
    pg.line_color(Color::BLACK());
    pg.line((5, 6), (7, 8));
    assert_eq!(pg.render_queue().len(), 1);
    assert_eq!(
        tasks(&pg)[0].shape,
        Shapes::Lines { coords: vec![(1, 2), (3, 4), (5, 6), (7, 8)] }
    );
}

#[test]
fn other_pen_changes_do_not_part_lines() {
    let mut pg = window();
    pg.line((1, 2), (3, 4));
    pg.fill_color(Color::RED());
    pg.font_size(3);
    pg.line((5, 6), (7, 8));
    assert_eq!(pg.render_queue().len(), 1);
    // the task keeps the pen of the first line
    assert_eq!(tasks(&pg)[0].render_parameter_state, RenderParameterState::default());
}

#[test]
fn lines_look_at_the_last_task_only() {
    let mut pg = window();
    pg.line((1, 2), (3, 4));
    pg.circle((0, 0), 1);
    pg.line((5, 6), (7, 8));
    let queued = tasks(&pg);
    assert_eq!(queued.len(), 3);
    assert_eq!(queued[0].shape, Shapes::Lines { coords: vec![(1, 2), (3, 4)] });
    assert_eq!(queued[1].shape, Shapes::Circle { radius: 1 });
    assert_eq!(queued[2].shape, Shapes::Lines { coords: vec![(5, 6), (7, 8)] });
}

#[test]
fn lines_do_not_join_across_frames() {
    let mut pg = window();
    pg.line((1, 2), (3, 4));
    commands(pg.update(&[]));
    pg.line((5, 6), (7, 8));
    assert_eq!(tasks(&pg).len(), 1);
    assert_eq!(tasks(&pg)[0].shape, Shapes::Lines { coords: vec![(5, 6), (7, 8)] });
}

#[test]
fn texture_keeping_aspect_of_two_to_one() {
    let mut pg = window();
    let texture = pg.load_texture(Some(TextureInfo { width: 200, height: 100 })).unwrap();
    assert_eq!(texture.width(pg.texture_store()), 200);
    assert_eq!(texture.height(pg.texture_store()), 100);
    pg.texture_((100, 250), texture, 100);
    pg.texture_((0, 0), texture, 7);
    let queued = tasks(&pg);
    assert_eq!(queued[0].pos, (100, 250));
    assert_eq!(queued[0].shape, Shapes::Texture { texture, width: 100, height: 50 });
    assert_eq!(queued[1].shape, Shapes::Texture { texture, width: 7, height: 3 });
}

#[test]
fn texture_keeping_aspect_of_flat_texture() {
    let mut pg = window();
    let flat = pg.load_texture(Some(TextureInfo { width: 200, height: 0 })).unwrap();
    let thin = pg.load_texture(Some(TextureInfo { width: 0, height: 100 })).unwrap();
    pg.texture_((0, 0), flat, 100);
    pg.texture_((0, 0), thin, 100);
    assert_eq!(tasks(&pg)[0].shape, Shapes::Texture { texture: flat, width: 100, height: 0 });
    assert_eq!(tasks(&pg)[1].shape, Shapes::Texture { texture: thin, width: 100, height: 0 });
}

#[test]
fn failed_load_leaves_the_stores_alone() {
    let mut pg = window();
    assert_eq!(pg.load_texture(None), None);
    assert_eq!(pg.load_font(None), None);
    assert_eq!(pg.texture_store().len(), 0);
    assert_eq!(pg.font_store().len(), 0);
    let texture = pg.load_texture(Some(TextureInfo { width: 1, height: 2 }));
    let font = pg.load_font(Some(sans()));
    assert_eq!(texture, Some(Texture { index: 0 }));
    assert_eq!(font, Some(Font { index: 0 }));
    assert_eq!(pg.load_texture(None), None);
    assert_eq!(pg.load_font(None), None);
    assert_eq!(pg.texture_store().len(), 1);
    assert_eq!(pg.font_store().len(), 1);
    // the next handles follow on
    assert_eq!(
        pg.load_texture(Some(TextureInfo { width: 3, height: 4 })),
        Some(Texture { index: 1 })
    );
    assert_eq!(pg.load_font(Some(sans())), Some(Font { index: 1 }));
}

#[test]
fn loaded_font_has_its_name() {
    let mut pg = window();
    let font = pg.load_font(Some(FontInfo { family: String::from("Whisper") })).unwrap();
    assert_eq!(font.name(pg.font_store()), "Whisper");
}

#[test]
fn update_resets_the_pen_but_not_the_font() {
    let mut pg = window();
    let font = pg.load_font(Some(FontInfo { family: String::from("Whisper") })).unwrap();
    pg.background_color(Color::WHITE());
    pg.fill_color(Color::RED());
    pg.outline_color(Color::GREEN());
    pg.line_color(Color::BLUE());
    pg.font_color(Color::WHITE());
    pg.font_size(40);
    pg.font(Some(font));
    commands(pg.update(&[]));
    assert_eq!(
        pg.render_parameter_state(),
        RenderParameterState {
            fill_color: Color::BLACK(),
            outline_color: Color::TRANSPARENT(),
            line_color: Color::BLACK(),
            font_color: Color::BLACK(),
            font_size: 16,
            active_font: Some(font),
        }
    );
    // the background is not part of the pen
    assert_eq!(pg.background(), Color::WHITE());
    commands(pg.update(&[]));
    assert_eq!(pg.render_parameter_state().active_font, Some(font));
    pg.font(None);
    commands(pg.update(&[]));
    assert_eq!(pg.render_parameter_state(), RenderParameterState::default());
}

#[test]
fn update_turns_the_queue_into_commands() {
    let mut pg = window();
    let texture = pg.load_texture(Some(TextureInfo { width: 64, height: 32 })).unwrap();
    let font = pg.load_font(Some(FontInfo { family: String::from("Whisper") })).unwrap();
    pg.background_color(Color::rgb(0x11, 0x11, 0x11));
    pg.fill_color(Color::BLUE());
    pg.outline_color(Color::WHITE());
    pg.circle((400, 300), 64);
    pg.fill_color(Color::rgb(0xCC, 0xCC, 0xCC));
    pg.square((10, 20), 30);
    pg.texture_((100, 250), texture, 100);
    pg.font_color(Color::RED());
    pg.font_size(24);
    pg.text((10, 10), "Hello World!");
    pg.font(Some(font));
    pg.text((10, 40), "Whispered");
    pg.line_color(Color::GREEN());
    pg.line((0, 0), (10, 10));
    pg.line((10, 10), (20, 0));
    let drawn = commands(pg.update(&[]));
    assert_eq!(
        drawn,
        vec![
            DrawCommand::Clear { color: Color::rgb(0x11, 0x11, 0x11) },
            DrawCommand::Circle {
                pos: (400, 300),
                origin: (64, 64),
                radius: 64,
                fill_color: Color::BLUE(),
                outline_color: Color::WHITE(),
            },
            DrawCommand::Rectangle {
                pos: (10, 20),
                width: 30,
                height: 30,
                fill_color: Color::rgb(0xCC, 0xCC, 0xCC),
                outline_color: Color::WHITE(),
            },
            DrawCommand::Texture { pos: (100, 250), texture, width: 100, height: 50 },
            DrawCommand::Text {
                pos: (10, 10),
                string: String::from("Hello World!"),
                font: None,
                size: 24,
                color: Color::RED(),
            },
            DrawCommand::Text {
                pos: (10, 40),
                string: String::from("Whispered"),
                font: Some(font),
                size: 24,
                color: Color::RED(),
            },
            DrawCommand::Lines { coords: vec![(0, 0), (10, 10), (10, 10), (20, 0)], color: Color::GREEN() },
            DrawCommand::Display,
        ]
    );
    assert_eq!(pg.render_queue().len(), 0);
}

#[test]
fn update_of_an_empty_queue_clears_and_shows() {
    let mut pg = window();
    assert_eq!(
        commands(pg.update(&[])),
        vec![DrawCommand::Clear { color: Color::LIGHT_GRAY() }, DrawCommand::Display]
    );
    // each frame starts from an empty queue
    pg.circle((1, 1), 1);
    assert_eq!(commands(pg.update(&[])).len(), 3);
    assert_eq!(commands(pg.update(&[])).len(), 2);
}

#[test]
fn text_without_any_font_is_left_out() {
    let mut pg = Window::new(800, 600, "no font", None);
    let font = pg.load_font(Some(FontInfo { family: String::from("Whisper") })).unwrap();
    pg.text((0, 0), "not drawn");
    pg.circle((5, 5), 5);
    pg.font(Some(font));
    pg.text((0, 20), "drawn");
    assert_eq!(pg.render_queue().len(), 3);
    let drawn = commands(pg.update(&[]));
    assert_eq!(
        drawn,
        vec![
            DrawCommand::Clear { color: Color::LIGHT_GRAY() },
            DrawCommand::Circle {
                pos: (5, 5),
                origin: (5, 5),
                radius: 5,
                fill_color: Color::BLACK(),
                outline_color: Color::TRANSPARENT(),
            },
            DrawCommand::Text {
                pos: (0, 20),
                string: String::from("drawn"),
                font: Some(font),
                size: 16,
                color: Color::BLACK(),
            },
            DrawCommand::Display,
        ]
    );
}

#[test]
fn update_takes_in_the_events() {
    let mut pg = window();
    commands(pg.update(&[
        Event::KeyPressed { code: Key::Space },
        Event::MouseButtonPressed { button: Button::Left },
        Event::MouseMoved { x: 12, y: 34 },
        Event::MouseWheelScrolled { delta: 2 },
        Event::MouseWheelScrolled { delta: 1 },
        Event::Other,
    ]));
    assert!(pg.key_pressed(Key::Space));
    assert!(pg.key_just_pressed(Key::Space));
    assert!(pg.mouse_pressed(Button::Left));
    assert!(pg.mouse_just_pressed(Button::Left));
    assert_eq!(pg.mouse_position(), (12, 34));
    assert_eq!(pg.mouse_wheel(), 3);
    assert_eq!(pg.mouse_wheel_delta(), 1);
    commands(pg.update(&[]));
    assert!(pg.key_pressed(Key::Space));
    assert!(!pg.key_just_pressed(Key::Space));
    assert!(pg.mouse_pressed(Button::Left));
    assert!(!pg.mouse_just_pressed(Button::Left));
    assert_eq!(pg.mouse_position(), (12, 34));
    assert_eq!(pg.mouse_wheel(), 3);
    assert_eq!(pg.mouse_wheel_delta(), 0);
    commands(pg.update(&[
        Event::KeyReleased { code: Key::Space },
        Event::MouseButtonReleased { button: Button::Left },
    ]));
    assert!(!pg.key_pressed(Key::Space));
    assert!(!pg.mouse_pressed(Button::Left));
}

#[test]
fn close_request_ends_the_frame_at_once() {
    let mut pg = window();
    pg.fill_color(Color::RED());
    pg.circle((1, 1), 1);
    let outcome = pg.update(&[
        Event::KeyPressed { code: Key::A },
        Event::Closed,
        Event::KeyPressed { code: Key::B },
    ]);
    assert_eq!(outcome, FrameOutcome::Exit);
    // the events up to the request were taken in, those after it were not
    assert!(pg.key_pressed(Key::A));
    assert!(!pg.key_pressed(Key::B));
    // nothing was drawn and the pen was not reset
    assert_eq!(pg.render_queue().len(), 1);
    assert_eq!(pg.render_parameter_state().fill_color, Color::RED());
}

#[test]
fn escape_ends_the_frame_at_once() {
    let mut pg = window();
    pg.line((0, 0), (1, 1));
    let outcome = pg.update(&[
        Event::MouseMoved { x: 7, y: 8 },
        Event::KeyPressed { code: Key::Escape },
        Event::MouseMoved { x: 9, y: 10 },
    ]);
    assert_eq!(outcome, FrameOutcome::Exit);
    assert!(pg.key_pressed(Key::Escape));
    assert!(pg.key_just_pressed(Key::Escape));
    assert_eq!(pg.mouse_position(), (7, 8));
    assert_eq!(pg.render_queue().len(), 1);
}

#[test]
fn escape_release_does_not_end_the_frame() {
    let mut pg = window();
    let outcome = pg.update(&[Event::KeyReleased { code: Key::Escape }]);
    assert_eq!(commands(outcome).len(), 2);
}

#[test]
fn update_events_and_update_draw_are_the_two_halves() {
    let mut pg = window();
    pg.fill_color(Color::RED());
    pg.circle((1, 1), 1);
    assert!(!pg.update_events(&[Event::KeyPressed { code: Key::A }]));
    assert!(pg.key_just_pressed(Key::A));
    assert_eq!(pg.render_queue().len(), 1);
    assert!(pg.update_events(&[Event::Closed, Event::KeyPressed { code: Key::B }]));
    assert!(pg.key_pressed(Key::A));
    assert!(!pg.key_just_pressed(Key::A));
    assert!(!pg.key_pressed(Key::B));
    let drawn = pg.update_draw();
    assert_eq!(drawn.len(), 3);
    assert_eq!(pg.render_queue().len(), 0);
    // drawing alone does not reset the pen
    assert_eq!(pg.render_parameter_state().fill_color, Color::RED());
}

#[test]
fn clock_readings_are_kept() {
    let mut pg = window();
    pg.update_clock(16_702, 1_000_000);
    assert_eq!(pg.deltatime(), 16_702);
    assert_eq!(pg.time(), 1_000_000);
    commands(pg.update(&[]));
    assert_eq!(pg.deltatime(), 16_702);
    assert_eq!(pg.time(), 1_000_000);
    pg.update_clock(33_000, 1_033_000);
    assert_eq!(pg.deltatime(), 33_000);
    assert_eq!(pg.time(), 1_033_000);
}
