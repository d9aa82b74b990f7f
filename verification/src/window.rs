//! The window: draw calls are queued, and once per frame the queue is turned
//! into commands for the screen while keyboard and mouse are brought up to
//! date.

use std::collections::VecDeque;
use vstd::prelude::*;
use crate::color::Color;
use crate::font::{font_store_add, init_default_font, init_font_store, Font, FontInfo, FontStore};
use crate::input::{InputState, InputView};
use crate::key::{Button, Event, Key};
use crate::render_parameters::RenderParameterState;
use crate::shape::{
    command_for, command_views, commands_for, frame_commands, task_views, CommandView,
    DrawCommand, RenderTask, ShapeView, Shapes, TaskView,
};
use crate::texture::{
    aspect_of, height_for, init_texture_array, texture_array_add, Texture, TextureInfo,
    TextureStore,
};

verus! {

/// The time between two frames that a new window reports until its clock
/// is first read: a sixtieth of a second, in microseconds.
pub const FIRST_DELTATIME: i64 = 16_667;

/// The core type of the library. All drawing and all keyboard and mouse
/// queries go through a `Window`.
///
/// Draw calls do not draw. Each appends a task to a queue, together with the
/// pen settings of that moment. [`Window::update`], to be called once per
/// frame, turns the queue into commands for the screen, takes in the input
/// events of the frame and resets the pen.
#[derive(Debug)]
pub struct Window {
    width: u32,
    height: u32,
    title: String,
    fullscreen: bool,
    input_state: InputState,
    render_queue: VecDeque<RenderTask>,
    background_color: Color,
    render_parameter_state: RenderParameterState,
    textures: TextureStore,
    fonts: FontStore,
    deltatime: i64,
    runtime: i64,
}

/// The state of a [`Window`].
pub struct WindowView {
    /// The size of the drawable area in pixels.
    pub width: u32,
    pub height: u32,
    pub title: Seq<char>,
    pub fullscreen: bool,
    pub input: InputView,
    /// The pending draw tasks, in the order in which they were issued.
    pub queue: Seq<TaskView>,
    pub background_color: Color,
    /// The pen: the settings that the next draw call captures.
    pub pen: RenderParameterState,
    /// The sizes of the loaded textures, by index.
    pub textures: Seq<TextureInfo>,
    /// The family names of the loaded fonts, by index.
    pub fonts: Seq<Seq<char>>,
    /// The family name of the default font, if there is one.
    pub default_font: Option<Seq<char>>,
    /// The time between the last two frames, in microseconds.
    pub deltatime: i64,
    /// The time since the window was created, in microseconds.
    pub runtime: i64,
}

/// What [`Window::update`] asks of its caller.
#[derive(Debug, PartialEq, Eq)]
pub enum FrameOutcome {
    /// The user asked for the end of the program. Nothing is to be drawn.
    Exit,
    /// The frame is to be drawn by carrying out `commands`, first to last.
    Present { commands: Vec<DrawCommand> },
}

/// Whether one of `events` asks the program to end.
pub open spec fn exit_requested(events: Seq<Event>) -> bool {
    exists|i: int| 0 <= i < events.len() && (#[trigger] events[i]).requests_exit()
}

/// How many of `events` are taken in: all up to the first that asks the
/// program to end, that one included, and all of them if none does.
pub open spec fn handled_len(events: Seq<Event>) -> nat
    decreases events.len(),
{
    if events.len() == 0 {
        0
    } else if events[0].requests_exit() {
        1
    } else {
        1 + handled_len(events.skip(1))
    }
}

/// The events of `events` that are taken in.
pub open spec fn handled(events: Seq<Event>) -> Seq<Event> {
    events.take(handled_len(events) as int)
}

/// Where the first `count` events do not ask the program to end and the
/// next one does, or there is no next one, it is those that are taken in,
/// and that next one.
pub proof fn lemma_handled_len(events: Seq<Event>, count: int)
    requires
        0 <= count <= events.len(),
        forall|j: int| 0 <= j < count ==> !(#[trigger] events[j]).requests_exit(),
        count < events.len() ==> events[count].requests_exit(),
    ensures
        handled_len(events) == if count < events.len() {
            count + 1
        } else {
            count
        },
        exit_requested(events) == (count < events.len()),
    decreases count,
{
    if count > 0 {
        let rest = events.skip(1);
        assert forall|j: int| 0 <= j < count - 1 implies !(#[trigger] rest[j]).requests_exit() by {
            assert(rest[j] == events[j + 1]);
        }
        lemma_handled_len(rest, count - 1);
    }
}

impl WindowView {
    /// The state of a window that has just been created: nothing queued,
    /// nothing loaded, nothing pressed, a light gray background and the
    /// default pen.
    pub open spec fn created(
        width: u32,
        height: u32,
        title: Seq<char>,
        fullscreen: bool,
        default_font: Option<Seq<char>>,
    ) -> WindowView {
        WindowView {
            width,
            height,
            title,
            fullscreen,
            input: InputView::initial(),
            queue: Seq::empty(),
            background_color: Color::LIGHT_GRAY(),
            pen: RenderParameterState::spec_default(),
            textures: Seq::empty(),
            fonts: Seq::empty(),
            default_font,
            deltatime: FIRST_DELTATIME,
            runtime: 0,
        }
    }

    /// Whether `texture` refers to a loaded texture.
    pub open spec fn holds_texture(self, texture: Texture) -> bool {
        texture.index < self.textures.len()
    }

    /// Whether `font` is the default font or refers to a loaded font.
    pub open spec fn holds_font(self, font: Option<Font>) -> bool {
        font matches Some(loaded) ==> loaded.index < self.fonts.len()
    }

    /// Whether `task` refers to loaded textures and fonts only and, if it is
    /// a task of lines, holds one or more whole segments.
    pub open spec fn admits(self, task: TaskView) -> bool {
        &&& self.holds_font(task.render_parameter_state.active_font)
        &&& match task.shape {
            ShapeView::Texture { texture, .. } => self.holds_texture(texture),
            ShapeView::Text { font, .. } => self.holds_font(font),
            ShapeView::Lines { coords } => coords.len() >= 2 && coords.len() % 2 == 0,
            _ => true,
        }
    }

    /// Whether `command` refers to loaded textures and fonts only.
    pub open spec fn can_run(self, command: CommandView) -> bool {
        match command {
            CommandView::Texture { texture, .. } => self.holds_texture(texture),
            CommandView::Text { font, .. } => self.holds_font(font) && (font is None
                ==> self.default_font is Some),
            _ => true,
        }
    }

    /// What holds of every window: the pen's font is loaded, and so is
    /// whatever the queued tasks refer to.
    pub open spec fn valid(self) -> bool {
        &&& self.holds_font(self.pen.active_font)
        &&& forall|i: int| 0 <= i < self.queue.len() ==> self.admits(#[trigger] self.queue[i])
    }

    /// The state after the background colour has been set.
    pub open spec fn with_background_color(self, color: Color) -> WindowView {
        WindowView { background_color: color, ..self }
    }

    /// The state after the fill colour of the pen has been set.
    pub open spec fn with_fill_color(self, color: Color) -> WindowView {
        WindowView { pen: RenderParameterState { fill_color: color, ..self.pen }, ..self }
    }

    /// The state after the outline colour of the pen has been set.
    pub open spec fn with_outline_color(self, color: Color) -> WindowView {
        WindowView { pen: RenderParameterState { outline_color: color, ..self.pen }, ..self }
    }

    /// The state after the line colour of the pen has been set.
    pub open spec fn with_line_color(self, color: Color) -> WindowView {
        WindowView { pen: RenderParameterState { line_color: color, ..self.pen }, ..self }
    }

    /// The state after the font colour of the pen has been set.
    pub open spec fn with_font_color(self, color: Color) -> WindowView {
        WindowView { pen: RenderParameterState { font_color: color, ..self.pen }, ..self }
    }

    /// The state after the font size of the pen has been set.
    pub open spec fn with_font_size(self, size: u32) -> WindowView {
        WindowView { pen: RenderParameterState { font_size: size, ..self.pen }, ..self }
    }

    /// The state after the font of the pen has been selected.
    pub open spec fn with_font(self, font: Option<Font>) -> WindowView {
        WindowView { pen: RenderParameterState { active_font: font, ..self.pen }, ..self }
    }

    /// The state after a task of the given shape has been appended to the
    /// queue, with the pen as it is now.
    pub open spec fn enqueue(self, pos: (i32, i32), shape: ShapeView) -> WindowView {
        WindowView {
            queue: self.queue.push(TaskView { pos, shape, render_parameter_state: self.pen }),
            ..self
        }
    }

    /// The state after a circle has been queued.
    pub open spec fn with_circle(self, pos: (i32, i32), radius: u32) -> WindowView {
        self.enqueue(pos, ShapeView::Circle { radius })
    }

    /// The state after a rectangle has been queued.
    pub open spec fn with_rectangle(self, pos: (i32, i32), width: u32, height: u32) -> WindowView {
        self.enqueue(pos, ShapeView::Rectangle { width, height })
    }

    /// The state after a square has been queued: a rectangle as wide as high.
    pub open spec fn with_square(self, pos: (i32, i32), size: u32) -> WindowView {
        self.enqueue(pos, ShapeView::Rectangle { width: size, height: size })
    }

    /// The state after a texture of the given size has been queued.
    pub open spec fn with_texture(
        self,
        pos: (i32, i32),
        texture: Texture,
        width: u32,
        height: u32,
    ) -> WindowView {
        self.enqueue(pos, ShapeView::Texture { texture, width, height })
    }

    /// The height at which the loaded texture `texture` keeps its aspect
    /// ratio when drawn `width` wide.
    pub open spec fn height_of(self, texture: Texture, width: u32) -> u32 {
        height_for(aspect_of(self.textures[texture.index as int]), width)
    }

    /// The state after a texture of the given width has been queued, as high as
    /// its aspect ratio asks.
    pub open spec fn with_texture_(self, pos: (i32, i32), texture: Texture, width: u32) -> WindowView {
        self.with_texture(pos, texture, width, self.height_of(texture, width))
    }

    /// The state after a text has been queued, in the font of the pen.
    pub open spec fn with_text(self, pos: (i32, i32), string: Seq<char>) -> WindowView {
        self.enqueue(pos, ShapeView::Text { string, font: self.pen.active_font })
    }

    /// Whether the next line joins the last task of the queue: that task
    /// is one of lines, and its line colour is the pen's.
    pub open spec fn batches(self) -> bool {
        &&& self.queue.len() > 0
        &&& self.queue.last().shape is Lines
        &&& self.queue.last().render_parameter_state.line_color == self.pen.line_color
    }

    /// The state after a line from `from` to `to`: its two ends are appended
    /// to the last task where the line joins it, and make a new task where
    /// it does not.
    pub open spec fn with_line(self, from: (i32, i32), to: (i32, i32)) -> WindowView {
        if self.batches() {
            let tail = self.queue.last();
            WindowView {
                queue: self.queue.drop_last().push(
                    TaskView {
                        shape: ShapeView::Lines { coords: tail.shape->coords.push(from).push(to) },
                        ..tail
                    },
                ),
                ..self
            }
        } else {
            self.enqueue((0, 0), ShapeView::Lines { coords: seq![from, to] })
        }
    }

    /// The state after the events of a frame have been taken in.
    pub open spec fn after_events(self, events: Seq<Event>) -> WindowView {
        WindowView { input: self.input.frame(handled(events)), ..self }
    }

    /// The state after the queue has been turned into commands.
    pub open spec fn after_draw(self) -> WindowView {
        WindowView { queue: Seq::empty(), ..self }
    }

    /// The state after a frame. Where one of the events asks the program to
    /// end, the frame stops there: the events up to that one are taken in
    /// and nothing else changes. Otherwise all events are taken in, the
    /// queue is emptied and the pen starts afresh, keeping its font.
    pub open spec fn after_frame(self, events: Seq<Event>) -> WindowView {
        if exit_requested(events) {
            self.after_events(events)
        } else {
            WindowView { pen: self.pen.frame_start(), ..self.after_events(events).after_draw() }
        }
    }

    /// The state after the clock has been read.
    pub open spec fn with_clock(self, frame_micros: i64, run_micros: i64) -> WindowView {
        WindowView { deltatime: frame_micros, runtime: run_micros, ..self }
    }

    /// The state after an attempt to load a texture, which gave `decoded`.
    pub open spec fn with_loaded_texture(self, decoded: Option<TextureInfo>) -> WindowView {
        match decoded {
            Some(info) => WindowView { textures: self.textures.push(info), ..self },
            None => self,
        }
    }

    /// The state after an attempt to load a font, which gave a font of the
    /// family `decoded`, or none.
    pub open spec fn with_loaded_font(self, decoded: Option<Seq<char>>) -> WindowView {
        match decoded {
            Some(family) => WindowView { fonts: self.fonts.push(family), ..self },
            None => self,
        }
    }
}

/// The family name of a font that may be there.
pub open spec fn family_of(font: Option<FontInfo>) -> Option<Seq<char>> {
    match font {
        Some(info) => Some(info@),
        None => None,
    }
}

impl View for Window {
    type V = WindowView;

    closed spec fn view(&self) -> WindowView {
        WindowView {
            width: self.width,
            height: self.height,
            title: self.title@,
            fullscreen: self.fullscreen,
            input: self.input_state@,
            queue: task_views(self.render_queue@),
            background_color: self.background_color,
            pen: self.render_parameter_state,
            textures: match self.textures@ {
                Some(entries) => entries,
                None => Seq::empty(),
            },
            fonts: match self.fonts@.fonts {
                Some(names) => names,
                None => Seq::empty(),
            },
            default_font: self.fonts@.default_font,
            deltatime: self.deltatime,
            runtime: self.runtime,
        }
    }
}

impl Window {
    /// Whether the stores are ready for use.
    closed spec fn ready(&self) -> bool {
        &&& self.textures.initialized()
        &&& self.fonts.initialized()
        &&& self.fonts@.default_tried
    }

    /// What holds of every window that this library hands out, and is kept
    /// by every call: see [`WindowView::valid`].
    pub closed spec fn wf(&self) -> bool {
        self.ready() && self@.valid()
    }

    /// Every window that this library hands out is valid.
    pub proof fn lemma_wf_valid(&self)
        requires
            self.wf(),
        ensures
            self@.valid(),
    {
    }

    fn create(
        width: u32,
        height: u32,
        title: String,
        fullscreen: bool,
        default_font: Option<FontInfo>,
    ) -> (window: Window)
        ensures
            window.wf(),
            window@ == WindowView::created(
                width,
                height,
                title@,
                fullscreen,
                family_of(default_font),
            ),
    {
        let mut textures = TextureStore::new();
        init_texture_array(&mut textures);
        let mut fonts = FontStore::new();
        init_default_font(&mut fonts, default_font);
        init_font_store(&mut fonts);
        let window = Window {
            width,
            height,
            title,
            fullscreen,
            input_state: InputState::new(),
            render_queue: VecDeque::new(),
            background_color: Color::LIGHT_GRAY(),
            render_parameter_state: Default::default(),
            textures,
            fonts,
            deltatime: FIRST_DELTATIME,
            runtime: 0,
        };
        assert(task_views(window.render_queue@) =~= Seq::empty());
        window
    }

    /// Create a window of size `(width, height)` with the title `name`.
    ///
    /// `default_font` is the built-in font as it was decoded, or `None` if it
    /// could not be decoded; text in the default font is then not drawn.
    pub fn new(width: u32, height: u32, name: &str, default_font: Option<FontInfo>) -> (window:
        Window)
        ensures
            window.wf(),
            window@ == WindowView::created(
                width,
                height,
                name@,
                false,
                family_of(default_font),
            ),
    {
        Window::create(width, height, name.to_owned(), false, default_font)
    }

    /// Create a fullscreen window on a display of size `(width, height)`.
    /// It has no title.
    ///
    /// `default_font` is the built-in font as it was decoded, or `None` if it
    /// could not be decoded; text in the default font is then not drawn.
    pub fn new_fullscreen(width: u32, height: u32, default_font: Option<FontInfo>) -> (window:
        Window)
        ensures
            window.wf(),
            window@ == WindowView::created(
                width,
                height,
                Seq::empty(),
                true,
                family_of(default_font),
            ),
    {
        Window::create(width, height, String::new(), true, default_font)
    }

    /// One frame. To be called once per frame with the input events that
    /// have come in since the last call, oldest first.
    ///
    /// The events are taken in one by one. If one of them asks the program to
    /// end, the frame stops at that event: the result is
    /// [`FrameOutcome::Exit`], and queue and pen are left as they are.
    /// Otherwise the queue is emptied into the commands of the result, which
    /// clear the window, draw the queued tasks in the order in which they were
    /// issued and show the frame; and the pen returns to its defaults, but for
    /// the font, which stays.
    pub fn update(&mut self, events: &[Event]) -> (outcome: FrameOutcome)
        requires
            old(self).wf(),
        ensures
            final(self).wf(),
            final(self)@ == old(self)@.after_frame(events@),
            match outcome {
                FrameOutcome::Exit => exit_requested(events@),
                FrameOutcome::Present { commands } => {
                    &&& !exit_requested(events@)
                    &&& command_views(commands@) == frame_commands(
                        old(self)@.background_color,
                        old(self)@.queue,
                        old(self)@.default_font is Some,
                    )
                    &&& forall|i: int|
                        0 <= i < commands.len() ==> old(self)@.can_run(#[trigger] commands[i]@)
                },
            },
    {
        if self.update_events(events) {
            return FrameOutcome::Exit;
        }
        let commands = self.update_draw();
        self.render_parameter_state = self.render_parameter_state.frame_start();
        FrameOutcome::Present { commands }
    }

    /// Take in the events of a frame: forget what happened within the last
    /// frame, then handle the events one by one, up to the first that asks
    /// the program to end. Returns whether one did.
    pub fn update_events(&mut self, events: &[Event]) -> (exit: bool)
        requires
            old(self).wf(),
        ensures
            final(self).wf(),
            final(self)@ == old(self)@.after_events(events@),
            exit == exit_requested(events@),
    {
        let ghost before = self@;
        self.input_state.clear();
        let mut i: usize = 0;
        while i < events.len()
            invariant
                i <= events.len(),
                forall|j: int| 0 <= j < i ==> !(#[trigger] events@[j]).requests_exit(),
                self.ready(),
                before.valid(),
                before == old(self)@,
                self@ == (WindowView {
                    input: before.input.cleared().after_all(events@.take(i as int)),
                    ..before
                }),
            decreases events.len() - i,
        {
            let event = events[i];
            self.input_state.handle_event(event);
            proof {
                let taken = events@.take(i + 1);
                assert(taken.drop_last() =~= events@.take(i as int));
            }
            if event.requests_exit() {
                proof {
                    lemma_handled_len(events@, i as int);
                }
                return true;
            }
            i += 1;
        }
        proof {
            lemma_handled_len(events@, i as int);
        }
        false
    }

    /// Turn the queue into the commands of a frame and empty it: clear the
    /// window to the background colour, draw each task in the order in which
    /// it was issued, show the frame. A text in the default font is left out
    /// where there is no default font.
    ///
    /// The commands refer to loaded textures and fonts only.
    pub fn update_draw(&mut self) -> (commands: Vec<DrawCommand>)
        requires
            old(self).wf(),
        ensures
            final(self).wf(),
            final(self)@ == old(self)@.after_draw(),
            command_views(commands@) == frame_commands(
                old(self)@.background_color,
                old(self)@.queue,
                old(self)@.default_font is Some,
            ),
            forall|i: int| 0 <= i < commands.len() ==> old(self)@.can_run(#[trigger] commands[i]@),
    {
        let ghost before = self@;
        let ghost tasks = before.queue;
        let has_default_font = self.has_default_font();
        let mut commands: Vec<DrawCommand> = Vec::new();
        commands.push(DrawCommand::Clear { color: self.background_color });
        let ghost mut done: int = 0;
        assert(tasks.skip(0) =~= tasks);
        while self.render_queue.len() > 0
            invariant
                0 <= done <= tasks.len(),
                before.valid(),
                has_default_font == (before.default_font is Some),
                self.ready(),
                self@ == (WindowView { queue: tasks.skip(done), ..before }),
                tasks == before.queue,
                command_views(commands@) == seq![
                    CommandView::Clear { color: before.background_color },
                ] + commands_for(tasks.take(done), has_default_font),
                forall|i: int| 0 <= i < commands.len() ==> before.can_run(#[trigger] commands[i]@),
            decreases self.render_queue.len(),
        {
            let ghost queued = self.render_queue@;
            let task = self.render_queue.pop_front().unwrap();
            proof {
                assert(task_views(queued)[0] == queued[0]@);
                assert(task_views(self.render_queue@) =~= task_views(queued).skip(1));
                assert(tasks.skip(done).skip(1) =~= tasks.skip(done + 1));
                assert(tasks.take(done + 1).drop_last() =~= tasks.take(done));
            }
            let ghost drawn = command_views(commands@);
            match task.into_command(has_default_font) {
                Some(command) => {
                    commands.push(command);
                    assert(command_views(commands@) =~= drawn.push(command@));
                },
                None => {},
            }
            proof {
                done = done + 1;
            }
        }
        proof {
            assert(tasks.skip(done) =~= Seq::empty());
        }
        commands.push(DrawCommand::Display);
        commands
    }

    /// Record the clock after a frame has been shown: `frame_micros` is the
    /// time since the frame before it was shown, `run_micros` the time since
    /// the window was created, both in microseconds.
    pub fn update_clock(&mut self, frame_micros: i64, run_micros: i64)
        requires
            old(self).wf(),
        ensures
            final(self).wf(),
            final(self)@ == old(self)@.with_clock(frame_micros, run_micros),
    {
        self.deltatime = frame_micros;
        self.runtime = run_micros;
    }

    /// Set the background colour of the window.
    /// The background colour does _not_ reset at the beginning of a new frame.
    /// Its initial value is [`Color::LIGHT_GRAY`].
    pub fn background_color(&mut self, color: Color)
        requires
            old(self).wf(),
        ensures
            final(self).wf(),
            final(self)@ == old(self)@.with_background_color(color),
    {
        self.background_color = color;
    }

    /// Set the fill colour for drawing shapes like [`Window::circle`].
    /// It is reset at the beginning of a new frame to [`Color::BLACK`].
    pub fn fill_color(&mut self, color: Color)
        requires
            old(self).wf(),
        ensures
            final(self).wf(),
            final(self)@ == old(self)@.with_fill_color(color),
    {
        self.render_parameter_state.fill_color = color;
    }

    /// Set the outline colour for drawing shapes like [`Window::circle`].
    /// It is reset at the beginning of a new frame to [`Color::TRANSPARENT`].
    pub fn outline_color(&mut self, color: Color)
        requires
            old(self).wf(),
        ensures
            final(self).wf(),
            final(self)@ == old(self)@.with_outline_color(color),
    {
        self.render_parameter_state.outline_color = color;
    }

    /// Set the colour for drawing lines with [`Window::line`].
    /// It is reset at the beginning of a new frame to [`Color::BLACK`].
    pub fn line_color(&mut self, color: Color)
        requires
            old(self).wf(),
        ensures
            final(self).wf(),
            final(self)@ == old(self)@.with_line_color(color),
    {
        self.render_parameter_state.line_color = color;
    }

    /// Set the colour for drawing text with [`Window::text`].
    /// It is reset at the beginning of a new frame to [`Color::BLACK`].
    pub fn font_color(&mut self, color: Color)
        requires
            old(self).wf(),
        ensures
            final(self).wf(),
            final(self)@ == old(self)@.with_font_color(color),
    {
        self.render_parameter_state.font_color = color;
    }

    /// Set the font size for drawing text with [`Window::text`].
    /// It is reset at the beginning of a new frame to 16.
    pub fn font_size(&mut self, size: u32)
        requires
            old(self).wf(),
        ensures
            final(self).wf(),
            final(self)@ == old(self)@.with_font_size(size),
    {
        self.render_parameter_state.font_size = size;
    }

    /// Set the font for drawing text with [`Window::text`]: a font that
    /// [`Window::load_font`] gave, or `None` for the default font.
    /// The font does _not_ reset at the beginning of a new frame.
    pub fn font(&mut self, font: Option<Font>)
        requires
            old(self).wf(),
            old(self)@.holds_font(font),
        ensures
            final(self).wf(),
            final(self)@ == old(self)@.with_font(font),
    {
        self.render_parameter_state.active_font = font;
    }

    /// Append a task of the given shape, with the pen as it is now.
    fn enqueue(&mut self, pos: (i32, i32), shape: Shapes)
        requires
            old(self).wf(),
            old(self)@.admits(
                TaskView { pos, shape: shape@, render_parameter_state: old(self)@.pen },
            ),
        ensures
            final(self).wf(),
            final(self)@ == old(self)@.enqueue(pos, shape@),
    {
        let ghost queued = self.render_queue@;
        let task = RenderTask { pos, shape, render_parameter_state: self.render_parameter_state };
        self.render_queue.push_back(task);
        assert(task_views(self.render_queue@) =~= task_views(queued).push(task@));
    }

    /// Draw a circle at position `pos` with radius `radius`.
    /// The origin of the circle is at its centre.
    pub fn circle(&mut self, pos: (i32, i32), radius: u32)
        requires
            old(self).wf(),
        ensures
            final(self).wf(),
            final(self)@ == old(self)@.with_circle(pos, radius),
    {
        self.enqueue(pos, Shapes::Circle { radius });
    }

    /// Draw a rectangle at position `pos` with width and height of `(width, height)`.
    /// The origin of the rectangle is at its top left.
    pub fn rectangle(&mut self, pos: (i32, i32), width: u32, height: u32)
        requires
            old(self).wf(),
        ensures
            final(self).wf(),
            final(self)@ == old(self)@.with_rectangle(pos, width, height),
    {
        self.enqueue(pos, Shapes::Rectangle { width, height });
    }

    /// Draw a square at position `pos` with a width and height of `size`.
    /// The origin of the square is at its top left.
    pub fn square(&mut self, pos: (i32, i32), size: u32)
        requires
            old(self).wf(),
        ensures
            final(self).wf(),
            final(self)@ == old(self)@.with_square(pos, size),
    {
        self.enqueue(pos, Shapes::Rectangle { width: size, height: size });
    }

    /// Draw the texture `texture` at position `pos` with width and height of
    /// `(width, height)`. The origin of the texture is at its top left.
    /// `texture` is a handle that [`Window::load_texture`] gave.
    pub fn texture(&mut self, pos: (i32, i32), texture: Texture, width: u32, height: u32)
        requires
            old(self).wf(),
            old(self)@.holds_texture(texture),
        ensures
            final(self).wf(),
            final(self)@ == old(self)@.with_texture(pos, texture, width, height),
    {
        self.enqueue(pos, Shapes::Texture { texture, width, height });
    }

    /// Draw the texture `texture` at position `pos` with width of `width`,
    /// and height according to the aspect ratio of the texture: `width`
    /// divided by the ratio, and zero for a texture whose ratio is zero.
    /// The origin of the texture is at its top left.
    /// `texture` is a handle that [`Window::load_texture`] gave.
    pub fn texture_(&mut self, pos: (i32, i32), texture: Texture, width: u32)
        requires
            old(self).wf(),
            old(self)@.holds_texture(texture),
        ensures
            final(self).wf(),
            final(self)@ == old(self)@.with_texture_(pos, texture, width),
    {
        let height: u32 = texture.height_at(&self.textures, width);
        self.enqueue(pos, Shapes::Texture { texture, width, height });
    }

    /// Draw the text `string` at position `pos`, in the font, the font size
    /// and the font colour of the pen.
    /// The origin of the text is at its top left.
    pub fn text(&mut self, pos: (i32, i32), string: &str)
        requires
            old(self).wf(),
        ensures
            final(self).wf(),
            final(self)@ == old(self)@.with_text(pos, string@),
    {
        let font = self.render_parameter_state.active_font;
        self.enqueue(pos, Shapes::Text { string: string.to_owned(), font });
    }

    /// Draw a line from position `from` to position `to`, in the line colour
    /// of the pen.
    ///
    /// Where the task that was queued last is one of lines in the same colour,
    /// the line joins it. Otherwise it makes a new task.
    pub fn line(&mut self, from: (i32, i32), to: (i32, i32))
        requires
            old(self).wf(),
        ensures
            final(self).wf(),
            final(self)@ == old(self)@.with_line(from, to),
    {
        if self.tail_takes_line() {
            let ghost queued = self.render_queue@;
            let RenderTask { pos, shape, render_parameter_state } =
                self.render_queue.pop_back().unwrap();
            let ghost earlier = self.render_queue@;
            let joined = match shape {
                Shapes::Lines { coords } => {
                    let mut coords = coords;
                    coords.push(from);
                    coords.push(to);
                    Shapes::Lines { coords }
                },
                other => other,
            };
            let task = RenderTask { pos, shape: joined, render_parameter_state };
            self.render_queue.push_back(task);
            proof {
                assert(task_views(earlier) =~= task_views(queued).drop_last());
                assert(task_views(self.render_queue@) =~= task_views(earlier).push(task@));
                let after = self@;
                assert forall|i: int| 0 <= i < after.queue.len() implies after.admits(
                    #[trigger] after.queue[i],
                ) by {
                    if i < after.queue.len() - 1 {
                        assert(after.queue[i] == old(self)@.queue[i]);
                    }
                }
            }
        } else {
            let mut coords: Vec<(i32, i32)> = Vec::new();
            coords.push(from);
            coords.push(to);
            assert(coords@ =~= seq![from, to]);
            self.enqueue((0, 0), Shapes::Lines { coords });
        }
    }

    /// Whether the next line joins the task that was queued last.
    fn tail_takes_line(&self) -> (joins: bool)
        ensures
            joins == self@.batches(),
    {
        let n: usize = self.render_queue.len();
        if n == 0 {
            return false;
        }
        let tail = &self.render_queue[n - 1];
        match &tail.shape {
            Shapes::Lines { .. } => tail.render_parameter_state.line_color
                == self.render_parameter_state.line_color,
            _ => false,
        }
    }

    /// Whether the keyboard key `key` is currently held pressed.
    pub fn key_pressed(&self, key: Key) -> (pressed: bool)
        ensures
            pressed == self@.input.keys_down.contains(key),
    {
        self.input_state.key_pressed(key)
    }

    /// Whether the keyboard key `key` has just been pressed in this frame.
    pub fn key_just_pressed(&self, key: Key) -> (pressed: bool)
        ensures
            pressed == self@.input.keys_just_pressed.contains(key),
    {
        self.input_state.key_just_pressed(key)
    }

    /// Whether the mouse button `button` is currently held pressed.
    pub fn mouse_pressed(&self, button: Button) -> (pressed: bool)
        ensures
            pressed == self@.input.buttons_down.contains(button),
    {
        self.input_state.mouse_pressed(button)
    }

    /// Whether the mouse button `button` has just been pressed in this frame.
    pub fn mouse_just_pressed(&self, button: Button) -> (pressed: bool)
        ensures
            pressed == self@.input.buttons_just_pressed.contains(button),
    {
        self.input_state.mouse_just_pressed(button)
    }

    /// The current mouse position inside the window, in pixels from its top left.
    pub fn mouse_position(&self) -> (position: (i32, i32))
        ensures
            position == self@.input.mouse_position,
    {
        self.input_state.mouse_position()
    }

    /// The current cumulative scroll wheel state of the mouse.
    pub fn mouse_wheel(&self) -> (total: i64)
        ensures
            total == self@.input.mouse_wheel,
    {
        self.input_state.mouse_wheel()
    }

    /// How much the scroll wheel has been scrolled in this frame.
    pub fn mouse_wheel_delta(&self) -> (delta: i32)
        ensures
            delta == self@.input.mouse_wheel_delta,
    {
        self.input_state.mouse_wheel_delta()
    }

    /// The width of the window, or the width of the screen in fullscreen mode.
    pub fn width(&self) -> (pixels: u32)
        ensures
            pixels == self@.width,
    {
        self.width
    }

    /// The height of the window, or the height of the screen in fullscreen mode.
    pub fn height(&self) -> (pixels: u32)
        ensures
            pixels == self@.height,
    {
        self.height
    }

    /// The time since the window has been created, in microseconds, as of
    /// the last frame.
    pub fn time(&self) -> (micros: i64)
        ensures
            micros == self@.runtime,
    {
        self.runtime
    }

    /// How much time has passed between the last two frames, in microseconds.
    pub fn deltatime(&self) -> (micros: i64)
        ensures
            micros == self@.deltatime,
    {
        self.deltatime
    }

    /// The title of the window.
    pub fn title(&self) -> (title: &str)
        ensures
            title@ == self@.title,
    {
        self.title.as_str()
    }

    /// Whether the window covers the whole screen.
    pub fn is_fullscreen(&self) -> (fullscreen: bool)
        ensures
            fullscreen == self@.fullscreen,
    {
        self.fullscreen
    }

    /// The background colour.
    pub fn background(&self) -> (color: Color)
        ensures
            color == self@.background_color,
    {
        self.background_color
    }

    /// The pen as it is now.
    pub fn render_parameter_state(&self) -> (pen: RenderParameterState)
        ensures
            pen == self@.pen,
    {
        self.render_parameter_state
    }

    /// The pending draw tasks, in the order in which they were issued.
    pub fn render_queue(&self) -> (queue: &VecDeque<RenderTask>)
        ensures
            task_views(queue@) == self@.queue,
    {
        &self.render_queue
    }

    /// Whether there is a default font.
    pub fn has_default_font(&self) -> (has: bool)
        ensures
            has == (self@.default_font is Some),
    {
        crate::font::default_font(&self.fonts).is_some()
    }

    /// The store of the loaded textures.
    pub fn texture_store(&self) -> (store: &TextureStore)
        requires
            self.wf(),
        ensures
            store@ == Some(self@.textures),
    {
        &self.textures
    }

    /// The store of the loaded fonts.
    pub fn font_store(&self) -> (store: &FontStore)
        requires
            self.wf(),
        ensures
            store@.fonts == Some(self@.fonts),
            store@.default_font == self@.default_font,
    {
        &self.fonts
    }

    /// Take in the outcome of decoding an image: `decoded` is the size of the
    /// image, or `None` if it could not be read or decoded.
    ///
    /// A decoded image is added to the loaded textures, and the result is
    /// its handle, which can be passed to [`Window::texture`]. Where there is
    /// none the result is `None`, and nothing changes.
    pub fn load_texture(&mut self, decoded: Option<TextureInfo>) -> (handle: Option<Texture>)
        requires
            old(self).wf(),
        ensures
            final(self).wf(),
            final(self)@ == old(self)@.with_loaded_texture(decoded),
            handle == (match decoded {
                Some(_) => Some(Texture { index: old(self)@.textures.len() as usize }),
                None => None,
            }),
            handle matches Some(texture) ==> final(self)@.holds_texture(texture),
    {
        match decoded {
            Some(info) => texture_array_add(&mut self.textures, info),
            None => None,
        }
    }

    /// Take in the outcome of decoding a font: `decoded` is the font, or
    /// `None` if it could not be read or decoded.
    ///
    /// A decoded font is added to the loaded fonts, and the result is its
    /// handle, which can be passed to [`Window::font`]. Where there is none
    /// the result is `None`, and nothing changes.
    pub fn load_font(&mut self, decoded: Option<FontInfo>) -> (handle: Option<Font>)
        requires
            old(self).wf(),
        ensures
            final(self).wf(),
            final(self)@ == old(self)@.with_loaded_font(family_of(decoded)),
            handle == (match decoded {
                Some(_) => Some(Font { index: old(self)@.fonts.len() as usize }),
                None => None,
            }),
            handle matches Some(font) ==> final(self)@.holds_font(Some(font)),
    {
        match decoded {
            Some(info) => font_store_add(&mut self.fonts, info),
            None => None,
        }
    }
}

} // verus!
