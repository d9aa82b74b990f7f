//! What holds of every window, whatever is called on it: laws of the pen,
//! of the queue and of the frame.

use vstd::prelude::*;
use crate::color::Color;
use crate::font::Font;
use crate::input::{
    lemma_just_pressed_lasts_one_frame, lemma_just_pressed_only_in_frame_of_press, occurs,
};
use crate::key::{Event, Key};
use crate::render_parameters::{RenderParameterState, DEFAULT_FONT_SIZE};
use crate::shape::{ShapeView, TaskView};
use crate::texture::Texture;
use crate::window::{exit_requested, handled, WindowView};

verus! {

/// A call of one of the window's setters.
pub enum Setter {
    BackgroundColor(Color),
    FillColor(Color),
    OutlineColor(Color),
    LineColor(Color),
    FontColor(Color),
    FontSize(u32),
    Font(Option<Font>),
}

/// A call of one of the window's draw functions.
pub enum DrawCall {
    Circle { pos: (i32, i32), radius: u32 },
    Rectangle { pos: (i32, i32), width: u32, height: u32 },
    Square { pos: (i32, i32), size: u32 },
    Texture { pos: (i32, i32), texture: Texture, width: u32, height: u32 },
    TextureKeepingAspect { pos: (i32, i32), texture: Texture, width: u32 },
    Text { pos: (i32, i32), string: Seq<char> },
    Line { from: (i32, i32), to: (i32, i32) },
}

impl WindowView {
    /// The state after the setter call `setter`.
    pub open spec fn set(self, setter: Setter) -> WindowView {
        match setter {
            Setter::BackgroundColor(color) => self.with_background_color(color),
            Setter::FillColor(color) => self.with_fill_color(color),
            Setter::OutlineColor(color) => self.with_outline_color(color),
            Setter::LineColor(color) => self.with_line_color(color),
            Setter::FontColor(color) => self.with_font_color(color),
            Setter::FontSize(size) => self.with_font_size(size),
            Setter::Font(font) => self.with_font(font),
        }
    }

    /// The state after the setter calls `setters`, first to last.
    pub open spec fn set_all(self, setters: Seq<Setter>) -> WindowView
        decreases setters.len(),
    {
        if setters.len() == 0 {
            self
        } else {
            self.set_all(setters.drop_last()).set(setters.last())
        }
    }

    /// The state after the draw call `call`.
    pub open spec fn draw(self, call: DrawCall) -> WindowView {
        match call {
            DrawCall::Circle { pos, radius } => self.with_circle(pos, radius),
            DrawCall::Rectangle { pos, width, height } => self.with_rectangle(pos, width, height),
            DrawCall::Square { pos, size } => self.with_square(pos, size),
            DrawCall::Texture { pos, texture, width, height } => self.with_texture(
                pos,
                texture,
                width,
                height,
            ),
            DrawCall::TextureKeepingAspect { pos, texture, width } => self.with_texture_(
                pos,
                texture,
                width,
            ),
            DrawCall::Text { pos, string } => self.with_text(pos, string),
            DrawCall::Line { from, to } => self.with_line(from, to),
        }
    }

    /// Whether the draw call `call` would join the last task of the queue
    /// rather than make a task of its own.
    pub open spec fn joins(self, call: DrawCall) -> bool {
        call is Line && self.batches()
    }
}

/// Setter calls leave the queue as it is: no task that has been queued
/// sees a later change of the pen.
pub proof fn lemma_setters_keep_queue(window: WindowView, setters: Seq<Setter>)
    ensures
        window.set_all(setters).queue == window.queue,
    decreases setters.len(),
{
    if setters.len() > 0 {
        lemma_setters_keep_queue(window, setters.drop_last());
    }
}

/// A draw call leaves the pen as it is, and of every task that was queued
/// before it, it leaves the place and the captured settings as they are.
pub proof fn lemma_draw_keeps_snapshots(window: WindowView, call: DrawCall)
    ensures
        window.draw(call).pen == window.pen,
        window.draw(call).queue.len() >= window.queue.len(),
        forall|i: int|
            0 <= i < window.queue.len() ==> {
                &&& (#[trigger] window.draw(call).queue[i]).render_parameter_state
                    == window.queue[i].render_parameter_state
                &&& window.draw(call).queue[i].pos == window.queue[i].pos
            },
        forall|i: int|
            0 <= i < window.queue.len() - 1 ==> #[trigger] window.draw(call).queue[i]
                == window.queue[i],
{
}

/// Snapshot isolation: after any setter calls, a draw call captures the pen
/// as those calls left it, and no setter call after the draw call changes
/// what was captured.
///
/// A draw call that makes a task of its own gives that task the whole pen. A
/// line that joins the last task finds there the line colour of the pen,
/// which is all that lines are drawn with.
pub proof fn lemma_snapshot_isolation(
    window: WindowView,
    before: Seq<Setter>,
    call: DrawCall,
    after: Seq<Setter>,
)
    ensures
        ({
            let pen = window.set_all(before);
            let drawn = pen.draw(call);
            let later = drawn.set_all(after);
            &&& later.queue == drawn.queue
            &&& drawn.queue.len() > 0
            &&& drawn.queue.last().render_parameter_state.line_color == pen.pen.line_color
            &&& !pen.joins(call) ==> {
                &&& drawn.queue.len() == pen.queue.len() + 1
                &&& drawn.queue.last().render_parameter_state == pen.pen
            }
        }),
{
    let pen = window.set_all(before);
    lemma_setters_keep_queue(pen.draw(call), after);
}

/// A frame that runs to its end leaves the pen at its defaults: black fill,
/// no outline, black lines, black text of size 16. The font stays the one
/// that was selected before the frame.
pub proof fn lemma_frame_resets_pen(window: WindowView, events: Seq<Event>)
    requires
        !exit_requested(events),
    ensures
        window.after_frame(events).pen == (RenderParameterState {
            fill_color: Color::BLACK(),
            outline_color: Color::TRANSPARENT(),
            line_color: Color::BLACK(),
            font_color: Color::BLACK(),
            font_size: DEFAULT_FONT_SIZE,
            active_font: window.pen.active_font,
        }),
        window.after_frame(events).queue.len() == 0,
        window.after_frame(events).background_color == window.background_color,
{
}

/// Two lines in a row, with the pen untouched between them, end up in one
/// task, whose points end with the two ends of the first and the two ends
/// of the second. Where the first line made a task of its own, that task
/// holds exactly these four points.
pub proof fn lemma_lines_in_a_row_share_a_task(
    window: WindowView,
    a: (i32, i32),
    b: (i32, i32),
    c: (i32, i32),
    d: (i32, i32),
)
    ensures
        ({
            let one = window.with_line(a, b);
            let two = one.with_line(c, d);
            &&& two.queue.len() == one.queue.len()
            &&& two.queue.drop_last() == one.queue.drop_last()
            &&& two.queue.last() == (TaskView {
                shape: ShapeView::Lines {
                    coords: one.queue.last().shape->coords.push(c).push(d),
                },
                ..one.queue.last()
            })
            &&& !window.batches() ==> two.queue == window.queue.push(
                TaskView {
                    pos: (0, 0),
                    shape: ShapeView::Lines { coords: seq![a, b, c, d] },
                    render_parameter_state: window.pen,
                },
            )
        }),
{
    let one = window.with_line(a, b);
    let two = one.with_line(c, d);
    assert(one.batches());
    assert(two.queue.drop_last() =~= one.queue.drop_last());
    if !window.batches() {
        assert(seq![a, b].push(c).push(d) =~= seq![a, b, c, d]);
        assert(one.queue.drop_last() =~= window.queue);
    }
}

/// A change of the line colour between two lines parts them: the second
/// line makes a task of its own, with just its two ends and the new colour.
pub proof fn lemma_line_color_parts_lines(
    window: WindowView,
    a: (i32, i32),
    b: (i32, i32),
    color: Color,
    c: (i32, i32),
    d: (i32, i32),
)
    requires
        color != window.pen.line_color,
    ensures
        ({
            let one = window.with_line(a, b);
            let two = one.with_line_color(color).with_line(c, d);
            two.queue == one.queue.push(
                TaskView {
                    pos: (0, 0),
                    shape: ShapeView::Lines { coords: seq![c, d] },
                    render_parameter_state: RenderParameterState {
                        line_color: color,
                        ..window.pen
                    },
                },
            )
        }),
{
}

/// A key counts as just pressed after a frame only if a press of it was among
/// the events that the frame took in. After the next frame it no longer does,
/// unless that frame took in another press of it, even while the key is held.
pub proof fn lemma_key_just_pressed_for_one_frame(
    window: WindowView,
    first: Seq<Event>,
    second: Seq<Event>,
    key: Key,
)
    requires
        window.after_frame(first).input.keys_just_pressed.contains(key),
        !occurs(handled(second), Event::KeyPressed { code: key }),
    ensures
        occurs(handled(first), Event::KeyPressed { code: key }),
        !window.after_frame(first).after_frame(second).input.keys_just_pressed.contains(key),
        !occurs(handled(second), Event::KeyReleased { code: key }) ==> window.after_frame(
            first,
        ).after_frame(second).input.keys_down.contains(key),
{
    lemma_just_pressed_only_in_frame_of_press(window.input, handled(first), key);
    lemma_just_pressed_lasts_one_frame(window.input, handled(first), handled(second), key);
}

} // verus!
