//! Pending draw operations, and the commands that a frame turns them into.

use vstd::prelude::*;
use crate::color::Color;
use crate::font::Font;
use crate::render_parameters::RenderParameterState;
use crate::texture::Texture;

verus! {

/// What is to be drawn. Lengths and positions are in pixels.
#[derive(Debug, PartialEq, Eq)]
pub enum Shapes {
    Circle { radius: u32 },
    Rectangle { width: u32, height: u32 },
    Texture { texture: Texture, width: u32, height: u32 },
    /// `font` is the font that was selected when the text was issued; `None`
    /// stands for the default font.
    Text { string: String, font: Option<Font> },
    /// Line segments: each two consecutive points are the ends of one.
    Lines { coords: Vec<(i32, i32)> },
}

/// A [`Shapes`] value, with its text and its points as sequences.
pub enum ShapeView {
    Circle { radius: u32 },
    Rectangle { width: u32, height: u32 },
    Texture { texture: Texture, width: u32, height: u32 },
    Text { string: Seq<char>, font: Option<Font> },
    Lines { coords: Seq<(i32, i32)> },
}

impl View for Shapes {
    type V = ShapeView;

    open spec fn view(&self) -> ShapeView {
        match *self {
            Shapes::Circle { radius } => ShapeView::Circle { radius },
            Shapes::Rectangle { width, height } => ShapeView::Rectangle { width, height },
            Shapes::Texture { texture, width, height } => ShapeView::Texture {
                texture,
                width,
                height,
            },
            Shapes::Text { string, font } => ShapeView::Text { string: string@, font },
            Shapes::Lines { coords } => ShapeView::Lines { coords: coords@ },
        }
    }
}

/// One pending draw operation: where, what, and the settings that were in
/// force when it was issued.
///
/// `pos` is the centre of a circle and the top left corner of a rectangle, a
/// texture or a text. Lines carry their own points; their `pos` is the origin.
#[derive(Debug, PartialEq, Eq)]
pub struct RenderTask {
    pub pos: (i32, i32),
    pub shape: Shapes,
    pub render_parameter_state: RenderParameterState,
}

/// A [`RenderTask`], with its shape as a [`ShapeView`].
pub struct TaskView {
    pub pos: (i32, i32),
    pub shape: ShapeView,
    pub render_parameter_state: RenderParameterState,
}

impl View for RenderTask {
    type V = TaskView;

    open spec fn view(&self) -> TaskView {
        TaskView {
            pos: self.pos,
            shape: self.shape@,
            render_parameter_state: self.render_parameter_state,
        }
    }
}

/// One instruction to whatever puts pixels on the screen.
#[derive(Debug, PartialEq, Eq)]
pub enum DrawCommand {
    /// Fill the whole window with `color`.
    Clear { color: Color },
    /// A circle of the given radius, placed so that the point `origin`,
    /// counted from the top left of its bounding box, lies at `pos`.
    Circle { pos: (i32, i32), origin: (u32, u32), radius: u32, fill_color: Color, outline_color: Color },
    /// A rectangle whose top left corner is at `pos`.
    Rectangle { pos: (i32, i32), width: u32, height: u32, fill_color: Color, outline_color: Color },
    /// The texture, stretched to `width` by `height`, with its top left corner at `pos`.
    Texture { pos: (i32, i32), texture: Texture, width: u32, height: u32 },
    /// A line of text whose top left corner is at `pos`, in the loaded font
    /// `font`, or in the default font where `font` is `None`.
    Text { pos: (i32, i32), string: String, font: Option<Font>, size: u32, color: Color },
    /// Line segments in one colour: each two consecutive points are the ends of one.
    Lines { coords: Vec<(i32, i32)>, color: Color },
    /// Show what has been drawn since the last `Clear`.
    Display,
}

/// A [`DrawCommand`], with its text and its points as sequences.
pub enum CommandView {
    Clear { color: Color },
    Circle { pos: (i32, i32), origin: (u32, u32), radius: u32, fill_color: Color, outline_color: Color },
    Rectangle { pos: (i32, i32), width: u32, height: u32, fill_color: Color, outline_color: Color },
    Texture { pos: (i32, i32), texture: Texture, width: u32, height: u32 },
    Text { pos: (i32, i32), string: Seq<char>, font: Option<Font>, size: u32, color: Color },
    Lines { coords: Seq<(i32, i32)>, color: Color },
    Display,
}

impl View for DrawCommand {
    type V = CommandView;

    open spec fn view(&self) -> CommandView {
        match *self {
            DrawCommand::Clear { color } => CommandView::Clear { color },
            DrawCommand::Circle { pos, origin, radius, fill_color, outline_color } => CommandView::Circle {
                pos,
                origin,
                radius,
                fill_color,
                outline_color,
            },
            DrawCommand::Rectangle { pos, width, height, fill_color, outline_color } => CommandView::Rectangle {
                pos,
                width,
                height,
                fill_color,
                outline_color,
            },
            DrawCommand::Texture { pos, texture, width, height } => CommandView::Texture {
                pos,
                texture,
                width,
                height,
            },
            DrawCommand::Text { pos, string, font, size, color } => CommandView::Text {
                pos,
                string: string@,
                font,
                size,
                color,
            },
            DrawCommand::Lines { coords, color } => CommandView::Lines { coords: coords@, color },
            DrawCommand::Display => CommandView::Display,
        }
    }
}

/// The command that draws `task`, if it can be drawn.
///
/// A circle and a rectangle take the fill and the outline colour of the
/// task's settings, lines take its line colour, a text its font colour and
/// font size. A circle is placed by its centre. A text whose font is the
/// default font cannot be drawn where there is no default font; everything
/// else can.
pub open spec fn command_for(task: TaskView, has_default_font: bool) -> Option<CommandView> {
    let pen = task.render_parameter_state;
    match task.shape {
        ShapeView::Circle { radius } => Some(
            CommandView::Circle {
                pos: task.pos,
                origin: (radius, radius),
                radius,
                fill_color: pen.fill_color,
                outline_color: pen.outline_color,
            },
        ),
        ShapeView::Rectangle { width, height } => Some(
            CommandView::Rectangle {
                pos: task.pos,
                width,
                height,
                fill_color: pen.fill_color,
                outline_color: pen.outline_color,
            },
        ),
        ShapeView::Texture { texture, width, height } => Some(
            CommandView::Texture { pos: task.pos, texture, width, height },
        ),
        ShapeView::Text { string, font } => if font is Some || has_default_font {
            Some(
                CommandView::Text {
                    pos: task.pos,
                    string,
                    font,
                    size: pen.font_size,
                    color: pen.font_color,
                },
            )
        } else {
            None
        },
        ShapeView::Lines { coords } => Some(CommandView::Lines { coords, color: pen.line_color }),
    }
}

/// The commands that draw `tasks`, first to last, leaving out what cannot be drawn.
pub open spec fn commands_for(tasks: Seq<TaskView>, has_default_font: bool) -> Seq<CommandView>
    decreases tasks.len(),
{
    if tasks.len() == 0 {
        Seq::empty()
    } else {
        let earlier = commands_for(tasks.drop_last(), has_default_font);
        match command_for(tasks.last(), has_default_font) {
            Some(command) => earlier.push(command),
            None => earlier,
        }
    }
}

/// The commands of one frame: clear to the background colour, draw the
/// tasks in the order in which they were issued, show the result.
pub open spec fn frame_commands(
    background_color: Color,
    tasks: Seq<TaskView>,
    has_default_font: bool,
) -> Seq<CommandView> {
    seq![CommandView::Clear { color: background_color }] + commands_for(tasks, has_default_font)
        + seq![CommandView::Display]
}

/// The views of the tasks of `tasks`.
pub open spec fn task_views(tasks: Seq<RenderTask>) -> Seq<TaskView> {
    tasks.map_values(|task: RenderTask| task@)
}

/// The views of the commands of `commands`.
pub open spec fn command_views(commands: Seq<DrawCommand>) -> Seq<CommandView> {
    commands.map_values(|command: DrawCommand| command@)
}

impl RenderTask {
    /// Turn the task into the command that draws it, if it can be drawn.
    pub fn into_command(self, has_default_font: bool) -> (command: Option<DrawCommand>)
        ensures
            match command {
                Some(c) => command_for(self@, has_default_font) == Some(c@),
                None => command_for(self@, has_default_font) is None,
            },
    {
        let pen = self.render_parameter_state;
        let pos = self.pos;
        match self.shape {
            Shapes::Circle { radius } => Some(
                DrawCommand::Circle {
                    pos,
                    origin: (radius, radius),
                    radius,
                    fill_color: pen.fill_color,
                    outline_color: pen.outline_color,
                },
            ),
            Shapes::Rectangle { width, height } => Some(
                DrawCommand::Rectangle {
                    pos,
                    width,
                    height,
                    fill_color: pen.fill_color,
                    outline_color: pen.outline_color,
                },
            ),
            Shapes::Texture { texture, width, height } => Some(
                DrawCommand::Texture { pos, texture, width, height },
            ),
            Shapes::Text { string, font } => {
                if font.is_some() || has_default_font {
                    Some(
                        DrawCommand::Text {
                            pos,
                            string,
                            font,
                            size: pen.font_size,
                            color: pen.font_color,
                        },
                    )
                } else {
                    None
                }
            },
            Shapes::Lines { coords } => Some(DrawCommand::Lines { coords, color: pen.line_color }),
        }
    }
}

} // verus!
