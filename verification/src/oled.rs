//! The status display driver.  A redraw is a fixed list of operations on the
//! display link: the driver decides the list, the caller carries it out.

use vstd::prelude::*;

verus! {

/// A pixel position on the panel.
#[derive(Debug, Clone, Copy, PartialEq, Eq, Structural)]
pub struct Point {
    pub x: i32,
    pub y: i32,
}

/// One-bit pixel colour.
#[derive(Debug, Clone, Copy, PartialEq, Eq, Structural)]
pub enum Color {
    Off,
    On,
}

/// How a shape is stroked and filled.
#[derive(Debug, Clone, Copy, PartialEq, Eq, Structural)]
pub struct Style {
    pub stroke_color: Color,
    pub stroke_width: u32,
    pub fill_color: Color,
}

/// The two fonts the display uses.
#[derive(Debug, Clone, Copy, PartialEq, Eq, Structural)]
pub enum Font {
    Font6x12,
    Font8x16,
}

/// One operation on the display link.
#[derive(Debug, Clone, PartialEq, Eq)]
pub enum DisplayOp {
    /// Pulse the reset line.
    Reset,
    /// Send the initialisation sequence.
    Init,
    /// Blank the frame buffer.
    Clear,
    /// Draw a circle into the frame buffer.
    Circle { center: Point, radius: u32, style: Style },
    /// Draw a rectangle into the frame buffer.
    Rectangle { top_left: Point, bottom_right: Point, style: Style },
    /// Draw a line of text into the frame buffer.
    Text { text: String, position: Point, font: Font },
    /// Send the frame buffer to the panel.
    Flush,
}

/// What a [`DisplayOp`] is, with its text as a sequence of characters.
pub enum DisplayOpView {
    Reset,
    Init,
    Clear,
    Circle { center: Point, radius: u32, style: Style },
    Rectangle { top_left: Point, bottom_right: Point, style: Style },
    Text { text: Seq<char>, position: Point, font: Font },
    Flush,
}

impl DeepView for DisplayOp {
    type V = DisplayOpView;

    open spec fn deep_view(&self) -> DisplayOpView {
        match *self {
            DisplayOp::Reset => DisplayOpView::Reset,
            DisplayOp::Init => DisplayOpView::Init,
            DisplayOp::Clear => DisplayOpView::Clear,
            DisplayOp::Circle { center, radius, style } => DisplayOpView::Circle {
                center,
                radius,
                style,
            },
            DisplayOp::Rectangle { top_left, bottom_right, style } => DisplayOpView::Rectangle {
                top_left,
                bottom_right,
                style,
            },
            DisplayOp::Text { text, position, font } => DisplayOpView::Text {
                text: text@,
                position,
                font,
            },
            DisplayOp::Flush => DisplayOpView::Flush,
        }
    }
}

impl DisplayOpView {
    /// Whether the operation draws into the frame buffer.
    pub open spec fn draws(self) -> bool {
        self is Circle || self is Rectangle || self is Text
    }
}

/// The display as the driver's operations see it: what has been drawn into the
/// frame buffer since it was last blanked, and what the panel shows.
pub struct Canvas {
    pub buffer: Seq<DisplayOpView>,
    pub panel: Seq<DisplayOpView>,
}

impl Canvas {
    /// The canvas after one operation.
    pub open spec fn apply(self, op: DisplayOpView) -> Canvas {
        if op is Clear {
            Canvas { buffer: Seq::empty(), panel: self.panel }
        } else if op is Flush {
            Canvas { buffer: self.buffer, panel: self.buffer }
        } else if op.draws() {
            Canvas { buffer: self.buffer.push(op), panel: self.panel }
        } else {
            self
        }
    }

    /// The canvas after a list of operations, carried out in order.
    pub open spec fn run(self, ops: Seq<DisplayOpView>) -> Canvas
        decreases ops.len(),
    {
        if ops.len() == 0 {
            self
        } else {
            self.run(ops.drop_last()).apply(ops.last())
        }
    }
}

/// The display driver: the two shape styles and whether the display is lit.
#[derive(Debug, Clone, Copy, PartialEq, Eq, Structural)]
pub struct Oled {
    pub style1: Style,
    pub style2: Style,
    pub state: bool,
}

impl Oled {
    /// The style of filled shapes.
    pub open spec fn filled() -> Style {
        Style { stroke_color: Color::On, stroke_width: 2, fill_color: Color::On }
    }

    /// The style of hollow shapes.
    pub open spec fn hollow() -> Style {
        Style { stroke_color: Color::On, stroke_width: 2, fill_color: Color::Off }
    }

    /// The heading drawn above every status line.
    pub open spec fn title() -> Seq<char> {
        "Breathalyzer"@
    }

    /// The status line shown for `input`: the input itself, or the ready
    /// message when the input is empty.
    pub open spec fn message(input: Seq<char>) -> Seq<char> {
        if input.len() == 0 {
            "Ready"@
        } else {
            input
        }
    }

    /// The operations of a full redraw with status line `message`.
    pub open spec fn on_program(self, message: Seq<char>) -> Seq<DisplayOpView> {
        seq![
            DisplayOpView::Reset,
            DisplayOpView::Init,
            DisplayOpView::Clear,
            DisplayOpView::Circle { center: Point { x: 27, y: 23 }, radius: 5, style: self.style2 },
            DisplayOpView::Rectangle {
                top_left: Point { x: 10, y: 20 },
                bottom_right: Point { x: 25, y: 35 },
                style: self.style1,
            },
            DisplayOpView::Rectangle {
                top_left: Point { x: 10, y: 15 },
                bottom_right: Point { x: 25, y: 20 },
                style: self.style2,
            },
            DisplayOpView::Text {
                text: Self::title(),
                position: Point { x: 40, y: 16 },
                font: Font::Font6x12,
            },
            DisplayOpView::Text { text: message, position: Point { x: 40, y: 35 }, font: Font::Font8x16 },
            DisplayOpView::Flush,
        ]
    }

    /// The operations that blank the display.
    pub open spec fn off_program() -> Seq<DisplayOpView> {
        seq![
            DisplayOpView::Reset,
            DisplayOpView::Init,
            DisplayOpView::Clear,
            DisplayOpView::Flush,
        ]
    }

    /// A dark display with the two shape styles set up.
    pub fn new() -> (oled: Oled)
        ensures
            oled.style1 == Self::filled(),
            oled.style2 == Self::hollow(),
            !oled.state,
    {
        Oled {
            style1: Style { stroke_color: Color::On, stroke_width: 2, fill_color: Color::On },
            style2: Style { stroke_color: Color::On, stroke_width: 2, fill_color: Color::Off },
            state: false,
        }
    }

    /// Redraws the whole display with the decorative frame and `input` as the
    /// status line, and marks the display lit.  Returns the operations to carry
    /// out on the display link, in order.
    pub fn on(&mut self, input: &str) -> (ops: Vec<DisplayOp>)
        ensures
            ops.deep_view() == old(self).on_program(Self::message(input@)),
            final(self).state,
            final(self).style1 == old(self).style1,
            final(self).style2 == old(self).style2,
    {
        let message: &str = if input.is_empty() {
            "Ready"
        } else {
            input
        };
        let mut ops: Vec<DisplayOp> = Vec::new();
        ops.push(DisplayOp::Reset);
        ops.push(DisplayOp::Init);
        ops.push(DisplayOp::Clear);
        ops.push(DisplayOp::Circle { center: Point { x: 27, y: 23 }, radius: 5, style: self.style2 });
        ops.push(
            DisplayOp::Rectangle {
                top_left: Point { x: 10, y: 20 },
                bottom_right: Point { x: 25, y: 35 },
                style: self.style1,
            },
        );
        ops.push(
            DisplayOp::Rectangle {
                top_left: Point { x: 10, y: 15 },
                bottom_right: Point { x: 25, y: 20 },
                style: self.style2,
            },
        );
        ops.push(
            DisplayOp::Text {
                text: "Breathalyzer".to_owned(),
                position: Point { x: 40, y: 16 },
                font: Font::Font6x12,
            },
        );
        ops.push(
            DisplayOp::Text {
                text: message.to_owned(),
                position: Point { x: 40, y: 35 },
                font: Font::Font8x16,
            },
        );
        ops.push(DisplayOp::Flush);
        self.state = true;
        assert(ops.deep_view() =~= old(self).on_program(Self::message(input@)));
        ops
    }

    /// Blanks the display and marks it dark.  Returns the operations to carry
    /// out on the display link, in order.
    pub fn off(&mut self) -> (ops: Vec<DisplayOp>)
        ensures
            ops.deep_view() == Self::off_program(),
            !final(self).state,
            final(self).style1 == old(self).style1,
            final(self).style2 == old(self).style2,
    {
        let mut ops: Vec<DisplayOp> = Vec::new();
        ops.push(DisplayOp::Reset);
        ops.push(DisplayOp::Init);
        ops.push(DisplayOp::Clear);
        ops.push(DisplayOp::Flush);
        self.state = false;
        assert(ops.deep_view() =~= Self::off_program());
        ops
    }
}

/// Carrying out one more operation after a list is the same as carrying out the
/// list with that operation appended.
pub proof fn lemma_run_push(canvas: Canvas, ops: Seq<DisplayOpView>, op: DisplayOpView)
    ensures
        canvas.run(ops.push(op)) == canvas.run(ops).apply(op),
{
    assert(ops.push(op).drop_last() =~= ops);
}

/// A redraw leaves on the panel exactly its own five shapes and lines of text,
/// whatever the frame buffer and the panel held before.
pub proof fn lemma_redraw_replaces_picture(oled: Oled, message: Seq<char>, before: Canvas)
    ensures
        before.run(oled.on_program(message)).panel == oled.on_program(message).subrange(3, 8),
        before.run(oled.on_program(message)).buffer == oled.on_program(message).subrange(3, 8),
{
    let ops = oled.on_program(message);
    let first0 = Seq::<DisplayOpView>::empty();
    let first1 = first0.push(ops[0]);
    let first2 = first1.push(ops[1]);
    let first3 = first2.push(ops[2]);
    let first4 = first3.push(ops[3]);
    let first5 = first4.push(ops[4]);
    let first6 = first5.push(ops[5]);
    let first7 = first6.push(ops[6]);
    let first8 = first7.push(ops[7]);
    let first9 = first8.push(ops[8]);
    assert(first9 =~= ops);
    assert(before.run(first0) == before);
    lemma_run_push(before, first0, ops[0]);
    lemma_run_push(before, first1, ops[1]);
    lemma_run_push(before, first2, ops[2]);
    lemma_run_push(before, first3, ops[3]);
    lemma_run_push(before, first4, ops[4]);
    lemma_run_push(before, first5, ops[5]);
    lemma_run_push(before, first6, ops[6]);
    lemma_run_push(before, first7, ops[7]);
    lemma_run_push(before, first8, ops[8]);
    assert(before.run(first3).buffer =~= Seq::<DisplayOpView>::empty());
    assert(before.run(first8).buffer =~= ops.subrange(3, 8));
}

/// Redrawing twice in a row with the same status line shows the same picture
/// as redrawing once: nothing drawn earlier accumulates.
pub proof fn lemma_redraw_idempotent(oled: Oled, message: Seq<char>, before: Canvas)
    ensures
        before.run(oled.on_program(message)).run(oled.on_program(message)) == before.run(
            oled.on_program(message),
        ),
{
    let once = before.run(oled.on_program(message));
    lemma_redraw_replaces_picture(oled, message, before);
    lemma_redraw_replaces_picture(oled, message, once);
}

/// Blanking the display leaves the panel empty, whatever it showed before.
pub proof fn lemma_off_blanks_panel(before: Canvas)
    ensures
        before.run(Oled::off_program()).panel == Seq::<DisplayOpView>::empty(),
        before.run(Oled::off_program()).buffer == Seq::<DisplayOpView>::empty(),
{
    let ops = Oled::off_program();
    let first0 = Seq::<DisplayOpView>::empty();
    let first1 = first0.push(ops[0]);
    let first2 = first1.push(ops[1]);
    let first3 = first2.push(ops[2]);
    let first4 = first3.push(ops[3]);
    assert(first4 =~= ops);
    assert(before.run(first0) == before);
    lemma_run_push(before, first0, ops[0]);
    lemma_run_push(before, first1, ops[1]);
    lemma_run_push(before, first2, ops[2]);
    lemma_run_push(before, first3, ops[3]);
}

} // verus!
