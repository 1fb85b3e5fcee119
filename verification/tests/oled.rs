use breathalyzer_firmware::oled::{Color, DisplayOp, Font, Oled, Point, Style};

fn filled() -> Style {
    Style { stroke_color: Color::On, stroke_width: 2, fill_color: Color::On }
}

fn hollow() -> Style {
    Style { stroke_color: Color::On, stroke_width: 2, fill_color: Color::Off }
}

fn redraw(message: &str) -> Vec<DisplayOp> {
    vec![
        DisplayOp::Reset,
        DisplayOp::Init,
        DisplayOp::Clear,
        DisplayOp::Circle { center: Point { x: 27, y: 23 }, radius: 5, style: hollow() },
        DisplayOp::Rectangle {
            top_left: Point { x: 10, y: 20 },
            bottom_right: Point { x: 25, y: 35 },
            style: filled(),
        },
        DisplayOp::Rectangle {
            top_left: Point { x: 10, y: 15 },
            bottom_right: Point { x: 25, y: 20 },
            style: hollow(),
        },
        DisplayOp::Text {
            text: String::from("Breathalyzer"),
            position: Point { x: 40, y: 16 },
            font: Font::Font6x12,
        },
        DisplayOp::Text {
            text: String::from(message),
            position: Point { x: 40, y: 35 },
            font: Font::Font8x16,
        },
        DisplayOp::Flush,
    ]
}

#[test]
fn new_display_is_dark_with_both_styles() {
    let oled = Oled::new();
    assert!(!oled.state);
    assert_eq!(oled.style1, filled());
    assert_eq!(oled.style2, hollow());
}

#[test]
fn on_draws_frame_title_and_status() {
    let mut oled = Oled::new();
    let ops = oled.on("Reading");
    assert_eq!(ops, redraw("Reading"));
    assert!(oled.state);
}

#[test]
fn on_with_empty_text_shows_ready() {
    let mut oled = Oled::new();
    assert_eq!(oled.on(""), redraw("Ready"));
}

#[test]
fn on_twice_with_same_text_gives_same_redraw() {
    let mut oled = Oled::new();
    let first = oled.on("HIGH");
    let second = oled.on("HIGH");
    assert_eq!(first, second);
    assert_eq!(second, redraw("HIGH"));
    assert!(oled.state);
}

#[test]
fn redraw_blanks_the_buffer_before_it_draws() {
    let mut oled = Oled::new();
    let ops = oled.on("LOW");
    let clear = ops.iter().position(|op| *op == DisplayOp::Clear).unwrap();
    let first_drawn = ops
        .iter()
        .position(|op| {
            matches!(
                op,
                DisplayOp::Circle { .. } | DisplayOp::Rectangle { .. } | DisplayOp::Text { .. }
            )
        })
        .unwrap();
    assert!(clear < first_drawn);
    assert_eq!(ops.iter().filter(|op| **op == DisplayOp::Clear).count(), 1);
    assert_eq!(ops.last(), Some(&DisplayOp::Flush));
}

#[test]
fn off_blanks_the_display() {
    let mut oled = Oled::new();
    oled.on("Ready");
    let ops = oled.off();
    assert_eq!(ops, vec![DisplayOp::Reset, DisplayOp::Init, DisplayOp::Clear, DisplayOp::Flush]);
    assert!(!oled.state);
}

#[test]
fn on_uses_the_styles_of_the_driver() {
    let mut oled = Oled::new();
    oled.style1 = hollow();
    let ops = oled.on("x");
    assert_eq!(
        ops[4],
        DisplayOp::Rectangle {
            top_left: Point { x: 10, y: 20 },
            bottom_right: Point { x: 25, y: 35 },
            style: hollow(),
        }
    );
    assert_eq!(oled.style1, hollow());
}
