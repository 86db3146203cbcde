//! What a front end is asked to paint: each cell as a clipped rectangle with
//! a ground and a centred text.

use vstd::prelude::*;
use vstd::string::StringExecFns;

verus! {

/// The colours that the dialog uses.
#[derive(Clone, Copy, Debug, PartialEq, Eq, Structural)]
pub enum Colour {
    /// The toolkit's colour for frames.
    FrameDefault,
    Black,
    White,
    /// The darkest grey of the toolkit's grey ramp.
    Gray0,
    /// A colour by its red, green and blue bytes, `0xRRGGBB`.
    Rgb(u32),
}

/// Ground of the cell that holds the chosen day.
pub const SELECTED_GROUND: u32 = 0xbcd9ea;

/// What lies under a cell's text.
#[derive(Clone, Copy, Debug, PartialEq, Eq, Structural)]
pub enum Ground {
    /// A thin raised box in the given colour.
    ThinUpBox(Colour),
    /// The whole rectangle filled with the given colour.
    Filled(Colour),
}

/// One cell to paint: everything is clipped to the rectangle, the ground
/// comes first and the text is centred over it.
#[derive(Debug)]
pub struct CellPaint {
    pub x: i32,
    pub y: i32,
    pub w: i32,
    pub h: i32,
    pub ground: Ground,
    pub ink: Colour,
    pub text: String,
}

/// The character for one decimal digit.
pub open spec fn digit_char(digit: int) -> char
    recommends
        0 <= digit <= 9,
{
    if digit == 0 {
        '0'
    } else if digit == 1 {
        '1'
    } else if digit == 2 {
        '2'
    } else if digit == 3 {
        '3'
    } else if digit == 4 {
        '4'
    } else if digit == 5 {
        '5'
    } else if digit == 6 {
        '6'
    } else if digit == 7 {
        '7'
    } else if digit == 8 {
        '8'
    } else {
        '9'
    }
}

/// A number in decimal, without sign or leading zeros.
pub open spec fn decimal(n: nat) -> Seq<char>
    decreases n,
{
    if n < 10 {
        seq![digit_char(n as int)]
    } else {
        decimal(n / 10).push(digit_char(n as int % 10))
    }
}

fn digit_text(digit: u32) -> (text: &'static str)
    requires
        digit <= 9,
    ensures
        text@ == seq![digit_char(digit as int)],
{
    proof {
        reveal_strlit("0");
        reveal_strlit("1");
        reveal_strlit("2");
        reveal_strlit("3");
        reveal_strlit("4");
        reveal_strlit("5");
        reveal_strlit("6");
        reveal_strlit("7");
        reveal_strlit("8");
        reveal_strlit("9");
    }
    let text = match digit {
        0 => "0",
        1 => "1",
        2 => "2",
        3 => "3",
        4 => "4",
        5 => "5",
        6 => "6",
        7 => "7",
        8 => "8",
        _ => "9",
    };
    assert(text@ =~= seq![digit_char(digit as int)]);
    text
}

/// Writes a number in decimal.
pub fn number_text(n: u32) -> (text: String)
    ensures
        text@ == decimal(n as nat),
    decreases n,
{
    if n < 10 {
        String::from_str(digit_text(n))
    } else {
        let text = number_text(n / 10).concat(digit_text(n % 10));
        assert(text@ =~= decimal(n as nat));
        text
    }
}

/// What `draw_header` asks for.
pub open spec fn header_paint(
    text: Seq<char>,
    x: i32,
    y: i32,
    w: i32,
    h: i32,
    paint: CellPaint,
) -> bool {
    &&& paint.x == x
    &&& paint.y == y
    &&& paint.w == w
    &&& paint.h == h
    &&& paint.ground == Ground::ThinUpBox(Colour::FrameDefault)
    &&& paint.ink == Colour::Black
    &&& paint.text@ == text
}

/// What `draw_data` asks for.
pub open spec fn data_paint(
    day: u32,
    x: i32,
    y: i32,
    w: i32,
    h: i32,
    selected: bool,
    paint: CellPaint,
) -> bool {
    &&& paint.x == x
    &&& paint.y == y
    &&& paint.w == w
    &&& paint.h == h
    &&& paint.ground == Ground::Filled(
        if selected {
            Colour::Rgb(SELECTED_GROUND)
        } else {
            Colour::White
        },
    )
    &&& paint.ink == Colour::Gray0
    &&& paint.text@ == decimal(day as nat)
}

/// A column header: a raised box with the weekday's name in black.
pub fn draw_header(txt: &str, x: i32, y: i32, w: i32, h: i32) -> (paint: CellPaint)
    ensures
        header_paint(txt@, x, y, w, h, paint),
{
    CellPaint {
        x,
        y,
        w,
        h,
        ground: Ground::ThinUpBox(Colour::FrameDefault),
        ink: Colour::Black,
        text: String::from_str(txt),
    }
}

/// A day cell: the day's number in dark grey, on a light blue ground if
/// the cell is the chosen one and on white if it is not.
pub fn draw_data(day: u32, x: i32, y: i32, w: i32, h: i32, selected: bool) -> (paint: CellPaint)
    ensures
        data_paint(day, x, y, w, h, selected, paint),
{
    let ground = if selected {
        Ground::Filled(Colour::Rgb(SELECTED_GROUND))
    } else {
        Ground::Filled(Colour::White)
    };
    CellPaint { x, y, w, h, ground, ink: Colour::Gray0, text: number_text(day) }
}

} // verus!
