//! The text drawn over the simulation: the controls and the number of boids.

use vstd::prelude::*;

verus! {

/// One line of text over the simulation, with its top-left corner in window
/// pixels.
pub struct HudLine {
    /// Distance from the left edge of the window.
    pub x: i16,
    /// Distance from the top edge of the window.
    pub y: i16,
    /// The text.
    pub text: String,
    /// Whether the line is drawn in the accent color rather than the text
    /// color.
    pub accent: bool,
}

/// The number of lines that describe the controls, title included.
pub const HELP_LINE_COUNT: usize = 8;

/// The character for the decimal digit `d`.
pub open spec fn digit_char(d: nat) -> char {
    seq!['0', '1', '2', '3', '4', '5', '6', '7', '8', '9'][d as int]
}

/// `n` written in decimal, without leading zeros.
pub open spec fn decimal(n: nat) -> Seq<char>
    decreases n,
{
    if n < 10 {
        seq![digit_char(n)]
    } else {
        decimal(n / 10) + seq![digit_char(n % 10)]
    }
}

/// The text of help line `i`: the title, then one line for each control.
pub open spec fn help_text(i: int) -> Seq<char> {
    if i == 0 {
        "BOID SIMULATION"@
    } else if i == 1 {
        "UP Arrow   : Add Boid"@
    } else if i == 2 {
        "DOWN arrow : Remove Boid"@
    } else if i == 3 {
        "D          : Show Directions"@
    } else if i == 4 {
        "Left Click : Select & Follow Boid"@
    } else if i == 5 {
        "Mouse Wheel: Zoom In/Out"@
    } else if i == 6 {
        "R          : Reset View & Zoom"@
    } else {
        "ESC        : Exit"@
    }
}

/// The line that reports the number of boids.
pub open spec fn count_text(boid_count: nat) -> Seq<char> {
    "Total Boids: "@ + decimal(boid_count)
}

/// The string of the single decimal digit `d`.
fn digit_str(d: usize) -> (s: &'static str)
    requires
        d < 10,
    ensures
        s@ == seq![digit_char(d as nat)],
{
    proof {
        reveal_strlit("0");
        reveal_strlit("1");
        reveal_strlit("2");
        reveal_strlit("3");
        reveal_strlit("4");
        reveal_strlit("5");
        reveal_strlit("6");
        reveal_strlit("7");
        reveal_strlit("8");
        reveal_strlit("9");
    }
    match d {
        0 => "0",
        1 => "1",
        2 => "2",
        3 => "3",
        4 => "4",
        5 => "5",
        6 => "6",
        7 => "7",
        8 => "8",
        _ => "9",
    }
}

/// Appends `n`, written in decimal, to `s`.
pub fn push_decimal(s: &mut String, n: usize)
    ensures
        final(s)@ == old(s)@ + decimal(n as nat),
    decreases n,
{
    if n >= 10 {
        push_decimal(s, n / 10);
    }
    s.append(digit_str(n % 10));
    proof {
        assert(old(s)@ + decimal(n as nat) =~= if n >= 10 {
            old(s)@ + decimal((n / 10) as nat) + seq![digit_char((n % 10) as nat)]
        } else {
            old(s)@ + seq![digit_char((n % 10) as nat)]
        });
    }
}

/// The text drawn over the simulation: the title and the controls, one line
/// every 15 pixels from the top, then the number of boids in the accent
/// color.
pub fn hud_lines(boid_count: usize) -> (lines: Vec<HudLine>)
    ensures
        lines.len() == HELP_LINE_COUNT + 1,
        forall|i: int|
            0 <= i < HELP_LINE_COUNT ==> {
                &&& #[trigger] lines@[i].x == 10
                &&& lines@[i].y == 10 + 15 * i
                &&& lines@[i].text@ == help_text(i)
                &&& !lines@[i].accent
            },
        lines@[HELP_LINE_COUNT as int].x == 10,
        lines@[HELP_LINE_COUNT as int].y == 135,
        lines@[HELP_LINE_COUNT as int].text@ == count_text(boid_count as nat),
        lines@[HELP_LINE_COUNT as int].accent,
{
    let mut lines: Vec<HudLine> = Vec::new();
    lines.push(HudLine { x: 10, y: 10, text: String::from_str("BOID SIMULATION"), accent: false });
    lines.push(
        HudLine { x: 10, y: 25, text: String::from_str("UP Arrow   : Add Boid"), accent: false },
    );
    lines.push(
        HudLine { x: 10, y: 40, text: String::from_str("DOWN arrow : Remove Boid"), accent: false },
    );
    lines.push(
        HudLine {
            x: 10,
            y: 55,
            text: String::from_str("D          : Show Directions"),
            accent: false,
        },
    );
    lines.push(
        HudLine {
            x: 10,
            y: 70,
            text: String::from_str("Left Click : Select & Follow Boid"),
            accent: false,
        },
    );
    lines.push(
        HudLine { x: 10, y: 85, text: String::from_str("Mouse Wheel: Zoom In/Out"), accent: false },
    );
    lines.push(
        HudLine {
            x: 10,
            y: 100,
            text: String::from_str("R          : Reset View & Zoom"),
            accent: false,
        },
    );
    lines.push(HudLine { x: 10, y: 115, text: String::from_str("ESC        : Exit"), accent: false });
    let mut info = String::from_str("Total Boids: ");
    push_decimal(&mut info, boid_count);
    lines.push(HudLine { x: 10, y: 135, text: info, accent: true });
    lines
}

} // verus!
