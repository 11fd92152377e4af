//! Choosing by pattern: literals, ranges, struct fields and nested enums.

use rand::rngs::ThreadRng;
use rand::{thread_rng, Rng};
use vstd::prelude::*;
use vstd::string::StringExecFns;
use crate::text::{decimal, i64_to_string, texts};

verus! {

/// A point of the plane.
#[derive(Clone, Copy, Debug, PartialEq, Eq)]
pub struct Point {
    pub x: i32,
    pub y: i32,
}

/// A colour in one of two colour spaces.
#[derive(Clone, Copy, Debug, PartialEq, Eq)]
pub enum Color {
    Rgb(i32, i32, i32),
    Hsv(i32, i32, i32),
}

/// A request with its payload.
#[derive(Debug)]
pub enum Message {
    Quit,
    Move { x: i32, y: i32 },
    Write(String),
    ChangeColor(Color),
}

/// The generator of `rand` that belongs to the current thread. Nothing is
/// known of what is inside it.
#[verifier::external_type_specification]
#[verifier::external_body]
pub struct ExThreadRng(ThreadRng);

/// `rand::thread_rng` hands out the generator of the current thread; nothing
/// is claimed of it.
pub assume_specification[ rand::thread_rng ]() -> (rng: ThreadRng)
;

/// Draws a number with `rand::Rng::gen_range(low, high)`. The range is
/// half-open: the number is at least `low` and below `high`. Which number
/// comes, and what becomes of the generator, is left open.
#[verifier::external_body]
fn gen_range(rng: &mut ThreadRng, low: i32, high: i32) -> (x: i32)
    requires
        low < high,
    ensures
        low <= x < high,
{
    rng.gen_range(low, high)
}

/// The name of the group that `x` falls in.
pub open spec fn number_group(x: int) -> Seq<char> {
    if x == 1 {
        "one"@
    } else if 2 <= x <= 5 {
        "two to five"@
    } else if x == 6 || x == 7 {
        "six to seven"@
    } else {
        "large than 5"@
    }
}

/// Names the group of `x`: one, two to five, six to seven, or anything else.
pub fn describe_number(x: i32) -> (s: &'static str)
    ensures
        s@ == number_group(x as int),
{
    match x {
        1 => "one",
        2..=5 => "two to five",
        6 | 7 => "six to seven",
        _ => "large than 5",
    }
}

/// The class of the letter `c`.
pub open spec fn letter_group(c: char) -> Seq<char> {
    if 'a' <= c <= 'j' {
        "early ASCII letter"@
    } else if 'k' <= c <= 'z' {
        "late ASCII letter"@
    } else {
        "something else"@
    }
}

/// Classes a character as an early or a late lower-case letter, or as
/// something else.
pub fn describe_letter(c: char) -> (s: &'static str)
    ensures
        s@ == letter_group(c),
{
    match c {
        'a'..='j' => "early ASCII letter",
        'k'..='z' => "late ASCII letter",
        _ => "something else",
    }
}

/// Where `p` lies, as text.
pub open spec fn point_text(p: Point) -> Seq<char> {
    if p.x == 4 {
        "on the y axis at "@ + decimal(p.y as int)
    } else {
        "on either axis ("@ + decimal(p.x as int) + " "@ + decimal(p.y as int) + ")"@
    }
}

/// Says where `p` lies: a point with `x` equal to 4 is reported by its `y`
/// alone, any other point by both coordinates.
pub fn describe_point(p: Point) -> (s: String)
    ensures
        s@ == point_text(p),
{
    match p {
        Point { x: 4, y } => {
            let mut s = String::from_str("on the y axis at ");
            s.append(i64_to_string(y as i64).as_str());
            s
        },
        Point { x, y } => {
            let mut s = String::from_str("on either axis (");
            s.append(i64_to_string(x as i64).as_str());
            s.append(" ");
            s.append(i64_to_string(y as i64).as_str());
            s.append(")");
            s
        },
    }
}

/// What `msg` asks for, as text.
pub open spec fn message_text(msg: Message) -> Seq<char> {
    match msg {
        Message::Quit => "Quit variant has not data to use"@,
        Message::Move { x, y } => "Move to ("@ + decimal(x as int) + " "@ + decimal(y as int)
            + ")"@,
        Message::Write(text) => "Write "@ + text@,
        Message::ChangeColor(Color::Rgb(r, g, b)) => "RGB Color red "@ + decimal(r as int)
            + ", green "@ + decimal(g as int) + ", blue "@ + decimal(b as int),
        Message::ChangeColor(Color::Hsv(h, s, v)) => "HSV Color red "@ + decimal(h as int)
            + ", green "@ + decimal(s as int) + ", blue "@ + decimal(v as int),
    }
}

/// Spells out a message together with the data it carries, down to the
/// components of a colour nested in it.
pub fn message_content(msg: Message) -> (s: String)
    ensures
        s@ == message_text(msg),
{
    match msg {
        Message::Quit => String::from_str("Quit variant has not data to use"),
        Message::Move { x, y } => {
            let mut s = String::from_str("Move to (");
            s.append(i64_to_string(x as i64).as_str());
            s.append(" ");
            s.append(i64_to_string(y as i64).as_str());
            s.append(")");
            s
        },
        Message::Write(text) => String::from_str("Write ").concat(text.as_str()),
        Message::ChangeColor(Color::Rgb(r, g, b)) => {
            let mut s = String::from_str("RGB Color red ");
            s.append(i64_to_string(r as i64).as_str());
            s.append(", green ");
            s.append(i64_to_string(g as i64).as_str());
            s.append(", blue ");
            s.append(i64_to_string(b as i64).as_str());
            s
        },
        Message::ChangeColor(Color::Hsv(h, s, v)) => {
            let mut out = String::from_str("HSV Color red ");
            out.append(i64_to_string(h as i64).as_str());
            out.append(", green ");
            out.append(i64_to_string(s as i64).as_str());
            out.append(", blue ");
            out.append(i64_to_string(v as i64).as_str());
            out
        },
    }
}

/// The sum of `x * x + y * y` over the points of `points`.
pub open spec fn squares_total(points: Seq<Point>) -> int
    decreases points.len(),
{
    if points.len() == 0 {
        0
    } else {
        squares_total(points.drop_last()) + points.last().x * points.last().x + points.last().y
            * points.last().y
    }
}

/// The total over a prefix never exceeds the total over the whole.
pub proof fn lemma_squares_total_prefix(points: Seq<Point>, n: int)
    requires
        0 <= n <= points.len(),
    ensures
        0 <= squares_total(points.take(n)) <= squares_total(points),
    decreases points.len() - n,
{
    if n == points.len() {
        assert(points.take(n) =~= points);
        lemma_squares_total_nonnegative(points);
    } else {
        lemma_squares_total_prefix(points, n + 1);
        let next = points.take(n + 1);
        assert(next.drop_last() =~= points.take(n));
        assert(next.last().x * next.last().x >= 0) by (nonlinear_arith);
        assert(next.last().y * next.last().y >= 0) by (nonlinear_arith);
        lemma_squares_total_nonnegative(points.take(n));
    }
}

/// A sum of squares is never negative.
pub proof fn lemma_squares_total_nonnegative(points: Seq<Point>)
    ensures
        0 <= squares_total(points),
    decreases points.len(),
{
    if points.len() > 0 {
        lemma_squares_total_nonnegative(points.drop_last());
        assert(points.last().x * points.last().x >= 0) by (nonlinear_arith);
        assert(points.last().y * points.last().y >= 0) by (nonlinear_arith);
    }
}

/// Adds up the squared distance from the origin of every point.
pub fn sum_of_squares(points: &Vec<Point>) -> (total: i32)
    requires
        squares_total(points@) <= i32::MAX,
    ensures
        total == squares_total(points@),
{
    let mut total: i32 = 0;
    let mut i: usize = 0;
    while i < points.len()
        invariant
            i <= points.len(),
            total == squares_total(points@.take(i as int)),
            squares_total(points@) <= i32::MAX,
        decreases points.len() - i,
    {
        let p = points[i];
        proof {
            let next = points@.take(i + 1);
            assert(next.drop_last() =~= points@.take(i as int));
            assert(next.last() == p);
            lemma_squares_total_prefix(points@, i + 1);
            lemma_squares_total_prefix(points@, i as int);
            assert(0 <= p.x * p.x) by (nonlinear_arith);
            assert(0 <= p.y * p.y) by (nonlinear_arith);
        }
        total = total + p.x * p.x + p.y * p.y;
        i = i + 1;
    }
    proof {
        assert(points@.take(i as int) =~= points@);
    }
    total
}

/// What a pair of lengths and a point hold, piece by piece.
pub open spec fn measures_text(feet: i32, inches: i32, p: Point) -> Seq<char> {
    "feet: "@ + decimal(feet as int) + ", inches: "@ + decimal(inches as int) + ", Point: ("@
        + decimal(p.x as int) + ", "@ + decimal(p.y as int) + ")"@
}

/// Takes a nested pair apart and spells out every piece of it.
pub fn describe_measures(nested: ((i32, i32), Point)) -> (s: String)
    ensures
        s@ == measures_text(nested.0.0, nested.0.1, nested.1),
{
    let ((feet, inches), Point { x, y }) = nested;
    let mut s = String::from_str("feet: ");
    s.append(i64_to_string(feet as i64).as_str());
    s.append(", inches: ");
    s.append(i64_to_string(inches as i64).as_str());
    s.append(", Point: (");
    s.append(i64_to_string(x as i64).as_str());
    s.append(", ");
    s.append(i64_to_string(y as i64).as_str());
    s.append(")");
    s
}

/// The place of a pair of coordinates, as text.
pub open spec fn coordinates_text(x: i32, y: i32) -> Seq<char> {
    "Current location ("@ + decimal(x as int) + ","@ + decimal(y as int) + ")"@
}

/// Reports a location given as a pair of coordinates.
pub fn print_coordinates(point: &(i32, i32)) -> (s: String)
    ensures
        s@ == coordinates_text(point.0, point.1),
{
    let (x, y) = *point;
    let mut s = String::from_str("Current location (");
    s.append(i64_to_string(x as i64).as_str());
    s.append(",");
    s.append(i64_to_string(y as i64).as_str());
    s.append(")");
    s
}

/// The background that goes with a favourite colour, the day and an age.
pub open spec fn background_text<E>(
    favorite_color: Option<&str>,
    is_tuesday: bool,
    age: Result<u8, E>,
) -> Seq<char> {
    if let Some(color) = favorite_color {
        "Using your favorite color, "@ + color@ + ", as bg color"@
    } else if is_tuesday {
        "Tuesday is green day"@
    } else if let Ok(years) = age {
        if years > 30 {
            "Using purple as the background color"@
        } else {
            "Using orange as the background color"@
        }
    } else {
        "Using blue as the bg color"@
    }
}

/// Picks a background: a favourite colour wins, then the day of the week,
/// then an age if one could be read, and blue when nothing else applies.
pub fn if_let_cases<E>(favorite_color: Option<&str>, is_tuesday: bool, age: Result<u8, E>) -> (s:
    String)
    ensures
        s@ == background_text(favorite_color, is_tuesday, age),
{
    if let Some(color) = favorite_color {
        let mut s = String::from_str("Using your favorite color, ");
        s.append(color);
        s.append(", as bg color");
        s
    } else if is_tuesday {
        String::from_str("Tuesday is green day")
    } else if let Ok(years) = age {
        if years > 30 {
            String::from_str("Using purple as the background color")
        } else {
            String::from_str("Using orange as the background color")
        }
    } else {
        String::from_str("Using blue as the bg color")
    }
}

/// The three points whose squares are added up in the report.
pub open spec fn sample_points() -> Seq<Point> {
    seq![Point { x: 0, y: 0 }, Point { x: 10, y: 10 }, Point { x: 8, y: 23 }]
}

/// The report on a drawn number `x`: its group, then the fixed samples of
/// every other kind of pattern.
pub open spec fn match_report(x: int) -> Seq<Seq<char>> {
    seq![
        number_group(x),
        letter_group('c'),
        point_text(Point { x: 4, y: 5 }),
        "\n"@,
        message_text(Message::ChangeColor(Color::Hsv(10, 33, 255))),
        message_text(Message::ChangeColor(Color::Rgb(233, 33, 255))),
        "Write nothing"@,
        message_text(Message::Move { x: 4, y: 7 }),
        message_text(Message::Quit),
        "sum of squares: "@ + decimal(squares_total(sample_points())),
        measures_text(2, 12, Point { x: 4, y: 5 }),
    ]
}

/// Builds the report for the number `x`, one line per pattern shown.
pub fn match_lines(x: i32) -> (lines: Vec<String>)
    ensures
        texts(lines@) == match_report(x as int),
{
    let mut lines: Vec<String> = Vec::new();
    lines.push(String::from_str(describe_number(x)));
    lines.push(String::from_str(describe_letter('c')));
    lines.push(describe_point(Point { x: 4, y: 5 }));
    lines.push(String::from_str("\n"));

    let msg_rgb_color = Message::ChangeColor(Color::Rgb(233, 33, 255));
    let msg_hsv_color = Message::ChangeColor(Color::Hsv(10, 33, 255));
    let msg_quit = Message::Quit;
    let msg_move = Message::Move { x: 4, y: 7 };
    let msg_write = Message::Write(String::from_str("nothing"));
    lines.push(message_content(msg_hsv_color));
    lines.push(message_content(msg_rgb_color));
    lines.push(message_content(msg_write));
    lines.push(message_content(msg_move));
    lines.push(message_content(msg_quit));

    let mut points: Vec<Point> = Vec::new();
    points.push(Point { x: 0, y: 0 });
    points.push(Point { x: 10, y: 10 });
    points.push(Point { x: 8, y: 23 });
    proof {
        assert(points@ =~= sample_points());
        lemma_sample_total();
    }
    let total = sum_of_squares(&points);
    let mut line = String::from_str("sum of squares: ");
    line.append(i64_to_string(total as i64).as_str());
    lines.push(line);

    lines.push(describe_measures(((2, 12), Point { x: 4, y: 5 })));
    proof {
        reveal_strlit("Write nothing");
        reveal_strlit("Write ");
        reveal_strlit("nothing");
        assert("Write "@ + "nothing"@ =~= "Write nothing"@);
        assert(texts(lines@) =~= match_report(x as int));
    }
    lines
}

/// The squares of the three sample points add up to 793.
pub proof fn lemma_sample_total()
    ensures
        squares_total(sample_points()) == 793,
{
    let s3 = sample_points();
    let s2 = s3.drop_last();
    let s1 = s2.drop_last();
    let s0 = s1.drop_last();
    assert(s1.last() == Point { x: 0, y: 0 });
    assert(s2.last() == Point { x: 10, y: 10 });
    assert(s3.last() == Point { x: 8, y: 23 });
    assert(s1.last().x * s1.last().x + s1.last().y * s1.last().y == 0) by (nonlinear_arith)
        requires
            s1.last().x == 0,
            s1.last().y == 0,
    ;
    assert(s2.last().x * s2.last().x + s2.last().y * s2.last().y == 200) by (nonlinear_arith)
        requires
            s2.last().x == 10,
            s2.last().y == 10,
    ;
    assert(s3.last().x * s3.last().x + s3.last().y * s3.last().y == 593) by (nonlinear_arith)
        requires
            s3.last().x == 8,
            s3.last().y == 23,
    ;
    assert(squares_total(s0) == 0);
    assert(squares_total(s1) == 0);
    assert(squares_total(s2) == 200);
    assert(squares_total(s3) == 793);
}

/// Draws a number from 0 up to 9 and reports on it: the result is the report
/// of [`match_lines`] for whichever number came.
pub fn match_cases() -> (lines: Vec<String>)
    ensures
        exists|x: int| 0 <= x < 10 && texts(lines@) == match_report(x),
{
    let mut rng = thread_rng();
    let x = gen_range(&mut rng, 0, 10);
    let lines = match_lines(x);
    assert(texts(lines@) == match_report(x as int));
    lines
}

} // verus!
