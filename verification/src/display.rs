//! What the screens show of a plant: its picture, the colours of its
//! thirst, and its age as hours, minutes and seconds.

use vstd::prelude::*;

verus! {

/// How thirsty a plant looks, by the days it has gone without water.
#[derive(Clone, Copy, Debug, PartialEq, Eq, Structural)]
pub enum Thirst {
    /// Two dry days at most.
    Fine,
    /// Three or four dry days.
    Stressed,
    /// Five dry days or more.
    Dying,
}

/// The thirst of a plant that has gone `days_no_water` days without water.
pub open spec fn thirst_of(days_no_water: nat) -> Thirst {
    if days_no_water <= 2 {
        Thirst::Fine
    } else if days_no_water <= 4 {
        Thirst::Stressed
    } else {
        Thirst::Dying
    }
}

/// Classifies a dry spell of `days_no_water` days.
pub fn thirst(days_no_water: u32) -> (t: Thirst)
    ensures
        t == thirst_of(days_no_water as nat),
{
    if days_no_water <= 2 {
        Thirst::Fine
    } else if days_no_water <= 4 {
        Thirst::Stressed
    } else {
        Thirst::Dying
    }
}

/// The picture of a plant: the dead one, or the one of its thirst.
pub open spec fn sprite_path_of(days_no_water: nat, dead: bool) -> Seq<char> {
    if dead {
        "assets/sprites/plant_dead.png"@
    } else {
        match thirst_of(days_no_water) {
            Thirst::Fine => "assets/sprites/plant_happy.png"@,
            Thirst::Stressed => "assets/sprites/plant_stressed.png"@,
            Thirst::Dying => "assets/sprites/plant_dying.png"@,
        }
    }
}

/// The file of the picture that shows a plant with this dry spell, alive or dead.
pub fn sprite_path(days_no_water: u32, dead: bool) -> (path: &'static str)
    ensures
        path@ == sprite_path_of(days_no_water as nat, dead),
{
    if dead {
        return "assets/sprites/plant_dead.png";
    }
    match thirst(days_no_water) {
        Thirst::Fine => "assets/sprites/plant_happy.png",
        Thirst::Stressed => "assets/sprites/plant_stressed.png",
        Thirst::Dying => "assets/sprites/plant_dying.png",
    }
}

/// A colour as red, green and blue.
#[derive(Clone, Copy, Debug, PartialEq, Eq, Structural)]
pub struct Rgb {
    pub r: u8,
    pub g: u8,
    pub b: u8,
}

/// The colour of the thirst bar for each thirst: green, yellow, red.
pub open spec fn thirst_color_of(t: Thirst) -> Rgb {
    match t {
        Thirst::Fine => Rgb { r: 80, g: 180, b: 80 },
        Thirst::Stressed => Rgb { r: 220, g: 180, b: 50 },
        Thirst::Dying => Rgb { r: 210, g: 60, b: 60 },
    }
}

/// The colour of the thirst bar after `days_no_water` dry days.
pub fn thirst_color(days_no_water: u32) -> (c: Rgb)
    ensures
        c == thirst_color_of(thirst_of(days_no_water as nat)),
{
    match thirst(days_no_water) {
        Thirst::Fine => Rgb { r: 80, g: 180, b: 80 },
        Thirst::Stressed => Rgb { r: 220, g: 180, b: 50 },
        Thirst::Dying => Rgb { r: 210, g: 60, b: 60 },
    }
}

/// The colour of the square drawn in place of a missing picture: dark for a
/// dead plant, otherwise green, yellow or red by thirst.
pub open spec fn placeholder_color_of(days_no_water: nat, dead: bool) -> Rgb {
    if dead {
        Rgb { r: 80, g: 60, b: 60 }
    } else {
        match thirst_of(days_no_water) {
            Thirst::Fine => Rgb { r: 60, g: 160, b: 60 },
            Thirst::Stressed => Rgb { r: 180, g: 160, b: 40 },
            Thirst::Dying => Rgb { r: 180, g: 60, b: 60 },
        }
    }
}

/// The colour of the square that stands in for the plant's picture when the
/// picture cannot be loaded.
pub fn placeholder_color(days_no_water: u32, dead: bool) -> (c: Rgb)
    ensures
        c == placeholder_color_of(days_no_water as nat, dead),
{
    if dead {
        Rgb { r: 80, g: 60, b: 60 }
    } else if days_no_water >= 5 {
        Rgb { r: 180, g: 60, b: 60 }
    } else if days_no_water >= 3 {
        Rgb { r: 180, g: 160, b: 40 }
    } else {
        Rgb { r: 60, g: 160, b: 60 }
    }
}

/// The colour of the day's progress bar: blue while the plant sleeps,
/// green while it is awake.
pub fn day_bar_color(sleeping: bool) -> (c: Rgb)
    ensures
        sleeping ==> c == (Rgb { r: 80, g: 100, b: 180 }),
        !sleeping ==> c == (Rgb { r: 80, g: 180, b: 80 }),
{
    if sleeping {
        Rgb { r: 80, g: 100, b: 180 }
    } else {
        Rgb { r: 80, g: 180, b: 80 }
    }
}

/// The character of the decimal digit `d`.
pub open spec fn digit_char(d: nat) -> char {
    if d == 0 {
        '0'
    } else if d == 1 {
        '1'
    } else if d == 2 {
        '2'
    } else if d == 3 {
        '3'
    } else if d == 4 {
        '4'
    } else if d == 5 {
        '5'
    } else if d == 6 {
        '6'
    } else if d == 7 {
        '7'
    } else if d == 8 {
        '8'
    } else {
        '9'
    }
}

/// `n` written in decimal, without leading zeros.
pub open spec fn decimal(n: nat) -> Seq<char>
    decreases n,
{
    if n < 10 {
        seq![digit_char(n)]
    } else {
        decimal(n / 10).push(digit_char(n % 10))
    }
}

/// `n` written in decimal with at least two digits.
pub open spec fn two_digits(n: nat) -> Seq<char> {
    if n < 10 {
        seq!['0', digit_char(n)]
    } else {
        decimal(n)
    }
}

/// `secs` seconds as `HHh MMm SSs`: whole hours, then the minutes and the
/// seconds left over, each with at least two digits.
pub open spec fn time_text(secs: nat) -> Seq<char> {
    two_digits(secs / 3600) + seq!['h', ' '] + two_digits((secs % 3600) / 60) + seq!['m', ' ']
        + two_digits(secs % 60) + seq!['s']
}

fn digit_str(d: u64) -> (s: &'static str)
    requires
        d < 10,
    ensures
        s@ == seq![digit_char(d as nat)],
{
    proof {
        reveal_strlit("0");
        reveal_strlit("1");
        reveal_strlit("2");
        reveal_strlit("3");
        reveal_strlit("4");
        reveal_strlit("5");
        reveal_strlit("6");
        reveal_strlit("7");
        reveal_strlit("8");
        reveal_strlit("9");
    }
    if d == 0 {
        "0"
    } else if d == 1 {
        "1"
    } else if d == 2 {
        "2"
    } else if d == 3 {
        "3"
    } else if d == 4 {
        "4"
    } else if d == 5 {
        "5"
    } else if d == 6 {
        "6"
    } else if d == 7 {
        "7"
    } else if d == 8 {
        "8"
    } else {
        "9"
    }
}

fn append_decimal(out: &mut String, n: u64)
    ensures
        final(out)@ == old(out)@ + decimal(n as nat),
    decreases n,
{
    if n >= 10 {
        append_decimal(out, n / 10);
    }
    let d = digit_str(n % 10);
    out.append(d);
    assert(final(out)@ =~= old(out)@ + decimal(n as nat));
}

fn append_two_digits(out: &mut String, n: u64)
    ensures
        final(out)@ == old(out)@ + two_digits(n as nat),
{
    if n < 10 {
        proof {
            reveal_strlit("0");
        }
        out.append("0");
    }
    append_decimal(out, n);
    assert(final(out)@ =~= old(out)@ + two_digits(n as nat));
}

/// Writes a span of `secs` whole seconds as hours, minutes and seconds,
/// such as `01h 02m 03s`.
pub fn format_time(secs: u64) -> (text: String)
    ensures
        text@ == time_text(secs as nat),
{
    let mut text = String::new();
    append_two_digits(&mut text, secs / 3600);
    proof {
        reveal_strlit("h ");
        reveal_strlit("m ");
        reveal_strlit("s");
    }
    text.append("h ");
    append_two_digits(&mut text, (secs % 3600) / 60);
    text.append("m ");
    append_two_digits(&mut text, secs % 60);
    text.append("s");
    assert(text@ =~= time_text(secs as nat));
    text
}

/// The number a decimal digit character stands for.
pub open spec fn digit_value(c: char) -> int {
    (c as int) - ('0' as int)
}

/// Whether `c` is one of the characters `0` to `9`.
pub open spec fn is_digit(c: char) -> bool {
    '0' as int <= c as int <= '9' as int
}

/// The number that a string of decimal digits reads as.
pub open spec fn digits_value(s: Seq<char>) -> int
    decreases s.len(),
{
    if s.len() == 0 {
        0
    } else {
        digits_value(s.drop_last()) * 10 + digit_value(s.last())
    }
}

/// Each decimal digit is written as its own character.
pub proof fn lemma_digit_char_reads_back(d: nat)
    requires
        d < 10,
    ensures
        is_digit(digit_char(d)),
        digit_value(digit_char(d)) == d,
{
}

/// A number written in decimal is a non-empty string of digits that reads
/// back as the number, with no leading zero.
pub proof fn lemma_decimal_reads_back(n: nat)
    ensures
        decimal(n).len() >= 1,
        forall|i: int| 0 <= i < decimal(n).len() ==> is_digit(#[trigger] decimal(n)[i]),
        digits_value(decimal(n)) == n,
        n >= 10 ==> decimal(n)[0] != '0',
    decreases n,
{
    lemma_digit_char_reads_back(n % 10);
    if n >= 10 {
        lemma_decimal_reads_back(n / 10);
        assert(decimal(n).drop_last() =~= decimal(n / 10));
        assert(digits_value(decimal(n)) == digits_value(decimal(n / 10)) * 10 + digit_value(
            digit_char(n % 10),
        ));
    } else {
        assert(decimal(n).drop_last() =~= Seq::<char>::empty());
        assert(digits_value(decimal(n)) == digits_value(Seq::<char>::empty()) * 10 + digit_value(
            digit_char(n % 10),
        ));
    }
}

/// A two-digit field is a string of at least two digits that reads back as
/// the number, and is exactly two characters long when the number is below
/// one hundred.
pub proof fn lemma_two_digits_reads_back(n: nat)
    ensures
        two_digits(n).len() >= 2,
        n < 100 ==> two_digits(n).len() == 2,
        forall|i: int| 0 <= i < two_digits(n).len() ==> is_digit(#[trigger] two_digits(n)[i]),
        digits_value(two_digits(n)) == n,
{
    lemma_decimal_reads_back(n);
    lemma_digit_char_reads_back(n % 10);
    if n < 10 {
        assert(two_digits(n).drop_last() =~= seq!['0']);
        assert(seq!['0'].drop_last() =~= Seq::<char>::empty());
        assert(digits_value(seq!['0']) == digits_value(Seq::<char>::empty()) * 10 + digit_value(
            '0',
        ));
        assert(digits_value(two_digits(n)) == digits_value(seq!['0']) * 10 + digit_value(
            digit_char(n),
        ));
    } else {
        lemma_decimal_reads_back(n / 10);
        if n < 100 {
            assert(decimal(n / 10) =~= seq![digit_char(n / 10)]);
        }
    }
}

/// The time text has the hours, the minutes and the seconds of the span in
/// its three fields: for every span of `3600 * h + 60 * m + s` seconds with
/// `m` and `s` below sixty, the fields are `h`, `m` and `s`, followed by
/// `h `, `m ` and `s`.
pub proof fn lemma_time_text_fields(h: nat, m: nat, s: nat)
    requires
        m < 60,
        s < 60,
    ensures
        time_text(3600 * h + 60 * m + s) == two_digits(h) + seq!['h', ' '] + two_digits(m) + seq![
            'm',
            ' ',
        ] + two_digits(s) + seq!['s'],
{
    let secs: int = (3600 * h + 60 * m + s) as int;
    let rest: int = (60 * m + s) as int;
    vstd::arithmetic::div_mod::lemma_fundamental_div_mod_converse(secs, 3600, h as int, rest);
    vstd::arithmetic::div_mod::lemma_fundamental_div_mod_converse(rest, 60, m as int, s as int);
    vstd::arithmetic::div_mod::lemma_fundamental_div_mod_converse(
        secs,
        60,
        (60 * h + m) as int,
        s as int,
    );
}

/// Every span splits into its time fields: the minutes and the seconds are
/// below sixty and `3600 * hours + 60 * minutes + seconds` is the span.
pub proof fn lemma_time_fields_add_up(secs: nat)
    ensures
        (secs % 3600) / 60 < 60,
        secs % 60 < 60,
        3600 * (secs / 3600) + 60 * ((secs % 3600) / 60) + secs % 60 == secs,
{
    let h = secs / 3600;
    let r = secs % 3600;
    vstd::arithmetic::div_mod::lemma_fundamental_div_mod(secs as int, 3600);
    vstd::arithmetic::div_mod::lemma_fundamental_div_mod(r as int, 60);
    vstd::arithmetic::div_mod::lemma_fundamental_div_mod_converse(
        secs as int,
        60,
        (60 * h + r / 60) as int,
        (r % 60) as int,
    );
}

/// The thirst classes by dry days: fine up to two, stressed at three and
/// four, dying from five on.
pub proof fn lemma_thirst_thresholds(days_no_water: nat)
    ensures
        (thirst_of(days_no_water) == Thirst::Fine) == (days_no_water <= 2),
        (thirst_of(days_no_water) == Thirst::Stressed) == (3 <= days_no_water <= 4),
        (thirst_of(days_no_water) == Thirst::Dying) == (days_no_water >= 5),
{
}

/// The picture by state: the dead one for any dead plant; for a living
/// plant the happy one up to two dry days, the stressed one at three and
/// four, the dying one from five on.
pub proof fn lemma_sprite_by_state(days_no_water: nat, dead: bool)
    ensures
        dead ==> sprite_path_of(days_no_water, dead) == "assets/sprites/plant_dead.png"@,
        !dead && days_no_water <= 2 ==> sprite_path_of(days_no_water, dead)
            == "assets/sprites/plant_happy.png"@,
        !dead && 3 <= days_no_water <= 4 ==> sprite_path_of(days_no_water, dead)
            == "assets/sprites/plant_stressed.png"@,
        !dead && days_no_water >= 5 ==> sprite_path_of(days_no_water, dead)
            == "assets/sprites/plant_dying.png"@,
{
}

/// The colours by state: the thirst bar is green up to two dry days, yellow
/// at three and four, red from five on; the stand-in square is dark for a
/// dead plant and otherwise green, yellow or red on the same thresholds.
pub proof fn lemma_colors_by_state(days_no_water: nat, dead: bool)
    ensures
        days_no_water <= 2 ==> thirst_color_of(thirst_of(days_no_water)) == (Rgb { r: 80, g: 180, b: 80 }),
        3 <= days_no_water <= 4 ==> thirst_color_of(thirst_of(days_no_water)) == (Rgb {
            r: 220,
            g: 180,
            b: 50,
        }),
        days_no_water >= 5 ==> thirst_color_of(thirst_of(days_no_water)) == (Rgb { r: 210, g: 60, b: 60 }),
        dead ==> placeholder_color_of(days_no_water, dead) == (Rgb { r: 80, g: 60, b: 60 }),
        !dead && days_no_water <= 2 ==> placeholder_color_of(days_no_water, dead) == (Rgb {
            r: 60,
            g: 160,
            b: 60,
        }),
        !dead && 3 <= days_no_water <= 4 ==> placeholder_color_of(days_no_water, dead) == (Rgb {
            r: 180,
            g: 160,
            b: 40,
        }),
        !dead && days_no_water >= 5 ==> placeholder_color_of(days_no_water, dead) == (Rgb {
            r: 180,
            g: 60,
            b: 60,
        }),
{
}

} // verus!
