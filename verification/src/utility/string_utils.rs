//! # `StringUtils`
//! The date line of the display: `DayOfWeek DD.MM.YYYY`, written into a 20-character buffer the
//! way formatting writes it, piece by piece, and centred in a 22-character `heapless::String`.
use vstd::prelude::*;

use heapless::CapacityError;

use crate::datetime::{DateTime, DayOfWeek};

verus! {

#[verifier::external_type_specification]
#[verifier::external_body]
pub struct ExCapacityError(CapacityError);

/// Width of the centred date line.
pub const DATE_LINE_WIDTH: u8 = 22;

/// Capacity of the buffer the date is first written into.
pub const DATE_CONTENT_CAPACITY: usize = 20;

/// A line of text of at most 22 bytes, kept in a `heapless::String<22>`.
#[verifier::external_body]
pub struct DateLine {
    text: heapless::String<22>,
}

/// The characters a line holds.
pub uninterp spec fn line_chars(line: DateLine) -> Seq<char>;

/// Creates an empty line with `heapless::String::new`.
#[verifier::external_body]
fn line_new() -> (line: DateLine)
    ensures
        line_chars(line) == Seq::<char>::empty(),
{
    DateLine { text: heapless::String::new() }
}

/// Appends an ASCII character with `heapless::String::push`, which stores it when a byte is
/// free and returns `CapacityError` leaving the string as it was otherwise.
#[verifier::external_body]
fn line_push(line: &mut DateLine, c: char) -> (r: Result<(), CapacityError>)
    requires
        (c as u32) < 128,
    ensures
        line_chars(*old(line)).len() < 22 ==> r.is_ok() && line_chars(*final(line)) == line_chars(*old(line)).push(c),
        line_chars(*old(line)).len() >= 22 ==> r.is_err() && line_chars(*final(line)) == line_chars(*old(line)),
{
    line.text.push(c)
}

/// The text of a line, from `heapless::String::as_str`, which views the bytes stored so far.
#[verifier::external_body]
fn line_text(line: &DateLine) -> (text: &str)
    ensures
        text@ == line_chars(*line),
{
    line.text.as_str()
}

impl DateLine {
    /// The text of the line.
    pub fn as_str(&self) -> (text: &str)
        ensures
            text@ == line_chars(*self),
    {
        line_text(self)
    }
}

/// The name of a day of the week as the firmware writes it.
pub open spec fn day_name(d: DayOfWeek) -> Seq<char> {
    match d {
        DayOfWeek::Monday => seq!['M', 'o', 'n', 'd', 'a', 'y'],
        DayOfWeek::Tuesday => seq!['T', 'u', 'e', 's', 'd', 'a', 'y'],
        DayOfWeek::Wednesday => seq!['W', 'e', 'd', 'n', 'e', 's', 'd', 'a', 'y'],
        DayOfWeek::Thursday => seq!['T', 'h', 'u', 'r', 's', 'd', 'a', 'y'],
        DayOfWeek::Friday => seq!['F', 'r', 'i', 'd', 'a', 'y'],
        DayOfWeek::Saturday => seq!['S', 'a', 't', 'u', 'r', 'd', 'a', 'y'],
        DayOfWeek::Sunday => seq!['S', 'u', 'n', 'd', 'a', 'y'],
    }
}

/// The character of a decimal digit.
pub open spec fn digit_char(d: int) -> char {
    if d == 0 {
        '0'
    } else if d == 1 {
        '1'
    } else if d == 2 {
        '2'
    } else if d == 3 {
        '3'
    } else if d == 4 {
        '4'
    } else if d == 5 {
        '5'
    } else if d == 6 {
        '6'
    } else if d == 7 {
        '7'
    } else if d == 8 {
        '8'
    } else {
        '9'
    }
}

/// The decimal digits of a number, without leading zeros.
pub open spec fn decimal(n: nat) -> Seq<char>
    decreases n,
{
    if n < 10 { seq![digit_char(n as int)] } else { decimal(n / 10).push(digit_char((n % 10) as int)) }
}

/// The pieces formatting writes for the date, in order: the day's name, a space, the day with
/// its zero pad to two digits, a dot, the month with its pad, a dot, the year.
pub open spec fn date_pieces(dt: DateTime) -> Seq<Seq<char>> {
    seq![
        day_name(dt.day_of_week),
        seq![' '],
        if dt.day < 10 { seq!['0'] } else { Seq::<char>::empty() },
        decimal(dt.day as nat),
        seq!['.'],
        if dt.month < 10 { seq!['0'] } else { Seq::<char>::empty() },
        decimal(dt.month as nat),
        seq!['.'],
        decimal(dt.year as nat),
    ]
}

/// The text a bounded buffer holds after the pieces are written in order: each piece is
/// stored whole if it fits, and the first piece that does not fit ends the writing.
pub open spec fn written(pieces: Seq<Seq<char>>, acc: Seq<char>, capacity: int) -> Seq<char>
    decreases pieces.len(),
{
    if pieces.len() == 0 {
        acc
    } else if acc.len() + pieces[0].len() <= capacity {
        written(pieces.drop_first(), acc + pieces[0], capacity)
    } else {
        acc
    }
}

/// The date content: what fits of the date pieces in 20 characters.
pub open spec fn date_content(dt: DateTime) -> Seq<char> {
    written(date_pieces(dt), Seq::empty(), DATE_CONTENT_CAPACITY as int)
}

/// The content centred in 22 characters: half the padding (rounded down) before it, the rest
/// after it.
pub open spec fn centred(content: Seq<char>) -> Seq<char> {
    let padding = 22 - content.len();
    let left = padding / 2;
    Seq::new(left as nat, |i: int| ' ') + content + Seq::new((padding - left) as nat, |i: int| ' ')
}

/// A utility struct for string operations
pub struct StringUtils;

/// The decimal digits of a number, without leading zeros.
fn decimal_chars(n: u16) -> (v: Vec<char>)
    ensures
        v@ == decimal(n as nat),
    decreases n,
{
    let d = n % 10;
    let c = if d == 0 {
        '0'
    } else if d == 1 {
        '1'
    } else if d == 2 {
        '2'
    } else if d == 3 {
        '3'
    } else if d == 4 {
        '4'
    } else if d == 5 {
        '5'
    } else if d == 6 {
        '6'
    } else if d == 7 {
        '7'
    } else if d == 8 {
        '8'
    } else {
        '9'
    };
    if n < 10 {
        let mut v: Vec<char> = Vec::new();
        v.push(c);
        v
    } else {
        let mut v = decimal_chars(n / 10);
        v.push(c);
        v
    }
}

/// The name of a day of the week.
fn day_name_chars(d: DayOfWeek) -> (v: Vec<char>)
    ensures
        v@ == day_name(d),
{
    let v = match d {
        DayOfWeek::Monday => vec!['M', 'o', 'n', 'd', 'a', 'y'],
        DayOfWeek::Tuesday => vec!['T', 'u', 'e', 's', 'd', 'a', 'y'],
        DayOfWeek::Wednesday => vec!['W', 'e', 'd', 'n', 'e', 's', 'd', 'a', 'y'],
        DayOfWeek::Thursday => vec!['T', 'h', 'u', 'r', 's', 'd', 'a', 'y'],
        DayOfWeek::Friday => vec!['F', 'r', 'i', 'd', 'a', 'y'],
        DayOfWeek::Saturday => vec!['S', 'a', 't', 'u', 'r', 'd', 'a', 'y'],
        DayOfWeek::Sunday => vec!['S', 'u', 'n', 'd', 'a', 'y'],
    };
    assert(v@ =~= day_name(d));
    v
}

/// Whether every character of a text is ASCII.
pub open spec fn ascii_text(s: Seq<char>) -> bool {
    forall|k: int| 0 <= k < s.len() ==> (#[trigger] s[k] as u32) < 128
}

/// Decimal digits are ASCII.
proof fn lemma_decimal_ascii(n: nat)
    ensures
        ascii_text(decimal(n)),
    decreases n,
{
    if n >= 10 {
        lemma_decimal_ascii(n / 10);
        let s = decimal(n / 10).push(digit_char((n % 10) as int));
        assert forall|k: int| 0 <= k < s.len() implies (#[trigger] s[k] as u32) < 128 by {
            if k < s.len() - 1 {
                assert(s[k] == decimal(n / 10)[k]);
            }
        }
    }
}

/// Writes the pieces into a buffer of `capacity` characters the way formatting does.
fn write_pieces(pieces: &Vec<Vec<char>>, capacity: usize) -> (content: Vec<char>)
    requires
        forall|i: int| 0 <= i < pieces.len() ==> ascii_text(#[trigger] pieces@[i]@),
    ensures
        content@ == written(pieces@.map_values(|p: Vec<char>| p@), Seq::empty(), capacity as int),
        content@.len() <= capacity,
        ascii_text(content@),
{
    let ghost all = pieces@.map_values(|p: Vec<char>| p@);
    let mut content: Vec<char> = Vec::new();
    let mut k: usize = 0;
    assert(all.skip(0) =~= all);
    while k < pieces.len()
        invariant
            0 <= k <= pieces.len(),
            all == pieces@.map_values(|p: Vec<char>| p@),
            content@.len() <= capacity,
            ascii_text(content@),
            forall|i: int| 0 <= i < pieces.len() ==> ascii_text(#[trigger] pieces@[i]@),
            written(all, Seq::empty(), capacity as int) == written(all.skip(k as int), content@, capacity as int),
        decreases pieces.len() - k,
    {
        let piece = &pieces[k];
        assert(all.skip(k as int)[0] == piece@);
        assert(all.skip(k as int).drop_first() =~= all.skip(k + 1));
        if piece.len() > capacity - content.len() {
            return content;
        }
        let mut j: usize = 0;
        let ghost start = content@;
        while j < piece.len()
            invariant
                0 <= j <= piece.len(),
                content@ == start + piece@.subrange(0, j as int),
                start.len() + piece.len() <= capacity,
                ascii_text(start),
                ascii_text(piece@),
                ascii_text(content@),
            decreases piece.len() - j,
        {
            content.push(piece[j]);
            assert(piece@.subrange(0, j + 1) =~= piece@.subrange(0, j as int).push(piece@[j as int]));
            j = j + 1;
        }
        assert(piece@.subrange(0, piece.len() as int) =~= piece@);
        k = k + 1;
    }
    assert(all.skip(k as int) =~= Seq::<Seq<char>>::empty());
    content
}

impl StringUtils {
    /// This function converts a `DateTime` struct to a string
    /// The output string will be in the format "`DayOfWeek` DD.MM.YYYY", with padding to center
    /// the string in a 22 character field, one example being `" Saturday 26.06.2024  "`.
    /// What does not fit in 20 characters is cut at the first piece that does not fit.
    pub fn convert_datetime_to_str(dt: &DateTime) -> (line: DateLine)
        ensures
            line_chars(line) == centred(date_content(*dt)),
    {
        let space = vec![' '];
        let dot = vec!['.'];
        let day_pad: Vec<char> = if dt.day < 10 { vec!['0'] } else { Vec::new() };
        let month_pad: Vec<char> = if dt.month < 10 { vec!['0'] } else { Vec::new() };
        assert(space@ =~= seq![' ']);
        assert(dot@ =~= seq!['.']);
        assert(day_pad@ =~= date_pieces(*dt)[2]);
        assert(month_pad@ =~= date_pieces(*dt)[5]);
        let mut pieces: Vec<Vec<char>> = Vec::new();
        pieces.push(day_name_chars(dt.day_of_week));
        pieces.push(space);
        pieces.push(day_pad);
        pieces.push(decimal_chars(dt.day as u16));
        pieces.push(dot.clone());
        pieces.push(month_pad);
        pieces.push(decimal_chars(dt.month as u16));
        pieces.push(dot);
        pieces.push(decimal_chars(dt.year));
        assert(pieces@.map_values(|p: Vec<char>| p@) =~= date_pieces(*dt));
        proof {
            lemma_decimal_ascii(dt.day as nat);
            lemma_decimal_ascii(dt.month as nat);
            lemma_decimal_ascii(dt.year as nat);
            assert forall|i: int| 0 <= i < pieces.len() implies ascii_text(#[trigger] pieces@[i]@) by {
                assert(pieces@[i]@ == date_pieces(*dt)[i]);
            }
        }
        let s = write_pieces(&pieces, DATE_CONTENT_CAPACITY);
        let content_length = s.len() as u8;
        let padding = DATE_LINE_WIDTH - content_length;
        let padding_left = padding / 2;
        let padding_right = padding - padding_left;
        let mut padded_string = line_new();
        let mut i: u8 = 0;
        while i < padding_left
            invariant
                0 <= i <= padding_left,
                padding_left <= 11,
                line_chars(padded_string) == Seq::new(i as nat, |k: int| ' '),
            decreases padding_left - i,
        {
            let _ = line_push(&mut padded_string, ' ');
            assert(line_chars(padded_string) =~= Seq::new((i + 1) as nat, |k: int| ' '));
            i = i + 1;
        }
        let mut j: usize = 0;
        while j < s.len()
            invariant
                0 <= j <= s.len(),
                s@.len() <= 20,
                s@.len() + padding_left <= 22,
                line_chars(padded_string) == Seq::new(padding_left as nat, |k: int| ' ') + s@.subrange(0, j as int),
                ascii_text(s@),
            decreases s.len() - j,
        {
            let _ = line_push(&mut padded_string, s[j]);
            assert(s@.subrange(0, j + 1) =~= s@.subrange(0, j as int).push(s@[j as int]));
            j = j + 1;
        }
        assert(s@.subrange(0, s.len() as int) =~= s@);
        let mut k: u8 = 0;
        while k < padding_right
            invariant
                0 <= k <= padding_right,
                padding_left + s@.len() + padding_right == 22,
                line_chars(padded_string) == Seq::new(padding_left as nat, |m: int| ' ') + s@ + Seq::new(
                    k as nat,
                    |m: int| ' ',
                ),
            decreases padding_right - k,
        {
            let _ = line_push(&mut padded_string, ' ');
            assert(Seq::new((k + 1) as nat, |m: int| ' ') =~= Seq::new(k as nat, |m: int| ' ').push(' '));
            k = k + 1;
        }
        padded_string
    }
}

/// The date line calls each day of the week by its English name, in the order of the week from
/// Sunday (the day's index): `Tuesday` is written "Tuesday", `Thursday` "Thursday", and so on,
/// so that two different days are never written alike.
pub proof fn law_day_names_are_the_weekdays(d: DayOfWeek, e: DayOfWeek)
    ensures
        day_name(d) == seq![
            "Sunday"@, "Monday"@, "Tuesday"@, "Wednesday"@, "Thursday"@, "Friday"@, "Saturday"@,
        ][crate::datetime::day_of_week_index(d)],
        day_name(d) == day_name(e) ==> d == e,
{
    reveal_strlit("Sunday");
    reveal_strlit("Monday");
    reveal_strlit("Tuesday");
    reveal_strlit("Wednesday");
    reveal_strlit("Thursday");
    reveal_strlit("Friday");
    reveal_strlit("Saturday");
    assert(day_name(d) =~= seq![
        "Sunday"@, "Monday"@, "Tuesday"@, "Wednesday"@, "Thursday"@, "Friday"@, "Saturday"@,
    ][crate::datetime::day_of_week_index(d)]);
    if day_name(d) == day_name(e) && d != e {
        assert(day_name(d).len() == day_name(e).len());
        assert(day_name(d)[0] == day_name(e)[0]);
        assert(day_name(d)[1] == day_name(e)[1]);
    }
}

/// The number a text of decimal digits reads as.
pub open spec fn digits_value(s: Seq<char>) -> int
    decreases s.len(),
{
    if s.len() == 0 { 0 } else { digits_value(s.drop_last()) * 10 + (s.last() as int - '0' as int) }
}

/// Numbers are written in decimal: each character is one of the digits '0' to '9', the text
/// reads back as the number, and it starts with '0' only for zero itself.
pub proof fn law_decimal_reads_back(n: nat)
    ensures
        forall|i: int| 0 <= i < decimal(n).len() ==> '0' <= #[trigger] decimal(n)[i] <= '9',
        digits_value(decimal(n)) == n,
        decimal(n)[0] == '0' ==> n == 0,
        decimal(n).len() >= 1,
        n < 10 ==> decimal(n).len() == 1,
        10 <= n < 100 ==> decimal(n).len() == 2,
        100 <= n < 1000 ==> decimal(n).len() == 3,
        1000 <= n < 10000 ==> decimal(n).len() == 4,
    decreases n,
{
    let d = (n % 10) as int;
    assert(digit_char(d) as int == '0' as int + d);
    if n < 10 {
        assert(decimal(n).drop_last() =~= Seq::<char>::empty());
        assert(digits_value(decimal(n)) == digits_value(Seq::<char>::empty()) * 10 + (digit_char(d) as int - '0' as int));
    } else {
        law_decimal_reads_back(n / 10);
        let s = decimal(n);
        assert(s.last() == digit_char(d));
        assert(n == (n / 10) * 10 + d);
        assert(s.drop_last() =~= decimal(n / 10));
        assert(digits_value(s) == digits_value(decimal(n / 10)) * 10 + (digit_char(d) as int - '0' as int));
        assert(s[0] == decimal(n / 10)[0]);
        assert forall|i: int| 0 <= i < s.len() implies '0' <= #[trigger] s[i] <= '9' by {
            if i < s.len() - 1 {
                assert(s[i] == decimal(n / 10)[i]);
            }
        }
    }
}

/// A leading zero does not change the number a text of digits reads as.
proof fn lemma_leading_zero(t: Seq<char>)
    ensures
        digits_value(seq!['0'] + t) == digits_value(t),
    decreases t.len(),
{
    let z = seq!['0'] + t;
    if t.len() == 0 {
        assert(z =~= seq!['0']);
        assert(z.drop_last() =~= Seq::<char>::empty());
        assert(digits_value(z) == digits_value(z.drop_last()) * 10 + (z.last() as int - '0' as int));
    } else {
        lemma_leading_zero(t.drop_last());
        assert(z.drop_last() =~= seq!['0'] + t.drop_last());
        assert(z.last() == t.last());
        assert(digits_value(z) == digits_value(z.drop_last()) * 10 + (z.last() as int - '0' as int));
        assert(digits_value(t) == digits_value(t.drop_last()) * 10 + (t.last() as int - '0' as int));
    }
}

/// Writing a piece that fits stores it whole and goes on with the next.
proof fn lemma_written_step(ps: Seq<Seq<char>>, acc: Seq<char>, capacity: int)
    requires
        ps.len() > 0,
        acc.len() + ps[0].len() <= capacity,
    ensures
        written(ps, acc, capacity) == written(ps.skip(1), acc + ps[0], capacity),
{
    assert(ps.drop_first() =~= ps.skip(1));
}

/// The number written with its zero pad to two digits: two digits that read as the number.
proof fn lemma_padded(v: u8)
    requires
        v < 100,
    ensures
        ({
            let t = (if v < 10 { seq!['0'] } else { Seq::<char>::empty() }) + decimal(v as nat);
            &&& t.len() == 2
            &&& digits_value(t) == v
            &&& '0' <= t[0] <= '9' && '0' <= t[1] <= '9'
        }),
{
    law_decimal_reads_back(v as nat);
    if v < 10 {
        lemma_leading_zero(decimal(v as nat));
    } else {
        assert((Seq::<char>::empty() + decimal(v as nat)) =~= decimal(v as nat));
    }
}

/// The date content of a date with a four-digit year is the name of the day, a space, the day
/// of the month in two digits, a dot, the month in two digits, a dot and the year in four digits
/// ("Tuesday 25.06.2024"): every part fits and reads back as the date.
#[verifier::spinoff_prover]
#[verifier::rlimit(60)]
pub proof fn law_date_content_reads_back(dt: DateTime)
    requires
        1 <= dt.day <= 31,
        1 <= dt.month <= 12,
        1000 <= dt.year <= 9999,
    ensures
        ({
            let c = date_content(dt);
            let n = day_name(dt.day_of_week).len() as int;
            &&& c.len() == n + 11
            &&& c.subrange(0, n) == day_name(dt.day_of_week)
            &&& c[n] == ' '
            &&& digits_value(c.subrange(n + 1, n + 3)) == dt.day
            &&& c[n + 3] == '.'
            &&& digits_value(c.subrange(n + 4, n + 6)) == dt.month
            &&& c[n + 6] == '.'
            &&& digits_value(c.subrange(n + 7, n + 11)) == dt.year
        }),
{
    let p = date_pieces(dt);
    let name = day_name(dt.day_of_week);
    let n = name.len() as int;
    assert(n <= 9);
    lemma_padded(dt.day);
    lemma_padded(dt.month);
    law_decimal_reads_back(dt.year as nat);
    let dp = p[2] + p[3];
    let mp = p[5] + p[6];
    let full = name + seq![' '] + dp + seq!['.'] + mp + seq!['.'] + decimal(dt.year as nat);
    assert(written(p, Seq::empty(), 20) =~= full) by {
        let a1 = Seq::<char>::empty() + p[0];
        let a2 = a1 + p[1];
        let a3 = a2 + p[2];
        let a4 = a3 + p[3];
        let a5 = a4 + p[4];
        let a6 = a5 + p[5];
        let a7 = a6 + p[6];
        let a8 = a7 + p[7];
        let a9 = a8 + p[8];
        assert(a9.len() == n + 11);
        lemma_written_step(p, Seq::empty(), 20);
        assert(p.skip(1)[0] == p[1]);
        lemma_written_step(p.skip(1), a1, 20);
        assert(p.skip(1).skip(1) =~= p.skip(2));
        assert(p.skip(2)[0] == p[2]);
        lemma_written_step(p.skip(2), a2, 20);
        assert(p.skip(2).skip(1) =~= p.skip(3));
        assert(p.skip(3)[0] == p[3]);
        lemma_written_step(p.skip(3), a3, 20);
        assert(p.skip(3).skip(1) =~= p.skip(4));
        assert(p.skip(4)[0] == p[4]);
        lemma_written_step(p.skip(4), a4, 20);
        assert(p.skip(4).skip(1) =~= p.skip(5));
        assert(p.skip(5)[0] == p[5]);
        lemma_written_step(p.skip(5), a5, 20);
        assert(p.skip(5).skip(1) =~= p.skip(6));
        assert(p.skip(6)[0] == p[6]);
        lemma_written_step(p.skip(6), a6, 20);
        assert(p.skip(6).skip(1) =~= p.skip(7));
        assert(p.skip(7)[0] == p[7]);
        lemma_written_step(p.skip(7), a7, 20);
        assert(p.skip(7).skip(1) =~= p.skip(8));
        assert(p.skip(8)[0] == p[8]);
        lemma_written_step(p.skip(8), a8, 20);
        assert(p.skip(8).skip(1) =~= p.skip(9));
        assert(p.skip(9).len() == 0);
        assert(a9 =~= full);
    }
    let c = date_content(dt);
    assert(c.subrange(0, n) =~= name);
    assert(c.subrange(n + 1, n + 3) =~= dp);
    assert(c.subrange(n + 4, n + 6) =~= mp);
    assert(c.subrange(n + 7, n + 11) =~= decimal(dt.year as nat));
}

/// The date line centres its content in 22 characters: the content stands whole between two
/// margins of spaces, and the right margin is as wide as the left one or one space wider.
pub proof fn law_date_line_centred(content: Seq<char>)
    requires
        content.len() <= 22,
    ensures
        ({
            let line = centred(content);
            let left = (22 - content.len()) / 2;
            let right = 22 - content.len() - left;
            &&& line.len() == 22
            &&& line.subrange(left as int, left + content.len()) == content
            &&& left <= right <= left + 1
            &&& forall|k: int| 0 <= k < left ==> line[k] == ' '
            &&& forall|k: int| left + content.len() <= k < 22 ==> line[k] == ' '
        }),
{
    let line = centred(content);
    let left = (22 - content.len()) / 2;
    assert(line.subrange(left as int, left + content.len()) =~= content);
}

} // verus!
