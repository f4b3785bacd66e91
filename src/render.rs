use vstd::prelude::*;
use crate::text::{chars_of, push_char};

verus! {

/// The number of cells of the progress bar.
pub const BAR_LENGTH: u64 = 50;

/// Cell `i` of the bar is filled when `i / BAR_LENGTH` is below the stored
/// fraction `written / total`.
pub open spec fn cell_filled(i: int, written: int, total: int) -> bool {
    i * total < BAR_LENGTH * written
}

/// The progress bar: the cells between brackets, `=` for a filled cell and
/// a space for another.
pub open spec fn bar_of(written: int, total: int) -> Seq<char> {
    seq!['['] + Seq::new(BAR_LENGTH as nat, |i: int| if cell_filled(i, written, total) { '=' } else { ' ' }) + seq![']']
}

/// The stored share in whole percent, held at 100. With nothing announced
/// it is 100 once anything is stored.
pub open spec fn percent_of(written: int, total: int) -> int {
    if total == 0 {
        if written > 0 { 100 } else { 0 }
    } else if written * 100 / total > 100 {
        100
    } else {
        written * 100 / total
    }
}

/// The decimal writing of `n`, without leading zeros.
pub open spec fn decimal_digits(n: nat) -> Seq<char>
    decreases n,
{
    if n < 10 {
        seq![(n + 48) as char]
    } else {
        decimal_digits(n / 10).push(((n % 10) + 48) as char)
    }
}

/// `n` spaces.
pub open spec fn spaces(n: nat) -> Seq<char> {
    Seq::new(n, |i: int| ' ')
}

/// The number of spaces that center a text of `len` characters on a line
/// of `width` columns; none for a text as wide as the line or wider.
pub open spec fn padding_of(width: int, len: int) -> int {
    if len >= width { 0 } else { (width - len) / 2 }
}

/// The progress bar of a transfer.
pub fn download_bar(written: u64, total: u64) -> (r: String)
    ensures
        r@ == bar_of(written as int, total as int),
{
    let mut bar = String::new();
    push_char(&mut bar, '[');
    let mut i: u64 = 0;
    while i < BAR_LENGTH
        invariant
            i <= BAR_LENGTH,
            bar@ == seq!['['] + Seq::new(i as nat, |k: int| if cell_filled(k, written as int, total as int) { '=' } else { ' ' }),
        decreases BAR_LENGTH - i,
    {
        assert((i as u128) * (total as u128) <= u128::MAX) by (nonlinear_arith)
            requires i < 50, total <= u64::MAX;
        assert((BAR_LENGTH as u128) * (written as u128) <= u128::MAX) by (nonlinear_arith)
            requires BAR_LENGTH == 50, written <= u64::MAX;
        let filled = (i as u128) * (total as u128) < (BAR_LENGTH as u128) * (written as u128);
        assert(filled == cell_filled(i as int, written as int, total as int)) by (nonlinear_arith)
            requires
                filled == ((i as u128) * (total as u128) < (BAR_LENGTH as u128) * (written as u128)),
                i < 50,
                BAR_LENGTH == 50,
        ;
        push_char(&mut bar, if filled { '=' } else { ' ' });
        let ghost row = Seq::new((i + 1) as nat, |k: int| if cell_filled(k, written as int, total as int) { '=' } else { ' ' });
        assert(bar@ =~= seq!['['] + row);
        i = i + 1;
    }
    push_char(&mut bar, ']');
    assert(bar@ =~= bar_of(written as int, total as int));
    bar
}

/// The stored share of a transfer in whole percent, held at 100.
pub fn percent(written: u64, total: u64) -> (r: u64)
    ensures
        r == percent_of(written as int, total as int),
        r <= 100,
{
    if total == 0 {
        if written > 0 { 100 } else { 0 }
    } else {
        assert((written as u128) * 100 <= u128::MAX) by (nonlinear_arith)
            requires written <= u64::MAX;
        let p = (written as u128) * 100 / (total as u128);
        if p > 100 {
            100
        } else {
            p as u64
        }
    }
}

/// Appends the decimal writing of `n`.
pub fn push_decimal(s: &mut String, n: u64)
    ensures
        final(s)@ == old(s)@ + decimal_digits(n as nat),
    decreases n,
{
    if n >= 10 {
        push_decimal(s, n / 10);
    }
    let d = (n % 10) as u8;
    let c = (d + 48) as char;
    push_char(s, c);
    proof {
        if n >= 10 {
            assert(decimal_digits(n as nat) == decimal_digits((n / 10) as nat).push(((n % 10) + 48) as char));
        }
    }
    assert(final(s)@ =~= old(s)@ + decimal_digits(n as nat));
}

/// The progress line of a transfer: the bar, a space, and the share in
/// percent, as in `[=====     ] 10%`.
pub fn progress_line(written: u64, total: u64) -> (r: String)
    ensures
        r@ == bar_of(written as int, total as int) + seq![' '] + decimal_digits(percent_of(written as int, total as int) as nat) + seq!['%'],
{
    let mut line = download_bar(written, total);
    push_char(&mut line, ' ');
    let p = percent(written, total);
    push_decimal(&mut line, p);
    push_char(&mut line, '%');
    line
}

/// The number of spaces that center `text` on a line of `width` columns.
pub fn centered_padding(width: u16, text: &str) -> (r: usize)
    ensures
        r == padding_of(width as int, text@.len() as int),
{
    let len = chars_of(text).len();
    if len >= width as usize {
        0
    } else {
        (width as usize - len) / 2
    }
}

/// `text` preceded by the spaces that center it on a line of `width`
/// columns.
pub fn centered(width: u16, text: &str) -> (r: String)
    ensures
        r@ == spaces(padding_of(width as int, text@.len() as int) as nat) + text@,
{
    let pad = centered_padding(width, text);
    let mut line = String::new();
    let mut i: usize = 0;
    while i < pad
        invariant
            i <= pad,
            line@ == spaces(i as nat),
        decreases pad - i,
    {
        push_char(&mut line, ' ');
        assert(line@ =~= spaces((i + 1) as nat));
        i = i + 1;
    }
    line.append(text);
    line
}

/// The label of a menu option: the selected one is marked with `> `.
pub fn option_label(option: &str, selected: bool) -> (r: String)
    ensures
        r@ == if selected { seq!['>', ' '] + option@ } else { option@ },
{
    let mut label = String::new();
    if selected {
        push_char(&mut label, '>');
        push_char(&mut label, ' ');
    }
    label.append(option);
    assert(label@ =~= if selected { seq!['>', ' '] + option@ } else { option@ });
    label
}

} // verus!
