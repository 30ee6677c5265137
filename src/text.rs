//! Textual rendering of elements and of slots.
use vstd::prelude::*;

verus! {

/// The decimal digit for a value below ten.
pub open spec fn digit_char(d: nat) -> char {
    if d == 0 {
        '0'
    } else if d == 1 {
        '1'
    } else if d == 2 {
        '2'
    } else if d == 3 {
        '3'
    } else if d == 4 {
        '4'
    } else if d == 5 {
        '5'
    } else if d == 6 {
        '6'
    } else if d == 7 {
        '7'
    } else if d == 8 {
        '8'
    } else {
        '9'
    }
}

/// The decimal notation of `n`, most significant digit first, without leading zeros.
pub open spec fn decimal(n: nat) -> Seq<char>
    decreases n,
{
    if n < 10 {
        seq![digit_char(n)]
    } else {
        decimal(n / 10).push(digit_char(n % 10))
    }
}

/// How an element is written inside a rendered slot.
pub trait CellText {
    /// The characters that stand for this element.
    spec fn text_view(&self) -> Seq<char>;

    /// Appends the element's text to `out`.
    fn write_text(&self, out: &mut String)
        ensures
            final(out)@ == old(out)@ + self.text_view(),
    ;
}

/// Relies on String::push: the character is appended at the end of the string.
#[verifier::external_body]
pub(crate) fn push_char(s: &mut String, c: char)
    ensures
        final(s)@ == old(s)@.push(c),
{
    s.push(c)
}

fn digit(d: u64) -> (r: char)
    requires
        d < 10,
    ensures
        r == digit_char(d as nat),
{
    if d == 0 {
        '0'
    } else if d == 1 {
        '1'
    } else if d == 2 {
        '2'
    } else if d == 3 {
        '3'
    } else if d == 4 {
        '4'
    } else if d == 5 {
        '5'
    } else if d == 6 {
        '6'
    } else if d == 7 {
        '7'
    } else if d == 8 {
        '8'
    } else {
        '9'
    }
}

/// Appends the decimal notation of `n` to `out`.
pub fn write_decimal(out: &mut String, n: u64)
    ensures
        final(out)@ == old(out)@ + decimal(n as nat),
    decreases n,
{
    if n >= 10 {
        write_decimal(out, n / 10);
    }
    push_char(out, digit(n % 10));
    assert(final(out)@ =~= old(out)@ + decimal(n as nat));
}

impl CellText for u8 {
    open spec fn text_view(&self) -> Seq<char> {
        decimal(*self as nat)
    }

    fn write_text(&self, out: &mut String) {
        write_decimal(out, *self as u64);
    }
}

impl CellText for u16 {
    open spec fn text_view(&self) -> Seq<char> {
        decimal(*self as nat)
    }

    fn write_text(&self, out: &mut String) {
        write_decimal(out, *self as u64);
    }
}

impl CellText for u32 {
    open spec fn text_view(&self) -> Seq<char> {
        decimal(*self as nat)
    }

    fn write_text(&self, out: &mut String) {
        write_decimal(out, *self as u64);
    }
}

impl CellText for u64 {
    open spec fn text_view(&self) -> Seq<char> {
        decimal(*self as nat)
    }

    fn write_text(&self, out: &mut String) {
        write_decimal(out, *self);
    }
}

impl CellText for usize {
    open spec fn text_view(&self) -> Seq<char> {
        decimal(*self as nat)
    }

    fn write_text(&self, out: &mut String) {
        write_decimal(out, *self as u64);
    }
}

/// The decimal notation of `n`, with a leading minus sign when it is negative.
pub open spec fn signed_decimal(n: int) -> Seq<char> {
    if n < 0 {
        seq!['-'] + decimal((-n) as nat)
    } else {
        decimal(n as nat)
    }
}

/// Appends the decimal notation of `n`, with a leading minus sign when it is negative.
pub fn write_signed_decimal(out: &mut String, n: i64)
    ensures
        final(out)@ == old(out)@ + signed_decimal(n as int),
{
    if n < 0 {
        push_char(out, '-');
        let magnitude: u64 = (0i128 - n as i128) as u64;
        write_decimal(out, magnitude);
        assert(final(out)@ =~= old(out)@ + signed_decimal(n as int));
    } else {
        write_decimal(out, n as u64);
    }
}

impl CellText for i8 {
    open spec fn text_view(&self) -> Seq<char> {
        signed_decimal(*self as int)
    }

    fn write_text(&self, out: &mut String) {
        write_signed_decimal(out, *self as i64);
    }
}

impl CellText for i16 {
    open spec fn text_view(&self) -> Seq<char> {
        signed_decimal(*self as int)
    }

    fn write_text(&self, out: &mut String) {
        write_signed_decimal(out, *self as i64);
    }
}

impl CellText for i32 {
    open spec fn text_view(&self) -> Seq<char> {
        signed_decimal(*self as int)
    }

    fn write_text(&self, out: &mut String) {
        write_signed_decimal(out, *self as i64);
    }
}

impl CellText for i64 {
    open spec fn text_view(&self) -> Seq<char> {
        signed_decimal(*self as int)
    }

    fn write_text(&self, out: &mut String) {
        write_signed_decimal(out, *self);
    }
}

impl CellText for isize {
    open spec fn text_view(&self) -> Seq<char> {
        signed_decimal(*self as int)
    }

    fn write_text(&self, out: &mut String) {
        write_signed_decimal(out, *self as i64);
    }
}

impl CellText for bool {
    open spec fn text_view(&self) -> Seq<char> {
        if *self {
            seq!['t', 'r', 'u', 'e']
        } else {
            seq!['f', 'a', 'l', 's', 'e']
        }
    }

    fn write_text(&self, out: &mut String) {
        if *self {
            out.append("true");
            proof {
                reveal_strlit("true");
            }
        } else {
            out.append("false");
            proof {
                reveal_strlit("false");
            }
        }
        assert(final(out)@ =~= old(out)@ + self.text_view());
    }
}

impl CellText for char {
    open spec fn text_view(&self) -> Seq<char> {
        seq![*self]
    }

    fn write_text(&self, out: &mut String) {
        push_char(out, *self);
        assert(final(out)@ =~= old(out)@ + seq![*self]);
    }
}

/// What stands between the pipes of a slot holding `o`: its element's text, or a blank.
pub open spec fn cell_inner<T: CellText>(o: Option<T>) -> Seq<char> {
    match o {
        Some(e) => e.text_view(),
        None => seq![' '],
    }
}

/// The rendering of a slot: its element between two pipes, or a blank between two pipes.
pub open spec fn slot_text<T: CellText>(o: Option<T>) -> Seq<char> {
    seq!['|'] + cell_inner(o) + seq!['|']
}

/// Appends what stands between the pipes of a slot holding `o`.
pub fn write_inner<T: CellText>(out: &mut String, o: &Option<T>)
    ensures
        final(out)@ == old(out)@ + cell_inner(*o),
{
    match o {
        Some(e) => e.write_text(out),
        None => {
            push_char(out, ' ');
            assert(final(out)@ =~= old(out)@ + cell_inner(*o));
        },
    }
}

/// Writes the rendering of a slot holding `o` into a new string.
pub fn render_slot<T: CellText>(o: &Option<T>) -> (r: String)
    ensures
        r@ == slot_text(*o),
{
    let mut s = String::new();
    push_char(&mut s, '|');
    write_inner(&mut s, o);
    push_char(&mut s, '|');
    assert(s@ =~= slot_text(*o));
    s
}

} // verus!
