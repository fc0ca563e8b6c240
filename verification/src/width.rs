//! Display widths of text in terminal cells, and text cut to a width.

use vstd::prelude::*;

use crate::text::{chars_of, push_char};

verus! {

/// A character that `unicode_width` counts as one cell: printable ASCII, and
/// the middle dot, em dash, ellipsis and box-drawing horizontal, which are
/// ambiguous-width characters that the crate treats as narrow (its tables
/// give each of them one cell and no special handling in a string).
pub open spec fn narrow_char(c: char) -> bool {
    ||| (' ' <= c && c <= '~')
    ||| c == '\u{b7}'
    ||| c == '\u{2014}'
    ||| c == '\u{2026}'
    ||| c == '\u{2500}'
}

/// A character that `unicode_width` counts as two cells: the East Asian Wide
/// and Fullwidth blocks of Hiragana, Katakana, CJK ideographs (unified,
/// extension A and compatibility), Hangul syllables and fullwidth forms, for
/// which the crate's tables give two cells and no special handling in a
/// string.
pub open spec fn wide_char(c: char) -> bool {
    ||| ('\u{3041}' <= c && c <= '\u{3096}')
    ||| ('\u{30A1}' <= c && c <= '\u{30FA}')
    ||| ('\u{3400}' <= c && c <= '\u{4DBF}')
    ||| ('\u{4E00}' <= c && c <= '\u{9FFF}')
    ||| ('\u{AC00}' <= c && c <= '\u{D7A3}')
    ||| ('\u{F900}' <= c && c <= '\u{FAFF}')
    ||| ('\u{FF01}' <= c && c <= '\u{FF60}')
}

/// A character whose width does not depend on its neighbours: narrow or wide.
pub open spec fn simple_char(c: char) -> bool {
    narrow_char(c) || wide_char(c)
}

/// Text made only of narrow characters.
pub open spec fn narrow_text(s: Seq<char>) -> bool {
    forall|i: int| 0 <= i < s.len() ==> narrow_char(#[trigger] s[i])
}

/// Text made only of simple characters.
pub open spec fn simple_text(s: Seq<char>) -> bool {
    forall|i: int| 0 <= i < s.len() ==> simple_char(#[trigger] s[i])
}

/// The cells of a simple character: two when wide, else one.
pub open spec fn simple_width(c: char) -> nat {
    if wide_char(c) {
        2
    } else {
        1
    }
}

/// The cells of simple text: the sum of its characters' cells.
pub open spec fn simple_cells(s: Seq<char>) -> nat
    decreases s.len(),
{
    if s.len() == 0 {
        0
    } else {
        simple_width(s[0]) + simple_cells(s.drop_first())
    }
}

/// The width that `UnicodeWidthChar::width` gives one character; `None` for
/// a control character.
pub uninterp spec fn char_columns(c: char) -> Option<usize>;

/// The width that `UnicodeWidthStr::width` gives a whole string.
pub uninterp spec fn str_columns(s: Seq<char>) -> usize;

/// The cells of one character: those of a simple character, else what the
/// crate gives it.
pub open spec fn char_cells(c: char) -> Option<usize> {
    if simple_char(c) {
        Some(simple_width(c) as usize)
    } else {
        char_columns(c)
    }
}

/// The cells of a string: the sum of its characters' cells for simple text,
/// else what the crate gives it.
pub open spec fn text_cells(s: Seq<char>) -> nat {
    if simple_text(s) {
        simple_cells(s)
    } else {
        str_columns(s) as nat
    }
}

/// `UnicodeWidthChar::width`. Claims that the result is the named width of
/// `c`, and the facts that the crate's lookup code and tables give: a narrow
/// character is one cell wide and a wide one two, the C0 and C1 control codes
/// and DEL have no width, and no character is wider than three cells.
#[verifier::external_body]
pub(crate) fn char_width(c: char) -> (w: Option<usize>)
    ensures
        w == char_columns(c),
        narrow_char(c) ==> w == Some(1usize),
        wide_char(c) ==> w == Some(2usize),
        (c < ' ' || ('\u{7F}' <= c && c < '\u{A0}')) ==> w is None,
        w matches Some(n) ==> n <= 3,
{
    unicode_width::UnicodeWidthChar::width(c)
}

/// `UnicodeWidthStr::width`. Claims that the result is the named width of the
/// text, and that simple text is as wide as its characters together: the
/// crate folds the characters from the end, starting from zero in its default
/// state, and a simple character met in the default state adds its own cells
/// and leaves that state unchanged. (The sum cannot wrap: no character adds
/// more cells than it has bytes.)
#[verifier::external_body]
pub(crate) fn text_width(s: &str) -> (w: usize)
    ensures
        w == str_columns(s@),
        simple_text(s@) ==> w == simple_cells(s@),
{
    unicode_width::UnicodeWidthStr::width(s)
}

/// The cells that one character occupies when text is cut: a control
/// character counts as zero.
pub open spec fn cut_cells(c: char) -> nat {
    match char_cells(c) {
        Some(n) => n as nat,
        None => 0,
    }
}

/// The cells of a run of characters, counted character by character.
pub open spec fn run_cells(s: Seq<char>) -> nat
    decreases s.len(),
{
    if s.len() == 0 {
        0
    } else {
        cut_cells(s[0]) + run_cells(s.drop_first())
    }
}

/// The longest prefix of `s` whose characters fit in `budget` cells, taken
/// character by character from the front.
pub open spec fn kept_prefix(s: Seq<char>, budget: nat) -> Seq<char>
    decreases s.len(),
{
    if s.len() == 0 || cut_cells(s[0]) > budget {
        Seq::empty()
    } else {
        seq![s[0]] + kept_prefix(s.drop_first(), (budget - cut_cells(s[0])) as nat)
    }
}

/// The ellipsis that marks cut text.
pub open spec fn ellipsis() -> char {
    '\u{2026}'
}

/// `text` fitted to `width` cells: unchanged when it fits, empty for width
/// zero, and otherwise its longest prefix fitting `width - 1` cells followed by
/// an ellipsis.
pub open spec fn fit_spec(text: Seq<char>, width: nat) -> Seq<char> {
    if text_cells(text) <= width {
        text
    } else if width == 0 {
        Seq::empty()
    } else {
        kept_prefix(text, (width - 1) as nat).push(ellipsis())
    }
}

/// The kept prefix is a prefix of the text and occupies at most the budget.
pub proof fn lemma_kept_prefix(s: Seq<char>, budget: nat)
    ensures
        kept_prefix(s, budget).len() <= s.len(),
        kept_prefix(s, budget) == s.take(kept_prefix(s, budget).len() as int),
        run_cells(kept_prefix(s, budget)) <= budget,
        kept_prefix(s, budget).len() < s.len() ==> run_cells(kept_prefix(s, budget)) + cut_cells(
            s[kept_prefix(s, budget).len() as int],
        ) > budget,
    decreases s.len(),
{
    if s.len() == 0 || cut_cells(s[0]) > budget {
        assert(s.take(0) == Seq::<char>::empty());
    } else {
        let rest = s.drop_first();
        let b = (budget - cut_cells(s[0])) as nat;
        lemma_kept_prefix(rest, b);
        let k = kept_prefix(rest, b);
        let whole = seq![s[0]] + k;
        assert(whole.drop_first() == k);
        assert(whole == s.take(whole.len() as int)) by {
            assert forall|i: int| 0 <= i < whole.len() implies whole[i] == s.take(
                whole.len() as int,
            )[i] by {
                if i > 0 {
                    assert(whole[i] == k[i - 1]);
                    assert(k[i - 1] == rest.take(k.len() as int)[i - 1]);
                }
            }
        }
        if whole.len() < s.len() {
            assert(s[whole.len() as int] == rest[k.len() as int]);
        }
    }
}

/// Cuts `text` to at most `width` cells, marking a cut with an ellipsis.
pub fn fit(text: &str, width: usize) -> (out: String)
    ensures
        out@ == fit_spec(text@, width as nat),
{
    if text_width(text) <= width {
        return text.to_owned();
    }
    if width == 0 {
        return String::new();
    }
    let chars = chars_of(text);
    let mut remaining: usize = width - 1;
    let mut result = String::new();
    let mut i: usize = 0;
    assert(chars@.skip(0) == text@);
    assert(result@ + kept_prefix(text@, remaining as nat) == kept_prefix(text@, remaining as nat));
    while i < chars.len()
        invariant
            chars@ == text@,
            i <= chars.len(),
            result@ == chars@.take(i as int),
            result@ + kept_prefix(chars@.skip(i as int), remaining as nat) == kept_prefix(
                text@,
                (width - 1) as nat,
            ),
        ensures
            result@ == kept_prefix(text@, (width - 1) as nat),
        decreases chars.len() - i,
    {
        let ch = chars[i];
        let cells: usize = match char_width(ch) {
            Some(n) => n,
            None => 0,
        };
        let ghost tail = chars@.skip(i as int);
        assert(tail[0] == ch);
        assert(tail.drop_first() == chars@.skip(i + 1));
        if cells > remaining {
            assert(kept_prefix(tail, remaining as nat) == Seq::<char>::empty());
            assert(result@ + Seq::<char>::empty() == result@);
            break;
        }
        remaining = remaining - cells;
        push_char(&mut result, ch);
        assert(chars@.take(i as int).push(ch) == chars@.take(i + 1));
        assert(result@ + kept_prefix(chars@.skip(i + 1), remaining as nat) == chars@.take(i as int)
            + kept_prefix(tail, (remaining + cells) as nat));
        i = i + 1;
        if i == chars.len() {
            assert(chars@.skip(i as int) == Seq::<char>::empty());
            assert(result@ + Seq::<char>::empty() == result@);
        }
    }
    push_char(&mut result, '\u{2026}');
    result
}

/// Simple text is cut at its characters' own cells.
proof fn lemma_run_cells_simple(s: Seq<char>)
    requires
        simple_text(s),
    ensures
        run_cells(s) == simple_cells(s),
    decreases s.len(),
{
    if s.len() > 0 {
        let rest = s.drop_first();
        assert(simple_char(s[0]));
        assert forall|i: int| 0 <= i < rest.len() implies simple_char(#[trigger] rest[i]) by {
            assert(rest[i] == s[i + 1]);
        }
        lemma_run_cells_simple(rest);
    }
}

/// The cells of joined text are the cells of its parts.
proof fn lemma_simple_cells_concat(a: Seq<char>, b: Seq<char>)
    ensures
        simple_cells(a + b) == simple_cells(a) + simple_cells(b),
    decreases a.len(),
{
    if a.len() == 0 {
        assert(a + b =~= b);
    } else {
        lemma_simple_cells_concat(a.drop_first(), b);
        assert((a + b).drop_first() =~= a.drop_first() + b);
        assert((a + b)[0] == a[0]);
    }
}

/// Narrow text is simple text one cell per character wide.
pub proof fn lemma_narrow_simple(s: Seq<char>)
    requires
        narrow_text(s),
    ensures
        simple_text(s),
        text_cells(s) == s.len(),
    decreases s.len(),
{
    assert forall|i: int| 0 <= i < s.len() implies simple_char(#[trigger] s[i]) by {
        assert(narrow_char(s[i]));
    }
    if s.len() > 0 {
        let rest = s.drop_first();
        assert forall|i: int| 0 <= i < rest.len() implies narrow_char(#[trigger] rest[i]) by {
            assert(rest[i] == s[i + 1]);
        }
        lemma_narrow_simple(rest);
        assert(!wide_char(s[0]));
    }
}

/// Joining simple texts gives simple text, as wide as both together.
pub proof fn lemma_simple_concat(a: Seq<char>, b: Seq<char>)
    requires
        simple_text(a),
        simple_text(b),
    ensures
        simple_text(a + b),
        text_cells(a + b) == text_cells(a) + text_cells(b),
{
    assert forall|i: int| 0 <= i < (a + b).len() implies simple_char(#[trigger] (a + b)[i]) by {
        if i < a.len() {
            assert((a + b)[i] == a[i]);
        } else {
            assert((a + b)[i] == b[i - a.len()]);
        }
    }
    lemma_simple_cells_concat(a, b);
}

/// Simple text fitted to a width fits it: the result is simple text of at
/// most `width` cells, measured as a whole string. This covers wide text such
/// as CJK as well as narrow text; what it leaves out are control characters,
/// combining marks and emoji sequences, whose width in a string differs from
/// the sum of their own widths.
pub proof fn law_fit_fits_simple_text(text: Seq<char>, width: nat)
    requires
        simple_text(text),
    ensures
        simple_text(fit_spec(text, width)),
        text_cells(fit_spec(text, width)) <= width,
{
    if text_cells(text) > width && width > 0 {
        let k = kept_prefix(text, (width - 1) as nat);
        lemma_kept_prefix(text, (width - 1) as nat);
        assert forall|i: int| 0 <= i < k.len() implies simple_char(#[trigger] k[i]) by {
            assert(k[i] == text.take(k.len() as int)[i]);
        }
        lemma_run_cells_simple(k);
        let dots = seq![ellipsis()];
        assert(narrow_char(dots[0]));
        lemma_narrow_simple(dots);
        lemma_simple_concat(k, dots);
        assert(k.push(ellipsis()) =~= k + dots);
    }
}

/// Fitted text fits: text that fits is kept unchanged; width zero gives
/// nothing; otherwise the result is a prefix of the text occupying at most
/// `width - 1` cells, counted character by character, followed by the
/// ellipsis, and the next character of the text would not have fitted.
pub proof fn law_fit_bounds(text: Seq<char>, width: nat)
    ensures
        text_cells(text) <= width ==> fit_spec(text, width) == text,
        text_cells(text) > width && width == 0 ==> fit_spec(text, width).len() == 0,
        text_cells(text) > width && width > 0 ==> {
            let out = fit_spec(text, width);
            let kept = out.drop_last();
            &&& out.len() >= 1
            &&& out.last() == ellipsis()
            &&& kept.len() <= text.len()
            &&& kept == text.take(kept.len() as int)
            &&& run_cells(kept) <= width - 1
            &&& kept.len() < text.len() ==> run_cells(kept) + cut_cells(text[kept.len() as int])
                > width - 1
        },
{
    if text_cells(text) > width && width > 0 {
        let k = kept_prefix(text, (width - 1) as nat);
        lemma_kept_prefix(text, (width - 1) as nat);
        assert(k.push(ellipsis()).drop_last() == k);
    }
}

} // verus!
