//! A widget that shows a (possibly multi-line) text.
use vstd::prelude::*;
use vstd::string::*;

use crate::flags::ChangeFlags;
use crate::geometry::{BoxConstraints, Size, UNBOUNDED};
use crate::style::{patched, Style};
use crate::widget::events::{Event, LifeCycle};
use crate::widget::pod::{DrawCommand, EventCx, LayoutCx, LifeCycleCx, PaintCx, Widget};

verus! {

/// The number of terminal columns that the text `s` takes, as the unicode-width crate
/// computes it.
pub uninterp spec fn display_width(s: Seq<char>) -> usize;

/// The displayed width of `s` (`unicode_width::UnicodeWidthStr::width`). The contract
/// names the result after the string only; it claims nothing about how the width is
/// computed.
#[verifier::external_body]
fn str_width(s: &str) -> (r: usize)
    ensures
        r == display_width(s@),
{
    unicode_width::UnicodeWidthStr::width(s)
}

/// The index of the first line feed at or after `i` (the length when there is none).
pub open spec fn next_newline(s: Seq<char>, i: int) -> int
    decreases s.len() - i,
{
    if i >= s.len() {
        s.len() as int
    } else if s[i] == '\n' {
        i
    } else {
        next_newline(s, i + 1)
    }
}

/// `line` without a carriage return at its end.
pub open spec fn strip_cr(line: Seq<char>) -> Seq<char> {
    if line.len() > 0 && line.last() == '\r' {
        line.drop_last()
    } else {
        line
    }
}

/// The lines of `s` from index `i` on: split at line feeds, a carriage return before a
/// line feed belongs to the line ending, and a final line ending starts no empty line.
pub open spec fn lines_from(s: Seq<char>, i: int) -> Seq<Seq<char>>
    decreases s.len() + 1 - i,
{
    if i < 0 || i >= s.len() {
        Seq::empty()
    } else {
        let k = next_newline(s, i);
        proof {
            lemma_next_newline_bounds(s, i);
        }
        let line = if k < s.len() {
            strip_cr(s.subrange(i, k))
        } else {
            s.subrange(i, k)
        };
        seq![line].add(lines_from(s, k + 1))
    }
}

/// The lines of `s`.
pub open spec fn text_lines(s: Seq<char>) -> Seq<Seq<char>> {
    lines_from(s, 0)
}

/// The width of the widest of `lines`.
pub open spec fn max_line_width(lines: Seq<Seq<char>>) -> nat
    decreases lines.len(),
{
    if lines.len() == 0 {
        0
    } else {
        let w = display_width(lines[0]) as nat;
        let rest = max_line_width(lines.drop_first());
        if w > rest {
            w
        } else {
            rest
        }
    }
}

/// `v` as an extent (at most [`UNBOUNDED`]).
pub open spec fn to_extent(v: nat) -> u16 {
    if v > UNBOUNDED {
        UNBOUNDED
    } else {
        v as u16
    }
}

/// The size of a text: as wide as its widest line, one row per line.
pub open spec fn text_size(s: Seq<char>) -> Size {
    Size {
        width: to_extent(max_line_width(text_lines(s))),
        height: to_extent(text_lines(s).len()),
    }
}

/// Where the next line feed lies.
pub proof fn lemma_next_newline_bounds(s: Seq<char>, i: int)
    requires
        0 <= i <= s.len(),
    ensures
        i <= next_newline(s, i) <= s.len(),
        next_newline(s, i) < s.len() ==> s[next_newline(s, i)] == '\n',
    decreases s.len() - i,
{
    if i < s.len() && s[i] != '\n' {
        lemma_next_newline_bounds(s, i + 1);
    }
}

proof fn lemma_max_line_width_cons(line: Seq<char>, rest: Seq<Seq<char>>)
    ensures
        max_line_width(seq![line].add(rest)) == (if display_width(line) as nat > max_line_width(
            rest,
        ) {
            display_width(line) as nat
        } else {
            max_line_width(rest)
        }),
{
    assert(seq![line].add(rest).drop_first() =~= rest);
}

/// The width of the widest line and the number of lines of `s`.
fn measure(s: &str) -> (r: (usize, usize))
    ensures
        r.0 as nat == max_line_width(text_lines(s@)),
        r.1 as nat == text_lines(s@).len(),
{
    let n = s.unicode_len();
    let ghost chars = s@;
    let mut start: usize = 0;
    let mut width: usize = 0;
    let mut height: usize = 0;
    while start < n
        invariant
            n == chars.len(),
            chars == s@,
            start <= n,
            height <= start,
            ({
                let rest = lines_from(chars, start as int);
                &&& (if width as nat > max_line_width(rest) {
                    width as nat
                } else {
                    max_line_width(rest)
                }) == max_line_width(text_lines(chars))
                &&& height + rest.len() == text_lines(chars).len()
            }),
        decreases n - start,
    {
        let mut k: usize = start;
        while k < n && s.get_char(k) != '\n'
            invariant
                n == chars.len(),
                chars == s@,
                start < n,
                start <= k <= n,
                next_newline(chars, start as int) == next_newline(chars, k as int),
            decreases n - k,
        {
            k = k + 1;
        }
        proof {
            lemma_next_newline_bounds(chars, k as int);
        }
        let end: usize = if k < n && k > start && s.get_char(k - 1) == '\r' {
            k - 1
        } else {
            k
        };
        let line = s.substring_char(start, end);
        let w = str_width(line);
        proof {
            let sub = chars.subrange(start as int, k as int);
            if k < n {
                if k > start && chars[k - 1] == '\r' {
                    assert(strip_cr(sub) =~= chars.subrange(start as int, end as int));
                } else {
                    assert(strip_cr(sub) =~= chars.subrange(start as int, end as int));
                }
            }
            lemma_max_line_width_cons(line@, lines_from(chars, k + 1));
        }
        if w > width {
            width = w;
        }
        height = height + 1;
        start = if k < n {
            k + 1
        } else {
            k
        };
    }
    (width, height)
}

/// Shows `text` in `style`.
pub struct Text {
    pub text: String,
    pub style: Style,
}

impl Text {
    /// A text widget.
    pub fn new(text: String, style: Style) -> (r: Text)
        ensures
            r.text@ == text@,
            r.style == style,
    {
        Text { text, style }
    }

    /// Replaces the text; a change requires paint, and layout when the width changes.
    pub fn set_text(&mut self, text: String) -> (r: ChangeFlags)
        ensures
            final(self).text@ == text@,
            final(self).style == old(self).style,
            r.bits == (if old(self).text@ != text@ {
                if display_width(old(self).text@) != display_width(text@) {
                    0xau8
                } else {
                    0x8u8
                }
            } else {
                0u8
            }),
    {
        let mut changeflags = ChangeFlags::empty();
        if !(self.text == text) {
            let changed_width = str_width(self.text.as_str()) != str_width(text.as_str());
            changeflags.set(ChangeFlags::layout(), changed_width);
            changeflags.insert(ChangeFlags::paint());
            proof {
                crate::flags::lemma_flag_consts();
            }
            self.text = text;
        } else {
            self.text = text;
        }
        changeflags
    }

    /// Replaces the style; a change requires paint.
    pub fn set_style(&mut self, style: Style) -> (r: ChangeFlags)
        ensures
            final(self).style == style,
            final(self).text@ == old(self).text@,
            r.bits == (if old(self).style != style {
                0x8u8
            } else {
                0u8
            }),
    {
        if style != self.style {
            self.style = style;
            ChangeFlags::paint()
        } else {
            ChangeFlags::empty()
        }
    }

    /// The size of the text (see [`text_size`]) constrained to `bc`.
    pub fn measure(&self, bc: &BoxConstraints) -> (r: Size)
        ensures
            r == bc.spec_constrain(text_size(self.text@)),
    {
        let (width, height) = measure(self.text.as_str());
        let w: u16 = if width > 65535 {
            UNBOUNDED
        } else {
            width as u16
        };
        let h: u16 = if height > 65535 {
            UNBOUNDED
        } else {
            height as u16
        };
        bc.constrain(Size::new(w, h))
    }

    /// Writes the text at the widget's position, at most as wide as the widget, in the
    /// widget's style patched by the override style; nothing when the widget is empty.
    pub fn paint_text(&self, cx: &mut PaintCx)
        ensures
            final(cx).widget_state == old(cx).widget_state,
            final(cx).override_style == old(cx).override_style,
            ({
                let s = old(cx).widget_state;
                let origin = s.parent_window_origin.spec_translate(s.origin);
                if s.size.width > 0 && s.size.height > 0 {
                    &&& final(cx).commands@.len() == old(cx).commands@.len() + 1
                    &&& final(cx).commands@.drop_last() == old(cx).commands@
                    &&& final(cx).commands@.last() matches DrawCommand::Text {
                        x,
                        y,
                        text,
                        max_width,
                        style,
                    } && x == origin.x && y == origin.y && text@ == self.text@ && max_width
                        == s.size.width && style == patched(self.style, old(cx).override_style)
                } else {
                    final(cx).commands@ == old(cx).commands@
                }
            }),
    {
        let rect = cx.rect();
        let style = self.style.patch(cx.override_style);
        if rect.height > 0 && rect.width > 0 {
            cx.commands.push(
                DrawCommand::Text {
                    x: rect.x,
                    y: rect.y,
                    text: self.text.clone(),
                    max_width: rect.width as usize,
                    style,
                },
            );
            assert(cx.commands@.drop_last() =~= old(cx).commands@);
        }
    }
}

impl Widget for Text {
    open spec fn lifecycle_spec(old_w: Self, new_w: Self, old_cx: LifeCycleCx, new_cx: LifeCycleCx, event: LifeCycle) -> bool {
        &&& new_w == old_w
        &&& new_cx == old_cx
    }

    open spec fn event_spec(old_w: Self, new_w: Self, old_cx: EventCx, new_cx: EventCx, event: Event) -> bool {
        &&& new_w == old_w
        &&& new_cx == old_cx
    }

    open spec fn paint_spec(old_w: Self, new_w: Self, old_cx: PaintCx, new_cx: PaintCx) -> bool {
        &&& (new_w.text@ == old_w.text@)
        &&& (new_w.style == old_w.style)
        &&& (new_cx.widget_state == old_cx.widget_state)
        &&& (new_cx.override_style == old_cx.override_style)
        &&& (({
                let s = old_cx.widget_state;
                let origin = s.parent_window_origin.spec_translate(s.origin);
                if s.size.width > 0 && s.size.height > 0 {
                    &&& new_cx.commands@.len() == old_cx.commands@.len() + 1
                    &&& new_cx.commands@.drop_last() == old_cx.commands@
                    &&& new_cx.commands@.last() matches DrawCommand::Text {
                        x,
                        y,
                        text,
                        max_width,
                        style,
                    } && x == origin.x && y == origin.y && text@ == old_w.text@
                        && max_width == s.size.width && style == patched(
                        old_w.style,
                        old_cx.override_style,
                    )
                } else {
                    new_cx.commands@ == old_cx.commands@
                }
            }))
    }

    open spec fn layout_spec(old_w: Self, new_w: Self, old_cx: LayoutCx, new_cx: LayoutCx, bc: BoxConstraints, size: Size) -> bool {
        &&& (new_w.text@ == old_w.text@)
        &&& (new_w.style == old_w.style)
        &&& (size == bc.spec_constrain(text_size(old_w.text@)))
    }

    /// Writes the text (see [`Text::paint_text`]).
    fn paint(&mut self, cx: &mut PaintCx)
    {
        self.paint_text(cx);
    }

    /// The size of the text constrained to `bc` (see [`Text::measure`]).
    fn layout(&mut self, _cx: &mut LayoutCx, bc: &BoxConstraints) -> (size: Size)
    {
        self.measure(bc)
    }

    fn event(&mut self, _cx: &mut EventCx, _event: &Event) {
    }

    fn lifecycle(&mut self, _cx: &mut LifeCycleCx, _event: &LifeCycle) {
    }
}

/// The words of a wrapped text, each with its style, as mathematical values.
pub open spec fn words_view(words: Seq<(String, Style)>) -> Seq<(Seq<char>, Style)> {
    words.map_values(|w: (String, Style)| (w.0@, w.1))
}

/// Whether two lists of styled words are the same.
fn same_words(a: &Vec<(String, Style)>, b: &Vec<(String, Style)>) -> (r: bool)
    ensures
        r == (words_view(a@) == words_view(b@)),
{
    if a.len() != b.len() {
        assert(words_view(a@).len() != words_view(b@).len());
        return false;
    }
    let mut i: usize = 0;
    while i < a.len()
        invariant
            i <= a@.len(),
            a@.len() == b@.len(),
            forall|j: int| 0 <= j < i ==> words_view(a@)[j] == words_view(b@)[j],
        decreases a.len() - i,
    {
        let same = a[i].0 == b[i].0 && a[i].1 == b[i].1;
        if !same {
            assert(words_view(a@)[i as int] != words_view(b@)[i as int]);
            return false;
        }
        i = i + 1;
    }
    assert(words_view(a@) =~= words_view(b@));
    true
}

/// A copy of a list of styled words.
fn clone_words(words: &Vec<(String, Style)>) -> (r: Vec<(String, Style)>)
    ensures
        words_view(r@) == words_view(words@),
{
    let mut r: Vec<(String, Style)> = Vec::new();
    let mut i: usize = 0;
    while i < words.len()
        invariant
            i <= words@.len(),
            r@.len() == i,
            forall|j: int| 0 <= j < i ==> words_view(r@)[j] == words_view(words@)[j],
        decreases words.len() - i,
    {
        let w = words[i].0.clone();
        r.push((w, words[i].1));
        i = i + 1;
    }
    assert(words_view(r@) =~= words_view(words@));
    r
}

/// Text broken into words (each with its style), to be laid out word by word.
pub struct WrappedText {
    pub words: Vec<(String, Style)>,
    pub words_need_layout: bool,
}

impl WrappedText {
    /// The wrapped text of `words`; its words still need a layout.
    pub fn new(words: Vec<(String, Style)>) -> (r: WrappedText)
        ensures
            r.words@ == words@,
            r.words_need_layout,
    {
        WrappedText { words, words_need_layout: true }
    }

    /// Replaces the words; other words need a new layout and a repaint.
    pub fn set_words(&mut self, words: &Vec<(String, Style)>) -> (r: ChangeFlags)
        ensures
            words_view(final(self).words@) == words_view(words@),
            r.bits == (if words_view(old(self).words@) != words_view(words@) {
                0xau8
            } else {
                0u8
            }),
            final(self).words_need_layout == (old(self).words_need_layout || words_view(
                old(self).words@,
            ) != words_view(words@)),
    {
        if !same_words(&self.words, words) {
            self.words = clone_words(words);
            self.words_need_layout = true;
            proof {
                assert(8u8 | 2u8 == 0xau8) by (bit_vector);
            }
            ChangeFlags::paint().union(ChangeFlags::layout())
        } else {
            ChangeFlags::empty()
        }
    }
}

} // verus!
