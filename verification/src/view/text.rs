//! Text views: plain text in a style, and text broken into words.
use vstd::prelude::*;

use unicode_segmentation::UnicodeSegmentation;

use crate::flags::{ChangeFlags, Modifier};
use crate::style::{empty_style, Color, Style};
use crate::view::common::Styleable;
use crate::widget::text::{words_view, Text as TextWidget};

verus! {

/// The pieces of `s` between its word boundaries (Unicode Standard Annex #29).
pub uninterp spec fn word_bounds(s: Seq<char>) -> Seq<Seq<char>>;

/// Splits `s` at its word boundaries (`UnicodeSegmentation::split_word_bounds`). The
/// pieces are named by [`word_bounds`]; as the crate documents, together they make up
/// `s` again.
#[verifier::external_body]
fn split_word_bounds(s: &str) -> (r: Vec<String>)
    ensures
        r@.map_values(|w: String| w@) == word_bounds(s@),
        r@.map_values(|w: String| w@).flatten() == s@,
{
    s.split_word_bounds().map(|w| w.to_string()).collect()
}

/// A text view: `text` shown in `style`.
pub struct Text {
    pub text: String,
    pub style: Style,
}

impl Text {
    /// `text` in the empty style.
    pub fn from_str(text: &str) -> (r: Text)
        ensures
            r.text@ == text@,
            r.style == empty_style(),
    {
        Text { text: text.to_owned(), style: Style::new() }
    }

    /// Brings the text widget up to date with this view: its text and its style.
    pub fn update_element(&self, element: &mut TextWidget) -> (r: ChangeFlags)
        ensures
            final(element).text@ == self.text@,
            final(element).style == self.style,
            r.bits == (if old(element).text@ != self.text@ {
                if crate::widget::text::display_width(old(element).text@)
                    != crate::widget::text::display_width(self.text@) {
                    0xau8
                } else {
                    0x8u8
                }
            } else if old(element).style != self.style {
                0x8u8
            } else {
                0u8
            }),
    {
        let t = element.set_text(self.text.clone());
        let s = element.set_style(self.style);
        assert(forall|x: u8, y: u8|
            (x == 0 || x == 8 || x == 0xa) && (y == 0 || y == 8) ==> #[trigger] (x | y) == (
            if x == 0xa {
                0xau8
            } else if x == 8 || y == 8 {
                8u8
            } else {
                0u8
            })) by (bit_vector);
        t.union(s)
    }
}

impl From<String> for Text {
    fn from(text: String) -> (r: Text) {
        Text { text, style: Style::new() }
    }
}

impl vstd::std_specs::convert::FromSpecImpl<String> for Text {
    open spec fn obeys_from_spec() -> bool {
        true
    }

    open spec fn from_spec(v: String) -> Text {
        Text { text: v, style: empty_style() }
    }
}

impl Styleable for Text {
    type Output = Text;

    /// The text in the foreground color `color`.
    fn fg(self, color: Color) -> (r: Text)
        ensures
            r.text == self.text,
            r.style == (Style { fg: Some(color), ..self.style }),
    {
        let mut s = self;
        s.style.fg = Some(color);
        s
    }

    /// The text on the background color `color`.
    fn bg(self, color: Color) -> (r: Text)
        ensures
            r.text == self.text,
            r.style == (Style { bg: Some(color), ..self.style }),
    {
        let mut s = self;
        s.style.bg = Some(color);
        s
    }

    /// The text in `style`.
    fn style(self, style: Style) -> (r: Text)
        ensures
            r.text == self.text,
            r.style == style,
    {
        let mut s = self;
        s.style = style;
        s
    }

    /// The text with `modifier` added to its style.
    fn modifier(self, modifier: Modifier) -> (r: Text)
        ensures
            r.text == self.text,
            r.style == self.style.with_modifier(modifier),
    {
        let mut s = self;
        s.style = s.style.add_modifier(modifier);
        s
    }

    /// The style of the text.
    fn current_style(&self) -> (r: Style)
        ensures
            r == self.style,
    {
        self.style
    }
}

impl Styleable for String {
    type Output = Text;

    /// The string as a text in the foreground color `color`.
    fn fg(self, color: Color) -> (r: Text)
        ensures
            r.text == self,
            r.style == (Style { fg: Some(color), ..empty_style() }),
    {
        Text::from(self).fg(color)
    }

    /// The string as a text on the background color `color`.
    fn bg(self, color: Color) -> (r: Text)
        ensures
            r.text == self,
            r.style == (Style { bg: Some(color), ..empty_style() }),
    {
        Text::from(self).bg(color)
    }

    /// The string as a text in `style`.
    fn style(self, style: Style) -> (r: Text)
        ensures
            r.text == self,
            r.style == style,
    {
        Text::from(self).style(style)
    }

    /// The string as a text with `modifier`.
    fn modifier(self, modifier: Modifier) -> (r: Text)
        ensures
            r.text == self,
            r.style == empty_style().with_modifier(modifier),
    {
        Text::from(self).modifier(modifier)
    }

    /// A plain string has the empty style.
    fn current_style(&self) -> (r: Style)
        ensures
            r == empty_style(),
    {
        Style::new()
    }
}

impl Styleable for &'static str {
    type Output = Text;

    /// The string as a text in the foreground color `color`.
    fn fg(self, color: Color) -> (r: Text)
        ensures
            r.text@ == self@,
            r.style == (Style { fg: Some(color), ..empty_style() }),
    {
        Text::from_str(self).fg(color)
    }

    /// The string as a text on the background color `color`.
    fn bg(self, color: Color) -> (r: Text)
        ensures
            r.text@ == self@,
            r.style == (Style { bg: Some(color), ..empty_style() }),
    {
        Text::from_str(self).bg(color)
    }

    /// The string as a text in `style`.
    fn style(self, style: Style) -> (r: Text)
        ensures
            r.text@ == self@,
            r.style == style,
    {
        Text::from_str(self).style(style)
    }

    /// The string as a text with `modifier`.
    fn modifier(self, modifier: Modifier) -> (r: Text)
        ensures
            r.text@ == self@,
            r.style == empty_style().with_modifier(modifier),
    {
        Text::from_str(self).modifier(modifier)
    }

    /// A plain string has the empty style.
    fn current_style(&self) -> (r: Style)
        ensures
            r == empty_style(),
    {
        Style::new()
    }
}

/// A view of text broken into words, each with its style.
pub struct WrappedText {
    pub words: Vec<(String, Style)>,
}

/// The styled words of `text`: its pieces between word boundaries, each in the text's
/// style.
pub open spec fn styled_words(text: Seq<char>, style: Style) -> Seq<(Seq<char>, Style)> {
    word_bounds(text).map_values(|w: Seq<char>| (w, style))
}

/// The texts of styled words, without their styles.
pub open spec fn word_texts(words: Seq<(Seq<char>, Style)>) -> Seq<Seq<char>> {
    words.map_values(|w: (Seq<char>, Style)| w.0)
}

/// Dropping the styles of the styled words of a text gives its pieces between word
/// boundaries.
pub proof fn lemma_word_texts(text: Seq<char>, style: Style)
    ensures
        word_texts(styled_words(text, style)) == word_bounds(text),
{
    assert(word_texts(styled_words(text, style)) =~= word_bounds(text));
}

/// Appends the pieces of `text` between its word boundaries to `words`, each in `style`.
fn push_words(words: &mut Vec<(String, Style)>, text: &str, style: Style)
    ensures
        words_view(final(words)@) == words_view(old(words)@) + styled_words(text@, style),
        word_bounds(text@).flatten() == text@,
{
    let pieces = split_word_bounds(text);
    let mut i: usize = 0;
    while i < pieces.len()
        invariant
            i <= pieces@.len(),
            pieces@.map_values(|w: String| w@) == word_bounds(text@),
            words_view(words@) == words_view(old(words)@) + styled_words(text@, style).subrange(
                0,
                i as int,
            ),
        decreases pieces.len() - i,
    {
        let piece = pieces[i].clone();
        let ghost prev = words@;
        words.push((piece, style));
        proof {
            assert(pieces@.map_values(|w: String| w@)[i as int] == pieces@[i as int]@);
            assert(word_bounds(text@).len() == pieces@.len());
            assert(styled_words(text@, style)[i as int] == (pieces@[i as int]@, style));
            assert(words_view(words@) =~= words_view(prev).push((piece@, style)));
            assert(words_view(words@) =~= words_view(old(words)@) + styled_words(
                text@,
                style,
            ).subrange(0, i + 1));
        }
        i = i + 1;
    }
    assert(styled_words(text@, style).subrange(0, pieces@.len() as int) =~= styled_words(
        text@,
        style,
    ));
}

impl WrappedText {
    /// The words of `text`, in its style.
    pub fn of_text(text: Text) -> (r: WrappedText)
        ensures
            words_view(r.words@) == styled_words(text.text@, text.style),
            word_texts(words_view(r.words@)).flatten() == text.text@,
    {
        let mut words: Vec<(String, Style)> = Vec::new();
        push_words(&mut words, text.text.as_str(), text.style);
        assert(words_view(Seq::<(String, Style)>::empty()) =~= Seq::empty());
        assert(Seq::<(Seq<char>, Style)>::empty() + styled_words(text.text@, text.style)
            =~= styled_words(text.text@, text.style));
        proof {
            lemma_word_texts(text.text@, text.style);
        }
        WrappedText { words }
    }

    /// The words of `first` followed by those of `second`, each in its own style.
    pub fn of_texts(first: Text, second: Text) -> (r: WrappedText)
        ensures
            words_view(r.words@) == styled_words(first.text@, first.style) + styled_words(
                second.text@,
                second.style,
            ),
    {
        let mut words: Vec<(String, Style)> = Vec::new();
        push_words(&mut words, first.text.as_str(), first.style);
        assert(words_view(Seq::<(String, Style)>::empty()) =~= Seq::empty());
        assert(Seq::<(Seq<char>, Style)>::empty() + styled_words(first.text@, first.style)
            =~= styled_words(first.text@, first.style));
        push_words(&mut words, second.text.as_str(), second.style);
        WrappedText { words }
    }
}

/// Breaks text into words for wrapping.
pub trait ToWrappedText {
    fn wrapped(self) -> WrappedText;
}

impl<T: Into<Text>> ToWrappedText for T {
    /// The words of the text that `self` converts to, in its style.
    fn wrapped(self) -> (r: WrappedText)
        ensures
            exists|t: Text|
                call_ensures(T::into, (self,), t) && #[trigger] words_view(r.words@) == styled_words(t.text@, t.style),
    {
        let t: Text = self.into();
        let r = WrappedText::of_text(t);
        assert(call_ensures(T::into, (self,), t));
        r
    }
}

impl<T1: Into<Text>, T2: Into<Text>> ToWrappedText for (T1, T2) {
    /// The words of the text that the first part converts to, then those of the second,
    /// each in its style.
    fn wrapped(self) -> (r: WrappedText)
        ensures
            exists|a: Text, b: Text|
                call_ensures(T1::into, (self.0,), a) && call_ensures(T2::into, (self.1,), b)
                    && #[trigger] words_view(r.words@) == styled_words(a.text@, a.style)
                    + styled_words(b.text@, b.style),
    {
        let (x, y) = self;
        let a: Text = x.into();
        let b: Text = y.into();
        let r = WrappedText::of_texts(a, b);
        assert(call_ensures(T1::into, (self.0,), a) && call_ensures(T2::into, (self.1,), b));
        r
    }
}

} // verus!
