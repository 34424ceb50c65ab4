//! Description of a rendered text.

use super::Color;
use vstd::prelude::*;
use vstd::std_specs::convert::{FromSpecImpl, IntoSpec};

verus! {

/// Defines how a text should be rendered.
#[derive(Debug, Clone, PartialEq, Eq, PartialOrd, Ord, Hash)]
pub struct TextUi {
    /// The text to render.
    pub text: String,
    /// The color of the text.
    ///
    /// If not set, use the default color.
    pub color: Option<Color>,
}

impl TextUi {
    /// This text in the color `c`.
    pub open spec fn colored(self, c: Color) -> TextUi {
        TextUi { text: self.text, color: Some(c) }
    }

    /// Creates a [`TextUi`] without a color.
    pub fn new<T: Into<String>>(text: T) -> (t: Self)
        ensures
            call_ensures(<T as Into<String>>::into, (text,), t.text),
            <T as IntoSpec<String>>::obeys_into_spec() ==> t.text == text.into_spec(),
            t.color.is_none(),
    {
        let text = text.into();
        Self { text, color: None }
    }

    /// Sets the text color.
    #[must_use]
    pub fn with_color<C: Into<Color>>(self, color: C) -> (t: Self)
        ensures
            t.text == self.text,
            t.color is Some,
            t == self.colored(t.color.unwrap()),
            call_ensures(<C as Into<Color>>::into, (color,), t.color.unwrap()),
            <C as IntoSpec<Color>>::obeys_into_spec() ==> t == self.colored(color.into_spec()),
    {
        let mut this = self;
        this.color = Some(color.into());
        this
    }
}

/// Setting the color twice keeps the text and the later color: the earlier
/// color is forgotten. Since [`TextUi::with_color`] gives `self.colored(c)`,
/// `c` being the color its argument converts to, this holds of
/// `t.with_color(first).with_color(second)` whatever the conversions give.
pub proof fn lemma_later_color_wins(t: TextUi, first: Color, second: Color)
    ensures
        t.colored(first).colored(second) == t.colored(second),
        t.colored(second).text == t.text,
{
}

impl Default for TextUi {
    /// An empty text with no color.
    fn default() -> (t: Self)
        ensures
            t.text@ == Seq::<char>::empty(),
            t.color.is_none(),
    {
        TextUi { text: String::new(), color: None }
    }
}

impl<'a> From<&'a str> for TextUi {
    fn from(text: &'a str) -> (t: Self)
        ensures
            t.text@ == text@,
            t.color.is_none(),
    {
        TextUi { text: text.to_owned(), color: None }
    }
}

impl<'a> FromSpecImpl<&'a str> for TextUi {
    /// The text of the result is a new string, which no spec value can name;
    /// the conversion is described by the `ensures` of `from` instead.
    open spec fn obeys_from_spec() -> bool {
        false
    }

    open spec fn from_spec(v: &'a str) -> TextUi {
        arbitrary()
    }
}

impl<'a> From<&'a String> for TextUi {
    fn from(text: &'a String) -> (t: Self)
        ensures
            t.text@ == text@,
            t.color.is_none(),
    {
        TextUi { text: text.clone(), color: None }
    }
}

impl<'a> FromSpecImpl<&'a String> for TextUi {
    /// The text of the result is a new string, which no spec value can name;
    /// the conversion is described by the `ensures` of `from` instead.
    open spec fn obeys_from_spec() -> bool {
        false
    }

    open spec fn from_spec(v: &'a String) -> TextUi {
        arbitrary()
    }
}

impl From<String> for TextUi {
    fn from(text: String) -> (t: Self)
        ensures
            t.text == text,
            t.color.is_none(),
    {
        TextUi { text, color: None }
    }
}

impl FromSpecImpl<String> for TextUi {
    open spec fn obeys_from_spec() -> bool {
        true
    }

    open spec fn from_spec(v: String) -> TextUi {
        TextUi { text: v, color: None }
    }
}

impl<'a, C: Into<Color>> From<(&'a str, C)> for TextUi {
    fn from(text_color: (&'a str, C)) -> (t: Self)
        ensures
            t.text@ == text_color.0@,
            t.color is Some,
            call_ensures(<C as Into<Color>>::into, (text_color.1,), t.color.unwrap()),
            <C as IntoSpec<Color>>::obeys_into_spec() ==> t.color == Some(text_color.1.into_spec()),
    {
        let (text, color) = text_color;
        TextUi { text: text.to_owned(), color: None }.with_color(color)
    }
}

impl<'a, C: Into<Color>> FromSpecImpl<(&'a str, C)> for TextUi {
    /// The text of the result is a new string, which no spec value can name;
    /// the conversion is described by the `ensures` of `from` instead.
    open spec fn obeys_from_spec() -> bool {
        false
    }

    open spec fn from_spec(v: (&'a str, C)) -> TextUi {
        arbitrary()
    }
}

impl<C: Into<Color>> From<(String, C)> for TextUi {
    fn from(text_color: (String, C)) -> (t: Self)
        ensures
            t.text == text_color.0,
            t.color is Some,
            call_ensures(<C as Into<Color>>::into, (text_color.1,), t.color.unwrap()),
            <C as IntoSpec<Color>>::obeys_into_spec() ==> t.color == Some(text_color.1.into_spec()),
    {
        let (text, color) = text_color;
        TextUi { text, color: None }.with_color(color)
    }
}

impl<C: Into<Color>> FromSpecImpl<(String, C)> for TextUi {
    /// The text of the result is a new string, which no spec value can name;
    /// the conversion is described by the `ensures` of `from` instead.
    open spec fn obeys_from_spec() -> bool {
        false
    }

    open spec fn from_spec(v: (String, C)) -> TextUi {
        arbitrary()
    }
}

impl<'a, C: Into<Color>> From<(&'a String, C)> for TextUi {
    fn from(text_color: (&'a String, C)) -> (t: Self)
        ensures
            t.text@ == text_color.0@,
            t.color is Some,
            call_ensures(<C as Into<Color>>::into, (text_color.1,), t.color.unwrap()),
            <C as IntoSpec<Color>>::obeys_into_spec() ==> t.color == Some(text_color.1.into_spec()),
    {
        let (text, color) = text_color;
        TextUi { text: text.clone(), color: None }.with_color(color)
    }
}

impl<'a, C: Into<Color>> FromSpecImpl<(&'a String, C)> for TextUi {
    /// The text of the result is a new string, which no spec value can name;
    /// the conversion is described by the `ensures` of `from` instead.
    open spec fn obeys_from_spec() -> bool {
        false
    }

    open spec fn from_spec(v: (&'a String, C)) -> TextUi {
        arbitrary()
    }
}

/// std's `impl From<&str> for String`: converts a `&str` into a `String`.
///
/// Claimed of it, as its documentation says: the new string holds the
/// characters of the `&str`. This is what lets a caller of
/// [`TextUi::new`] with a string literal know the text.
pub assume_specification<'a>[ <String as From<&'a str>>::from ](s: &str) -> (res: String)
    ensures
        res@ == s@,
;

} // verus!
