//! The icon button of the tabs.

use crate::text::opt_text;
use vstd::prelude::*;

verus! {

/// A button that shows an icon, in one of three sizes, with texts to show
/// while the pointer rests on it.
pub struct IconicButton {
    text: String,
    size: usize,
    hint: Option<String>,
    disabled_hint: Option<String>,
    enabled: Option<bool>,
}

/// The mathematical content of an [`IconicButton`].
pub struct IconicButtonView {
    pub text: Seq<char>,
    pub size: usize,
    pub hint: Option<Seq<char>>,
    pub disabled_hint: Option<Seq<char>>,
    pub enabled: Option<bool>,
}

impl IconicButtonView {
    /// The text to show while the pointer rests on the live button.
    pub open spec fn hover_text(self) -> Option<Seq<char>> {
        self.hint
    }

    /// The text to show while the pointer rests on the button and the button
    /// is not live: its own text for that case, else the hint.
    pub open spec fn disabled_hover_text(self) -> Option<Seq<char>> {
        if self.disabled_hint.is_some() {
            self.disabled_hint
        } else {
            self.hint
        }
    }
}

impl View for IconicButton {
    type V = IconicButtonView;

    closed spec fn view(&self) -> IconicButtonView {
        IconicButtonView {
            text: self.text@,
            size: self.size,
            hint: opt_text(self.hint),
            disabled_hint: opt_text(self.disabled_hint),
            enabled: self.enabled,
        }
    }
}

/// The number of sizes that a button comes in.
pub const SIZES: usize = 3;

impl IconicButton {
    #[verifier::type_invariant]
    spec fn inv(self) -> bool {
        self.size < SIZES
    }

    /// A button of the middle size, with no hints, that is live unless what
    /// is around it is not.
    pub fn new(text: &str) -> (r: Self)
        ensures
            r@ == (IconicButtonView {
                text: text@,
                size: 1,
                hint: None,
                disabled_hint: None,
                enabled: None,
            }),
    {
        Self { text: text.to_owned(), size: 1, hint: None, disabled_hint: None, enabled: None }
    }

    pub fn on_hover_text(self, text: &str) -> (r: Self)
        ensures
            r@ == (IconicButtonView { hint: Some(text@), ..self@ }),
    {
        proof {
            use_type_invariant(&self);
        }
        let mut button = self;
        button.hint = Some(text.to_owned());
        button
    }

    pub fn on_disabled_hover_text(self, text: &str) -> (r: Self)
        ensures
            r@ == (IconicButtonView { disabled_hint: Some(text@), ..self@ }),
    {
        proof {
            use_type_invariant(&self);
        }
        let mut button = self;
        button.disabled_hint = Some(text.to_owned());
        button
    }

    pub fn enabled(self, enabled: bool) -> (r: Self)
        ensures
            r@ == (IconicButtonView { enabled: Some(enabled), ..self@ }),
    {
        proof {
            use_type_invariant(&self);
        }
        let mut button = self;
        button.enabled = Some(enabled);
        button
    }

    pub fn large(self) -> (r: Self)
        ensures
            r@ == (IconicButtonView { size: 2, ..self@ }),
    {
        proof {
            use_type_invariant(&self);
        }
        let mut button = self;
        button.size = 2;
        button
    }

    pub fn small(self) -> (r: Self)
        ensures
            r@ == (IconicButtonView { size: 0, ..self@ }),
    {
        proof {
            use_type_invariant(&self);
        }
        let mut button = self;
        button.size = 0;
        button
    }

    /// The icon.
    pub fn text(&self) -> (r: &str)
        ensures
            r@ == self@.text,
    {
        self.text.as_str()
    }

    /// Which of the sizes the button has: 0 for small, 1 for middle, 2 for
    /// large.
    pub fn size(&self) -> (r: usize)
        ensures
            r == self@.size,
            r < SIZES,
    {
        proof {
            use_type_invariant(self);
        }
        self.size
    }

    /// Whether the button is live, where that was said.
    pub fn is_enabled(&self) -> (r: Option<bool>)
        ensures
            r == self@.enabled,
    {
        self.enabled
    }

    /// The text to show while the pointer rests on the live button.
    pub fn hover_text(&self) -> (r: Option<&str>)
        ensures
            r.is_some() == self@.hover_text().is_some(),
            r matches Some(text) ==> Some(text@) == self@.hover_text(),
    {
        match &self.hint {
            Some(hint) => Some(hint.as_str()),
            None => None,
        }
    }

    /// The text to show while the pointer rests on the button and the button
    /// is not live.
    pub fn disabled_hover_text(&self) -> (r: Option<&str>)
        ensures
            r.is_some() == self@.disabled_hover_text().is_some(),
            r matches Some(text) ==> Some(text@) == self@.disabled_hover_text(),
    {
        match &self.disabled_hint {
            Some(hint) => Some(hint.as_str()),
            None => match &self.hint {
                Some(hint) => Some(hint.as_str()),
                None => None,
            },
        }
    }
}

} // verus!
