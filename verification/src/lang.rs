//! Identity of a heuristic, and the reason it gives for a match.
use vstd::prelude::*;
use core::cmp::Ordering;
use vstd::std_specs::cmp::PartialEqSpecImpl;
use vstd::std_specs::cmp::PartialOrdSpecImpl;
use crate::color::IconColor;
use crate::text::joined;
use crate::text::str_eq;
use crate::text::str_lt;
use crate::text::text_less;

verus! {

/// A programming language or another reason for a match: the identity of a
/// heuristic. Two values are the same language when their names are equal.
#[derive(Debug, Clone, Copy)]
pub struct Lang {
    /// Name of the language or heuristic.
    pub name: &'static str,
    /// An emoji or a nerd font symbol.
    pub icon: &'static str,
    /// Abbreviation, shown where icons are not available.
    pub short: &'static str,
    /// Colors of the icon.
    pub color: IconColor,
}

/// Mathematical value of a [`Lang`].
pub struct LangView {
    pub name: Seq<char>,
    pub icon: Seq<char>,
    pub short: Seq<char>,
    pub color: IconColor,
}

impl View for Lang {
    type V = LangView;

    open spec fn view(&self) -> LangView {
        LangView { name: self.name@, icon: self.icon@, short: self.short@, color: self.color }
    }
}

impl PartialEq for Lang {
    fn eq(&self, other: &Self) -> (r: bool) {
        str_eq(self.name, other.name)
    }
}

impl PartialEqSpecImpl for Lang {
    open spec fn obeys_eq_spec() -> bool {
        true
    }

    open spec fn eq_spec(&self, other: &Self) -> bool {
        self.name@ == other.name@
    }
}

impl Eq for Lang {

}

impl PartialOrd for Lang {
    fn partial_cmp(&self, other: &Self) -> (r: Option<Ordering>) {
        if str_lt(self.name, other.name) {
            Some(Ordering::Less)
        } else if str_lt(other.name, self.name) {
            Some(Ordering::Greater)
        } else {
            Some(Ordering::Equal)
        }
    }
}

impl PartialOrdSpecImpl for Lang {
    open spec fn obeys_partial_cmp_spec() -> bool {
        true
    }

    open spec fn partial_cmp_spec(&self, other: &Self) -> Option<Ordering> {
        if text_less(self.name@, other.name@) {
            Some(Ordering::Less)
        } else if text_less(other.name@, self.name@) {
            Some(Ordering::Greater)
        } else {
            Some(Ordering::Equal)
        }
    }
}

/// The identity that stands where no heuristic is running.
pub open spec fn unnamed_lang() -> LangView {
    LangView { name: ""@, icon: ""@, short: ""@, color: IconColor { normal: 0, selected: 0 } }
}

impl Lang {
    /// The identity that stands where no heuristic is running.
    pub fn unnamed() -> (r: Self)
        ensures
            r@ == unnamed_lang(),
    {
        Lang { name: "", icon: "", short: "", color: IconColor::uniform(0) }
    }

    /// The name, as shown to the user.
    pub fn label(&self) -> (r: String)
        ensures
            r@ == self.name@,
    {
        self.name.to_owned()
    }
}

/// A [`Lang`] with the comment that a heuristic gave for one match.
#[derive(Debug, Clone)]
pub struct CommentedLang {
    /// The heuristic that matched.
    pub lang: Lang,
    /// Why it matched.
    pub comment: String,
}

/// Mathematical value of a [`CommentedLang`].
pub struct CommentedLangView {
    pub lang: LangView,
    pub comment: Seq<char>,
}

impl View for CommentedLang {
    type V = CommentedLangView;

    open spec fn view(&self) -> CommentedLangView {
        CommentedLangView { lang: self.lang@, comment: self.comment@ }
    }
}

impl CommentedLang {
    /// Name of the language or heuristic.
    pub fn name(&self) -> (r: &str)
        ensures
            r@ == self.lang.name@,
    {
        self.lang.name
    }

    /// Colors of the underlying [`Lang`].
    pub fn color(&self) -> (r: IconColor)
        ensures
            r == self.lang.color,
    {
        self.lang.color
    }

    /// Icon of the language or heuristic.
    pub fn icon(&self) -> (r: &str)
        ensures
            r@ == self.lang.icon@,
    {
        self.lang.icon
    }

    /// Abbreviation of the language or heuristic.
    pub fn short(&self) -> (r: &str)
        ensures
            r@ == self.lang.short@,
    {
        self.lang.short
    }

    /// The name and the comment, joined by " - ".
    pub fn describe(&self) -> (r: String)
        ensures
            r@ == self.lang.name@ + " - "@ + self.comment@,
    {
        let head = joined(self.lang.name, " - ");
        joined(head.as_str(), self.comment.as_str())
    }

    /// A copy of this value.
    pub fn duplicate(&self) -> (r: Self)
        ensures
            r@ == self@,
    {
        CommentedLang { lang: self.lang, comment: self.comment.clone() }
    }
}

} // verus!
