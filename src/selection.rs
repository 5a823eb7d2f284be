//! Choosing one of a list of options by its ordinal.

use vstd::prelude::*;
use vstd::string::StringExecFns;
use crate::text::{decimal_text, decimal_usize, lemma_decimal_round_trip, parse_usize, trim, trimmed, views};

verus! {

/// Configuration of a prompt that offers a numbered list of options.
pub struct Selection {
    pub message: String,
    pub options: Vec<String>,
}

/// What a `Selection` holds, as mathematical values.
pub struct SelectionView {
    pub message: Seq<char>,
    pub options: Seq<Seq<char>>,
}

impl View for Selection {
    type V = SelectionView;

    open spec fn view(&self) -> SelectionView {
        SelectionView { message: self.message@, options: views(self.options@) }
    }
}

impl SelectionView {
    /// The option that raw text `raw` picks: the one whose 1-based ordinal
    /// the trimmed text spells, if there is one.
    pub open spec fn choice(self, raw: Seq<char>) -> Option<Seq<char>> {
        match decimal_usize(trimmed(raw)) {
            Some(i) => if 1 <= i <= self.options.len() {
                Some(self.options[i - 1])
            } else {
                None
            },
            None => None,
        }
    }
}

impl Selection {
    /// A fresh prompt: no message and no options.
    pub fn new() -> (r: Selection)
        ensures
            r@.message == Seq::<char>::empty(),
            r@.options == Seq::<Seq<char>>::empty(),
    {
        let r = Selection { message: String::new(), options: Vec::new() };
        assert(r@.options =~= Seq::<Seq<char>>::empty());
        r
    }

    /// Sets the prompt message.
    pub fn message(self, msg: &str) -> (r: Selection)
        ensures
            r@.message == msg@,
            r@.options == self@.options,
    {
        Selection { message: String::from_str(msg), options: self.options }
    }

    /// Sets the options, in the order they are offered.
    pub fn options(self, opts: Vec<String>) -> (r: Selection)
        ensures
            r@.message == self@.message,
            r@.options == views(opts@),
    {
        Selection { message: self.message, options: opts }
    }

    /// The option that one answer picks, or `None` where the answer is not a
    /// number between 1 and the number of options.
    pub fn pick(&self, raw: &str) -> (r: Option<String>)
        ensures
            match r {
                Some(o) => self@.choice(raw@) == Some(o@),
                None => self@.choice(raw@) is None,
            },
    {
        let t = trim(raw);
        match parse_usize(t.as_str()) {
            Some(i) => {
                if 1 <= i && i <= self.options.len() {
                    Some(self.options[i - 1].clone())
                } else {
                    None
                }
            },
            None => None,
        }
    }

    /// Asks until an answer picks an option, given `lines`, the lines the
    /// input stream holds before its end, one per attempt. Returns the option
    /// and how many attempts were refused, or `None` where the stream ends
    /// before an answer picks one.
    pub fn get_selection(&self, lines: &Vec<String>) -> (r: Option<(String, usize)>)
        ensures
            match r {
                Some((o, k)) => k < lines@.len() && self@.choice(lines@[k as int]@) == Some(o@)
                    && forall|j: int| 0 <= j < k ==> (#[trigger] self@.choice(lines@[j]@)) is None,
                None => forall|j: int| 0 <= j < lines@.len() ==> (#[trigger] self@.choice(lines@[j]@)) is None,
            },
    {
        let mut k: usize = 0;
        while k < lines.len()
            invariant
                k <= lines.len(),
                forall|j: int| 0 <= j < k ==> (#[trigger] self@.choice(lines@[j]@)) is None,
            decreases lines.len() - k,
        {
            match self.pick(lines[k].as_str()) {
                Some(o) => return Some((o, k)),
                None => {},
            }
            k = k + 1;
        }
        None
    }
}

/// An answer that spells the 1-based ordinal `i` of an option, once trimmed,
/// picks exactly that option.
pub proof fn lemma_ordinal_picks_option(v: SelectionView, raw: Seq<char>, i: nat)
    requires
        1 <= i <= v.options.len(),
        i <= usize::MAX,
        trimmed(raw) == decimal_text(i),
    ensures
        v.choice(raw) == Some(v.options[i - 1]),
{
    lemma_decimal_round_trip(i);
}

/// An answer that is not a number, or a number outside 1 to the number of
/// options, picks nothing: the prompt asks again.
pub proof fn lemma_invalid_answer_picks_nothing(v: SelectionView, raw: Seq<char>)
    requires
        decimal_usize(trimmed(raw)) matches Some(i) ==> i < 1 || i > v.options.len(),
    ensures
        v.choice(raw) is None,
{
}

} // verus!
