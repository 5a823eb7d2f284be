//! Text prompts: single-line, multiline and numeric.

use vstd::prelude::*;
use vstd::string::StringExecFns;
use crate::text::{decimal_usize, parse_usize, trim, trimmed, views};

verus! {

/// Configuration of a text prompt.
pub struct Input {
    pub message: String,
    pub default: Option<String>,
    pub tips: bool,
    pub multiline: bool,
}

/// What an `Input` holds, as mathematical values.
pub struct InputView {
    pub message: Seq<char>,
    pub default: Option<Seq<char>>,
    pub tips: bool,
    pub multiline: bool,
}

pub open spec fn opt_view(o: Option<String>) -> Option<Seq<char>> {
    match o {
        Some(s) => Some(s@),
        None => None,
    }
}

impl View for Input {
    type V = InputView;

    open spec fn view(&self) -> InputView {
        InputView {
            message: self.message@,
            default: opt_view(self.default),
            tips: self.tips,
            multiline: self.multiline,
        }
    }
}

impl InputView {
    /// A fresh prompt: no message, no default, tips shown, single-line.
    pub open spec fn initial() -> InputView {
        InputView { message: Seq::empty(), default: None, tips: true, multiline: false }
    }

    pub open spec fn with_message(self, m: Seq<char>) -> InputView {
        InputView { message: m, ..self }
    }

    pub open spec fn with_default(self, d: Seq<char>) -> InputView {
        InputView { default: Some(d), ..self }
    }

    pub open spec fn without_tips(self) -> InputView {
        InputView { tips: false, ..self }
    }

    pub open spec fn as_multiline(self) -> InputView {
        InputView { multiline: true, ..self }
    }

    /// The answer that raw text `raw` gives: the trimmed text, or the
    /// default where the trimmed text is empty and a default is set.
    pub open spec fn answer(self, raw: Seq<char>) -> Seq<char> {
        if trimmed(raw).len() == 0 && self.default is Some {
            self.default->0
        } else {
            trimmed(raw)
        }
    }

    /// The number that raw text `raw` gives, if its answer is one.
    pub open spec fn number(self, raw: Seq<char>) -> Option<nat> {
        decimal_usize(self.answer(raw))
    }

    /// The answer of the whole exchange on `lines`, the lines read before
    /// the end of the stream.
    pub open spec fn answer_to(self, lines: Seq<Seq<char>>) -> Seq<char> {
        if self.multiline {
            self.answer(joined(lines))
        } else if lines.len() > 0 {
            self.answer(lines[0])
        } else {
            self.answer(Seq::empty())
        }
    }
}

/// The lines one after the other.
pub open spec fn joined(lines: Seq<Seq<char>>) -> Seq<char>
    decreases lines.len(),
{
    if lines.len() == 0 {
        Seq::empty()
    } else {
        joined(lines.drop_last()) + lines.last()
    }
}

/// The line that hands a multiline buffer to an external editor.
pub open spec fn is_edit_escape(line: Seq<char>) -> bool {
    trimmed(line) == seq!['@', 'e']
}

/// What the reader of a multiline prompt receives.
pub enum LineEvent {
    /// A line, with its line terminator.
    Line(String),
    /// The end of the stream.
    End,
    /// The stream failed.
    Failed,
}

/// What a multiline prompt does next.
#[derive(PartialEq, Eq, Structural, Debug, Clone, Copy)]
pub enum MultilineAction {
    ReadLine,
    OpenEditor,
    Finish,
}

/// Takes one event of a multiline prompt into `buffer`. A line is
/// appended, except the editor escape where an editor is available; the end
/// of the stream and a failed read both end the prompt.
pub fn multiline_step(buffer: &mut String, event: &LineEvent, editor: bool) -> (r: MultilineAction)
    ensures
        match event {
            LineEvent::Line(l) => if editor && is_edit_escape(l@) {
                r == MultilineAction::OpenEditor && final(buffer)@ == old(buffer)@
            } else {
                r == MultilineAction::ReadLine && final(buffer)@ == old(buffer)@ + l@
            },
            _ => r == MultilineAction::Finish && final(buffer)@ == old(buffer)@,
        },
{
    match event {
        LineEvent::Line(l) => {
            if editor && edit_escape(l.as_str()) {
                MultilineAction::OpenEditor
            } else {
                buffer.append(l.as_str());
                MultilineAction::ReadLine
            }
        },
        _ => MultilineAction::Finish,
    }
}

/// Takes what the external editor gave back for the escape line `line`.
/// Edited text replaces the buffer and ends the prompt; where the editor
/// failed, the line is kept as text and reading goes on.
pub fn editor_returned(buffer: &mut String, line: &str, edited: Option<String>) -> (r: MultilineAction)
    ensures
        match edited {
            Some(t) => r == MultilineAction::Finish && final(buffer)@ == t@,
            None => r == MultilineAction::ReadLine && final(buffer)@ == old(buffer)@ + line@,
        },
{
    match edited {
        Some(t) => {
            *buffer = t;
            MultilineAction::Finish
        },
        None => {
            buffer.append(line);
            MultilineAction::ReadLine
        },
    }
}

fn edit_escape(line: &str) -> (r: bool)
    ensures
        r == is_edit_escape(line@),
{
    let t = trim(line);
    let s = t.as_str();
    if s.unicode_len() != 2 {
        return false;
    }
    let r = s.get_char(0) == '@' && s.get_char(1) == 'e';
    proof {
        if r {
            assert(s@ =~= seq!['@', 'e']);
        }
    }
    r
}


impl Input {
    /// A fresh prompt: no message, no default, tips shown, single-line.
    pub fn new() -> (r: Input)
        ensures
            r@ == InputView::initial(),
    {
        Input { message: String::new(), default: None, tips: true, multiline: false }
    }

    /// Sets the prompt message.
    pub fn message(self, msg: &str) -> (r: Input)
        ensures
            r@ == self@.with_message(msg@),
    {
        Input { message: String::from_str(msg), ..self }
    }

    /// Sets the value returned for an empty answer.
    pub fn default(self, value: &str) -> (r: Input)
        ensures
            r@ == self@.with_default(value@),
    {
        Input { default: Some(String::from_str(value)), ..self }
    }

    /// Turns off the tip line of multiline prompts.
    pub fn disable_tips(self) -> (r: Input)
        ensures
            r@ == self@.without_tips(),
    {
        Input { tips: false, ..self }
    }

    /// Makes the prompt read lines until the end of the stream.
    pub fn multiline(self) -> (r: Input)
        ensures
            r@ == self@.as_multiline(),
    {
        Input { multiline: true, ..self }
    }

    /// The answer that raw text gives: trimmed, or the default where the
    /// trimmed text is empty and a default is set.
    pub fn resolve(&self, raw: &str) -> (r: String)
        ensures
            r@ == self@.answer(raw@),
    {
        let t = trim(raw);
        if t.as_str().unicode_len() == 0 {
            match &self.default {
                Some(d) => return d.clone(),
                None => {},
            }
        }
        t
    }

    /// The answer to this prompt, given `lines`, the lines the input stream
    /// holds before its end. A single-line prompt reads the first of them; a
    /// multiline prompt reads all of them and joins them. No editor is
    /// offered.
    pub fn get_input(&self, lines: &Vec<String>) -> (r: String)
        ensures
            r@ == self@.answer_to(views(lines@)),
    {
        if !self.multiline {
            if lines.len() > 0 {
                return self.resolve(lines[0].as_str());
            }
            proof {
                reveal_strlit("");
            }
            return self.resolve("");
        }
        let mut buffer = String::new();
        let mut i: usize = 0;
        while i < lines.len()
            invariant
                i <= lines.len(),
                buffer@ == joined(views(lines@).take(i as int)),
            decreases lines.len() - i,
        {
            let event = LineEvent::Line(lines[i].clone());
            multiline_step(&mut buffer, &event, false);
            proof {
                let v = views(lines@);
                assert(v.take(i + 1).drop_last() =~= v.take(i as int));
            }
            i = i + 1;
        }
        multiline_step(&mut buffer, &LineEvent::End, false);
        assert(views(lines@).take(lines.len() as int) =~= views(lines@));
        self.resolve(buffer.as_str())
    }

    /// The answer that raw text gives, read as a decimal `usize`.
    pub fn parse_answer(&self, raw: &str) -> (r: Option<usize>)
        ensures
            r matches Some(n) ==> self@.number(raw@) == Some(n as nat),
            r is None ==> self@.number(raw@) is None,
    {
        let a = self.resolve(raw);
        parse_usize(a.as_str())
    }

    /// Asks for a `usize` until an answer parses, given `lines`, the lines
    /// the input stream holds before its end. A single-line prompt takes one
    /// line per attempt; a multiline prompt takes all of them in its one
    /// attempt. Returns the number and how many attempts were refused, or
    /// `None` where the stream ends before an answer parses.
    pub fn get_parsed_input(&self, lines: &Vec<String>) -> (r: Option<(usize, usize)>)
        ensures
            self@.multiline ==> match r {
                Some((n, k)) => k == 0 && decimal_usize(self@.answer_to(views(lines@))) == Some(n as nat),
                None => decimal_usize(self@.answer_to(views(lines@))) is None,
            },
            !self@.multiline ==> match r {
                Some((n, k)) => k < lines@.len() && self@.number(lines@[k as int]@) == Some(n as nat)
                    && forall|j: int| 0 <= j < k ==> (#[trigger] self@.number(lines@[j]@)) is None,
                None => forall|j: int| 0 <= j < lines@.len() ==> (#[trigger] self@.number(lines@[j]@)) is None,
            },
    {
        if self.multiline {
            let a = self.get_input(lines);
            return match parse_usize(a.as_str()) {
                Some(n) => Some((n, 0)),
                None => None,
            };
        }
        let mut k: usize = 0;
        while k < lines.len()
            invariant
                !self.multiline,
                k <= lines.len(),
                forall|j: int| 0 <= j < k ==> (#[trigger] self@.number(lines@[j]@)) is None,
            decreases lines.len() - k,
        {
            match self.parse_answer(lines[k].as_str()) {
                Some(n) => return Some((n, k)),
                None => {},
            }
            k = k + 1;
        }
        None
    }
}

/// Builder steps that set different fields commute: setting the message
/// and the default, turning tips off and turning multiline on give the same
/// configuration in either order.
pub proof fn lemma_builder_order_independent(v: InputView, m: Seq<char>, d: Seq<char>)
    ensures
        v.with_message(m).with_default(d) == v.with_default(d).with_message(m),
        v.with_message(m).without_tips() == v.without_tips().with_message(m),
        v.with_message(m).as_multiline() == v.as_multiline().with_message(m),
        v.with_default(d).without_tips() == v.without_tips().with_default(d),
        v.with_default(d).as_multiline() == v.as_multiline().with_default(d),
        v.without_tips().as_multiline() == v.as_multiline().without_tips(),
{
}

} // verus!
