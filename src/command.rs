use vstd::prelude::*;

use crate::catalog::QuestionType;
use crate::text::{
    canonical_digits, canonical_numeral, eq_ignore_ascii_case, fold_char, folded, is_digit,
    is_numeral, trim_whitespace, trimmed, unsigned_part,
};

verus! {

/// What an inbound message asks for.
#[derive(Debug, Clone, PartialEq, Eq)]
pub enum Command {
    /// The text was not understood: answer with the usage text.
    ShowHelp,
    /// A random question of one kind.
    RequestByCategory(QuestionType),
    /// The question with this identifier.
    RequestById(String),
}

/// The abstract value of a `Command`.
pub enum CommandView {
    ShowHelp,
    RequestByCategory(QuestionType),
    RequestById(Seq<char>),
}

impl View for Command {
    type V = CommandView;

    open spec fn view(&self) -> CommandView {
        match self {
            Command::ShowHelp => CommandView::ShowHelp,
            Command::RequestByCategory(t) => CommandView::RequestByCategory(*t),
            Command::RequestById(id) => CommandView::RequestById(id@),
        }
    }
}

/// The kind whose abbreviation `t` is, with ASCII letter case ignored.
pub open spec fn keyword_of(t: Seq<char>) -> Option<QuestionType> {
    if folded(t) == folded("rc"@) {
        Some(QuestionType::RC)
    } else if folded(t) == folded("sc"@) {
        Some(QuestionType::SC)
    } else if folded(t) == folded("cr"@) {
        Some(QuestionType::CR)
    } else if folded(t) == folded("ps"@) {
        Some(QuestionType::PS)
    } else if folded(t) == folded("ds"@) {
        Some(QuestionType::DS)
    } else {
        None
    }
}

/// The command that the message text `text` asks for. Surrounding white space
/// is ignored; a numeral of a non-negative integer asks for the question of that
/// number, written without a plus sign or leading zeros, which
/// takes priority over the abbreviations; anything else asks for help.
pub open spec fn command_of(text: Seq<char>) -> CommandView {
    let t = trimmed(text);
    if is_numeral(t) {
        CommandView::RequestById(canonical_numeral(t))
    } else {
        match keyword_of(t) {
            Some(k) => CommandView::RequestByCategory(k),
            None => CommandView::ShowHelp,
        }
    }
}

/// The kind whose abbreviation `t` is, with ASCII letter case ignored.
pub fn match_keyword(t: &str) -> (r: Option<QuestionType>)
    ensures
        r == keyword_of(t@),
{
    if eq_ignore_ascii_case(t, "rc") {
        Some(QuestionType::RC)
    } else if eq_ignore_ascii_case(t, "sc") {
        Some(QuestionType::SC)
    } else if eq_ignore_ascii_case(t, "cr") {
        Some(QuestionType::CR)
    } else if eq_ignore_ascii_case(t, "ps") {
        Some(QuestionType::PS)
    } else if eq_ignore_ascii_case(t, "ds") {
        Some(QuestionType::DS)
    } else {
        None
    }
}

/// Reads an inbound message text as a command (see `command_of`).
pub fn parse_command(text: &str) -> (r: Command)
    ensures
        r@ == command_of(text@),
{
    let t = trim_whitespace(text);
    match canonical_digits(t) {
        Some(id) => Command::RequestById(id),
        None => match match_keyword(t) {
            Some(k) => Command::RequestByCategory(k),
            None => Command::ShowHelp,
        },
    }
}

/// A text that is a numeral equals every text that differs from it in ASCII
/// letter case only.
proof fn lemma_numeral_has_no_case(x: Seq<char>, y: Seq<char>)
    requires
        is_numeral(x),
        folded(x) == folded(y),
    ensures
        x == y,
{
    assert(x.len() == folded(x).len());
    assert(y.len() == folded(y).len());
    let off: int = if x.len() > 0 && x[0] == '+' {
        1
    } else {
        0
    };
    let d = unsigned_part(x);
    assert forall|i: int| 0 <= i < x.len() implies x[i] == y[i] by {
        assert(folded(x)[i] == folded(y)[i]);
        if i >= off {
            assert(d[i - off] == x[i]);
            assert(is_digit(d[i - off]));
        }
        let c = x[i];
        let e = y[i];
        assert(c as int <= '9' as int);
        assert(fold_char(c) == c as int);
        assert(folded(x)[i] == fold_char(c));
        assert(folded(y)[i] == fold_char(e));
        if 'A' <= e && e <= 'Z' {
            assert(e as int >= 'A' as int);
            assert(fold_char(e) >= 'A' as int + 32);
        }
        assert(e as int == c as int);
    }
    assert(x =~= y);
}

/// The command router ignores ASCII letter case: two texts that are equal,
/// once trimmed, up to letter case ask for the same command.
pub proof fn lemma_command_ignores_case(a: Seq<char>, b: Seq<char>)
    requires
        folded(trimmed(a)) == folded(trimmed(b)),
    ensures
        command_of(a) == command_of(b),
{
    let x = trimmed(a);
    let y = trimmed(b);
    if is_numeral(x) {
        lemma_numeral_has_no_case(x, y);
    } else if is_numeral(y) {
        lemma_numeral_has_no_case(y, x);
    }
}

/// The command router ignores surrounding white space.
pub proof fn lemma_command_ignores_padding(a: Seq<char>, b: Seq<char>)
    requires
        trimmed(a) == trimmed(b),
    ensures
        command_of(a) == command_of(b),
{
}

} // verus!
