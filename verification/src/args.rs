//! The arguments of an invocation: string literals, each optionally followed
//! by a comma.

use vstd::prelude::*;

verus! {

/// One token of an invocation's argument list.
#[derive(Clone, Debug, PartialEq, Eq)]
pub enum ArgToken {
    /// A string literal; the field holds the string that it denotes.
    Str(String),
    /// A comma.
    Comma,
    /// Any other token.
    Other,
}

/// An [`ArgToken`] as a value of specifications.
pub enum ArgTokenView {
    Str(Seq<char>),
    Comma,
    Other,
}

impl View for ArgToken {
    type V = ArgTokenView;

    open spec fn view(&self) -> ArgTokenView {
        match self {
            ArgToken::Str(value) => ArgTokenView::Str(value@),
            ArgToken::Comma => ArgTokenView::Comma,
            ArgToken::Other => ArgTokenView::Other,
        }
    }
}

impl DeepView for ArgToken {
    type V = ArgTokenView;

    open spec fn deep_view(&self) -> ArgTokenView {
        self@
    }
}

/// The explicit arguments of one invocation, in the order written. Each is a
/// preset name or a raw target string.
#[derive(Clone, Debug, PartialEq, Eq)]
pub struct MultiversedArgs {
    pub targets: Vec<String>,
}

impl View for MultiversedArgs {
    type V = Seq<Seq<char>>;

    open spec fn view(&self) -> Seq<Seq<char>> {
        self.targets.deep_view()
    }
}

/// The argument list is malformed: the token at `position` had to be a string
/// literal and is not.
#[derive(Clone, Copy, Debug, PartialEq, Eq, Structural)]
pub struct ArgumentError {
    /// Index of the offending token.
    pub position: usize,
}

/// The string that the string literal written as `text` denotes, and `None`
/// where `text` is not exactly one string literal.
pub uninterp spec fn string_literal_value(text: Seq<char>) -> Option<Seq<char>>;

/// Where the token after the string literal at `at` starts the next
/// argument: behind the comma if one follows, else right behind the literal.
pub open spec fn next_argument(tokens: Seq<ArgTokenView>, at: int) -> int {
    if at + 1 < tokens.len() && tokens[at + 1] is Comma {
        at + 2
    } else {
        at + 1
    }
}

/// The grammar, from the token at `at` on: the strings of the literals, or
/// the index of the first token that had to be a string literal and is not.
pub open spec fn parse_from(tokens: Seq<ArgTokenView>, at: int) -> Result<Seq<Seq<char>>, int>
    decreases tokens.len() - at,
{
    if at < 0 || at >= tokens.len() {
        Ok(Seq::empty())
    } else {
        match tokens[at] {
            ArgTokenView::Str(value) => after(seq![value], parse_from(tokens, next_argument(tokens, at))),
            _ => Err(at),
        }
    }
}

/// `rest` with `values` put in front of what it holds.
pub open spec fn after(values: Seq<Seq<char>>, rest: Result<Seq<Seq<char>>, int>) -> Result<
    Seq<Seq<char>>,
    int,
> {
    match rest {
        Ok(more) => Ok(values + more),
        Err(position) => Err(position),
    }
}

/// The grammar of a whole argument list.
pub open spec fn parse_spec(tokens: Seq<ArgTokenView>) -> Result<Seq<Seq<char>>, int> {
    parse_from(tokens, 0)
}

/// Decodes the string literal written as `text`.
///
/// Reads `text` as one literal with `proc_macro2::Literal::from_str`, has
/// `syn::Lit::new` tell which kind of literal it is, and takes what
/// `syn::LitStr::value` gives for a string literal. Trusted: the result is a
/// function of `text` alone, namely the string that Rust's literal syntax
/// gives it; a text that is not one literal, and a literal of another kind,
/// gives `None`.
#[verifier::external_body]
fn decode_string_literal(text: &str) -> (value: Option<String>)
    ensures
        value.deep_view() == string_literal_value(text@),
{
    match text.parse::<proc_macro2::Literal>() {
        Ok(literal) => match syn::Lit::new(literal) {
            syn::Lit::Str(string) => Some(string.value()),
            _ => None,
        },
        Err(_) => None,
    }
}

impl ArgToken {
    /// The token for a literal written as `text` in the source: `Str` with
    /// the decoded string where `text` is a string literal, `Other` for
    /// every other literal.
    pub fn from_literal(text: &str) -> (token: ArgToken)
        ensures
            token@ == (match string_literal_value(text@) {
                Some(value) => ArgTokenView::Str(value),
                None => ArgTokenView::Other,
            }),
    {
        match decode_string_literal(text) {
            Some(value) => ArgToken::Str(value),
            None => ArgToken::Other,
        }
    }
}

impl ArgumentError {
    /// What to tell the author of the invocation.
    pub fn message(&self) -> (text: &'static str)
        ensures
            text@ == "expected string literal"@,
    {
        "expected string literal"
    }
}

impl MultiversedArgs {
    /// Reads an argument list.
    ///
    /// The list is a run of string literals. A comma may follow each literal,
    /// the last one too, and may be left out. The first token that stands
    /// where a literal is due and is none is reported by its index.
    pub fn parse(tokens: &[ArgToken]) -> (out: Result<MultiversedArgs, ArgumentError>)
        ensures
            match parse_spec(tokens.deep_view()) {
                Ok(values) => out matches Ok(args) && args@ == values,
                Err(position) => out == Err::<MultiversedArgs, ArgumentError>(
                    ArgumentError { position: position as usize },
                ) && 0 <= position < tokens.len(),
            },
    {
        let ghost all = tokens.deep_view();
        let mut targets: Vec<String> = Vec::new();
        let mut i: usize = 0;
        while i < tokens.len()
            invariant
                i <= tokens.len(),
                all == tokens.deep_view(),
                parse_spec(all) == after(targets.deep_view(), parse_from(all, i as int)),
            decreases tokens.len() - i,
        {
            let ghost before = targets.deep_view();
            match &tokens[i] {
                ArgToken::Str(value) => {
                    targets.push(value.clone());
                    proof {
                        let next = next_argument(all, i as int);
                        let rest = parse_from(all, next);
                        assert(all[i as int] == ArgTokenView::Str(value@));
                        assert(targets.deep_view() =~= before.push(value@));
                        assert(after(before, after(seq![value@], rest)) == after(
                            targets.deep_view(),
                            rest,
                        )) by {
                            if let Ok(more) = rest {
                                assert(before + (seq![value@] + more) =~= before.push(value@) + more);
                            }
                        }
                    }
                    if i + 1 < tokens.len() {
                        if let ArgToken::Comma = &tokens[i + 1] {
                            i += 1;
                        }
                    }
                    i += 1;
                },
                _ => {
                    return Err(ArgumentError { position: i });
                },
            }
        }
        assert(targets.deep_view() + Seq::<Seq<char>>::empty() =~= targets.deep_view());
        Ok(MultiversedArgs { targets })
    }
}

} // verus!
