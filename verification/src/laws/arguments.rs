//! The grammar of argument lists reads exactly the string literals.

use crate::args::{after, next_argument, parse_from, parse_spec, ArgTokenView};
use crate::laws::sequences::lemma_filter_map_add;
use vstd::prelude::*;

verus! {

/// The tokens of a list that names `values`: each as a string literal, with a
/// comma behind it.
pub open spec fn comma_terminated(values: Seq<Seq<char>>) -> Seq<ArgTokenView> {
    Seq::new(
        2 * values.len(),
        |i: int|
            if i % 2 == 0 {
                ArgTokenView::Str(values[i / 2])
            } else {
                ArgTokenView::Comma
            },
    )
}

/// What a token adds to the arguments: its string where it is a string
/// literal, nothing otherwise.
pub open spec fn literal_of() -> spec_fn(ArgTokenView) -> Option<Seq<char>> {
    |token: ArgTokenView|
        match token {
            ArgTokenView::Str(value) => Some(value),
            _ => None,
        }
}

/// String literals separated by commas are read as the strings they denote,
/// in order, with or without a comma behind the last.
pub proof fn lemma_comma_separated_list_is_read(values: Seq<Seq<char>>)
    ensures
        parse_spec(comma_terminated(values)) == Ok::<Seq<Seq<char>>, int>(values),
        values.len() > 0 ==> parse_spec(comma_terminated(values).drop_last()) == Ok::<
            Seq<Seq<char>>,
            int,
        >(values),
{
    lemma_read_from(comma_terminated(values), values, 0);
    assert(values.skip(0) =~= values);
    if values.len() > 0 {
        lemma_read_from(comma_terminated(values).drop_last(), values, 0);
    }
}

/// [`lemma_comma_separated_list_is_read`], from the literal of `values[k]`
/// on.
proof fn lemma_read_from(tokens: Seq<ArgTokenView>, values: Seq<Seq<char>>, k: int)
    requires
        0 <= k <= values.len(),
        tokens.len() == 2 * values.len() || tokens.len() == 2 * values.len() - 1,
        forall|i: int|
            0 <= i < tokens.len() ==> #[trigger] tokens[i] == if i % 2 == 0 {
                ArgTokenView::Str(values[i / 2])
            } else {
                ArgTokenView::Comma
            },
    ensures
        parse_from(tokens, 2 * k) == Ok::<Seq<Seq<char>>, int>(values.skip(k)),
    decreases values.len() - k,
{
    if k == values.len() {
        assert(values.skip(k) =~= Seq::empty());
    } else {
        lemma_read_from(tokens, values, k + 1);
        let rest = Ok::<Seq<Seq<char>>, int>(values.skip(k + 1));
        assert(tokens[2 * k] == ArgTokenView::Str(values[k]));
        if 2 * k + 1 < tokens.len() {
            assert(tokens[2 * k + 1] == ArgTokenView::Comma);
            assert(next_argument(tokens, 2 * k) == 2 * (k + 1));
        } else {
            assert(values.skip(k + 1) =~= Seq::empty());
            assert(next_argument(tokens, 2 * k) == tokens.len());
            assert(parse_from(tokens, tokens.len() as int) == rest);
        }
        assert(parse_from(tokens, next_argument(tokens, 2 * k)) == rest);
        assert(seq![values[k]] + values.skip(k + 1) =~= values.skip(k));
        assert(parse_from(tokens, 2 * k) == after(seq![values[k]], rest));
    }
}

/// Reading neither invents an argument nor loses one: the arguments of a
/// well-formed list are the strings of its string literals, in order.
pub proof fn lemma_arguments_are_the_literals(tokens: Seq<ArgTokenView>)
    requires
        parse_spec(tokens) is Ok,
    ensures
        parse_spec(tokens)->Ok_0 == tokens.filter_map(literal_of()),
{
    lemma_literals_from(tokens, 0);
    assert(tokens.skip(0) =~= tokens);
}

/// [`lemma_arguments_are_the_literals`], from the token at `at` on.
proof fn lemma_literals_from(tokens: Seq<ArgTokenView>, at: int)
    requires
        0 <= at,
        parse_from(tokens, at) is Ok,
    ensures
        at <= tokens.len() ==> parse_from(tokens, at)->Ok_0 == tokens.skip(at).filter_map(literal_of()),
        at > tokens.len() ==> parse_from(tokens, at)->Ok_0 == Seq::<Seq<char>>::empty(),
    decreases tokens.len() - at,
{
    let none = Seq::<ArgTokenView>::empty();
    if at >= tokens.len() {
        if at == tokens.len() {
            assert(tokens.skip(at) =~= none);
        }
    } else {
        let value = tokens[at]->Str_0;
        let next = next_argument(tokens, at);
        lemma_literals_from(tokens, next);
        let head = tokens.subrange(at, next);
        assert(tokens.skip(at) =~= head + tokens.skip(next));
        lemma_filter_map_add(head, tokens.skip(next), literal_of());
        assert(head.filter_map(literal_of()) =~= seq![value]) by {
            assert(none.push(tokens[at]) =~= seq![tokens[at]]);
            Seq::lemma_filter_map_singleton(tokens[at], literal_of());
            if next == at + 2 {
                assert(head =~= seq![tokens[at]] + seq![tokens[at + 1]]);
                lemma_filter_map_add(seq![tokens[at]], seq![tokens[at + 1]], literal_of());
                Seq::lemma_filter_map_singleton(tokens[at + 1], literal_of());
            } else {
                assert(head =~= seq![tokens[at]]);
            }
        }
    }
}

} // verus!
