//! The rewritten declaration: one conditional wrapper directive per family
//! that has targets, in front of the declaration as it was given.

use crate::family::ArchitectureFamily;
use crate::resolve::{ResolvedTargetSet, TargetLists};
use crate::text::{joined, lemma_joined_push};
use vstd::prelude::*;

verus! {

/// One conditional wrapper: on the architectures of `family`, hand `targets`
/// to the dispatch generator, in this order.
#[derive(Clone, Debug, PartialEq, Eq)]
pub struct WrapperDirective {
    pub family: ArchitectureFamily,
    pub targets: Vec<String>,
}

/// A [`WrapperDirective`] as a value of specifications.
pub struct DirectiveView {
    pub family: ArchitectureFamily,
    pub targets: Seq<Seq<char>>,
}

impl View for WrapperDirective {
    type V = DirectiveView;

    open spec fn view(&self) -> DirectiveView {
        DirectiveView { family: self.family, targets: self.targets.deep_view() }
    }
}

impl DeepView for WrapperDirective {
    type V = DirectiveView;

    open spec fn deep_view(&self) -> DirectiveView {
        self@
    }
}

/// A declaration with the directives that go in front of it. The declaration
/// itself is carried through untouched, whatever its type.
#[derive(Clone, Debug, PartialEq, Eq)]
pub struct RewrittenDeclaration<D> {
    /// The directives, in the order in which they are emitted.
    pub directives: Vec<WrapperDirective>,
    /// The declaration as it was given.
    pub declaration: D,
}

/// The directive of `family`: one where it has targets, none where it has
/// not.
pub open spec fn directive_for(family: ArchitectureFamily, targets: Seq<Seq<char>>) -> Seq<
    DirectiveView,
> {
    if targets.len() == 0 {
        Seq::empty()
    } else {
        seq![DirectiveView { family, targets }]
    }
}

/// The directives of a declaration. The kill switch leaves none. Otherwise
/// x86 comes first and aarch64 second, whatever the order of the arguments.
pub open spec fn directives_spec(resolved: TargetLists, kill_switch: bool) -> Seq<DirectiveView> {
    if kill_switch {
        Seq::empty()
    } else {
        directive_for(ArchitectureFamily::X86, resolved.x86) + directive_for(
            ArchitectureFamily::Aarch64,
            resolved.aarch64,
        )
    }
}

/// What [`synthesize`] owes for `declaration`, `resolved` and `kill_switch`:
/// the declaration itself, behind the directives of [`directives_spec`].
pub open spec fn is_synthesis<D>(
    out: RewrittenDeclaration<D>,
    declaration: D,
    resolved: TargetLists,
    kill_switch: bool,
) -> bool {
    out.declaration == declaration && out.directives.deep_view() == directives_spec(
        resolved,
        kill_switch,
    )
}

/// The predicate that holds on the architectures of `family`. For an
/// unsupported family it is the one that never holds.
pub open spec fn guard_spec(family: ArchitectureFamily) -> Seq<char> {
    match family {
        ArchitectureFamily::X86 => "any(target_arch = \"x86\", target_arch = \"x86_64\")"@,
        ArchitectureFamily::Aarch64 => "target_arch = \"aarch64\""@,
        ArchitectureFamily::Unsupported => "any()"@,
    }
}

/// The sixteen hexadecimal digits.
pub open spec fn hex_digit(n: int) -> char {
    "0123456789abcdef"@[n]
}

/// The escape `\u{......}` of `c`, with six digits.
pub open spec fn unicode_escape(c: char) -> Seq<char> {
    let code = c as u32 as int;
    "\\u{"@ + seq![
        hex_digit(code / 0x100000 % 16),
        hex_digit(code / 0x10000 % 16),
        hex_digit(code / 0x1000 % 16),
        hex_digit(code / 0x100 % 16),
        hex_digit(code / 0x10 % 16),
        hex_digit(code % 16),
    ] + "}"@
}

/// How `c` is written inside a string literal: the quote and the backslash
/// behind a backslash, the other printable ASCII characters as they are, and
/// everything else as an escape.
pub open spec fn escaped_char(c: char) -> Seq<char> {
    if c == '"' {
        seq!['\\', '"']
    } else if c == '\\' {
        seq!['\\', '\\']
    } else if ' ' <= c <= '~' {
        seq![c]
    } else if c == '\n' {
        seq!['\\', 'n']
    } else if c == '\r' {
        seq!['\\', 'r']
    } else if c == '\t' {
        seq!['\\', 't']
    } else {
        unicode_escape(c)
    }
}

/// [`escaped_char`] as a function value.
pub open spec fn escaper() -> spec_fn(char) -> Seq<char> {
    |c: char| escaped_char(c)
}

/// `s` as a string literal.
pub open spec fn quoted(s: Seq<char>) -> Seq<char> {
    seq!['"'] + s.map_values(escaper()).flatten() + seq!['"']
}

/// [`quoted`] as a function value.
pub open spec fn quoter() -> spec_fn(Seq<char>) -> Seq<char> {
    |s: Seq<char>| quoted(s)
}

/// The text of one directive, with the line break that ends it.
pub open spec fn directive_text(directive: DirectiveView) -> Seq<char> {
    "#[cfg_attr("@ + guard_spec(directive.family) + ", multiversion::multiversion(targets("@ + joined(
        directive.targets.map_values(quoter()),
        ", "@,
    ) + ")))]\n"@
}

/// [`directive_text`] as a function value.
pub open spec fn renderer() -> spec_fn(DirectiveView) -> Seq<char> {
    |directive: DirectiveView| directive_text(directive)
}

/// The text of all `directives`, one after another.
pub open spec fn directives_text(directives: Seq<DirectiveView>) -> Seq<char> {
    directives.map_values(renderer()).flatten()
}

impl ArchitectureFamily {
    /// The text of the predicate that holds on this family's architectures.
    pub fn guard(self) -> (text: &'static str)
        ensures
            text@ == guard_spec(self),
    {
        match self {
            ArchitectureFamily::X86 => "any(target_arch = \"x86\", target_arch = \"x86_64\")",
            ArchitectureFamily::Aarch64 => "target_arch = \"aarch64\"",
            ArchitectureFamily::Unsupported => "any()",
        }
    }
}

/// The hexadecimal digit of `n`.
fn hex_digit_of(n: u32) -> (digit: char)
    requires
        n < 16,
    ensures
        digit == hex_digit(n as int),
{
    proof {
        reveal_strlit("0123456789abcdef");
    }
    "0123456789abcdef".get_char(n as usize)
}

/// Appends `c` as it is written inside a string literal.
fn push_escaped(out: &mut String, c: char)
    ensures
        final(out)@ == old(out)@ + escaped_char(c),
{
    if c == '"' {
        out.push('\\');
        out.push('"');
    } else if c == '\\' {
        out.push('\\');
        out.push('\\');
    } else if ' ' <= c && c <= '~' {
        out.push(c);
    } else if c == '\n' {
        out.push('\\');
        out.push('n');
    } else if c == '\r' {
        out.push('\\');
        out.push('r');
    } else if c == '\t' {
        out.push('\\');
        out.push('t');
    } else {
        let code: u32 = c as u32;
        out.append("\\u{");
        out.push(hex_digit_of(code / 0x100000 % 16));
        out.push(hex_digit_of(code / 0x10000 % 16));
        out.push(hex_digit_of(code / 0x1000 % 16));
        out.push(hex_digit_of(code / 0x100 % 16));
        out.push(hex_digit_of(code / 0x10 % 16));
        out.push(hex_digit_of(code % 16));
        out.append("}");
    }
    assert(out@ =~= old(out)@ + escaped_char(c));
}

/// Appends `s` as a string literal.
fn push_quoted(out: &mut String, s: &str)
    ensures
        final(out)@ == old(out)@ + quoted(s@),
{
    out.push('"');
    let ghost start = out@;
    for c in it: s.chars()
        invariant
            it.seq() == s@,
            out@ == start + s@.take(it.index()).map_values(escaper()).flatten(),
    {
        push_escaped(out, c);
        proof {
            let seen = s@.take(it.index()).map_values(escaper());
            assert(s@.take(it.index() + 1).map_values(escaper()) =~= seen.push(escaped_char(c)));
            seen.lemma_flatten_push(escaped_char(c));
            assert(out@ =~= start + seen.push(escaped_char(c)).flatten());
        }
    }
    assert(s@.take(s@.len() as int) =~= s@);
    out.push('"');
    assert(out@ =~= old(out)@ + quoted(s@));
}

impl WrapperDirective {
    /// Appends the text of this directive.
    fn render_into(&self, out: &mut String)
        ensures
            final(out)@ == old(out)@ + directive_text(self@),
    {
        let ghost texts = self.targets.deep_view().map_values(quoter());
        out.append("#[cfg_attr(");
        out.append(self.family.guard());
        out.append(", multiversion::multiversion(targets(");
        let ghost start = out@;
        let mut i: usize = 0;
        while i < self.targets.len()
            invariant
                i <= self.targets.len(),
                texts == self.targets.deep_view().map_values(quoter()),
                out@ == start + joined(texts.take(i as int), ", "@),
            decreases self.targets.len() - i,
        {
            proof {
                assert(texts.take(i + 1) =~= texts.take(i as int).push(texts[i as int]));
                if i > 0 {
                    lemma_joined_push(texts.take(i as int), ", "@, texts[i as int]);
                }
            }
            if i > 0 {
                out.append(", ");
            }
            push_quoted(out, self.targets[i].as_str());
            i += 1;
            assert(out@ =~= start + joined(texts.take(i as int), ", "@));
        }
        assert(texts.take(self.targets.len() as int) =~= texts);
        out.append(")))]\n");
        assert(out@ =~= old(out)@ + directive_text(self@));
    }

    /// The text of this directive: an attribute that applies the dispatch
    /// generator to the listed targets where the family's guard holds.
    pub fn render(&self) -> (text: String)
        ensures
            text@ == directive_text(self@),
    {
        let mut text = String::new();
        self.render_into(&mut text);
        assert(Seq::<char>::empty() + directive_text(self@) =~= directive_text(self@));
        text
    }
}

impl<D> RewrittenDeclaration<D> {
    /// Appends the text of every directive.
    fn render_directives_into(&self, out: &mut String)
        ensures
            final(out)@ == old(out)@ + directives_text(self.directives.deep_view()),
    {
        let ghost all = self.directives.deep_view();
        let mut i: usize = 0;
        while i < self.directives.len()
            invariant
                i <= self.directives.len(),
                all == self.directives.deep_view(),
                out@ == old(out)@ + directives_text(all.take(i as int)),
            decreases self.directives.len() - i,
        {
            proof {
                let seen = all.take(i as int).map_values(renderer());
                assert(all.take(i + 1).map_values(renderer()) =~= seen.push(directive_text(all[i as int])));
                seen.lemma_flatten_push(directive_text(all[i as int]));
            }
            self.directives[i].render_into(out);
            i += 1;
            assert(out@ =~= old(out)@ + directives_text(all.take(i as int)));
        }
        assert(all.take(self.directives.len() as int) =~= all);
    }

    /// The text of the directives, each on a line of its own. It is empty
    /// where there is no directive.
    pub fn render_directives(&self) -> (text: String)
        ensures
            text@ == directives_text(self.directives.deep_view()),
    {
        let mut text = String::new();
        self.render_directives_into(&mut text);
        assert(Seq::<char>::empty() + directives_text(self.directives.deep_view()) =~= directives_text(
            self.directives.deep_view(),
        ));
        text
    }
}

impl RewrittenDeclaration<String> {
    /// The rewritten declaration as source text: the directives, then the
    /// declaration, character for character. Without directives it is the
    /// declaration and nothing else.
    pub fn to_source(&self) -> (text: String)
        ensures
            text@ == directives_text(self.directives.deep_view()) + self.declaration@,
            self.directives@.len() == 0 ==> text@ == self.declaration@,
    {
        let mut text = self.render_directives();
        text.append(self.declaration.as_str());
        proof {
            if self.directives@.len() == 0 {
                assert(self.directives.deep_view().map_values(renderer()) =~= Seq::<Seq<char>>::empty());
                assert(Seq::<char>::empty() + self.declaration@ =~= self.declaration@);
            }
        }
        text
    }
}

/// Puts the directives of `resolved` in front of `declaration`.
///
/// With the kill switch on, the declaration comes back with no directive,
/// whatever `resolved` holds. The same happens where no family has a target.
/// Otherwise each family that has targets gets one directive, which carries
/// its targets in their order.
pub fn synthesize<D>(declaration: D, resolved: ResolvedTargetSet, kill_switch: bool) -> (out:
    RewrittenDeclaration<D>)
    ensures
        is_synthesis(out, declaration, resolved@, kill_switch),
        kill_switch || resolved@.is_empty() ==> out.directives@.len() == 0,
{
    let mut directives: Vec<WrapperDirective> = Vec::new();
    if !kill_switch {
        let ResolvedTargetSet { x86, aarch64 } = resolved;
        if x86.len() > 0 {
            directives.push(WrapperDirective { family: ArchitectureFamily::X86, targets: x86 });
        }
        if aarch64.len() > 0 {
            directives.push(
                WrapperDirective { family: ArchitectureFamily::Aarch64, targets: aarch64 },
            );
        }
    }
    assert(directives.deep_view() =~= directives_spec(resolved@, kill_switch));
    RewrittenDeclaration { directives, declaration }
}

} // verus!
