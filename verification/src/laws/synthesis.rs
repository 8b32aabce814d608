//! Synthesis obeys the kill switch, emits in a fixed order, and is a
//! function of its inputs.

use crate::args::ArgTokenView;
use crate::defaults::PresetSwitches;
use crate::expand::expansion_spec;
use crate::family::ArchitectureFamily;
use crate::resolve::{resolve_all_spec, TargetLists};
use crate::synthesize::{
    directives_spec, directives_text, is_synthesis, renderer, DirectiveView, RewrittenDeclaration,
};
use vstd::prelude::*;

verus! {

/// The kill switch dominates: whatever the arguments and the switches, no
/// directive is emitted, and the text in front of the declaration is empty,
/// so that the declaration comes out character for character.
pub proof fn lemma_kill_switch_dominates(
    args: Seq<Seq<char>>,
    switches: PresetSwitches,
    declaration: Seq<char>,
)
    ensures
        directives_spec(resolve_all_spec(args, switches), true) == Seq::<DirectiveView>::empty(),
        directives_text(directives_spec(resolve_all_spec(args, switches), true)) + declaration
            == declaration,
{
    lemma_no_directive_no_text();
}

/// With the kill switch on the argument list is not read: even a malformed
/// one leaves the declaration as it is, and is no failure.
pub proof fn lemma_kill_switch_ignores_arguments(attr: Seq<ArgTokenView>, switches: PresetSwitches)
    ensures
        expansion_spec(attr, switches, true) == Ok::<Seq<DirectiveView>, int>(Seq::empty()),
{
}

/// Without directives there is no text.
pub proof fn lemma_no_directive_no_text()
    ensures
        directives_text(Seq::<DirectiveView>::empty()) == Seq::<char>::empty(),
{
    let none = Seq::<DirectiveView>::empty();
    assert(none.map_values(renderer()) =~= Seq::<Seq<char>>::empty());
}

/// Where no family has a target the declaration passes through as with the
/// kill switch on.
pub proof fn lemma_no_target_no_directive(resolved: TargetLists, kill_switch: bool)
    requires
        resolved.is_empty(),
    ensures
        directives_spec(resolved, kill_switch) == Seq::<DirectiveView>::empty(),
{
}

/// Directives come in a fixed order, x86 before aarch64, one per family at
/// most, and each names a supported family and has a target.
pub proof fn lemma_emission_order_is_fixed(resolved: TargetLists, kill_switch: bool)
    ensures
        ({
            let directives = directives_spec(resolved, kill_switch);
            &&& directives.len() <= 2
            &&& directives.len() == 2 ==> directives[0].family == ArchitectureFamily::X86
                && directives[1].family == ArchitectureFamily::Aarch64
            &&& forall|i: int|
                0 <= i < directives.len() ==> (#[trigger] directives[i]).family
                    != ArchitectureFamily::Unsupported && directives[i].targets.len() > 0
                    && directives[i].targets == resolved.of(directives[i].family)
        }),
{
}

/// Synthesis is a function of its inputs: two runs on the same declaration
/// and the same targets, with the same kill switch, give the same
/// declaration behind the same directives, and so the same text.
pub proof fn lemma_resynthesis_is_identical<D>(
    first: RewrittenDeclaration<D>,
    second: RewrittenDeclaration<D>,
    declaration: D,
    resolved: TargetLists,
    kill_switch: bool,
)
    requires
        is_synthesis(first, declaration, resolved, kill_switch),
        is_synthesis(second, declaration, resolved, kill_switch),
    ensures
        first.declaration == second.declaration,
        first.directives.deep_view() == second.directives.deep_view(),
        directives_text(first.directives.deep_view()) == directives_text(second.directives.deep_view()),
{
}

} // verus!
