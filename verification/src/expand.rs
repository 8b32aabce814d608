//! The whole rewriting of one annotated declaration, from the tokens of its
//! argument list to the directives in front of it.

use crate::args::{parse_spec, ArgToken, ArgTokenView, ArgumentError, MultiversedArgs};
use crate::defaults::PresetSwitches;
use crate::resolve::{resolve_all, resolve_all_spec, ResolvedTargetSet};
use crate::synthesize::{directives_spec, is_synthesis, synthesize, DirectiveView, RewrittenDeclaration};
use vstd::prelude::*;

verus! {

/// The directives that an invocation puts in front of its declaration, or the
/// index of the token at which its argument list is malformed. With the kill
/// switch on the argument list is not even read.
pub open spec fn expansion_spec(
    attr: Seq<ArgTokenView>,
    switches: PresetSwitches,
    force_disable: bool,
) -> Result<Seq<DirectiveView>, int> {
    if force_disable {
        Ok(Seq::empty())
    } else {
        match parse_spec(attr) {
            Ok(args) => Ok(directives_spec(resolve_all_spec(args, switches), false)),
            Err(position) => Err(position),
        }
    }
}

/// Rewrites `func` for the arguments `args`: resolves them, or the defaults
/// where there are none, and puts one directive per family that has targets
/// in front of `func`.
pub fn multiversed_impl<D>(args: MultiversedArgs, func: D, switches: &PresetSwitches) -> (out:
    RewrittenDeclaration<D>)
    ensures
        is_synthesis(out, func, resolve_all_spec(args@, *switches), false),
{
    let resolved = resolve_all(args.targets.as_slice(), switches);
    synthesize(func, resolved, false)
}

/// Rewrites the declaration `item`, annotated with the argument tokens
/// `attr`.
///
/// With `force_disable` on, `item` comes back as it is, with no directive,
/// whatever `attr` and `switches` hold. Otherwise a malformed argument list
/// is the one failure; unknown presets and targets of other architectures
/// are passed over in silence.
pub fn multiversed<D>(attr: &[ArgToken], item: D, switches: &PresetSwitches, force_disable: bool) -> (out:
    Result<RewrittenDeclaration<D>, ArgumentError>)
    ensures
        match expansion_spec(attr.deep_view(), *switches, force_disable) {
            Ok(directives) => out matches Ok(rewritten) && rewritten.declaration == item
                && rewritten.directives.deep_view() == directives,
            Err(position) => out matches Err(error) && error.position == position,
        },
{
    if force_disable {
        let nothing = ResolvedTargetSet { x86: Vec::new(), aarch64: Vec::new() };
        return Ok(synthesize(item, nothing, true));
    }
    match MultiversedArgs::parse(attr) {
        Ok(args) => Ok(multiversed_impl(args, item, switches)),
        Err(error) => Err(error),
    }
}

} // verus!
