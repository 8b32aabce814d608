//! Resolution of an invocation's arguments into one ordered list of target
//! strings per architecture family.

use crate::defaults::{
    default_aarch64_targets, default_aarch64_targets_spec, default_x86_targets, default_x86_targets_spec,
    PresetSwitches,
};
use crate::family::{classify, classify_spec, ArchitectureFamily};
use crate::presets::{resolve_target, resolve_target_spec};
use vstd::prelude::*;

verus! {

/// The targets of one invocation, sorted by family. Each list keeps the order
/// in which its targets were given.
#[derive(Clone, Debug, PartialEq, Eq)]
pub struct ResolvedTargetSet {
    /// Targets for x86 and x86_64.
    pub x86: Vec<String>,
    /// Targets for aarch64.
    pub aarch64: Vec<String>,
}

/// What a [`ResolvedTargetSet`] holds, as sequences of strings.
pub struct TargetLists {
    pub x86: Seq<Seq<char>>,
    pub aarch64: Seq<Seq<char>>,
}

impl TargetLists {
    /// The list of `family`. The unsupported family never has targets.
    pub open spec fn of(self, family: ArchitectureFamily) -> Seq<Seq<char>> {
        match family {
            ArchitectureFamily::X86 => self.x86,
            ArchitectureFamily::Aarch64 => self.aarch64,
            ArchitectureFamily::Unsupported => Seq::empty(),
        }
    }

    /// Whether no family has a target.
    pub open spec fn is_empty(self) -> bool {
        self.x86.len() == 0 && self.aarch64.len() == 0
    }
}

impl View for ResolvedTargetSet {
    type V = TargetLists;

    open spec fn view(&self) -> TargetLists {
        TargetLists { x86: self.x86.deep_view(), aarch64: self.aarch64.deep_view() }
    }
}

/// [`resolve_target_spec`] as a function value.
pub open spec fn resolver() -> spec_fn(Seq<char>) -> Option<Seq<char>> {
    |s: Seq<char>| resolve_target_spec(s)
}

/// The test for membership in `family`.
pub open spec fn in_family(family: ArchitectureFamily) -> spec_fn(Seq<char>) -> bool {
    |target: Seq<char>| classify_spec(target) == family
}

/// The target strings that `args` stand for, in the arguments' order. An
/// argument that resolves to nothing leaves no trace.
pub open spec fn resolved_targets(args: Seq<Seq<char>>) -> Seq<Seq<char>> {
    args.filter_map(resolver())
}

/// `targets` sorted by family. Targets of an unsupported family are in
/// neither list.
pub open spec fn partition(targets: Seq<Seq<char>>) -> TargetLists {
    TargetLists {
        x86: targets.filter(in_family(ArchitectureFamily::X86)),
        aarch64: targets.filter(in_family(ArchitectureFamily::Aarch64)),
    }
}

/// The target lists of an invocation: the defaults where it has no
/// arguments, else what its arguments resolve to.
#[verifier::opaque]
pub open spec fn resolve_all_spec(args: Seq<Seq<char>>, switches: PresetSwitches) -> TargetLists {
    if args.len() == 0 {
        TargetLists {
            x86: default_x86_targets_spec(switches),
            aarch64: default_aarch64_targets_spec(switches),
        }
    } else {
        partition(resolved_targets(args))
    }
}

/// Whether resolution passes over `arg`: it names no preset and is no raw
/// target string, or its target is of an unsupported family.
pub open spec fn is_dropped(arg: Seq<char>) -> bool {
    match resolve_target_spec(arg) {
        Some(target) => classify_spec(target) == ArchitectureFamily::Unsupported,
        None => true,
    }
}

/// [`is_dropped`] as a predicate.
pub open spec fn dropped() -> spec_fn(Seq<char>) -> bool {
    |arg: Seq<char>| is_dropped(arg)
}

/// The arguments that resolution passes over, in the order given.
pub open spec fn dropped_arguments_spec(args: Seq<Seq<char>>) -> Seq<Seq<char>> {
    args.filter(dropped())
}

impl ResolvedTargetSet {
    /// Whether no family has a target.
    pub fn is_empty(&self) -> (empty: bool)
        ensures
            empty == self@.is_empty(),
    {
        self.x86.len() == 0 && self.aarch64.len() == 0
    }

    /// The targets of `family`, where it has any. A family without targets
    /// is absent, and the unsupported family always is.
    pub fn get(&self, family: ArchitectureFamily) -> (targets: Option<&Vec<String>>)
        ensures
            match targets {
                Some(targets) => targets.deep_view() == self@.of(family) && targets.len() > 0,
                None => self@.of(family).len() == 0,
            },
    {
        match family {
            ArchitectureFamily::X86 => if self.x86.len() > 0 {
                Some(&self.x86)
            } else {
                None
            },
            ArchitectureFamily::Aarch64 => if self.aarch64.len() > 0 {
                Some(&self.aarch64)
            } else {
                None
            },
            ArchitectureFamily::Unsupported => None,
        }
    }
}

/// Copies each string of `targets`.
fn to_owned_all(targets: &Vec<&'static str>) -> (owned: Vec<String>)
    ensures
        owned.deep_view() == targets.deep_view(),
{
    let mut owned: Vec<String> = Vec::new();
    let mut i: usize = 0;
    while i < targets.len()
        invariant
            i <= targets.len(),
            owned.deep_view() == targets.deep_view().take(i as int),
        decreases targets.len() - i,
    {
        let ghost before = owned.deep_view();
        owned.push(targets[i].to_owned());
        proof {
            let all = targets.deep_view();
            assert(owned.deep_view() =~= before.push(all[i as int]));
            assert(all.take(i + 1) =~= all.take(i as int).push(all[i as int]));
        }
        i += 1;
    }
    assert(targets.deep_view().take(targets.len() as int) =~= targets.deep_view());
    owned
}

/// Resolves the arguments of one invocation.
///
/// Without arguments each family gets its defaults. With arguments, each one
/// is resolved in turn and appended to the list of its family; an unknown
/// name, and a target of an unsupported family, is passed over in silence.
/// Nothing is reordered and nothing deduplicated.
pub fn resolve_all(args: &[String], switches: &PresetSwitches) -> (resolved: ResolvedTargetSet)
    ensures
        resolved@ == resolve_all_spec(args.deep_view(), *switches),
{
    proof {
        reveal(resolve_all_spec);
    }
    if args.len() == 0 {
        let x86 = to_owned_all(&default_x86_targets(switches));
        let aarch64 = to_owned_all(&default_aarch64_targets(switches));
        return ResolvedTargetSet { x86, aarch64 };
    }
    let ghost all = args.deep_view();
    let ghost is_x86 = in_family(ArchitectureFamily::X86);
    let ghost is_aarch64 = in_family(ArchitectureFamily::Aarch64);
    let mut x86: Vec<String> = Vec::new();
    let mut aarch64: Vec<String> = Vec::new();
    let mut i: usize = 0;
    proof {
        reveal(Seq::filter);
        assert(resolved_targets(all.take(0)) =~= Seq::empty());
    }
    while i < args.len()
        invariant
            i <= args.len(),
            all == args.deep_view(),
            is_x86 == in_family(ArchitectureFamily::X86),
            is_aarch64 == in_family(ArchitectureFamily::Aarch64),
            x86.deep_view() == resolved_targets(all.take(i as int)).filter(is_x86),
            aarch64.deep_view() == resolved_targets(all.take(i as int)).filter(is_aarch64),
        decreases args.len() - i,
    {
        let ghost before = resolved_targets(all.take(i as int));
        proof {
            all.lemma_filter_map_take_succ(resolver(), i as int);
        }
        match resolve_target(args[i].as_str()) {
            Some(target) => {
                proof {
                    assert(resolved_targets(all.take(i + 1)) =~= before.push(target@));
                    before.lemma_filter_push(target@, is_x86);
                    before.lemma_filter_push(target@, is_aarch64);
                }
                match classify(target) {
                    ArchitectureFamily::X86 => {
                        x86.push(target.to_owned());
                        assert(x86.deep_view() =~= before.filter(is_x86).push(target@));
                    },
                    ArchitectureFamily::Aarch64 => {
                        aarch64.push(target.to_owned());
                        assert(aarch64.deep_view() =~= before.filter(is_aarch64).push(target@));
                    },
                    ArchitectureFamily::Unsupported => {},
                }
            },
            None => {
                assert(resolved_targets(all.take(i + 1)) =~= before);
            },
        }
        i += 1;
    }
    assert(all.take(args.len() as int) =~= all);
    ResolvedTargetSet { x86, aarch64 }
}

/// The arguments that [`resolve_all`] passes over in silence, for whoever
/// wants to tell the author: unknown names, raw strings tagged `wasm32`, and
/// targets of an unsupported family. They come in the order given.
pub fn dropped_arguments(args: &[String]) -> (passed_over: Vec<String>)
    ensures
        passed_over.deep_view() == dropped_arguments_spec(args.deep_view()),
{
    let ghost all = args.deep_view();
    let mut passed_over: Vec<String> = Vec::new();
    let mut i: usize = 0;
    proof {
        reveal(Seq::filter);
        assert(all.take(0).filter(dropped()) =~= Seq::empty());
    }
    while i < args.len()
        invariant
            i <= args.len(),
            all == args.deep_view(),
            passed_over.deep_view() == all.take(i as int).filter(dropped()),
        decreases args.len() - i,
    {
        let ghost before = passed_over.deep_view();
        proof {
            assert(all.take(i + 1) =~= all.take(i as int).push(all[i as int]));
            all.take(i as int).lemma_filter_push(all[i as int], dropped());
        }
        let keep = match resolve_target(args[i].as_str()) {
            Some(target) => match classify(target) {
                ArchitectureFamily::Unsupported => false,
                _ => true,
            },
            None => false,
        };
        if !keep {
            passed_over.push(args[i].clone());
            assert(passed_over.deep_view() =~= before.push(all[i as int]));
        }
        i += 1;
    }
    assert(all.take(args.len() as int) =~= all);
    passed_over
}

} // verus!
