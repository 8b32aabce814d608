//! Resolution keeps every target that it can use, in the order given and in
//! the list of its own family, and passes over the rest.

use crate::defaults::{
    default_aarch64_targets_spec, default_targets_spec, default_x86_targets_spec, PresetSwitches,
};
use crate::family::{classify_spec, lemma_families_exclusive, ArchitectureFamily};
use crate::laws::sequences::{
    lemma_filter_empty, lemma_filter_map_add, lemma_filter_one, lemma_prefix_transitive,
};
use crate::laws::table::{
    lemma_preset_families, lemma_preset_names_have_no_separator, lemma_presets_well_formed,
    lemma_supported_is_not_wasm, lemma_tiers_nest,
};
use crate::presets::{
    preset_target, resolve_target_spec, ARM64, ARM64_V2, ARM64_V3, X86_64_V2, X86_64_V3, X86_64_V4,
    X86_64_V4_MODERN,
};
use crate::resolve::{
    dropped, dropped_arguments_spec, in_family, is_dropped, partition, resolve_all_spec, resolved_targets,
    resolver,
};
use vstd::prelude::*;

verus! {

/// The family other than `family`, of the two that are supported.
pub open spec fn other_family(family: ArchitectureFamily) -> ArchitectureFamily {
    match family {
        ArchitectureFamily::X86 => ArchitectureFamily::Aarch64,
        ArchitectureFamily::Aarch64 => ArchitectureFamily::X86,
        ArchitectureFamily::Unsupported => ArchitectureFamily::Unsupported,
    }
}

/// The list of `family` where `target` is all there is to sort.
pub open spec fn alone(target: Option<Seq<char>>, family: ArchitectureFamily) -> Seq<Seq<char>> {
    match target {
        Some(target) => if classify_spec(target) == family {
            seq![target]
        } else {
            Seq::empty()
        },
        None => Seq::empty(),
    }
}

/// One argument alone puts its target in the list of the target's family and
/// nowhere else. An argument without a target, and a target of an
/// unsupported family, leave both lists empty.
pub proof fn lemma_single_argument(arg: Seq<char>, switches: PresetSwitches)
    ensures
        resolve_all_spec(seq![arg], switches).x86 == alone(
            resolve_target_spec(arg),
            ArchitectureFamily::X86,
        ),
        resolve_all_spec(seq![arg], switches).aarch64 == alone(
            resolve_target_spec(arg),
            ArchitectureFamily::Aarch64,
        ),
{
    reveal(resolve_all_spec);
    Seq::lemma_filter_map_singleton(arg, resolver());
    match resolve_target_spec(arg) {
        Some(target) => {
            lemma_filter_one(target, in_family(ArchitectureFamily::X86));
            lemma_filter_one(target, in_family(ArchitectureFamily::Aarch64));
        },
        None => {
            lemma_filter_empty(in_family(ArchitectureFamily::X86));
            lemma_filter_empty(in_family(ArchitectureFamily::Aarch64));
        },
    }
}

/// Two arguments: each list holds what the first argument alone puts there,
/// then what the second alone puts there.
pub proof fn lemma_two_arguments(a: Seq<char>, b: Seq<char>, switches: PresetSwitches)
    ensures
        resolve_all_spec(seq![a, b], switches).x86 == alone(
            resolve_target_spec(a),
            ArchitectureFamily::X86,
        ) + alone(resolve_target_spec(b), ArchitectureFamily::X86),
        resolve_all_spec(seq![a, b], switches).aarch64 == alone(
            resolve_target_spec(a),
            ArchitectureFamily::Aarch64,
        ) + alone(resolve_target_spec(b), ArchitectureFamily::Aarch64),
{
    lemma_single_argument(a, switches);
    lemma_single_argument(b, switches);
    lemma_resolution_is_argumentwise(seq![a], seq![b], switches);
    assert(seq![a] + seq![b] =~= seq![a, b]);
}

/// Resolution goes argument by argument: the lists of two argument lists
/// written one after the other are the lists of the first followed by the
/// lists of the second. No target moves, none is dropped for being there
/// twice, and none changes its family.
pub proof fn lemma_resolution_is_argumentwise(
    a: Seq<Seq<char>>,
    b: Seq<Seq<char>>,
    switches: PresetSwitches,
)
    requires
        a.len() > 0,
        b.len() > 0,
    ensures
        resolve_all_spec(a + b, switches).x86 == resolve_all_spec(a, switches).x86 + resolve_all_spec(
            b,
            switches,
        ).x86,
        resolve_all_spec(a + b, switches).aarch64 == resolve_all_spec(a, switches).aarch64
            + resolve_all_spec(b, switches).aarch64,
{
    reveal(resolve_all_spec);
    lemma_filter_map_add(a, b, resolver());
    Seq::filter_distributes_over_add(
        resolved_targets(a),
        resolved_targets(b),
        in_family(ArchitectureFamily::X86),
    );
    Seq::filter_distributes_over_add(
        resolved_targets(a),
        resolved_targets(b),
        in_family(ArchitectureFamily::Aarch64),
    );
}

/// A preset name alone resolves to its target string from the table, in the
/// list of that target's family, and leaves the other family's list empty.
pub proof fn lemma_preset_resolves_to_its_target(name: Seq<char>, switches: PresetSwitches)
    requires
        preset_target(name) is Some,
    ensures
        ({
            let target = preset_target(name)->0;
            let family = classify_spec(target);
            let resolved = resolve_all_spec(seq![name], switches);
            &&& family != ArchitectureFamily::Unsupported
            &&& resolved.of(family) == seq![target]
            &&& resolved.of(other_family(family)) == Seq::<Seq<char>>::empty()
        }),
{
    lemma_presets_well_formed(name);
    lemma_single_argument(name, switches);
}

/// A raw target string of a supported family passes through alone and
/// unchanged, into the list of its family.
pub proof fn lemma_raw_target_passes_through(target: Seq<char>, switches: PresetSwitches)
    requires
        target.contains('+'),
        classify_spec(target) != ArchitectureFamily::Unsupported,
    ensures
        ({
            let family = classify_spec(target);
            let resolved = resolve_all_spec(seq![target], switches);
            &&& resolve_target_spec(target) == Some(target)
            &&& resolved.of(family) == seq![target]
            &&& resolved.of(other_family(family)) == Seq::<Seq<char>>::empty()
        }),
{
    lemma_preset_names_have_no_separator(target);
    lemma_supported_is_not_wasm(target);
    lemma_single_argument(target, switches);
}

/// Two arguments that resolve into one family come out in the order in which
/// they were given, never reversed and never sorted.
pub proof fn lemma_order_is_preserved(a: Seq<char>, b: Seq<char>, switches: PresetSwitches)
    requires
        resolve_target_spec(a) is Some,
        resolve_target_spec(b) is Some,
        classify_spec(resolve_target_spec(a)->0) != ArchitectureFamily::Unsupported,
        classify_spec(resolve_target_spec(a)->0) == classify_spec(resolve_target_spec(b)->0),
    ensures
        ({
            let family = classify_spec(resolve_target_spec(a)->0);
            let resolved = resolve_all_spec(seq![a, b], switches);
            &&& resolved.of(family) == seq![resolve_target_spec(a)->0, resolve_target_spec(b)->0]
            &&& resolved.of(other_family(family)) == Seq::<Seq<char>>::empty()
        }),
{
    lemma_two_arguments(a, b, switches);
    let first = resolve_target_spec(a);
    let second = resolve_target_spec(b);
    let x86 = alone(first, ArchitectureFamily::X86) + alone(second, ArchitectureFamily::X86);
    let aarch64 = alone(first, ArchitectureFamily::Aarch64) + alone(second, ArchitectureFamily::Aarch64);
    let both = seq![first->0, second->0];
    let none = Seq::<Seq<char>>::empty();
    if classify_spec(first->0) == ArchitectureFamily::X86 {
        assert(x86 =~= both);
        assert(aarch64 =~= none);
    } else {
        assert(aarch64 =~= both);
        assert(x86 =~= none);
    }
}

/// Two arguments that resolve into different families each land in the list
/// of their own family, whichever is given first.
pub proof fn lemma_families_are_kept_apart(a: Seq<char>, b: Seq<char>, switches: PresetSwitches)
    requires
        resolve_target_spec(a) is Some,
        resolve_target_spec(b) is Some,
        classify_spec(resolve_target_spec(a)->0) != ArchitectureFamily::Unsupported,
        classify_spec(resolve_target_spec(b)->0) == other_family(
            classify_spec(resolve_target_spec(a)->0),
        ),
    ensures
        ({
            let first = resolve_target_spec(a)->0;
            let second = resolve_target_spec(b)->0;
            let resolved = resolve_all_spec(seq![a, b], switches);
            &&& resolved.of(classify_spec(first)) == seq![first]
            &&& resolved.of(classify_spec(second)) == seq![second]
        }),
{
    lemma_two_arguments(a, b, switches);
    let first = resolve_target_spec(a);
    let second = resolve_target_spec(b);
    let x86 = alone(first, ArchitectureFamily::X86) + alone(second, ArchitectureFamily::X86);
    let aarch64 = alone(first, ArchitectureFamily::Aarch64) + alone(second, ArchitectureFamily::Aarch64);
    if classify_spec(first->0) == ArchitectureFamily::X86 {
        assert(x86 =~= seq![first->0]);
        assert(aarch64 =~= seq![second->0]);
    } else {
        assert(aarch64 =~= seq![first->0]);
        assert(x86 =~= seq![second->0]);
    }
}

/// No entry crosses families: whatever the arguments and the switches, each
/// list holds only targets of its own family.
pub proof fn lemma_lists_hold_their_family(
    args: Seq<Seq<char>>,
    switches: PresetSwitches,
    family: ArchitectureFamily,
    i: int,
)
    requires
        0 <= i < resolve_all_spec(args, switches).of(family).len(),
    ensures
        classify_spec(resolve_all_spec(args, switches).of(family)[i]) == family,
{
    reveal(resolve_all_spec);
    if args.len() == 0 {
        lemma_preset_families();
    } else {
        let targets = resolved_targets(args);
        if family == ArchitectureFamily::X86 {
            targets.lemma_filter_pred(in_family(ArchitectureFamily::X86), i);
        } else {
            targets.lemma_filter_pred(in_family(ArchitectureFamily::Aarch64), i);
        }
    }
}

/// An argument that names no preset and is no raw target string, and one
/// whose target is of an unsupported family, vanishes: alone it leaves every
/// list empty.
pub proof fn lemma_dropped_argument_vanishes(arg: Seq<char>, switches: PresetSwitches)
    requires
        is_dropped(arg),
    ensures
        resolve_all_spec(seq![arg], switches).is_empty(),
{
    lemma_single_argument(arg, switches);
}

/// A list of arguments that are all passed over leaves every list empty. It
/// does not fall back on the defaults: those are for the empty list alone.
pub proof fn lemma_only_dropped_arguments(args: Seq<Seq<char>>, switches: PresetSwitches)
    requires
        args.len() > 0,
        forall|i: int| 0 <= i < args.len() ==> is_dropped(#[trigger] args[i]),
    ensures
        resolve_all_spec(args, switches).is_empty(),
{
    lemma_arguments_are_accounted_for(args, switches);
    lemma_all_dropped(args);
}

/// Where every argument is passed over, the list of those passed over is the
/// whole list.
proof fn lemma_all_dropped(args: Seq<Seq<char>>)
    requires
        forall|i: int| 0 <= i < args.len() ==> is_dropped(#[trigger] args[i]),
    ensures
        dropped_arguments_spec(args) == args,
    decreases args.len(),
{
    if args.len() == 0 {
        lemma_filter_empty(dropped());
        assert(args =~= Seq::empty());
    } else {
        let front = args.drop_last();
        assert(front.push(args.last()) =~= args);
        assert forall|i: int| 0 <= i < front.len() implies is_dropped(#[trigger] front[i]) by {
            assert(front[i] == args[i]);
        }
        lemma_all_dropped(front);
        front.lemma_filter_push(args.last(), dropped());
    }
}

/// Every argument is accounted for once: it is passed over, or it puts one
/// target into the list of one family.
pub proof fn lemma_arguments_are_accounted_for(args: Seq<Seq<char>>, switches: PresetSwitches)
    requires
        args.len() > 0,
    ensures
        resolve_all_spec(args, switches).x86.len() + resolve_all_spec(args, switches).aarch64.len()
            + dropped_arguments_spec(args).len() == args.len(),
{
    reveal(resolve_all_spec);
    lemma_partition_accounts(args);
}

/// [`lemma_arguments_are_accounted_for`], for lists of any length.
proof fn lemma_partition_accounts(args: Seq<Seq<char>>)
    ensures
        partition(resolved_targets(args)).x86.len() + partition(resolved_targets(args)).aarch64.len()
            + dropped_arguments_spec(args).len() == args.len(),
    decreases args.len(),
{
    let is_x86 = in_family(ArchitectureFamily::X86);
    let is_aarch64 = in_family(ArchitectureFamily::Aarch64);
    if args.len() == 0 {
        lemma_filter_empty(is_x86);
        lemma_filter_empty(is_aarch64);
        lemma_filter_empty(dropped());
    } else {
        let front = args.drop_last();
        let last = args.last();
        lemma_partition_accounts(front);
        assert(front.push(last) =~= args);
        front.lemma_filter_push(last, dropped());
        let targets = resolved_targets(front);
        match resolve_target_spec(last) {
            Some(target) => {
                assert(resolved_targets(args) =~= targets.push(target));
                targets.lemma_filter_push(target, is_x86);
                targets.lemma_filter_push(target, is_aarch64);
                lemma_families_exclusive(target);
            },
            None => {
                assert(resolved_targets(args) =~= targets);
            },
        }
    }
}

/// Without arguments each family gets its defaults.
pub proof fn lemma_defaults_without_arguments(switches: PresetSwitches)
    ensures
        resolve_all_spec(Seq::empty(), switches).x86 == default_x86_targets_spec(switches),
        resolve_all_spec(Seq::empty(), switches).aarch64 == default_aarch64_targets_spec(switches),
        default_x86_targets_spec(switches).len() == 0 <==> !(switches.x86_64_v2 || switches.x86_64_v3
            || switches.x86_64_v4 || switches.x86_64_v4_modern),
        default_aarch64_targets_spec(switches).len() == 0 <==> !(switches.arm64 || switches.arm64_v2
            || switches.arm64_v3),
{
    reveal(resolve_all_spec);
}

/// The defaults come highest tier first: of two defaults of one family, the
/// later one is a proper beginning of the earlier one, which therefore asks
/// for all that the later one asks for, and for more.
pub proof fn lemma_defaults_highest_tier_first(
    switches: PresetSwitches,
    family: ArchitectureFamily,
    i: int,
    j: int,
)
    requires
        0 <= i < j < default_targets_spec(family, switches).len(),
    ensures
        ({
            let defaults = default_targets_spec(family, switches);
            defaults[j].is_prefix_of(defaults[i]) && defaults[j].len() < defaults[i].len()
        }),
{
    lemma_tiers_nest();
    lemma_prefix_transitive(X86_64_V2@, X86_64_V3@, X86_64_V4@);
    lemma_prefix_transitive(X86_64_V2@, X86_64_V3@, X86_64_V4_MODERN@);
    lemma_prefix_transitive(X86_64_V3@, X86_64_V4@, X86_64_V4_MODERN@);
    lemma_prefix_transitive(X86_64_V2@, X86_64_V4@, X86_64_V4_MODERN@);
    lemma_prefix_transitive(ARM64@, ARM64_V2@, ARM64_V3@);
}

} // verus!
