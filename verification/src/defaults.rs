//! The targets that apply when an invocation names none: one per preset that
//! the build switched on, the most capable tier first.

use crate::family::ArchitectureFamily;
use crate::presets::{ARM64, ARM64_V2, ARM64_V3, X86_64_V2, X86_64_V3, X86_64_V4, X86_64_V4_MODERN};
use vstd::prelude::*;

verus! {

/// One switch per preset. A switch that is on puts its preset among the
/// defaults of its family.
#[derive(Clone, Copy, Debug, PartialEq, Eq, Structural)]
pub struct PresetSwitches {
    pub x86_64_v2: bool,
    pub x86_64_v3: bool,
    pub x86_64_v4: bool,
    pub x86_64_v4_modern: bool,
    pub arm64: bool,
    pub arm64_v2: bool,
    pub arm64_v3: bool,
}

impl PresetSwitches {
    /// Every switch off.
    pub open spec fn none_spec() -> PresetSwitches {
        PresetSwitches {
            x86_64_v2: false,
            x86_64_v3: false,
            x86_64_v4: false,
            x86_64_v4_modern: false,
            arm64: false,
            arm64_v2: false,
            arm64_v3: false,
        }
    }

    /// The switches of a build that chose none itself: x86-64-v3,
    /// x86-64-v4-modern and arm64-v2.
    pub open spec fn standard_spec() -> PresetSwitches {
        PresetSwitches {
            x86_64_v2: false,
            x86_64_v3: true,
            x86_64_v4: false,
            x86_64_v4_modern: true,
            arm64: false,
            arm64_v2: true,
            arm64_v3: false,
        }
    }

    /// Every switch off.
    pub fn none() -> (switches: PresetSwitches)
        ensures
            switches == Self::none_spec(),
    {
        PresetSwitches {
            x86_64_v2: false,
            x86_64_v3: false,
            x86_64_v4: false,
            x86_64_v4_modern: false,
            arm64: false,
            arm64_v2: false,
            arm64_v3: false,
        }
    }
}

impl Default for PresetSwitches {
    /// The switches of a build that chose none itself.
    fn default() -> (switches: PresetSwitches)
        ensures
            switches == PresetSwitches::standard_spec(),
    {
        PresetSwitches {
            x86_64_v2: false,
            x86_64_v3: true,
            x86_64_v4: false,
            x86_64_v4_modern: true,
            arm64: false,
            arm64_v2: true,
            arm64_v3: false,
        }
    }
}

/// `target` alone where the switch is on, nothing where it is off.
pub open spec fn if_enabled(on: bool, target: Seq<char>) -> Seq<Seq<char>> {
    if on {
        seq![target]
    } else {
        Seq::empty()
    }
}

/// The x86 presets that are switched on, from the highest tier down.
pub open spec fn default_x86_targets_spec(switches: PresetSwitches) -> Seq<Seq<char>> {
    if_enabled(switches.x86_64_v4_modern, X86_64_V4_MODERN@) + if_enabled(switches.x86_64_v4, X86_64_V4@) + if_enabled(
        switches.x86_64_v3,
        X86_64_V3@,
    ) + if_enabled(switches.x86_64_v2, X86_64_V2@)
}

/// The aarch64 presets that are switched on, from the highest tier down.
pub open spec fn default_aarch64_targets_spec(switches: PresetSwitches) -> Seq<Seq<char>> {
    if_enabled(switches.arm64_v3, ARM64_V3@) + if_enabled(switches.arm64_v2, ARM64_V2@) + if_enabled(
        switches.arm64,
        ARM64@,
    )
}

/// The defaults of `family`. An unsupported family has none.
pub open spec fn default_targets_spec(
    family: ArchitectureFamily,
    switches: PresetSwitches,
) -> Seq<Seq<char>> {
    match family {
        ArchitectureFamily::X86 => default_x86_targets_spec(switches),
        ArchitectureFamily::Aarch64 => default_aarch64_targets_spec(switches),
        ArchitectureFamily::Unsupported => Seq::empty(),
    }
}

/// The default targets for x86 and x86_64, the highest tier first.
pub fn default_x86_targets(switches: &PresetSwitches) -> (targets: Vec<&'static str>)
    ensures
        targets.deep_view() == default_x86_targets_spec(*switches),
{
    let mut targets: Vec<&'static str> = Vec::new();
    if switches.x86_64_v4_modern {
        targets.push(X86_64_V4_MODERN);
    }
    if switches.x86_64_v4 {
        targets.push(X86_64_V4);
    }
    if switches.x86_64_v3 {
        targets.push(X86_64_V3);
    }
    if switches.x86_64_v2 {
        targets.push(X86_64_V2);
    }
    assert(targets.deep_view() =~= default_x86_targets_spec(*switches));
    targets
}

/// The default targets for aarch64, the highest tier first.
pub fn default_aarch64_targets(switches: &PresetSwitches) -> (targets: Vec<&'static str>)
    ensures
        targets.deep_view() == default_aarch64_targets_spec(*switches),
{
    let mut targets: Vec<&'static str> = Vec::new();
    if switches.arm64_v3 {
        targets.push(ARM64_V3);
    }
    if switches.arm64_v2 {
        targets.push(ARM64_V2);
    }
    if switches.arm64 {
        targets.push(ARM64);
    }
    assert(targets.deep_view() =~= default_aarch64_targets_spec(*switches));
    targets
}

/// The default targets of `family`, the highest tier first.
pub fn default_targets(family: ArchitectureFamily, switches: &PresetSwitches) -> (targets: Vec<
    &'static str,
>)
    ensures
        targets.deep_view() == default_targets_spec(family, *switches),
{
    match family {
        ArchitectureFamily::X86 => default_x86_targets(switches),
        ArchitectureFamily::Aarch64 => default_aarch64_targets(switches),
        ArchitectureFamily::Unsupported => {
            let targets: Vec<&'static str> = Vec::new();
            assert(targets.deep_view() =~= Seq::<Seq<char>>::empty());
            targets
        },
    }
}

} // verus!
