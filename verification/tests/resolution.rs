//! Resolution of argument lists into per-family target lists.

use multiversed::defaults::{default_aarch64_targets, default_targets, default_x86_targets, PresetSwitches};
use multiversed::family::ArchitectureFamily;
use multiversed::presets::{ARM64, ARM64_V2, ARM64_V3, X86_64_V2, X86_64_V3, X86_64_V4, X86_64_V4_MODERN};
use multiversed::resolve::{dropped_arguments, resolve_all, ResolvedTargetSet};

fn args(list: &[&str]) -> Vec<String> {
    list.iter().map(|s| s.to_string()).collect()
}

fn resolve(list: &[&str]) -> ResolvedTargetSet {
    resolve_all(&args(list), &ALL_ON)
}

const ALL_ON: PresetSwitches = PresetSwitches {
    x86_64_v2: true,
    x86_64_v3: true,
    x86_64_v4: true,
    x86_64_v4_modern: true,
    arm64: true,
    arm64_v2: true,
    arm64_v3: true,
};

const NONE: [&str; 0] = [];

#[test]
fn each_preset_alone_populates_one_family() {
    for (name, target) in [
        ("x86-64-v2", X86_64_V2),
        ("x86-64-v3", X86_64_V3),
        ("x86-64-v4", X86_64_V4),
        ("x86-64-v4-modern", X86_64_V4_MODERN),
    ] {
        let resolved = resolve(&[name]);
        assert_eq!(resolved.x86, [target]);
        assert_eq!(resolved.aarch64, NONE);
    }
    for (name, target) in [("arm64", ARM64), ("arm64-v2", ARM64_V2), ("arm64-v3", ARM64_V3)] {
        let resolved = resolve(&[name]);
        assert_eq!(resolved.x86, NONE);
        assert_eq!(resolved.aarch64, [target]);
    }
}

#[test]
fn raw_targets_pass_through_unchanged() {
    for raw in ["x86_64+avx2+fma", "x86+sse2+sse", "x86-64-v3+extra", "x86_64+b+a+b"] {
        let resolved = resolve(&[raw]);
        assert_eq!(resolved.x86, [raw]);
        assert_eq!(resolved.aarch64, NONE);
    }
    for raw in ["aarch64+neon+dotprod", "aarch64-thing+x", "aarch64+sve2+neon"] {
        let resolved = resolve(&[raw]);
        assert_eq!(resolved.x86, NONE);
        assert_eq!(resolved.aarch64, [raw]);
    }
}

#[test]
fn order_is_kept_within_a_family() {
    assert_eq!(resolve(&["x86-64-v3", "x86-64-v4"]).x86, [X86_64_V3, X86_64_V4]);
    assert_eq!(resolve(&["x86-64-v4", "x86-64-v3"]).x86, [X86_64_V4, X86_64_V3]);
    assert_eq!(resolve(&["x86-64-v2", "x86_64+avx2"]).x86, [X86_64_V2, "x86_64+avx2"]);
    assert_eq!(resolve(&["x86_64+avx2", "x86-64-v2"]).x86, ["x86_64+avx2", X86_64_V2]);
    assert_eq!(resolve(&["arm64", "arm64-v3", "arm64-v2"]).aarch64, [ARM64, ARM64_V3, ARM64_V2]);
}

#[test]
fn families_are_kept_apart() {
    for list in [["x86-64-v4", "arm64"], ["arm64", "x86-64-v4"]] {
        let resolved = resolve(&list);
        assert_eq!(resolved.x86, [X86_64_V4]);
        assert_eq!(resolved.aarch64, [ARM64]);
    }
    let resolved = resolve(&["arm64-v2", "x86-64-v3", "aarch64+sve", "x86_64+avx", "arm64"]);
    assert_eq!(resolved.x86, [X86_64_V3, "x86_64+avx"]);
    assert_eq!(resolved.aarch64, [ARM64_V2, "aarch64+sve", ARM64]);
}

#[test]
fn unsupported_family_vanishes() {
    let resolved = resolve(&["unsupportedfamily+feature"]);
    assert!(resolved.is_empty());
    assert_eq!(resolved.x86, NONE);
    assert_eq!(resolved.aarch64, NONE);
    assert_eq!(resolved.get(ArchitectureFamily::X86), None);
    assert_eq!(resolved.get(ArchitectureFamily::Aarch64), None);
    assert_eq!(resolved.get(ArchitectureFamily::Unsupported), None);
}

#[test]
fn unknown_preset_vanishes() {
    let resolved = resolve(&["not-a-real-preset"]);
    assert!(resolved.is_empty());
    assert_eq!(resolved.x86, NONE);
    assert_eq!(resolved.aarch64, NONE);
}

#[test]
fn dropped_arguments_do_not_bring_the_defaults_back() {
    let resolved = resolve(&["not-a-real-preset", "wasm32-simd128", "riscv64+v", "wasm32+simd128"]);
    assert!(resolved.is_empty());
    assert!(!resolve(&[]).is_empty());
}

#[test]
fn dropped_arguments_are_skipped_in_place() {
    let resolved = resolve(&["nope", "x86-64-v3", "riscv64+v", "arm64", "wasm32-simd128", "x86-64-v2"]);
    assert_eq!(resolved.x86, [X86_64_V3, X86_64_V2]);
    assert_eq!(resolved.aarch64, [ARM64]);
}

#[test]
fn duplicates_stay() {
    assert_eq!(resolve(&["x86-64-v3", "x86-64-v3"]).x86, [X86_64_V3, X86_64_V3]);
    assert_eq!(resolve(&["arm64", ARM64, "arm64"]).aarch64, [ARM64, ARM64, ARM64]);
}

#[test]
fn no_arguments_give_the_defaults_highest_tier_first() {
    let resolved = resolve_all(&[], &ALL_ON);
    assert_eq!(resolved.x86, [X86_64_V4_MODERN, X86_64_V4, X86_64_V3, X86_64_V2]);
    assert_eq!(resolved.aarch64, [ARM64_V3, ARM64_V2, ARM64]);
}

#[test]
fn two_tiers_on_give_high_then_low() {
    let switches = PresetSwitches { x86_64_v4: true, x86_64_v2: true, ..PresetSwitches::none() };
    let resolved = resolve_all(&[], &switches);
    assert_eq!(resolved.x86, [X86_64_V4, X86_64_V2]);
    assert_eq!(resolved.aarch64, NONE);
    assert_eq!(resolved.get(ArchitectureFamily::X86).map(|t| t.len()), Some(2));
    assert_eq!(resolved.get(ArchitectureFamily::Aarch64), None);

    let switches = PresetSwitches { arm64_v3: true, arm64: true, ..PresetSwitches::none() };
    let resolved = resolve_all(&[], &switches);
    assert_eq!(resolved.x86, NONE);
    assert_eq!(resolved.aarch64, [ARM64_V3, ARM64]);
}

#[test]
fn no_switch_no_default() {
    let resolved = resolve_all(&[], &PresetSwitches::none());
    assert!(resolved.is_empty());
    assert_eq!(default_x86_targets(&PresetSwitches::none()), NONE);
    assert_eq!(default_aarch64_targets(&PresetSwitches::none()), NONE);
}

#[test]
fn standard_switches() {
    let switches = PresetSwitches::default();
    assert_eq!(
        switches,
        PresetSwitches {
            x86_64_v2: false,
            x86_64_v3: true,
            x86_64_v4: false,
            x86_64_v4_modern: true,
            arm64: false,
            arm64_v2: true,
            arm64_v3: false,
        }
    );
    assert_eq!(default_x86_targets(&switches), [X86_64_V4_MODERN, X86_64_V3]);
    assert_eq!(default_aarch64_targets(&switches), [ARM64_V2]);
}

#[test]
fn each_switch_alone() {
    let none = PresetSwitches::none();
    let cases = [
        (PresetSwitches { x86_64_v2: true, ..none }, ArchitectureFamily::X86, X86_64_V2),
        (PresetSwitches { x86_64_v3: true, ..none }, ArchitectureFamily::X86, X86_64_V3),
        (PresetSwitches { x86_64_v4: true, ..none }, ArchitectureFamily::X86, X86_64_V4),
        (PresetSwitches { x86_64_v4_modern: true, ..none }, ArchitectureFamily::X86, X86_64_V4_MODERN),
        (PresetSwitches { arm64: true, ..none }, ArchitectureFamily::Aarch64, ARM64),
        (PresetSwitches { arm64_v2: true, ..none }, ArchitectureFamily::Aarch64, ARM64_V2),
        (PresetSwitches { arm64_v3: true, ..none }, ArchitectureFamily::Aarch64, ARM64_V3),
    ];
    for (switches, family, target) in cases {
        assert_eq!(default_targets(family, &switches), [target]);
        let other = if family == ArchitectureFamily::X86 { ArchitectureFamily::Aarch64 } else { ArchitectureFamily::X86 };
        assert_eq!(default_targets(other, &switches), NONE);
        assert_eq!(default_targets(ArchitectureFamily::Unsupported, &switches), NONE);
    }
}

#[test]
fn defaults_do_not_depend_on_arguments_being_resolvable() {
    // The switches play no part once there are arguments.
    let with_all = resolve_all(&args(&["arm64"]), &ALL_ON);
    let with_none = resolve_all(&args(&["arm64"]), &PresetSwitches::none());
    assert_eq!(with_all.x86, with_none.x86);
    assert_eq!(with_all.aarch64, with_none.aarch64);
    assert_eq!(with_all.aarch64, [ARM64]);
}

#[test]
fn dropped_arguments_are_reported_in_order() {
    let list = args(&["nope", "x86-64-v3", "riscv64+v", "arm64", "wasm32-simd128", "wasm32+simd128", "nope"]);
    assert_eq!(dropped_arguments(&list), ["nope", "riscv64+v", "wasm32-simd128", "wasm32+simd128", "nope"]);
    assert_eq!(dropped_arguments(&args(&["x86-64-v3", "aarch64+neon"])), NONE);
    assert_eq!(dropped_arguments(&[]), NONE);
}

#[test]
fn every_argument_is_accounted_for() {
    let list = args(&["nope", "x86-64-v3", "riscv64+v", "arm64", "x86_64+avx", "wasm32-simd128", "arm64"]);
    let resolved = resolve_all(&list, &ALL_ON);
    assert_eq!(resolved.x86.len() + resolved.aarch64.len() + dropped_arguments(&list).len(), list.len());
}

#[test]
fn resolution_goes_argument_by_argument() {
    let a = ["x86-64-v3", "arm64", "nope"];
    let b = ["aarch64+sve", "x86-64-v2", "x86-64-v3"];
    let both: Vec<&str> = a.iter().chain(b.iter()).copied().collect();
    let (ra, rb, rab) = (resolve(&a), resolve(&b), resolve(&both));
    assert_eq!(rab.x86, [ra.x86, rb.x86].concat());
    assert_eq!(rab.aarch64, [ra.aarch64, rb.aarch64].concat());
}

#[test]
fn get_gives_the_lists_that_have_targets() {
    let resolved = resolve(&["x86-64-v3", "x86_64+avx"]);
    assert_eq!(resolved.get(ArchitectureFamily::X86), Some(&args(&[X86_64_V3, "x86_64+avx"])));
    assert_eq!(resolved.get(ArchitectureFamily::Aarch64), None);
    assert_eq!(resolved.get(ArchitectureFamily::Unsupported), None);
    assert!(!resolved.is_empty());
}
