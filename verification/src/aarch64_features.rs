//! The capabilities of aarch64 processors: which names can be asked about,
//! which of them a processor reported, the preset levels they add up to, and
//! the processor's target string.

use crate::features::{compose_target_string, is_reported, reported, target_string};
use vstd::prelude::*;

verus! {

/// Which preset levels a processor reaches.
#[derive(Clone, Copy, Debug, PartialEq, Eq, Structural)]
pub struct PresetLevels {
    /// Dot product and half-precision floating point.
    pub basic: bool,
    /// `basic` with SHA3 and complex-number arithmetic.
    pub v84: bool,
    /// `v84` with SVE, the 8-bit integer matrix multiply and BF16.
    pub sve: bool,
    /// `sve` with SVE2.
    pub sve2: bool,
}

/// The tag that starts an aarch64 target string.
pub open spec fn tag_spec() -> Seq<char> {
    "aarch64"@
}

/// Every feature name that detection knows, grouped by family: SIMD, FP8, SVE,
/// SME, streaming SVE, crypto, atomics, memory, security, and the rest.
pub open spec fn known_feature_names() -> Seq<Seq<char>> {
    seq![
        "neon"@, "asimd"@, "fp"@, "fp16"@, "dotprod"@, "i8mm"@, "bf16"@, "fhm"@, "rdm"@,
        "fcma"@, "frintts"@, "fp8"@, "fp8dot2"@, "fp8dot4"@, "fp8fma"@, "fpmr"@, "sve"@,
        "sve2"@, "sve2p1"@, "sve-b16b16"@, "sve2-aes"@, "sve2-sm4"@, "sve2-sha3"@,
        "sve2-bitperm"@, "f32mm"@, "f64mm"@, "sme"@, "sme2"@, "sme2p1"@, "sme-b16b16"@,
        "sme-f16f16"@, "sme-f64f64"@, "sme-f8f16"@, "sme-f8f32"@, "sme-fa64"@, "sme-i16i64"@,
        "sme-lutv2"@, "ssve-fp8dot2"@, "ssve-fp8dot4"@, "ssve-fp8fma"@, "aes"@, "sha2"@,
        "sha3"@, "sm4"@, "pmull"@, "lse"@, "lse2"@, "lse128"@, "rcpc"@, "rcpc2"@, "rcpc3"@,
        "crc"@, "dpb"@, "dpb2"@, "mops"@, "mte"@, "bti"@, "paca"@, "pacg"@, "pauth-lr"@, "sb"@,
        "ssbs"@, "dit"@, "jsconv"@, "flagm"@, "flagm2"@, "ecv"@, "hbc"@, "lut"@, "rand"@,
        "tme"@, "wfxt"@, "ras"@, "cssc"@, "faminmax"@,
    ]
}

/// The features that a target string lists, in the order in which it lists
/// them.
pub open spec fn target_string_feature_names() -> Seq<Seq<char>> {
    seq![
        "neon"@, "lse"@, "lse2"@, "aes"@, "sha2"@, "sha3"@, "sm4"@, "pmull"@, "crc"@,
        "dotprod"@, "fp16"@, "fhm"@, "rdm"@, "fcma"@, "i8mm"@, "bf16"@, "rcpc"@, "rcpc2"@,
        "sve"@, "sve2"@, "sve2-aes"@, "sve2-bitperm"@, "sve2-sha3"@, "sve2-sm4"@, "f32mm"@,
        "f64mm"@, "jsconv"@, "dpb"@, "dpb2"@, "frintts"@, "flagm"@, "sb"@, "paca"@, "pacg"@,
        "dit"@, "bti"@,
    ]
}

/// Whether `name` is a known feature that is among the `detected` ones.
pub open spec fn is_detected_spec(name: Seq<char>, detected: Seq<Seq<char>>) -> bool {
    reported(known_feature_names(), detected, name)
}

/// The levels that the `detected` features reach. Each level asks for the one
/// below it.
pub open spec fn preset_levels_spec(detected: Seq<Seq<char>>) -> PresetLevels {
    let basic = is_detected_spec("dotprod"@, detected) && is_detected_spec("fp16"@, detected);
    let v84 = basic && is_detected_spec("sha3"@, detected) && is_detected_spec("fcma"@, detected);
    let sve = v84 && is_detected_spec("sve"@, detected) && is_detected_spec("i8mm"@, detected)
        && is_detected_spec("bf16"@, detected);
    let sve2 = sve && is_detected_spec("sve2"@, detected);
    PresetLevels { basic, v84, sve, sve2 }
}

/// Every feature name that detection knows.
pub fn known_features() -> (names: Vec<&'static str>)
    ensures
        names.deep_view() == known_feature_names(),
{
    let names = vec![
        "neon", "asimd", "fp", "fp16", "dotprod", "i8mm", "bf16", "fhm", "rdm", "fcma",
        "frintts", "fp8", "fp8dot2", "fp8dot4", "fp8fma", "fpmr", "sve", "sve2", "sve2p1",
        "sve-b16b16", "sve2-aes", "sve2-sm4", "sve2-sha3", "sve2-bitperm", "f32mm", "f64mm",
        "sme", "sme2", "sme2p1", "sme-b16b16", "sme-f16f16", "sme-f64f64", "sme-f8f16",
        "sme-f8f32", "sme-fa64", "sme-i16i64", "sme-lutv2", "ssve-fp8dot2", "ssve-fp8dot4",
        "ssve-fp8fma", "aes", "sha2", "sha3", "sm4", "pmull", "lse", "lse2", "lse128", "rcpc",
        "rcpc2", "rcpc3", "crc", "dpb", "dpb2", "mops", "mte", "bti", "paca", "pacg",
        "pauth-lr", "sb", "ssbs", "dit", "jsconv", "flagm", "flagm2", "ecv", "hbc", "lut",
        "rand", "tme", "wfxt", "ras", "cssc", "faminmax",
    ];
    assert(names.deep_view() =~= known_feature_names());
    names
}

/// The features that a target string lists, in order.
pub fn target_string_features() -> (names: Vec<&'static str>)
    ensures
        names.deep_view() == target_string_feature_names(),
{
    let names = vec![
        "neon", "lse", "lse2", "aes", "sha2", "sha3", "sm4", "pmull", "crc", "dotprod", "fp16",
        "fhm", "rdm", "fcma", "i8mm", "bf16", "rcpc", "rcpc2", "sve", "sve2", "sve2-aes",
        "sve2-bitperm", "sve2-sha3", "sve2-sm4", "f32mm", "f64mm", "jsconv", "dpb", "dpb2",
        "frintts", "flagm", "sb", "paca", "pacg", "dit", "bti",
    ];
    assert(names.deep_view() =~= target_string_feature_names());
    names
}

/// Whether the processor reported the feature `name`. `detected` holds the
/// names that the processor reported; a name that detection does not know is
/// never detected, whatever `detected` holds.
pub fn is_detected(name: &str, detected: &[&str]) -> (found: bool)
    ensures
        found == is_detected_spec(name@, detected.deep_view()),
{
    let known = known_features();
    is_reported(known.as_slice(), detected, name)
}

/// The preset levels that the processor reaches.
pub fn preset_levels(detected: &[&str]) -> (levels: PresetLevels)
    ensures
        levels == preset_levels_spec(detected.deep_view()),
{
    let basic = is_detected("dotprod", detected) && is_detected("fp16", detected);
    let v84 = basic && is_detected("sha3", detected) && is_detected("fcma", detected);
    let sve = v84 && is_detected("sve", detected) && is_detected("i8mm", detected) && is_detected(
        "bf16",
        detected,
    );
    let sve2 = sve && is_detected("sve2", detected);
    PresetLevels { basic, v84, sve, sve2 }
}

/// The target string of the processor: `aarch64`, then each detected feature
/// of [`target_string_feature_names`], joined by `+`.
pub fn compose_aarch64_target_string(detected: &[&str]) -> (out: String)
    ensures
        out@ == target_string(
            tag_spec(),
            known_feature_names(),
            target_string_feature_names(),
            detected.deep_view(),
        ),
{
    let known = known_features();
    let candidates = target_string_features();
    compose_target_string("aarch64", known.as_slice(), candidates.as_slice(), detected)
}

} // verus!
