//! The capabilities of x86 and x86_64 processors: which names can be asked
//! about, which of them a processor reported, the microarchitecture levels
//! they add up to, and the processor's target string.

use crate::features::{compose_target_string, is_reported, reported, target_string};
use vstd::prelude::*;

verus! {

/// The two x86 architectures.
#[allow(non_camel_case_types)]
#[derive(Clone, Copy, Debug, PartialEq, Eq, Structural)]
pub enum X86Arch {
    /// 32-bit x86.
    X86,
    /// 64-bit x86.
    X86_64,
}

impl X86Arch {
    /// The tag that starts a target string of this architecture.
    pub open spec fn tag_spec(self) -> Seq<char> {
        match self {
            X86Arch::X86 => "x86"@,
            X86Arch::X86_64 => "x86_64"@,
        }
    }

    /// The tag that starts a target string of this architecture.
    pub fn tag(self) -> (tag: &'static str)
        ensures
            tag@ == self.tag_spec(),
    {
        match self {
            X86Arch::X86 => "x86",
            X86Arch::X86_64 => "x86_64",
        }
    }
}

/// Which microarchitecture levels a processor reaches.
#[derive(Clone, Copy, Debug, PartialEq, Eq, Structural)]
pub struct MicroarchLevels {
    /// x86-64-v2: SSE4.2 and POPCNT.
    pub v2: bool,
    /// x86-64-v3: v2 with AVX2, FMA and BMI1/2.
    pub v3: bool,
    /// x86-64-v4: v3 with the five base AVX-512 features.
    pub v4: bool,
}

/// Every feature name that detection knows, grouped by family: SSE, AVX,
/// AVX-512, AVX extensions, other SIMD, bit manipulation, crypto, state
/// management, and the rest.
pub open spec fn known_feature_names() -> Seq<Seq<char>> {
    seq![
        "mmx"@, "sse"@, "sse2"@, "sse3"@, "ssse3"@, "sse4.1"@, "sse4.2"@, "sse4a"@, "avx"@,
        "avx2"@, "avx512f"@, "avx512cd"@, "avx512er"@, "avx512pf"@, "avx512bw"@, "avx512dq"@,
        "avx512vl"@, "avx512ifma"@, "avx512vbmi"@, "avx512vbmi2"@, "avx512vpopcntdq"@,
        "avx512vnni"@, "avx512bitalg"@, "avx512bf16"@, "avx512vp2intersect"@, "avx512fp16"@,
        "avxvnni"@, "avxvnniint8"@, "avxvnniint16"@, "avxifma"@, "avxneconvert"@, "fma"@,
        "f16c"@, "bmi1"@, "bmi2"@, "abm"@, "lzcnt"@, "popcnt"@, "tbm"@, "aes"@, "pclmulqdq"@,
        "sha"@, "sha512"@, "vaes"@, "vpclmulqdq"@, "gfni"@, "sm3"@, "sm4"@, "kl"@, "widekl"@,
        "fxsr"@, "xsave"@, "xsaveopt"@, "xsaves"@, "xsavec"@, "cmpxchg16b"@, "movbe"@, "adx"@,
        "rtm"@, "rdrand"@, "rdseed"@, "tsc"@, "ermsb"@,
    ]
}

/// The features that a target string lists, in the order in which it lists
/// them.
pub open spec fn target_string_feature_names() -> Seq<Seq<char>> {
    seq![
        "sse"@, "sse2"@, "sse3"@, "ssse3"@, "sse4.1"@, "sse4.2"@, "popcnt"@, "cmpxchg16b"@,
        "avx"@, "avx2"@, "bmi1"@, "bmi2"@, "fma"@, "f16c"@, "lzcnt"@, "movbe"@, "fxsr"@,
        "xsave"@, "avx512f"@, "avx512bw"@, "avx512dq"@, "avx512vl"@, "avx512cd"@,
        "avx512ifma"@, "avx512vbmi"@, "avx512vbmi2"@, "avx512vnni"@, "avx512bitalg"@,
        "avx512vpopcntdq"@, "avx512bf16"@, "aes"@, "pclmulqdq"@, "sha"@, "gfni"@, "vaes"@,
        "vpclmulqdq"@, "adx"@, "rdrand"@, "rdseed"@,
    ]
}

/// Whether `name` is a known feature that is among the `detected` ones.
pub open spec fn is_detected_spec(name: Seq<char>, detected: Seq<Seq<char>>) -> bool {
    reported(known_feature_names(), detected, name)
}

/// The levels that the `detected` features reach. Each level asks for the one
/// below it.
pub open spec fn microarch_levels_spec(detected: Seq<Seq<char>>) -> MicroarchLevels {
    let v2 = is_detected_spec("sse4.2"@, detected) && is_detected_spec("popcnt"@, detected);
    let v3 = v2 && is_detected_spec("avx2"@, detected) && is_detected_spec("fma"@, detected)
        && is_detected_spec("bmi1"@, detected) && is_detected_spec("bmi2"@, detected);
    let v4 = v3 && is_detected_spec("avx512f"@, detected) && is_detected_spec("avx512bw"@, detected)
        && is_detected_spec("avx512dq"@, detected) && is_detected_spec("avx512vl"@, detected)
        && is_detected_spec("avx512cd"@, detected);
    MicroarchLevels { v2, v3, v4 }
}

/// Every feature name that detection knows.
pub fn known_features() -> (names: Vec<&'static str>)
    ensures
        names.deep_view() == known_feature_names(),
{
    let names = vec![
        "mmx", "sse", "sse2", "sse3", "ssse3", "sse4.1", "sse4.2", "sse4a", "avx", "avx2",
        "avx512f", "avx512cd", "avx512er", "avx512pf", "avx512bw", "avx512dq", "avx512vl",
        "avx512ifma", "avx512vbmi", "avx512vbmi2", "avx512vpopcntdq", "avx512vnni",
        "avx512bitalg", "avx512bf16", "avx512vp2intersect", "avx512fp16", "avxvnni",
        "avxvnniint8", "avxvnniint16", "avxifma", "avxneconvert", "fma", "f16c", "bmi1",
        "bmi2", "abm", "lzcnt", "popcnt", "tbm", "aes", "pclmulqdq", "sha", "sha512", "vaes",
        "vpclmulqdq", "gfni", "sm3", "sm4", "kl", "widekl", "fxsr", "xsave", "xsaveopt",
        "xsaves", "xsavec", "cmpxchg16b", "movbe", "adx", "rtm", "rdrand", "rdseed", "tsc",
        "ermsb",
    ];
    assert(names.deep_view() =~= known_feature_names());
    names
}

/// The features that a target string lists, in order.
pub fn target_string_features() -> (names: Vec<&'static str>)
    ensures
        names.deep_view() == target_string_feature_names(),
{
    let names = vec![
        "sse", "sse2", "sse3", "ssse3", "sse4.1", "sse4.2", "popcnt", "cmpxchg16b", "avx",
        "avx2", "bmi1", "bmi2", "fma", "f16c", "lzcnt", "movbe", "fxsr", "xsave", "avx512f",
        "avx512bw", "avx512dq", "avx512vl", "avx512cd", "avx512ifma", "avx512vbmi",
        "avx512vbmi2", "avx512vnni", "avx512bitalg", "avx512vpopcntdq", "avx512bf16", "aes",
        "pclmulqdq", "sha", "gfni", "vaes", "vpclmulqdq", "adx", "rdrand", "rdseed",
    ];
    assert(names.deep_view() =~= target_string_feature_names());
    names
}

/// Whether the processor reported the feature `name`. `detected` holds the
/// names that the processor reported; a name that detection does not know is
/// never detected, whatever `detected` holds.
pub fn is_detected(name: &str, detected: &[&str]) -> (found: bool)
    ensures
        found == is_detected_spec(name@, detected.deep_view()),
{
    let known = known_features();
    is_reported(known.as_slice(), detected, name)
}

/// The microarchitecture levels that the processor reaches.
pub fn microarch_levels(detected: &[&str]) -> (levels: MicroarchLevels)
    ensures
        levels == microarch_levels_spec(detected.deep_view()),
{
    let v2 = is_detected("sse4.2", detected) && is_detected("popcnt", detected);
    let v3 = v2 && is_detected("avx2", detected) && is_detected("fma", detected) && is_detected(
        "bmi1",
        detected,
    ) && is_detected("bmi2", detected);
    let v4 = v3 && is_detected("avx512f", detected) && is_detected("avx512bw", detected)
        && is_detected("avx512dq", detected) && is_detected("avx512vl", detected) && is_detected(
        "avx512cd",
        detected,
    );
    MicroarchLevels { v2, v3, v4 }
}

/// The target string of the processor: the architecture's tag, then each
/// detected feature of [`target_string_feature_names`], joined by `+`.
pub fn compose_x86_target_string(arch: X86Arch, detected: &[&str]) -> (out: String)
    ensures
        out@ == target_string(
            arch.tag_spec(),
            known_feature_names(),
            target_string_feature_names(),
            detected.deep_view(),
        ),
{
    let known = known_features();
    let candidates = target_string_features();
    compose_target_string(arch.tag(), known.as_slice(), candidates.as_slice(), detected)
}

} // verus!
