//! The preset table: short names for curated target strings, and the rule
//! that tells a preset name from a raw target string.

use crate::text::{contains_char, starts_with, str_eq};
use vstd::prelude::*;

verus! {

/// x86-64-v2: SSE4.2, POPCNT and CMPXCHG16B.
pub const X86_64_V2: &'static str = "x86_64+sse+sse2+sse3+ssse3+sse4.1+sse4.2+popcnt+cmpxchg16b";

/// x86-64-v3: v2 with AVX2, FMA, BMI1/2, F16C, LZCNT and MOVBE.
pub const X86_64_V3: &'static str =
    "x86_64+sse+sse2+sse3+ssse3+sse4.1+sse4.2+popcnt+cmpxchg16b+avx+avx2+fma+bmi1+bmi2+f16c+lzcnt+movbe";

/// x86-64-v4: v3 with the five base AVX-512 features.
pub const X86_64_V4: &'static str =
    "x86_64+sse+sse2+sse3+ssse3+sse4.1+sse4.2+popcnt+cmpxchg16b+avx+avx2+fma+bmi1+bmi2+f16c+lzcnt+movbe+avx512f+avx512bw+avx512cd+avx512dq+avx512vl";

/// x86-64-v4-modern: v4 with the AVX-512 extensions of recent processors.
pub const X86_64_V4_MODERN: &'static str =
    "x86_64+sse+sse2+sse3+ssse3+sse4.1+sse4.2+popcnt+cmpxchg16b+avx+avx2+fma+bmi1+bmi2+f16c+lzcnt+movbe+avx512f+avx512bw+avx512cd+avx512dq+avx512vl+avx512vpopcntdq+avx512ifma+avx512vbmi+avx512vbmi2+avx512bitalg+avx512vnni+vpclmulqdq+gfni+vaes";

/// arm64: NEON alone.
pub const ARM64: &'static str = "aarch64+neon";

/// arm64-v2: NEON with CRC, RDM, dot product, FP16, AES and SHA2.
pub const ARM64_V2: &'static str = "aarch64+neon+crc+rdm+dotprod+fp16+aes+sha2";

/// arm64-v3: v2 with FHM, FCMA, SHA3, I8MM and BF16.
pub const ARM64_V3: &'static str =
    "aarch64+neon+crc+rdm+dotprod+fp16+aes+sha2+fhm+fcma+sha3+i8mm+bf16";

/// What is inside an optional string.
pub open spec fn text_of(s: Option<&str>) -> Option<Seq<char>> {
    match s {
        Some(s) => Some(s@),
        None => None,
    }
}

/// The table itself: the target string of the preset called `name`, if there
/// is such a preset. Names are matched whole and by case.
pub open spec fn preset_target(name: Seq<char>) -> Option<Seq<char>> {
    if name == "x86-64-v2"@ {
        Some(X86_64_V2@)
    } else if name == "x86-64-v3"@ {
        Some(X86_64_V3@)
    } else if name == "x86-64-v4"@ {
        Some(X86_64_V4@)
    } else if name == "x86-64-v4-modern"@ {
        Some(X86_64_V4_MODERN@)
    } else if name == "arm64"@ {
        Some(ARM64@)
    } else if name == "arm64-v2"@ {
        Some(ARM64_V2@)
    } else if name == "arm64-v3"@ {
        Some(ARM64_V3@)
    } else {
        None
    }
}

/// A raw target string holds a `+`, which no preset name does. One tagged
/// `wasm32` is not taken: that architecture has no runtime dispatch.
pub open spec fn is_raw_target(s: Seq<char>) -> bool {
    s.contains('+') && !"wasm32"@.is_prefix_of(s)
}

/// What an argument stands for: a preset's target string, the argument itself
/// where it is a raw target string, and nothing otherwise.
pub open spec fn resolve_target_spec(s: Seq<char>) -> Option<Seq<char>> {
    match preset_target(s) {
        Some(target) => Some(target),
        None => if is_raw_target(s) {
            Some(s)
        } else {
            None
        },
    }
}

/// Looks `name` up in the preset table.
pub fn lookup_preset(name: &str) -> (target: Option<&'static str>)
    ensures
        text_of(target) == preset_target(name@),
{
    if str_eq(name, "x86-64-v2") {
        Some(X86_64_V2)
    } else if str_eq(name, "x86-64-v3") {
        Some(X86_64_V3)
    } else if str_eq(name, "x86-64-v4") {
        Some(X86_64_V4)
    } else if str_eq(name, "x86-64-v4-modern") {
        Some(X86_64_V4_MODERN)
    } else if str_eq(name, "arm64") {
        Some(ARM64)
    } else if str_eq(name, "arm64-v2") {
        Some(ARM64_V2)
    } else if str_eq(name, "arm64-v3") {
        Some(ARM64_V3)
    } else {
        None
    }
}

/// Resolves one argument: a preset name to its target string, a raw target
/// string to itself. An unknown name, and a raw string tagged `wasm32`, give
/// `None`.
pub fn resolve_target<'a>(s: &'a str) -> (target: Option<&'a str>)
    ensures
        text_of(target) == resolve_target_spec(s@),
{
    match lookup_preset(s) {
        Some(target) => Some(target),
        None => {
            if contains_char(s, '+') && !starts_with(s, "wasm32") {
                Some(s)
            } else {
                None
            }
        },
    }
}

} // verus!
