//! The preset table holds only well-formed target strings, and its tiers
//! nest.

use crate::family::{classify_spec, lemma_families_exclusive, ArchitectureFamily};
use crate::presets::{
    preset_target, ARM64, ARM64_V2, ARM64_V3, X86_64_V2, X86_64_V3, X86_64_V4, X86_64_V4_MODERN,
};
use crate::text::lemma_prefix_index;
use vstd::prelude::*;

verus! {

/// Every target string of the preset table is tagged for a supported family
/// and holds the separator `+`: the table has only well-formed targets.
pub proof fn lemma_presets_well_formed(name: Seq<char>)
    requires
        preset_target(name) is Some,
    ensures
        classify_spec(preset_target(name)->0) != ArchitectureFamily::Unsupported,
        preset_target(name)->0.contains('+'),
{
    lemma_preset_families();
}

/// The family of each target string in the preset table.
pub proof fn lemma_preset_families()
    ensures
        classify_spec(X86_64_V2@) == ArchitectureFamily::X86,
        classify_spec(X86_64_V3@) == ArchitectureFamily::X86,
        classify_spec(X86_64_V4@) == ArchitectureFamily::X86,
        classify_spec(X86_64_V4_MODERN@) == ArchitectureFamily::X86,
        classify_spec(ARM64@) == ArchitectureFamily::Aarch64,
        classify_spec(ARM64_V2@) == ArchitectureFamily::Aarch64,
        classify_spec(ARM64_V3@) == ArchitectureFamily::Aarch64,
        X86_64_V2@.contains('+'),
        X86_64_V3@.contains('+'),
        X86_64_V4@.contains('+'),
        X86_64_V4_MODERN@.contains('+'),
        ARM64@.contains('+'),
        ARM64_V2@.contains('+'),
        ARM64_V3@.contains('+'),
{
    reveal_strlit("x86_64+");
    reveal_strlit("aarch64+");
    reveal_strlit("x86_64+sse+sse2+sse3+ssse3+sse4.1+sse4.2+popcnt+cmpxchg16b");
    reveal_strlit(
        "x86_64+sse+sse2+sse3+ssse3+sse4.1+sse4.2+popcnt+cmpxchg16b+avx+avx2+fma+bmi1+bmi2+f16c+lzcnt+movbe",
    );
    reveal_strlit(
        "x86_64+sse+sse2+sse3+ssse3+sse4.1+sse4.2+popcnt+cmpxchg16b+avx+avx2+fma+bmi1+bmi2+f16c+lzcnt+movbe+avx512f+avx512bw+avx512cd+avx512dq+avx512vl",
    );
    reveal_strlit(
        "x86_64+sse+sse2+sse3+ssse3+sse4.1+sse4.2+popcnt+cmpxchg16b+avx+avx2+fma+bmi1+bmi2+f16c+lzcnt+movbe+avx512f+avx512bw+avx512cd+avx512dq+avx512vl+avx512vpopcntdq+avx512ifma+avx512vbmi+avx512vbmi2+avx512bitalg+avx512vnni+vpclmulqdq+gfni+vaes",
    );
    reveal_strlit("aarch64+neon");
    reveal_strlit("aarch64+neon+crc+rdm+dotprod+fp16+aes+sha2");
    reveal_strlit("aarch64+neon+crc+rdm+dotprod+fp16+aes+sha2+fhm+fcma+sha3+i8mm+bf16");
    assert(X86_64_V2@.subrange(0, 7) =~= "x86_64+"@);
    assert(X86_64_V3@.subrange(0, 7) =~= "x86_64+"@);
    assert(X86_64_V4@.subrange(0, 7) =~= "x86_64+"@);
    assert(X86_64_V4_MODERN@.subrange(0, 7) =~= "x86_64+"@);
    assert(ARM64@.subrange(0, 8) =~= "aarch64+"@);
    assert(ARM64_V2@.subrange(0, 8) =~= "aarch64+"@);
    assert(ARM64_V3@.subrange(0, 8) =~= "aarch64+"@);
    lemma_families_exclusive(ARM64@);
    lemma_families_exclusive(ARM64_V2@);
    lemma_families_exclusive(ARM64_V3@);
    assert(X86_64_V2@[6] == '+' && X86_64_V3@[6] == '+' && X86_64_V4@[6] == '+' && X86_64_V4_MODERN@[6]
        == '+');
    assert(ARM64@[7] == '+' && ARM64_V2@[7] == '+' && ARM64_V3@[7] == '+');
}

/// Within a family each tier holds all that the tier below it holds: the
/// lower tier's target string is the beginning of the higher one's.
pub proof fn lemma_tiers_nest()
    ensures
        X86_64_V2@.is_prefix_of(X86_64_V3@),
        X86_64_V3@.is_prefix_of(X86_64_V4@),
        X86_64_V4@.is_prefix_of(X86_64_V4_MODERN@),
        ARM64@.is_prefix_of(ARM64_V2@),
        ARM64_V2@.is_prefix_of(ARM64_V3@),
        X86_64_V2@.len() < X86_64_V3@.len() < X86_64_V4@.len() < X86_64_V4_MODERN@.len(),
        ARM64@.len() < ARM64_V2@.len() < ARM64_V3@.len(),
{
    reveal_strlit("x86_64+sse+sse2+sse3+ssse3+sse4.1+sse4.2+popcnt+cmpxchg16b");
    reveal_strlit(
        "x86_64+sse+sse2+sse3+ssse3+sse4.1+sse4.2+popcnt+cmpxchg16b+avx+avx2+fma+bmi1+bmi2+f16c+lzcnt+movbe",
    );
    reveal_strlit(
        "x86_64+sse+sse2+sse3+ssse3+sse4.1+sse4.2+popcnt+cmpxchg16b+avx+avx2+fma+bmi1+bmi2+f16c+lzcnt+movbe+avx512f+avx512bw+avx512cd+avx512dq+avx512vl",
    );
    reveal_strlit(
        "x86_64+sse+sse2+sse3+ssse3+sse4.1+sse4.2+popcnt+cmpxchg16b+avx+avx2+fma+bmi1+bmi2+f16c+lzcnt+movbe+avx512f+avx512bw+avx512cd+avx512dq+avx512vl+avx512vpopcntdq+avx512ifma+avx512vbmi+avx512vbmi2+avx512bitalg+avx512vnni+vpclmulqdq+gfni+vaes",
    );
    reveal_strlit("aarch64+neon");
    reveal_strlit("aarch64+neon+crc+rdm+dotprod+fp16+aes+sha2");
    reveal_strlit("aarch64+neon+crc+rdm+dotprod+fp16+aes+sha2+fhm+fcma+sha3+i8mm+bf16");
    assert(X86_64_V2@ =~= X86_64_V3@.subrange(0, X86_64_V2@.len() as int));
    assert(X86_64_V3@ =~= X86_64_V4@.subrange(0, X86_64_V3@.len() as int));
    assert(X86_64_V4@ =~= X86_64_V4_MODERN@.subrange(0, X86_64_V4@.len() as int));
    assert(ARM64@ =~= ARM64_V2@.subrange(0, ARM64@.len() as int));
    assert(ARM64_V2@ =~= ARM64_V3@.subrange(0, ARM64_V2@.len() as int));
}

/// No preset name holds a `+`, so a string that holds one is never taken for
/// a preset.
pub proof fn lemma_preset_names_have_no_separator(name: Seq<char>)
    requires
        name.contains('+'),
    ensures
        preset_target(name) is None,
{
    reveal_strlit("x86-64-v2");
    reveal_strlit("x86-64-v3");
    reveal_strlit("x86-64-v4");
    reveal_strlit("x86-64-v4-modern");
    reveal_strlit("arm64");
    reveal_strlit("arm64-v2");
    reveal_strlit("arm64-v3");
    let i = choose|i: int| 0 <= i < name.len() && name[i] == '+';
    assert(name[i] == '+');
}

/// A string tagged for a supported family is not tagged `wasm32`.
pub proof fn lemma_supported_is_not_wasm(target: Seq<char>)
    requires
        classify_spec(target) != ArchitectureFamily::Unsupported,
    ensures
        !"wasm32"@.is_prefix_of(target),
{
    reveal_strlit("wasm32");
    reveal_strlit("x86_64+");
    reveal_strlit("x86+");
    reveal_strlit("x86-64-");
    reveal_strlit("aarch64+");
    reveal_strlit("aarch64-");
    if "wasm32"@.is_prefix_of(target) {
        lemma_prefix_index("wasm32"@, target, 0);
        if "x86_64+"@.is_prefix_of(target) {
            lemma_prefix_index("x86_64+"@, target, 0);
        } else if "x86+"@.is_prefix_of(target) {
            lemma_prefix_index("x86+"@, target, 0);
        } else if "x86-64-"@.is_prefix_of(target) {
            lemma_prefix_index("x86-64-"@, target, 0);
        } else if "aarch64+"@.is_prefix_of(target) {
            lemma_prefix_index("aarch64+"@, target, 0);
        } else {
            lemma_prefix_index("aarch64-"@, target, 0);
        }
    }
}

} // verus!
