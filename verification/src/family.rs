//! The architecture family of a target string, read off its leading
//! characters.

use crate::text::{lemma_prefix_index, starts_with};
use vstd::prelude::*;

verus! {

/// The architecture families that targets are sorted into.
#[derive(Clone, Copy, Debug, PartialEq, Eq, Structural)]
pub enum ArchitectureFamily {
    /// x86 and x86_64.
    X86,
    /// aarch64.
    Aarch64,
    /// Every other architecture. Targets of this family are dropped.
    Unsupported,
}

/// Whether `s` is tagged as a target for x86 or x86_64.
pub open spec fn is_x86_target_spec(s: Seq<char>) -> bool {
    "x86_64+"@.is_prefix_of(s) || "x86+"@.is_prefix_of(s) || "x86-64-"@.is_prefix_of(s)
}

/// Whether `s` is tagged as a target for aarch64.
pub open spec fn is_aarch64_target_spec(s: Seq<char>) -> bool {
    "aarch64+"@.is_prefix_of(s) || "aarch64-"@.is_prefix_of(s)
}

/// The family of `s`: decided by its tag alone, and `Unsupported` when the tag
/// is of neither known family.
pub open spec fn classify_spec(s: Seq<char>) -> ArchitectureFamily {
    if is_x86_target_spec(s) {
        ArchitectureFamily::X86
    } else if is_aarch64_target_spec(s) {
        ArchitectureFamily::Aarch64
    } else {
        ArchitectureFamily::Unsupported
    }
}

/// Whether `s` is tagged as a target for x86 or x86_64.
pub fn is_x86_target(s: &str) -> (found: bool)
    ensures
        found == is_x86_target_spec(s@),
{
    starts_with(s, "x86_64+") || starts_with(s, "x86+") || starts_with(s, "x86-64-")
}

/// Whether `s` is tagged as a target for aarch64.
pub fn is_aarch64_target(s: &str) -> (found: bool)
    ensures
        found == is_aarch64_target_spec(s@),
{
    starts_with(s, "aarch64+") || starts_with(s, "aarch64-")
}

/// The family of the target string `s`.
pub fn classify(s: &str) -> (family: ArchitectureFamily)
    ensures
        family == classify_spec(s@),
{
    if is_x86_target(s) {
        ArchitectureFamily::X86
    } else if is_aarch64_target(s) {
        ArchitectureFamily::Aarch64
    } else {
        ArchitectureFamily::Unsupported
    }
}

/// No string is tagged for both families, so the order in which
/// [`classify_spec`] asks is of no account.
pub proof fn lemma_families_exclusive(s: Seq<char>)
    ensures
        !(is_x86_target_spec(s) && is_aarch64_target_spec(s)),
        classify_spec(s) == ArchitectureFamily::X86 <==> is_x86_target_spec(s),
        classify_spec(s) == ArchitectureFamily::Aarch64 <==> is_aarch64_target_spec(s),
{
    reveal_strlit("x86_64+");
    reveal_strlit("x86+");
    reveal_strlit("x86-64-");
    reveal_strlit("aarch64+");
    reveal_strlit("aarch64-");
    if is_x86_target_spec(s) && is_aarch64_target_spec(s) {
        assert(s[0] == 'x') by {
            if "x86_64+"@.is_prefix_of(s) {
                lemma_prefix_index("x86_64+"@, s, 0);
            } else if "x86+"@.is_prefix_of(s) {
                lemma_prefix_index("x86+"@, s, 0);
            } else {
                lemma_prefix_index("x86-64-"@, s, 0);
            }
        }
        assert(s[0] == 'a') by {
            if "aarch64+"@.is_prefix_of(s) {
                lemma_prefix_index("aarch64+"@, s, 0);
            } else {
                lemma_prefix_index("aarch64-"@, s, 0);
            }
        }
    }
}

} // verus!
