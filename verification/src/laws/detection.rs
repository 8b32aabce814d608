//! What detection composes, resolution takes.

use crate::aarch64_features;
use crate::family::{classify_spec, lemma_families_exclusive, ArchitectureFamily};
use crate::features::{reported_pred, target_string};
use crate::laws::table::{lemma_preset_names_have_no_separator, lemma_supported_is_not_wasm};
use crate::presets::resolve_target_spec;
use crate::text::{lemma_joined_begins_with_first, lemma_prefix_index};
use crate::x86_features;
use crate::x86_features::X86Arch;
use vstd::prelude::*;

verus! {

/// The target string of a processor that reports at least one of the listed
/// features begins with the tag and a `+`, and holds all the reported
/// candidates behind them.
proof fn lemma_target_string_begins_with_tag(
    tag: Seq<char>,
    known: Seq<Seq<char>>,
    candidates: Seq<Seq<char>>,
    detected: Seq<Seq<char>>,
)
    requires
        candidates.filter(reported_pred(known, detected)).len() > 0,
    ensures
        (tag + "+"@).is_prefix_of(target_string(tag, known, candidates, detected)),
        target_string(tag, known, candidates, detected).contains('+'),
{
    let parts = seq![tag] + candidates.filter(reported_pred(known, detected));
    lemma_joined_begins_with_first(parts, "+"@);
    reveal_strlit("+");
    lemma_prefix_index(tag + "+"@, target_string(tag, known, candidates, detected), tag.len() as int);
}

/// What detection composes, resolution takes: the target string of an x86
/// processor that reports at least one of the listed features is a raw
/// target string of the x86 family, and resolves to itself.
pub proof fn lemma_x86_target_string_resolves(arch: X86Arch, detected: Seq<Seq<char>>)
    requires
        x86_features::target_string_feature_names().filter(
            reported_pred(x86_features::known_feature_names(), detected),
        ).len() > 0,
    ensures
        ({
            let composed = target_string(
                arch.tag_spec(),
                x86_features::known_feature_names(),
                x86_features::target_string_feature_names(),
                detected,
            );
            classify_spec(composed) == ArchitectureFamily::X86 && resolve_target_spec(composed) == Some(
                composed,
            )
        }),
{
    let composed = target_string(
        arch.tag_spec(),
        x86_features::known_feature_names(),
        x86_features::target_string_feature_names(),
        detected,
    );
    lemma_target_string_begins_with_tag(
        arch.tag_spec(),
        x86_features::known_feature_names(),
        x86_features::target_string_feature_names(),
        detected,
    );
    reveal_strlit("+");
    reveal_strlit("x86");
    reveal_strlit("x86_64");
    reveal_strlit("x86+");
    reveal_strlit("x86_64+");
    assert("x86"@ + "+"@ =~= "x86+"@);
    assert("x86_64"@ + "+"@ =~= "x86_64+"@);
    lemma_preset_names_have_no_separator(composed);
    lemma_supported_is_not_wasm(composed);
}

/// The same for aarch64: the target string of a processor that reports at
/// least one of the listed features is a raw target string of the aarch64
/// family, and resolves to itself.
pub proof fn lemma_aarch64_target_string_resolves(detected: Seq<Seq<char>>)
    requires
        aarch64_features::target_string_feature_names().filter(
            reported_pred(aarch64_features::known_feature_names(), detected),
        ).len() > 0,
    ensures
        ({
            let composed = target_string(
                aarch64_features::tag_spec(),
                aarch64_features::known_feature_names(),
                aarch64_features::target_string_feature_names(),
                detected,
            );
            classify_spec(composed) == ArchitectureFamily::Aarch64 && resolve_target_spec(composed)
                == Some(composed)
        }),
{
    let composed = target_string(
        aarch64_features::tag_spec(),
        aarch64_features::known_feature_names(),
        aarch64_features::target_string_feature_names(),
        detected,
    );
    lemma_target_string_begins_with_tag(
        aarch64_features::tag_spec(),
        aarch64_features::known_feature_names(),
        aarch64_features::target_string_feature_names(),
        detected,
    );
    reveal_strlit("+");
    reveal_strlit("aarch64");
    reveal_strlit("aarch64+");
    assert("aarch64"@ + "+"@ =~= "aarch64+"@);
    lemma_families_exclusive(composed);
    lemma_preset_names_have_no_separator(composed);
    lemma_supported_is_not_wasm(composed);
}

} // verus!
