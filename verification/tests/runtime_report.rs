//! Report of which presets a processor can run, from the features it
//! reports. The processors here are written down; the report is the same
//! for one that is asked at run time.

use multiversed::aarch64_features;
use multiversed::x86_features::{self, X86Arch};

const X86_DESKTOP: [&str; 26] = [
    "sse", "sse2", "sse3", "ssse3", "sse4.1", "sse4.2", "popcnt", "cmpxchg16b", "avx", "avx2", "fma", "bmi1",
    "bmi2", "f16c", "lzcnt", "movbe", "fxsr", "xsave", "aes", "pclmulqdq", "sha", "adx", "rdrand", "rdseed",
    "vaes", "gfni",
];

const ARM_SERVER: [&str; 14] = [
    "neon", "crc", "rdm", "dotprod", "fp16", "aes", "sha2", "sha3", "fhm", "fcma", "i8mm", "bf16", "sve", "lse",
];

fn status(available: bool) -> &'static str {
    if available {
        "YES"
    } else {
        "no"
    }
}

fn print_preset(name: &str, available: bool, asked: &[&str], detected: &[&str], is_detected: fn(&str, &[&str]) -> bool) -> Vec<String> {
    println!("  {name:<16}  {}", status(available));
    let missing: Vec<String> =
        asked.iter().filter(|feature| !is_detected(feature, detected)).map(|f| f.to_string()).collect();
    if !available && !missing.is_empty() {
        println!("    missing: {}", missing.join(", "));
    }
    missing
}

#[test]
fn report_preset_availability() {
    println!();
    println!("=== multiversed preset availability ===");
    println!();

    let levels = x86_features::microarch_levels(&X86_DESKTOP);
    let v2 = print_preset("x86-64-v2", levels.v2, &["sse4.2", "popcnt"], &X86_DESKTOP, x86_features::is_detected);
    let v3 = print_preset(
        "x86-64-v3",
        levels.v3,
        &["avx2", "fma", "bmi1", "bmi2"],
        &X86_DESKTOP,
        x86_features::is_detected,
    );
    let v4 = print_preset(
        "x86-64-v4",
        levels.v4,
        &["avx512f", "avx512bw", "avx512dq", "avx512vl", "avx512cd"],
        &X86_DESKTOP,
        x86_features::is_detected,
    );
    println!("  {}", x86_features::compose_x86_target_string(X86Arch::X86_64, &X86_DESKTOP));
    assert!(levels.v2 && levels.v3 && !levels.v4);
    assert!(v2.is_empty() && v3.is_empty());
    assert_eq!(v4, ["avx512f", "avx512bw", "avx512dq", "avx512vl", "avx512cd"]);

    let levels = aarch64_features::preset_levels(&ARM_SERVER);
    let basic = print_preset("aarch64-basic", levels.basic, &["dotprod", "fp16"], &ARM_SERVER, aarch64_features::is_detected);
    let v84 = print_preset("aarch64-v84", levels.v84, &["sha3", "fcma"], &ARM_SERVER, aarch64_features::is_detected);
    let sve = print_preset("aarch64-sve", levels.sve, &["sve", "i8mm", "bf16"], &ARM_SERVER, aarch64_features::is_detected);
    let sve2 = print_preset("aarch64-sve2", levels.sve2, &["sve2"], &ARM_SERVER, aarch64_features::is_detected);
    println!("  {}", aarch64_features::compose_aarch64_target_string(&ARM_SERVER));
    assert!(levels.basic && levels.v84 && levels.sve && !levels.sve2);
    assert!(basic.is_empty() && v84.is_empty() && sve.is_empty());
    assert_eq!(sve2, ["sve2"]);

    println!("  wasm32-simd128  n/a (no runtime detection)");
    assert_eq!(multiversed::presets::resolve_target("wasm32-simd128"), None);

    println!();
}
