//! A build with the kill switch on: every annotation is a passthrough,
//! whatever else is switched on and whatever the annotation names.

use multiversed::args::ArgToken;
use multiversed::defaults::PresetSwitches;
use multiversed::family::ArchitectureFamily;
use multiversed::multiversed;

const SWITCHES: PresetSwitches = PresetSwitches {
    x86_64_v2: false,
    x86_64_v3: true,
    x86_64_v4: false,
    x86_64_v4_modern: true,
    arm64: false,
    arm64_v2: true,
    arm64_v3: false,
};

const FORCE_DISABLE: bool = true;

/// What the annotation with `args` puts in front of `declaration` in this
/// build: the family and the targets of each directive.
fn expand(args: &[&str], declaration: &str) -> Vec<(ArchitectureFamily, Vec<String>)> {
    let mut tokens = Vec::new();
    for arg in args {
        tokens.push(ArgToken::from_literal(&format!("{:?}", arg)));
        tokens.push(ArgToken::Comma);
    }
    let rewritten = multiversed(&tokens, declaration.to_string(), &SWITCHES, FORCE_DISABLE)
        .expect("a list of string literals is well-formed");
    assert_eq!(rewritten.declaration, declaration);
    assert!(rewritten.to_source().ends_with(declaration));
    rewritten.directives.into_iter().map(|d| (d.family, d.targets)).collect()
}

fn x86(targets: &[&str]) -> (ArchitectureFamily, Vec<String>) {
    (ArchitectureFamily::X86, targets.iter().map(|t| t.to_string()).collect())
}

#[allow(dead_code)]
fn aarch64(targets: &[&str]) -> (ArchitectureFamily, Vec<String>) {
    (ArchitectureFamily::Aarch64, targets.iter().map(|t| t.to_string()).collect())
}

fn sum(data: &[f32]) -> f32 {
    data.iter().sum()
}

fn declared(name: &str) -> String {
    format!("pub fn {name}(data: &[f32]) -> f32 {{\n    data.iter().sum()\n}}")
}

const COMPLEX_OPERATION: &str = "pub fn complex_operation<T: AsRef<[f32]>>(input: T, scale: f32) -> Vec<f32> {\n    input.as_ref().iter().map(|x| x * scale).collect()\n}";

fn complex_operation<T: AsRef<[f32]>>(input: T, scale: f32) -> Vec<f32> {
    input.as_ref().iter().map(|x| x * scale).collect()
}

#[test]
fn test_basic_sum() {
    assert_eq!(expand(&[], &declared("sum_array")), []);
    let data = [1.0f32, 2.0, 3.0, 4.0, 5.0];
    assert_eq!(sum(&data), 15.0);
}

#[test]
fn test_with_presets() {
    assert_eq!(expand(&["x86-64-v3", "aarch64-basic"], &declared("sum_with_presets")), []);
    let data = [2.0f32, 4.0, 6.0, 8.0];
    assert_eq!(sum(&data), 20.0);
}

#[test]
fn test_with_raw() {
    assert_eq!(expand(&["x86_64+avx2+fma+bmi2"], &declared("sum_with_raw")), []);
    let data = [1.5f32, 2.5, 3.5];
    assert_eq!(sum(&data), 7.5);
}

#[test]
fn test_complex() {
    assert_eq!(expand(&["x86-64-v4"], COMPLEX_OPERATION), []);
    let input = vec![1.0f32, 2.0, 3.0];
    let result = complex_operation(input, 2.0);
    assert_eq!(result, vec![2.0, 4.0, 6.0]);
}

#[test]
fn the_same_annotations_expand_once_the_switch_is_off() {
    let tokens = [ArgToken::from_literal("\"x86-64-v3\""), ArgToken::Comma, ArgToken::from_literal("\"aarch64-basic\"")];
    let rewritten = multiversed(&tokens, declared("sum_with_presets"), &SWITCHES, false).unwrap();
    let found: Vec<_> = rewritten.directives.into_iter().map(|d| (d.family, d.targets)).collect();
    assert_eq!(found, [x86(&[multiversed::presets::X86_64_V3])]);
}
