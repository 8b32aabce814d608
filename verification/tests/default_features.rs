//! A build with the standard switches.

use multiversed::args::ArgToken;
use multiversed::defaults::PresetSwitches;
use multiversed::family::ArchitectureFamily;
use multiversed::multiversed;
use multiversed::presets::{ARM64_V2, X86_64_V3, X86_64_V4_MODERN};

const SWITCHES: PresetSwitches = PresetSwitches {
    x86_64_v2: false,
    x86_64_v3: true,
    x86_64_v4: false,
    x86_64_v4_modern: true,
    arm64: false,
    arm64_v2: true,
    arm64_v3: false,
};

const FORCE_DISABLE: bool = false;

/// What the annotation with `args` puts in front of `declaration` in this
/// build: the family and the targets of each directive.
fn expand(args: &[&str], declaration: &str) -> Vec<(ArchitectureFamily, Vec<String>)> {
    let mut tokens = Vec::new();
    for arg in args {
        tokens.push(ArgToken::from_literal(&format!("{:?}", arg)));
        tokens.push(ArgToken::Comma);
    }
    let rewritten = multiversed(&tokens, declaration.to_string(), &SWITCHES, FORCE_DISABLE)
        .expect("a list of string literals is well-formed");
    assert_eq!(rewritten.declaration, declaration);
    assert!(rewritten.to_source().ends_with(declaration));
    rewritten.directives.into_iter().map(|d| (d.family, d.targets)).collect()
}

fn x86(targets: &[&str]) -> (ArchitectureFamily, Vec<String>) {
    (ArchitectureFamily::X86, targets.iter().map(|t| t.to_string()).collect())
}

fn aarch64(targets: &[&str]) -> (ArchitectureFamily, Vec<String>) {
    (ArchitectureFamily::Aarch64, targets.iter().map(|t| t.to_string()).collect())
}

fn sum(data: &[f32]) -> f32 {
    data.iter().sum()
}

fn declared(name: &str) -> String {
    format!("pub fn {name}(data: &[f32]) -> f32 {{\n    data.iter().sum()\n}}")
}

const ADD_ARRAYS: &str = "pub fn add_arrays(a: &[f32], b: &[f32], out: &mut [f32]) {\n    for ((o, a), b) in out.iter_mut().zip(a.iter()).zip(b.iter()) {\n        *o = *a + *b;\n    }\n}";

fn add_arrays(a: &[f32], b: &[f32], out: &mut [f32]) {
    for ((o, a), b) in out.iter_mut().zip(a.iter()).zip(b.iter()) {
        *o = *a + *b;
    }
}

const DOT_PRODUCT: &str =
    "pub fn dot_product(a: &[f32], b: &[f32]) -> f32 {\n    a.iter().zip(b.iter()).map(|(x, y)| x * y).sum()\n}";

fn dot_product(a: &[f32], b: &[f32]) -> f32 {
    a.iter().zip(b.iter()).map(|(x, y)| x * y).sum()
}

#[test]
fn the_switches_are_the_standard_ones() {
    assert_eq!(SWITCHES, PresetSwitches::default());
    assert_eq!(expand(&[], &declared("sum")), [x86(&[X86_64_V4_MODERN, X86_64_V3]), aarch64(&[ARM64_V2])]);
    assert_eq!(sum(&[1.0, 2.0]), 3.0);
}

#[test]
fn test_add_arrays() {
    assert_eq!(expand(&[], ADD_ARRAYS), [x86(&[X86_64_V4_MODERN, X86_64_V3]), aarch64(&[ARM64_V2])]);

    let a = [1.0f32, 2.0, 3.0, 4.0];
    let b = [5.0f32, 6.0, 7.0, 8.0];
    let mut out = [0.0f32; 4];
    add_arrays(&a, &b, &mut out);
    assert_eq!(out, [6.0, 8.0, 10.0, 12.0]);
}

#[test]
fn lib_test_dot_product() {
    assert_eq!(expand(&[], DOT_PRODUCT), [x86(&[X86_64_V4_MODERN, X86_64_V3]), aarch64(&[ARM64_V2])]);

    let a = [1.0f32, 2.0, 3.0, 4.0];
    let b = [1.0f32, 1.0, 1.0, 1.0];
    let result = dot_product(&a, &b);
    assert_eq!(result, 10.0);
}
