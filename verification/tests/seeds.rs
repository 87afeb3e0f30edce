use tarifuzzer::fuzz_targets::common::{Seed, SeedGen, Shape};
use tarifuzzer::types::{gen_i8, gen_str, gen_u8, gen_usize, gen_vec_u8};

#[test]
fn a_generated_value_has_the_shape_asked_for() {
    let mut gen = SeedGen::new();
    for _ in 0..20 {
        assert!(matches!(gen.generate(Shape::Bytes), Seed::Bytes(_)));
        assert!(matches!(gen.generate(Shape::Text), Seed::Text(_)));
        assert!(matches!(gen.generate(Shape::Size), Seed::Size(_)));
        assert!(matches!(gen.generate(Shape::Byte), Seed::Byte(_)));
        assert!(matches!(gen.generate(Shape::SignedByte), Seed::SignedByte(_)));
    }
}

#[test]
fn the_deterministic_generator_repeats_itself() {
    let mut one = SeedGen::deterministic();
    let mut two = SeedGen::deterministic();
    for _ in 0..20 {
        assert_eq!(gen_vec_u8(&mut one), gen_vec_u8(&mut two));
        assert_eq!(gen_str(&mut one), gen_str(&mut two));
        assert_eq!(gen_usize(&mut one), gen_usize(&mut two));
        assert_eq!(gen_u8(&mut one), gen_u8(&mut two));
        assert_eq!(gen_i8(&mut one), gen_i8(&mut two));
    }
}

#[test]
fn the_generator_does_not_stand_still() {
    let mut gen = SeedGen::deterministic();
    let mut seen = Vec::new();
    for _ in 0..64 {
        let v = gen_usize(&mut gen);
        if !seen.contains(&v) {
            seen.push(v);
        }
    }
    assert!(seen.len() > 1);
}

#[test]
fn generated_text_holds_no_control_characters() {
    let mut gen = SeedGen::deterministic();
    for _ in 0..50 {
        let text = gen_str(&mut gen);
        assert!(text.chars().all(|c| !c.is_control()));
    }
}
