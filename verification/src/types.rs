//! One generating function for each shape of seed value.

use crate::fuzz_targets::common::{Seed, SeedGen, Shape};
use vstd::pervasive::unreached;
use vstd::prelude::*;

verus! {

pub fn gen_vec_u8(gen: &mut SeedGen) -> Vec<u8> {
    match gen.generate(Shape::Bytes) {
        Seed::Bytes(data) => data,
        _ => unreached(),
    }
}

pub fn gen_str(gen: &mut SeedGen) -> String {
    match gen.generate(Shape::Text) {
        Seed::Text(data) => data,
        _ => unreached(),
    }
}

pub fn gen_usize(gen: &mut SeedGen) -> usize {
    match gen.generate(Shape::Size) {
        Seed::Size(data) => data,
        _ => unreached(),
    }
}

pub fn gen_u8(gen: &mut SeedGen) -> u8 {
    match gen.generate(Shape::Byte) {
        Seed::Byte(data) => data,
        _ => unreached(),
    }
}

pub fn gen_i8(gen: &mut SeedGen) -> i8 {
    match gen.generate(Shape::SignedByte) {
        Seed::SignedByte(data) => data,
        _ => unreached(),
    }
}

} // verus!
