//! The seed generator: a source of values of a few fixed shapes.

use proptest::arbitrary::any;
use proptest::strategy::{Strategy, ValueTree};
use proptest::test_runner::TestRunner;
use vstd::prelude::*;

verus! {

/// The runner of the property-testing engine, which owns the random number
/// generator. Nothing of its inside is visible here.
#[verifier::external_type_specification]
#[verifier::external_body]
pub struct ExTestRunner(TestRunner);

/// The shapes of value the generator can produce.
#[derive(Debug, PartialEq, Eq, Clone, Copy, Structural)]
pub enum Shape {
    /// An arbitrary sequence of bytes.
    Bytes,
    /// An arbitrary string of printable characters.
    Text,
    /// An arbitrary machine-sized unsigned integer.
    Size,
    /// An arbitrary byte.
    Byte,
    /// An arbitrary signed byte.
    SignedByte,
}

/// One generated value.
#[derive(Debug, PartialEq, Eq)]
pub enum Seed {
    Bytes(Vec<u8>),
    Text(String),
    Size(usize),
    Byte(u8),
    SignedByte(i8),
}

impl Seed {
    /// The shape this value has.
    pub open spec fn shape(&self) -> Shape {
        match self {
            Seed::Bytes(_) => Shape::Bytes,
            Seed::Text(_) => Shape::Text,
            Seed::Size(_) => Shape::Size,
            Seed::Byte(_) => Shape::Byte,
            Seed::SignedByte(_) => Shape::SignedByte,
        }
    }
}

/// A trusted call of `TestRunner::default`, which seeds the generator from
/// the operating system. Nothing is known of the runner it returns.
#[verifier::external_body]
fn fresh_runner() -> TestRunner {
    TestRunner::default()
}

/// A trusted call of `TestRunner::deterministic`, which seeds the generator
/// with a constant. The contract says nothing of that either: the sequence
/// of values that follows is the engine's own business.
#[verifier::external_body]
fn fixed_runner() -> TestRunner {
    TestRunner::deterministic()
}

/// A trusted draw of one `Vec<u8>`: the strategy `proptest::arbitrary::any`
/// makes a value tree on the runner, and the tree's current value is taken.
/// The strategy rejects nothing, so a tree is always made. Which value comes
/// depends on the generator's state, so nothing is promised of it.
#[verifier::external_body]
fn draw_bytes(runner: &mut TestRunner) -> Vec<u8> {
    let tree = Strategy::new_tree(&any::<Vec<u8>>(), runner);
    ValueTree::current(&tree.expect("Some went wrong with generating seeds!"))
}

/// A trusted draw of one `String` in the same way; nothing is promised of
/// the outcome.
#[verifier::external_body]
fn draw_text(runner: &mut TestRunner) -> String {
    let tree = Strategy::new_tree(&any::<String>(), runner);
    ValueTree::current(&tree.expect("Some went wrong with generating seeds!"))
}

/// A trusted draw of one `usize` in the same way; nothing is promised of
/// the outcome.
#[verifier::external_body]
fn draw_size(runner: &mut TestRunner) -> usize {
    let tree = Strategy::new_tree(&any::<usize>(), runner);
    ValueTree::current(&tree.expect("Some went wrong with generating seeds!"))
}

/// A trusted draw of one `u8` in the same way; nothing is promised of the
/// outcome.
#[verifier::external_body]
fn draw_byte(runner: &mut TestRunner) -> u8 {
    let tree = Strategy::new_tree(&any::<u8>(), runner);
    ValueTree::current(&tree.expect("Some went wrong with generating seeds!"))
}

/// A trusted draw of one `i8` in the same way; nothing is promised of the
/// outcome.
#[verifier::external_body]
fn draw_signed_byte(runner: &mut TestRunner) -> i8 {
    let tree = Strategy::new_tree(&any::<i8>(), runner);
    ValueTree::current(&tree.expect("Some went wrong with generating seeds!"))
}

/// A generator of seed values. It is owned by one corpus build at a time.
pub struct SeedGen {
    runner: TestRunner,
}

impl SeedGen {
    /// Creates a new value generator with the default RNG.
    pub fn new() -> Self {
        SeedGen { runner: fresh_runner() }
    }

    /// Creates a new value generator with a deterministic RNG.
    pub fn deterministic() -> Self {
        SeedGen { runner: fixed_runner() }
    }

    /// Produces one value of the shape asked for.
    pub fn generate(&mut self, shape: Shape) -> (seed: Seed)
        ensures
            seed.shape() == shape,
    {
        match shape {
            Shape::Bytes => Seed::Bytes(draw_bytes(&mut self.runner)),
            Shape::Text => Seed::Text(draw_text(&mut self.runner)),
            Shape::Size => Seed::Size(draw_size(&mut self.runner)),
            Shape::Byte => Seed::Byte(draw_byte(&mut self.runner)),
            Shape::SignedByte => Seed::SignedByte(draw_signed_byte(&mut self.runner)),
        }
    }
}

} // verus!
