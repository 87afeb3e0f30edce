//! Seed corpora: which seeds a target gets, how a seed file is named, and
//! the plan of files that make up one corpus.

use crate::engines::Fuzzer;
use crate::errors::{RunError, RunErrorView};
use crate::fuzz_targets::common::SeedGen;
use crate::fuzz_targets::{is_target, target_names};
use crate::text::{
    decimal, decimal_u8, hex_encode, hex_lower, join_path, lemma_decimal_injective,
    lemma_hex_lower_injective, spec_join, str_eq,
};
use crate::types::{gen_str, gen_u8, gen_vec_u8};
use vstd::pervasive::unreached;
use vstd::prelude::*;
use vstd::string::*;
use vstd::utf8::valid_utf8;

verus! {

/// How the seeds of one target are made and stored.
#[derive(Debug, PartialEq, Eq, Clone, Copy, Structural)]
pub enum SeedPolicy {
    /// A byte sequence, stored as it is and named by its own hex form.
    Bytes,
    /// A string, stored as its UTF-8 bytes and named by their hex form.
    Text,
    /// A byte, stored as its decimal digits and named by their hex form.
    ByteText,
    /// A byte, stored as that one byte and named by the hex form of its
    /// decimal digits.
    ByteRaw,
    /// The target takes no seeds.
    Unseeded,
}

/// The fixed table from target name to seed policy. A name outside the
/// table has none.
pub open spec fn spec_seed_policy(target: Seq<char>) -> Option<SeedPolicy> {
    if target == "mmr_push_bytes"@ {
        Some(SeedPolicy::Bytes)
    } else if target == "util_to_hex"@ {
        Some(SeedPolicy::Text)
    } else if target == "util_bytes_to_bits"@ {
        Some(SeedPolicy::ByteText)
    } else if target == "util_from_hex"@ {
        Some(SeedPolicy::Text)
    } else if target == "util_to_hex_multiple"@ {
        Some(SeedPolicy::Unseeded)
    } else if target == "crypto_opcodes_to_hash"@ {
        Some(SeedPolicy::ByteRaw)
    } else if target == "crypto_opcodes_read_nexth"@ {
        Some(SeedPolicy::ByteRaw)
    } else if target == "core_trx_create_coinbase"@ {
        Some(SeedPolicy::Unseeded)
    } else if target == "core_trx_with_maturity"@ {
        Some(SeedPolicy::Unseeded)
    } else {
        None
    }
}

/// How many seed files a corpus of `count` requested seeds holds.
pub open spec fn spec_seed_count(policy: SeedPolicy, count: nat) -> nat {
    if policy == SeedPolicy::Unseeded {
        0
    } else {
        count
    }
}

/// Looks the seed policy of a target up in the fixed table.
pub fn seed_policy(target: &str) -> (policy: Option<SeedPolicy>)
    ensures
        policy == spec_seed_policy(target@),
{
    if str_eq(target, "mmr_push_bytes") {
        Some(SeedPolicy::Bytes)
    } else if str_eq(target, "util_to_hex") {
        Some(SeedPolicy::Text)
    } else if str_eq(target, "util_bytes_to_bits") {
        Some(SeedPolicy::ByteText)
    } else if str_eq(target, "util_from_hex") {
        Some(SeedPolicy::Text)
    } else if str_eq(target, "util_to_hex_multiple") {
        Some(SeedPolicy::Unseeded)
    } else if str_eq(target, "crypto_opcodes_to_hash") {
        Some(SeedPolicy::ByteRaw)
    } else if str_eq(target, "crypto_opcodes_read_nexth") {
        Some(SeedPolicy::ByteRaw)
    } else if str_eq(target, "core_trx_create_coinbase") {
        Some(SeedPolicy::Unseeded)
    } else if str_eq(target, "core_trx_with_maturity") {
        Some(SeedPolicy::Unseeded)
    } else {
        None
    }
}

/// One seed: the name of its file inside the corpus directory and the bytes
/// the file holds.
#[derive(Debug, PartialEq, Eq)]
pub struct SeedFile {
    pub name: String,
    pub content: Vec<u8>,
}

/// A seed file with its name as characters and its content as bytes.
pub struct SeedFileView {
    pub name: Seq<char>,
    pub content: Seq<u8>,
}

impl View for SeedFile {
    type V = SeedFileView;

    open spec fn view(&self) -> SeedFileView {
        SeedFileView { name: self.name@, content: self.content@ }
    }
}

/// Whether `file` is a seed file as `policy` stores them: its content has
/// the policy's form and its name is the hex form the policy derives.
pub open spec fn stored_as(policy: SeedPolicy, file: SeedFileView) -> bool {
    match policy {
        SeedPolicy::Bytes => file.name == hex_lower(file.content),
        SeedPolicy::Text => valid_utf8(file.content) && file.name == hex_lower(file.content),
        SeedPolicy::ByteText => file.name == hex_lower(file.content) && exists|v: u8|
            file.content == #[trigger] decimal(v as nat),
        SeedPolicy::ByteRaw => file.content.len() == 1 && file.name == hex_lower(
            decimal(file.content[0] as nat),
        ),
        SeedPolicy::Unseeded => false,
    }
}

/// The seed file of a byte sequence.
pub fn seed_from_bytes(value: Vec<u8>) -> (file: SeedFile)
    ensures
        file@.content == value@,
        file@.name == hex_lower(value@),
        stored_as(SeedPolicy::Bytes, file@),
{
    let name = hex_encode(value.as_slice());
    SeedFile { name, content: value }
}

/// The seed file of a string.
pub fn seed_from_text(value: &str) -> (file: SeedFile)
    ensures
        file@.content == value.spec_bytes(),
        file@.name == hex_lower(value.spec_bytes()),
        stored_as(SeedPolicy::Text, file@),
{
    let content = value.as_bytes_vec();
    let name = hex_encode(content.as_slice());
    proof {
        vstd::utf8::encode_utf8_valid_utf8(value@);
    }
    SeedFile { name, content }
}

/// The seed file of a byte that is stored as decimal text.
pub fn seed_from_byte_text(value: u8) -> (file: SeedFile)
    ensures
        file@.content == decimal(value as nat),
        file@.name == hex_lower(decimal(value as nat)),
        stored_as(SeedPolicy::ByteText, file@),
{
    let content = decimal_u8(value);
    let name = hex_encode(content.as_slice());
    SeedFile { name, content }
}

/// The seed file of a byte that is stored raw.
pub fn seed_from_byte_raw(value: u8) -> (file: SeedFile)
    ensures
        file@.content == seq![value],
        file@.name == hex_lower(decimal(value as nat)),
        stored_as(SeedPolicy::ByteRaw, file@),
{
    let digits = decimal_u8(value);
    let name = hex_encode(digits.as_slice());
    let mut content: Vec<u8> = Vec::new();
    content.push(value);
    assert(content@ =~= seq![value]);
    SeedFile { name, content }
}

/// Generates the seed files of a corpus: none for an unseeded target, and
/// otherwise exactly `count`, each drawn from `gen` and stored as `policy`
/// says.
pub fn gen_seeds(policy: SeedPolicy, count: usize, gen: &mut SeedGen) -> (seeds: Vec<SeedFile>)
    ensures
        seeds.len() == spec_seed_count(policy, count as nat),
        forall|i: int| 0 <= i < seeds.len() ==> stored_as(policy, #[trigger] seeds[i]@),
{
    let mut seeds: Vec<SeedFile> = Vec::new();
    if policy == SeedPolicy::Unseeded {
        return seeds;
    }
    let mut idx: usize = 0;
    while idx < count
        invariant
            policy != SeedPolicy::Unseeded,
            idx <= count,
            seeds.len() == idx,
            forall|i: int| 0 <= i < seeds.len() ==> stored_as(policy, #[trigger] seeds[i]@),
        decreases count - idx,
    {
        let file = match policy {
            SeedPolicy::Bytes => seed_from_bytes(gen_vec_u8(gen)),
            SeedPolicy::Text => {
                let text = gen_str(gen);
                seed_from_text(text.as_str())
            },
            SeedPolicy::ByteText => seed_from_byte_text(gen_u8(gen)),
            SeedPolicy::ByteRaw => seed_from_byte_raw(gen_u8(gen)),
            SeedPolicy::Unseeded => unreached(),
        };
        seeds.push(file);
        idx += 1;
    }
    seeds
}

/// The corpus directory of `target` under the engine directory `base`.
pub open spec fn spec_corpus_dir(base: Seq<char>, target: Seq<char>) -> Seq<char> {
    spec_join(base, "corpus-"@ + target)
}

/// Path of the corpus directory of `target` under the engine directory
/// `base`.
pub fn corpus_dir(base: &str, target: &str) -> (dir: String)
    ensures
        dir@ == spec_corpus_dir(base@, target@),
{
    let mut leaf = String::from_str("corpus-");
    leaf.append(target);
    join_path(base, leaf.as_str())
}

/// A planned corpus: the directory to create and the seed files to write
/// into it, in order.
#[derive(Debug, PartialEq, Eq)]
pub struct Corpus {
    pub dir: String,
    pub seeds: Vec<SeedFile>,
}

impl Corpus {
    /// Whether this is a corpus of `count` requested seeds for `target`,
    /// kept under the engine directory `base`.
    pub open spec fn is_corpus_of(&self, base: Seq<char>, target: Seq<char>, count: nat) -> bool {
        &&& spec_seed_policy(target) matches Some(policy)
        &&& self.dir@ == spec_corpus_dir(base, target)
        &&& self.seeds.len() == spec_seed_count(policy, count)
        &&& forall|i: int| 0 <= i < self.seeds.len() ==> stored_as(policy, #[trigger] self.seeds[i]@)
    }
}

/// Plans the corpus of `target` for the engine `fuzzer` in the workspace at
/// `root`, drawing the seeds from `gen`.
///
/// The plan is owed for every target that has a seed policy, whatever its
/// count and whatever is on disk: the directory is always the same for the
/// same target and engine. A count of zero, or an unseeded target, gives a
/// plan without seed files. A target without a policy is an error.
pub fn gen_corpus_with(
    gen: &mut SeedGen,
    target: &str,
    fuzzer: Fuzzer,
    root: &str,
    num_items: usize,
) -> (plan: core::result::Result<Corpus, RunError>)
    ensures
        match plan {
            Ok(corpus) => corpus.is_corpus_of(
                fuzzer.spec_directory(root@),
                target@,
                num_items as nat,
            ),
            Err(e) => spec_seed_policy(target@) is None && e@ == (RunErrorView::NoSeedPolicy {
                target: target@,
            }),
        },
{
    match seed_policy(target) {
        Some(policy) => {
            let base = fuzzer.directory(root);
            let dir = corpus_dir(base.as_str(), target);
            let seeds = gen_seeds(policy, num_items, gen);
            Ok(Corpus { dir, seeds })
        },
        None => Err(RunError::NoSeedPolicy { target: String::from_str(target) }),
    }
}

/// Plans the corpus of `target` with a freshly seeded generator.
pub fn gen_corpus(target: &str, fuzzer: Fuzzer, root: &str, num_items: usize) -> (plan:
    core::result::Result<Corpus, RunError>)
    ensures
        match plan {
            Ok(corpus) => corpus.is_corpus_of(
                fuzzer.spec_directory(root@),
                target@,
                num_items as nat,
            ),
            Err(e) => spec_seed_policy(target@) is None && e@ == (RunErrorView::NoSeedPolicy {
                target: target@,
            }),
        },
{
    let mut gen = SeedGen::new();
    gen_corpus_with(&mut gen, target, fuzzer, root, num_items)
}

/// A seed file is named by what it holds: under one policy, two seed files
/// with the same content have the same name, so a seed that is generated
/// twice lands in one file.
pub proof fn lemma_same_content_same_name(policy: SeedPolicy, a: SeedFileView, b: SeedFileView)
    requires
        stored_as(policy, a),
        stored_as(policy, b),
        a.content == b.content,
    ensures
        a.name == b.name,
{
}

/// Under one policy, two seed files that differ in content differ in name:
/// no seed overwrites another one.
pub proof fn lemma_same_name_same_content(policy: SeedPolicy, a: SeedFileView, b: SeedFileView)
    requires
        stored_as(policy, a),
        stored_as(policy, b),
        a.name == b.name,
    ensures
        a.content == b.content,
{
    if policy == SeedPolicy::ByteRaw {
        let x = a.content[0] as nat;
        let y = b.content[0] as nat;
        lemma_hex_lower_injective(decimal(x), decimal(y));
        lemma_decimal_injective(x, y);
        assert(a.content =~= b.content);
    } else {
        lemma_hex_lower_injective(a.content, b.content);
    }
}

/// The corpus of a target that takes seeds holds exactly as many seed files
/// as were asked for.
pub proof fn lemma_seeded_corpus_has_every_seed(
    corpus: Corpus,
    base: Seq<char>,
    target: Seq<char>,
    count: nat,
)
    requires
        corpus.is_corpus_of(base, target, count),
        spec_seed_policy(target) != Some(SeedPolicy::Unseeded),
    ensures
        corpus.seeds.len() == count,
{
}

/// A request for no seeds is met by a corpus without seed files, whatever
/// the target.
pub proof fn lemma_empty_request_has_no_seeds(corpus: Corpus, base: Seq<char>, target: Seq<char>)
    requires
        corpus.is_corpus_of(base, target, 0),
    ensures
        corpus.seeds.len() == 0,
{
}

/// Three targets take no seeds: each has a policy, so its corpus is always
/// planned, and the plan holds no seed file whatever the count asked for.
pub proof fn lemma_unseeded_targets(target: Seq<char>, count: nat)
    requires
        target == "util_to_hex_multiple"@ || target == "core_trx_create_coinbase"@ || target
            == "core_trx_with_maturity"@,
    ensures
        spec_seed_policy(target) == Some(SeedPolicy::Unseeded),
        spec_seed_count(SeedPolicy::Unseeded, count) == 0,
{
    reveal_strlit("mmr_push_bytes");
    reveal_strlit("util_to_hex");
    reveal_strlit("util_bytes_to_bits");
    reveal_strlit("util_from_hex");
    reveal_strlit("util_to_hex_multiple");
    reveal_strlit("crypto_opcodes_to_hash");
    reveal_strlit("crypto_opcodes_read_nexth");
    reveal_strlit("core_trx_create_coinbase");
    reveal_strlit("core_trx_with_maturity");
    // The names differ in length, but for two that differ in their second
    // character.
    assert("mmr_push_bytes"@.len() == 14);
    assert("util_to_hex"@.len() == 11);
    assert("util_bytes_to_bits"@.len() == 18);
    assert("util_from_hex"@.len() == 13);
    assert("util_to_hex_multiple"@.len() == 20);
    assert("crypto_opcodes_to_hash"@.len() == 22);
    assert("crypto_opcodes_read_nexth"@.len() == 25);
    assert("core_trx_create_coinbase"@.len() == 24);
    assert("core_trx_with_maturity"@.len() == 22);
    assert("crypto_opcodes_to_hash"@[1] != "core_trx_with_maturity"@[1]);
}

/// Every registered target has a seed policy: once a name has passed the
/// check of the registry, its corpus can always be planned.
pub proof fn lemma_targets_have_policies(target: Seq<char>)
    requires
        is_target(target),
    ensures
        spec_seed_policy(target) is Some,
{
    let i = choose|i: int| 0 <= i < target_names().len() && #[trigger] target_names()[i] == target;
    if i == 0 {
    } else if i == 1 {
    } else if i == 2 {
    } else if i == 3 {
    } else if i == 4 {
    } else if i == 5 {
    } else {
    }
}

/// Under one engine directory every target has a corpus directory of its
/// own: two targets with the same corpus directory are the same target.
pub proof fn lemma_corpus_dir_tells_targets_apart(
    base: Seq<char>,
    one: Seq<char>,
    other: Seq<char>,
)
    requires
        spec_corpus_dir(base, one) == spec_corpus_dir(base, other),
    ensures
        one == other,
{
    reveal_strlit("corpus-");
    let word = "corpus-"@;
    let front = if base.len() > 0 && base.last() != '/' {
        base + seq!['/'] + word
    } else {
        base + word
    };
    assert((word + one)[0] == 'c');
    assert((word + other)[0] == 'c');
    assert(spec_corpus_dir(base, one) =~= front + one);
    assert(spec_corpus_dir(base, other) =~= front + other);
    assert(one.len() == other.len()) by {
        assert((front + one).len() == (front + other).len());
    }
    assert(one =~= (front + one).subrange(front.len() as int, (front + one).len() as int));
    assert(other =~= (front + other).subrange(front.len() as int, (front + other).len() as int));
}

} // verus!
