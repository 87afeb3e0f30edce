//! The three fuzzing engines and where each one lives in the workspace.

use crate::errors::TariError;
use crate::text::{
    ascii_lower, eq_ignore_ascii_case, join_path, spec_join, str_eq_ignore_ascii_case,
};
use vstd::prelude::*;
use vstd::string::*;
use vstd::utf8::{encode_utf8, is_ascii_chars_encode_utf8};

verus! {

/// A fuzzing engine. The set is closed: there is no way to register another.
#[derive(Debug, PartialEq, Eq, Clone, Copy, Structural)]
pub enum Fuzzer {
    Afl,
    Honggfuzz,
    Libfuzzer,
}

impl Fuzzer {
    /// Name of the package that holds the engine's harness.
    pub open spec fn spec_package_name(self) -> Seq<char> {
        match self {
            Fuzzer::Afl => "fuzzer-afl"@,
            Fuzzer::Honggfuzz => "fuzzer-honggfuzz"@,
            Fuzzer::Libfuzzer => "fuzzer-libfuzzer"@,
        }
    }

    /// The engine's name as it is displayed and as a selector is matched
    /// against.
    pub open spec fn spec_name(self) -> Seq<char> {
        match self {
            Fuzzer::Afl => "Afl"@,
            Fuzzer::Honggfuzz => "Honggfuzz"@,
            Fuzzer::Libfuzzer => "Libfuzzer"@,
        }
    }

    /// The engine's directory under the workspace root `root`.
    pub open spec fn spec_directory(self, root: Seq<char>) -> Seq<char> {
        spec_join(root, self.spec_package_name())
    }

    /// Get Cargo package name of corresponding fuzzers.
    pub fn package_name(self) -> (name: &'static str)
        ensures
            name@ == self.spec_package_name(),
    {
        match self {
            Fuzzer::Afl => "fuzzer-afl",
            Fuzzer::Honggfuzz => "fuzzer-honggfuzz",
            Fuzzer::Libfuzzer => "fuzzer-libfuzzer",
        }
    }

    /// Get Cargo directory of corresponding fuzzers, under the workspace
    /// root `root`.
    pub fn directory(self, root: &str) -> (dir: String)
        ensures
            dir@ == self.spec_directory(root@),
    {
        join_path(root, self.package_name())
    }

    /// The engine's display name.
    pub fn name(self) -> (name: &'static str)
        ensures
            name@ == self.spec_name(),
    {
        match self {
            Fuzzer::Afl => "Afl",
            Fuzzer::Honggfuzz => "Honggfuzz",
            Fuzzer::Libfuzzer => "Libfuzzer",
        }
    }

    /// Whether `token` selects this engine: it is the engine's name, in any
    /// mix of upper and lower case.
    pub open spec fn selected_by(self, token: Seq<char>) -> bool {
        eq_ignore_ascii_case(encode_utf8(token), encode_utf8(self.spec_name()))
    }

    /// The engine that `token` selects, if it selects one.
    pub open spec fn spec_from_name(token: Seq<char>) -> Option<Fuzzer> {
        if Fuzzer::Afl.selected_by(token) {
            Some(Fuzzer::Afl)
        } else if Fuzzer::Honggfuzz.selected_by(token) {
            Some(Fuzzer::Honggfuzz)
        } else if Fuzzer::Libfuzzer.selected_by(token) {
            Some(Fuzzer::Libfuzzer)
        } else {
            None
        }
    }

    /// The names of the engines, in the order in which a selector is
    /// matched against them.
    pub fn variants() -> (names: [&'static str; 3])
        ensures
            names@.len() == 3,
            names@[0]@ == Fuzzer::Afl.spec_name(),
            names@[1]@ == Fuzzer::Honggfuzz.spec_name(),
            names@[2]@ == Fuzzer::Libfuzzer.spec_name(),
    {
        ["Afl", "Honggfuzz", "Libfuzzer"]
    }

    /// Reads an engine selector. The engine's name is accepted in any mix
    /// of upper and lower case; anything else is refused with an error that
    /// lists the names and carries what was found.
    pub fn from_name(token: &str) -> (engine: core::result::Result<Fuzzer, TariError>)
        ensures
            match engine {
                Ok(fuzzer) => Fuzzer::spec_from_name(token@) == Some(fuzzer),
                Err(e) => {
                    &&& Fuzzer::spec_from_name(token@) is None
                    &&& e matches TariError::InvalidFuzzer { expected, found }
                    &&& expected@ == "Afl, Honggfuzz, Libfuzzer"@
                    &&& found@ == token@
                },
            },
    {
        if str_eq_ignore_ascii_case(token, "Afl") {
            Ok(Fuzzer::Afl)
        } else if str_eq_ignore_ascii_case(token, "Honggfuzz") {
            Ok(Fuzzer::Honggfuzz)
        } else if str_eq_ignore_ascii_case(token, "Libfuzzer") {
            Ok(Fuzzer::Libfuzzer)
        } else {
            Err(
                TariError::InvalidFuzzer {
                    expected: String::from_str("Afl, Honggfuzz, Libfuzzer"),
                    found: String::from_str(token),
                },
            )
        }
    }
}

impl core::str::FromStr for Fuzzer {
    type Err = String;

    /// Reads an engine selector as `from_name` does: the engine that the
    /// token selects, or else an error that lists the names that are
    /// accepted.
    fn from_str(token: &str) -> (engine: core::result::Result<Fuzzer, String>)
        ensures
            match engine {
                Ok(fuzzer) => Fuzzer::spec_from_name(token@) == Some(fuzzer),
                Err(e) => Fuzzer::spec_from_name(token@) is None && e@
                    == "valid values: Afl, Honggfuzz, Libfuzzer"@,
            },
    {
        match Fuzzer::from_name(token) {
            Ok(fuzzer) => Ok(fuzzer),
            Err(_) => Err("valid values: Afl, Honggfuzz, Libfuzzer".to_owned()),
        }
    }
}

impl Default for Fuzzer {
    /// The engine that is used where none is named.
    fn default() -> (fuzzer: Fuzzer)
        ensures
            fuzzer == Fuzzer::Libfuzzer,
    {
        Fuzzer::Libfuzzer
    }
}

/// Every engine is selected by its own name and by no other engine's: the
/// three names differ even where case is not told apart.
pub proof fn lemma_names_select_their_engines(fuzzer: Fuzzer)
    ensures
        Fuzzer::spec_from_name(fuzzer.spec_name()) == Some(fuzzer),
{
    reveal_strlit("Afl");
    reveal_strlit("Honggfuzz");
    reveal_strlit("Libfuzzer");
    is_ascii_chars_encode_utf8("Afl"@);
    is_ascii_chars_encode_utf8("Honggfuzz"@);
    is_ascii_chars_encode_utf8("Libfuzzer"@);
    let h = encode_utf8("Honggfuzz"@);
    let l = encode_utf8("Libfuzzer"@);
    assert(h[0] == 72 && l[0] == 76);
    assert(ascii_lower(h[0]) != ascii_lower(l[0]));
}

} // verus!
