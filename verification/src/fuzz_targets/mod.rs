//! The registry of fuzz targets: a closed list of names, fixed when the
//! library is built.

pub mod common;
pub mod tari_core_transactions;
pub mod tari_util;

pub use tari_core_transactions::{core_trx_create_coinbase, core_trx_with_maturity};
pub use tari_util::{util_bytes_to_bits, util_from_hex, util_to_hex, util_to_hex_multiple};

use crate::errors::{RunError, RunErrorView};
use crate::text::str_eq;
use vstd::prelude::*;
use vstd::string::*;

verus! {

/// The names of the registered targets, in the order in which they are
/// listed.
pub open spec fn target_names() -> Seq<Seq<char>> {
    seq![
        "util_to_hex"@,
        "util_bytes_to_bits"@,
        "util_from_hex"@,
        "util_to_hex_multiple"@,
        "core_trx_create_coinbase"@,
        "core_trx_with_maturity"@,
        "mmr_push_bytes"@,
    ]
}

/// Whether `name` is the name of a registered target. The match is exact
/// and case-sensitive.
pub open spec fn is_target(name: Seq<char>) -> bool {
    exists|i: int| 0 <= i < target_names().len() && #[trigger] target_names()[i] == name
}

/// The names of the registered targets, in listing order.
pub fn list_targets() -> (names: Vec<&'static str>)
    ensures
        names@.len() == target_names().len(),
        forall|i: int| 0 <= i < names@.len() ==> (#[trigger] names@[i])@ == target_names()[i],
{
    let mut names: Vec<&'static str> = Vec::new();
    names.push("util_to_hex");
    names.push("util_bytes_to_bits");
    names.push("util_from_hex");
    names.push("util_to_hex_multiple");
    names.push("core_trx_create_coinbase");
    names.push("core_trx_with_maturity");
    names.push("mmr_push_bytes");
    names
}

/// Whether a target of this name is registered.
pub fn target_exists(name: &str) -> (found: bool)
    ensures
        found == is_target(name@),
{
    let names = list_targets();
    let mut i: usize = 0;
    while i < names.len()
        invariant
            i <= names@.len(),
            names@.len() == target_names().len(),
            forall|k: int| 0 <= k < names@.len() ==> (#[trigger] names@[k])@ == target_names()[k],
            forall|k: int| 0 <= k < i ==> #[trigger] target_names()[k] != name@,
        decreases names.len() - i,
    {
        if str_eq(names[i], name) {
            assert(target_names()[i as int] == name@);
            return true;
        }
        i += 1;
    }
    false
}

/// Checks that `target` is registered. Every registered name passes, and
/// every other string is refused with an error that carries it.
pub fn check_target(target: &str) -> (checked: core::result::Result<(), RunError>)
    ensures
        checked is Ok <==> is_target(target@),
        checked matches Err(e) ==> e@ == (RunErrorView::UnknownTarget { target: target@ }),
{
    if target_exists(target) {
        Ok(())
    } else {
        Err(RunError::UnknownTarget { target: String::from_str(target) })
    }
}

} // verus!
