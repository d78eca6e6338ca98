//! Brand colors for Ethereum clients.
use vstd::prelude::*;
use crate::text::{lowercase, str_eq, to_lowercase};

verus! {

/// The brand color of a lower-cased client name.
pub open spec fn brand_color(l: Seq<char>) -> Option<Seq<char>> {
    if l == "lighthouse"@ {
        Some("#9933FF"@)
    } else if l == "prysm"@ {
        Some("#22CC88"@)
    } else if l == "teku"@ {
        Some("#3366FF"@)
    } else if l == "nimbus"@ {
        Some("#CC9933"@)
    } else if l == "lodestar"@ {
        Some("#AA44FF"@)
    } else if l == "grandine"@ {
        Some("#FF6633"@)
    } else if l == "lambda"@ {
        Some("#9966FF"@)
    } else if l == "geth"@ {
        Some("#6699FF"@)
    } else if l == "nethermind"@ {
        Some("#33CCCC"@)
    } else if l == "besu"@ {
        Some("#009999"@)
    } else if l == "erigon"@ {
        Some("#66CC33"@)
    } else if l == "reth"@ {
        Some("#FF9966"@)
    } else if l == "mana"@ {
        Some("#CC66FF"@)
    } else if l == "charon"@ {
        Some("#6633FF"@)
    } else if l == "mevboost"@ || l == "mev-boost"@ || l == "mev_boost"@ {
        Some("#FF6699"@)
    } else {
        None
    }
}

/// Get brand color hex for a client (any case).
pub fn color(client: &str) -> (r: Option<&'static str>)
    ensures
        match (r, brand_color(lowercase(client@))) {
            (Some(a), Some(b)) => a@ == b,
            (None, None) => true,
            _ => false,
        },
{
    let l = to_lowercase(client);
    let l = l.as_str();
    if str_eq(l, "lighthouse") {
        Some("#9933FF")
    } else if str_eq(l, "prysm") {
        Some("#22CC88")
    } else if str_eq(l, "teku") {
        Some("#3366FF")
    } else if str_eq(l, "nimbus") {
        Some("#CC9933")
    } else if str_eq(l, "lodestar") {
        Some("#AA44FF")
    } else if str_eq(l, "grandine") {
        Some("#FF6633")
    } else if str_eq(l, "lambda") {
        Some("#9966FF")
    } else if str_eq(l, "geth") {
        Some("#6699FF")
    } else if str_eq(l, "nethermind") {
        Some("#33CCCC")
    } else if str_eq(l, "besu") {
        Some("#009999")
    } else if str_eq(l, "erigon") {
        Some("#66CC33")
    } else if str_eq(l, "reth") {
        Some("#FF9966")
    } else if str_eq(l, "mana") {
        Some("#CC66FF")
    } else if str_eq(l, "charon") {
        Some("#6633FF")
    } else if str_eq(l, "mevboost") || str_eq(l, "mev-boost") || str_eq(l, "mev_boost") {
        Some("#FF6699")
    } else {
        None
    }
}

} // verus!
