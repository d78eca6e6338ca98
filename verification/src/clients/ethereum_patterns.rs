//! Shared Ethereum log patterns used across multiple clients.
//!
//! Each rule set is a table of rows (pattern, color, bold); the rules built
//! from a table are those of its rows whose pattern compiles, in order.
use vstd::prelude::*;
use crate::clients::rows::{keep_valid, row_rule, semantic_rows, build_rules, semantic_rule};
use crate::colors::{ColorView, SemanticColor};
use crate::colorizer::rules_view;
use crate::pattern::regex_valid;
use crate::rule::Rule;

verus! {

/// The rows of: Rust-style log levels (ERROR, WARN, INFO, DEBUG, TRACE).
pub open spec fn rust_log_levels_table() -> Seq<(Seq<char>, ColorView, bool)> {
    seq![
        (r"\bERROR\b"@, ColorView::Semantic(SemanticColor::Error), true),
        (r"\bWARN\b"@, ColorView::Semantic(SemanticColor::Warn), true),
        (r"\bINFO\b"@, ColorView::Semantic(SemanticColor::Info), false),
        (r"\bDEBUG\b"@, ColorView::Semantic(SemanticColor::Debug), false),
        (r"\bTRACE\b"@, ColorView::Semantic(SemanticColor::Trace), false),
    ]
}

/// The rows of `rust_log_levels_table`.
fn rust_log_levels_rows() -> (r: Vec<(&'static str, SemanticColor, bool)>)
    ensures
        semantic_rows(r@) == rust_log_levels_table(),
{
    let r = vec![
        (r"\bERROR\b", SemanticColor::Error, true),
        (r"\bWARN\b", SemanticColor::Warn, true),
        (r"\bINFO\b", SemanticColor::Info, false),
        (r"\bDEBUG\b", SemanticColor::Debug, false),
        (r"\bTRACE\b", SemanticColor::Trace, false),
    ];
    assert(semantic_rows(r@) =~= rust_log_levels_table());
    r
}

/// Rust-style log levels (ERROR, WARN, INFO, DEBUG, TRACE).
pub fn rust_log_levels() -> (r: Vec<Rule>)
    ensures
        rules_view(r@) == keep_valid(rust_log_levels_table()),
{
    build_rules(&rust_log_levels_rows())
}

/// The rows of: Lighthouse-style log levels (CRIT, ERRO, WARN, INFO, DEBG, TRCE).
pub open spec fn lighthouse_log_levels_table() -> Seq<(Seq<char>, ColorView, bool)> {
    seq![
        (r"\bCRIT\b"@, ColorView::Semantic(SemanticColor::Error), true),
        (r"\bERRO\b"@, ColorView::Semantic(SemanticColor::Error), true),
        (r"\bWARN\b"@, ColorView::Semantic(SemanticColor::Warn), true),
        (r"\bINFO\b"@, ColorView::Semantic(SemanticColor::Info), false),
        (r"\bDEBG\b"@, ColorView::Semantic(SemanticColor::Debug), false),
        (r"\bTRCE\b"@, ColorView::Semantic(SemanticColor::Trace), false),
    ]
}

/// The rows of `lighthouse_log_levels_table`.
fn lighthouse_log_levels_rows() -> (r: Vec<(&'static str, SemanticColor, bool)>)
    ensures
        semantic_rows(r@) == lighthouse_log_levels_table(),
{
    let r = vec![
        (r"\bCRIT\b", SemanticColor::Error, true),
        (r"\bERRO\b", SemanticColor::Error, true),
        (r"\bWARN\b", SemanticColor::Warn, true),
        (r"\bINFO\b", SemanticColor::Info, false),
        (r"\bDEBG\b", SemanticColor::Debug, false),
        (r"\bTRCE\b", SemanticColor::Trace, false),
    ];
    assert(semantic_rows(r@) =~= lighthouse_log_levels_table());
    r
}

/// Lighthouse-style log levels (CRIT, ERRO, WARN, INFO, DEBG, TRCE).
pub fn lighthouse_log_levels() -> (r: Vec<Rule>)
    ensures
        rules_view(r@) == keep_valid(lighthouse_log_levels_table()),
{
    build_rules(&lighthouse_log_levels_rows())
}

/// The rows of: Nimbus-style log levels (FTL, ERR, WRN, INF, DBG, TRC).
pub open spec fn nimbus_log_levels_table() -> Seq<(Seq<char>, ColorView, bool)> {
    seq![
        (r"\bFTL\b"@, ColorView::Semantic(SemanticColor::Error), true),
        (r"\bERR\b"@, ColorView::Semantic(SemanticColor::Error), true),
        (r"\bWRN\b"@, ColorView::Semantic(SemanticColor::Warn), true),
        (r"\bINF\b"@, ColorView::Semantic(SemanticColor::Info), false),
        (r"\bDBG\b"@, ColorView::Semantic(SemanticColor::Debug), false),
        (r"\bTRC\b"@, ColorView::Semantic(SemanticColor::Trace), false),
    ]
}

/// The rows of `nimbus_log_levels_table`.
fn nimbus_log_levels_rows() -> (r: Vec<(&'static str, SemanticColor, bool)>)
    ensures
        semantic_rows(r@) == nimbus_log_levels_table(),
{
    let r = vec![
        (r"\bFTL\b", SemanticColor::Error, true),
        (r"\bERR\b", SemanticColor::Error, true),
        (r"\bWRN\b", SemanticColor::Warn, true),
        (r"\bINF\b", SemanticColor::Info, false),
        (r"\bDBG\b", SemanticColor::Debug, false),
        (r"\bTRC\b", SemanticColor::Trace, false),
    ];
    assert(semantic_rows(r@) =~= nimbus_log_levels_table());
    r
}

/// Nimbus-style log levels (FTL, ERR, WRN, INF, DBG, TRC).
pub fn nimbus_log_levels() -> (r: Vec<Rule>)
    ensures
        rules_view(r@) == keep_valid(nimbus_log_levels_table()),
{
    build_rules(&nimbus_log_levels_rows())
}

/// The rows of: Lodestar-style log levels (error/ERR, warn/WRN, info/INF, debug/DBG, verbose/VRB).
pub open spec fn lodestar_log_levels_table() -> Seq<(Seq<char>, ColorView, bool)> {
    seq![
        (r"\b(error|ERR)\b"@, ColorView::Semantic(SemanticColor::Error), true),
        (r"\b(warn|WRN)\b"@, ColorView::Semantic(SemanticColor::Warn), true),
        (r"\b(info|INF)\b"@, ColorView::Semantic(SemanticColor::Info), false),
        (r"\b(debug|DBG)\b"@, ColorView::Semantic(SemanticColor::Debug), false),
        (r"\b(verbose|VRB|trace)\b"@, ColorView::Semantic(SemanticColor::Trace), false),
    ]
}

/// The rows of `lodestar_log_levels_table`.
fn lodestar_log_levels_rows() -> (r: Vec<(&'static str, SemanticColor, bool)>)
    ensures
        semantic_rows(r@) == lodestar_log_levels_table(),
{
    let r = vec![
        (r"\b(error|ERR)\b", SemanticColor::Error, true),
        (r"\b(warn|WRN)\b", SemanticColor::Warn, true),
        (r"\b(info|INF)\b", SemanticColor::Info, false),
        (r"\b(debug|DBG)\b", SemanticColor::Debug, false),
        (r"\b(verbose|VRB|trace)\b", SemanticColor::Trace, false),
    ];
    assert(semantic_rows(r@) =~= lodestar_log_levels_table());
    r
}

/// Lodestar-style log levels (error/ERR, warn/WRN, info/INF, debug/DBG, verbose/VRB).
pub fn lodestar_log_levels() -> (r: Vec<Rule>)
    ensures
        rules_view(r@) == keep_valid(lodestar_log_levels_table()),
{
    build_rules(&lodestar_log_levels_rows())
}

/// The rows of: Prysm-style log levels (level=error, level=warning, etc.).
pub open spec fn prysm_log_levels_table() -> Seq<(Seq<char>, ColorView, bool)> {
    seq![
        (r"level=error"@, ColorView::Semantic(SemanticColor::Error), true),
        (r"level=warning"@, ColorView::Semantic(SemanticColor::Warn), true),
        (r"level=info"@, ColorView::Semantic(SemanticColor::Info), false),
        (r"level=debug"@, ColorView::Semantic(SemanticColor::Debug), false),
        (r"level=trace"@, ColorView::Semantic(SemanticColor::Trace), false),
    ]
}

/// The rows of `prysm_log_levels_table`.
fn prysm_log_levels_rows() -> (r: Vec<(&'static str, SemanticColor, bool)>)
    ensures
        semantic_rows(r@) == prysm_log_levels_table(),
{
    let r = vec![
        (r"level=error", SemanticColor::Error, true),
        (r"level=warning", SemanticColor::Warn, true),
        (r"level=info", SemanticColor::Info, false),
        (r"level=debug", SemanticColor::Debug, false),
        (r"level=trace", SemanticColor::Trace, false),
    ];
    assert(semantic_rows(r@) =~= prysm_log_levels_table());
    r
}

/// Prysm-style log levels (level=error, level=warning, etc.).
pub fn prysm_log_levels() -> (r: Vec<Rule>)
    ensures
        rules_view(r@) == keep_valid(prysm_log_levels_table()),
{
    build_rules(&prysm_log_levels_rows())
}

/// The rows of: .NET-style log levels (Error, Warn, Info, Debug, Trace).
pub open spec fn dotnet_log_levels_table() -> Seq<(Seq<char>, ColorView, bool)> {
    seq![
        (r"\bError\b"@, ColorView::Semantic(SemanticColor::Error), true),
        (r"\bWarn\b"@, ColorView::Semantic(SemanticColor::Warn), true),
        (r"\bInfo\b"@, ColorView::Semantic(SemanticColor::Info), false),
        (r"\bDebug\b"@, ColorView::Semantic(SemanticColor::Debug), false),
        (r"\bTrace\b"@, ColorView::Semantic(SemanticColor::Trace), false),
    ]
}

/// The rows of `dotnet_log_levels_table`.
fn dotnet_log_levels_rows() -> (r: Vec<(&'static str, SemanticColor, bool)>)
    ensures
        semantic_rows(r@) == dotnet_log_levels_table(),
{
    let r = vec![
        (r"\bError\b", SemanticColor::Error, true),
        (r"\bWarn\b", SemanticColor::Warn, true),
        (r"\bInfo\b", SemanticColor::Info, false),
        (r"\bDebug\b", SemanticColor::Debug, false),
        (r"\bTrace\b", SemanticColor::Trace, false),
    ];
    assert(semantic_rows(r@) =~= dotnet_log_levels_table());
    r
}

/// .NET-style log levels (Error, Warn, Info, Debug, Trace).
pub fn dotnet_log_levels() -> (r: Vec<Rule>)
    ensures
        rules_view(r@) == keep_valid(dotnet_log_levels_table()),
{
    build_rules(&dotnet_log_levels_rows())
}

/// The rows of: Erigon-style log levels (lvl=eror, lvl=warn, etc.).
pub open spec fn erigon_log_levels_table() -> Seq<(Seq<char>, ColorView, bool)> {
    seq![
        (r"lvl=eror"@, ColorView::Semantic(SemanticColor::Error), true),
        (r"lvl=warn"@, ColorView::Semantic(SemanticColor::Warn), true),
        (r"lvl=info"@, ColorView::Semantic(SemanticColor::Info), false),
        (r"lvl=dbug"@, ColorView::Semantic(SemanticColor::Debug), false),
        (r"lvl=trce"@, ColorView::Semantic(SemanticColor::Trace), false),
    ]
}

/// The rows of `erigon_log_levels_table`.
fn erigon_log_levels_rows() -> (r: Vec<(&'static str, SemanticColor, bool)>)
    ensures
        semantic_rows(r@) == erigon_log_levels_table(),
{
    let r = vec![
        (r"lvl=eror", SemanticColor::Error, true),
        (r"lvl=warn", SemanticColor::Warn, true),
        (r"lvl=info", SemanticColor::Info, false),
        (r"lvl=dbug", SemanticColor::Debug, false),
        (r"lvl=trce", SemanticColor::Trace, false),
    ];
    assert(semantic_rows(r@) =~= erigon_log_levels_table());
    r
}

/// Erigon-style log levels (lvl=eror, lvl=warn, etc.).
pub fn erigon_log_levels() -> (r: Vec<Rule>)
    ensures
        rules_view(r@) == keep_valid(erigon_log_levels_table()),
{
    build_rules(&erigon_log_levels_rows())
}

/// The rows of: Elixir Logger-style log levels ([error], [warning], [info], [debug]).
pub open spec fn elixir_log_levels_table() -> Seq<(Seq<char>, ColorView, bool)> {
    seq![
        (r"\[error\]"@, ColorView::Semantic(SemanticColor::Error), true),
        (r"\[warning\]"@, ColorView::Semantic(SemanticColor::Warn), true),
        (r"\[info\]"@, ColorView::Semantic(SemanticColor::Info), false),
        (r"\[debug\]"@, ColorView::Semantic(SemanticColor::Debug), false),
    ]
}

/// The rows of `elixir_log_levels_table`.
fn elixir_log_levels_rows() -> (r: Vec<(&'static str, SemanticColor, bool)>)
    ensures
        semantic_rows(r@) == elixir_log_levels_table(),
{
    let r = vec![
        (r"\[error\]", SemanticColor::Error, true),
        (r"\[warning\]", SemanticColor::Warn, true),
        (r"\[info\]", SemanticColor::Info, false),
        (r"\[debug\]", SemanticColor::Debug, false),
    ];
    assert(semantic_rows(r@) =~= elixir_log_levels_table());
    r
}

/// Elixir Logger-style log levels ([error], [warning], [info], [debug]).
pub fn elixir_log_levels() -> (r: Vec<Rule>)
    ensures
        rules_view(r@) == keep_valid(elixir_log_levels_table()),
{
    build_rules(&elixir_log_levels_rows())
}

/// The rule for `hash` values; `None` only if its pattern does not compile.
pub fn hash_rule() -> (r: Option<Rule>)
    ensures
        r is Some <==> regex_valid(r"0x[a-fA-F0-9]{8,}"@),
        r matches Some(x) ==> x@ == row_rule((r"0x[a-fA-F0-9]{8,}"@, ColorView::Semantic(SemanticColor::Hash), false)),
{
    semantic_rule(r"0x[a-fA-F0-9]{8,}", SemanticColor::Hash, false)
}

/// The rule for `address` values; `None` only if its pattern does not compile.
pub fn address_rule() -> (r: Option<Rule>)
    ensures
        r is Some <==> regex_valid(r"0x[a-fA-F0-9]{40}"@),
        r matches Some(x) ==> x@ == row_rule((r"0x[a-fA-F0-9]{40}"@, ColorView::Semantic(SemanticColor::Address), false)),
{
    semantic_rule(r"0x[a-fA-F0-9]{40}", SemanticColor::Address, false)
}

/// The rule for `number` values; `None` only if its pattern does not compile.
pub fn number_rule() -> (r: Option<Rule>)
    ensures
        r is Some <==> regex_valid(r"\b\d+(\.\d+)?\b"@),
        r matches Some(x) ==> x@ == row_rule((r"\b\d+(\.\d+)?\b"@, ColorView::Semantic(SemanticColor::Number), false)),
{
    semantic_rule(r"\b\d+(\.\d+)?\b", SemanticColor::Number, false)
}

/// The rule for `slot` values; `None` only if its pattern does not compile.
pub fn slot_rule() -> (r: Option<Rule>)
    ensures
        r is Some <==> regex_valid(r"\bslot[=:\s]+(\d+)"@),
        r matches Some(x) ==> x@ == row_rule((r"\bslot[=:\s]+(\d+)"@, ColorView::Semantic(SemanticColor::Slot), false)),
{
    semantic_rule(r"\bslot[=:\s]+(\d+)", SemanticColor::Slot, false)
}

/// The rule for `epoch` values; `None` only if its pattern does not compile.
pub fn epoch_rule() -> (r: Option<Rule>)
    ensures
        r is Some <==> regex_valid(r"\bepoch[=:\s]+(\d+)"@),
        r matches Some(x) ==> x@ == row_rule((r"\bepoch[=:\s]+(\d+)"@, ColorView::Semantic(SemanticColor::Epoch), false)),
{
    semantic_rule(r"\bepoch[=:\s]+(\d+)", SemanticColor::Epoch, false)
}

/// The rule for `peers` values; `None` only if its pattern does not compile.
pub fn peers_rule() -> (r: Option<Rule>)
    ensures
        r is Some <==> regex_valid(r"\bpeers?[=:\s]+(\d+)"@),
        r matches Some(x) ==> x@ == row_rule((r"\bpeers?[=:\s]+(\d+)"@, ColorView::Semantic(SemanticColor::PeerId), false)),
{
    semantic_rule(r"\bpeers?[=:\s]+(\d+)", SemanticColor::PeerId, false)
}

/// The rule for `syncing` values; `None` only if its pattern does not compile.
pub fn syncing_rule() -> (r: Option<Rule>)
    ensures
        r is Some <==> regex_valid(r"\b(Syncing|Synced|syncing|synced)\b"@),
        r matches Some(x) ==> x@ == row_rule((r"\b(Syncing|Synced|syncing|synced)\b"@, ColorView::Semantic(SemanticColor::Syncing), false)),
{
    semantic_rule(r"\b(Syncing|Synced|syncing|synced)\b", SemanticColor::Syncing, false)
}

/// The rule for `success` values; `None` only if its pattern does not compile.
pub fn success_rule() -> (r: Option<Rule>)
    ensures
        r is Some <==> regex_valid(r"\b(success|valid|verified)\b"@),
        r matches Some(x) ==> x@ == row_rule((r"\b(success|valid|verified)\b"@, ColorView::Semantic(SemanticColor::Success), false)),
{
    semantic_rule(r"\b(success|valid|verified)\b", SemanticColor::Success, false)
}

/// The rule for `failure` values; `None` only if its pattern does not compile.
pub fn failure_rule() -> (r: Option<Rule>)
    ensures
        r is Some <==> regex_valid(r"\b(failed|invalid|error|timeout|rejected)\b"@),
        r matches Some(x) ==> x@ == row_rule((r"\b(failed|invalid|error|timeout|rejected)\b"@, ColorView::Semantic(SemanticColor::Failure), false)),
{
    semantic_rule(r"\b(failed|invalid|error|timeout|rejected)\b", SemanticColor::Failure, false)
}

/// The rule for `validator` values; `None` only if its pattern does not compile.
pub fn validator_rule() -> (r: Option<Rule>)
    ensures
        r is Some <==> regex_valid(r"\b(validator|idx|validator_index)[=:\s]+(\d+)"@),
        r matches Some(x) ==> x@ == row_rule((r"\b(validator|idx|validator_index)[=:\s]+(\d+)"@, ColorView::Semantic(SemanticColor::Validator), false)),
{
    semantic_rule(r"\b(validator|idx|validator_index)[=:\s]+(\d+)", SemanticColor::Validator, false)
}

/// The rule for `pubkey` values; `None` only if its pattern does not compile.
pub fn pubkey_rule() -> (r: Option<Rule>)
    ensures
        r is Some <==> regex_valid(r"pubkey[=:\s]+0x[a-fA-F0-9]{8,}"@),
        r matches Some(x) ==> x@ == row_rule((r"pubkey[=:\s]+0x[a-fA-F0-9]{8,}"@, ColorView::Semantic(SemanticColor::Pubkey), false)),
{
    semantic_rule(r"pubkey[=:\s]+0x[a-fA-F0-9]{8,}", SemanticColor::Pubkey, false)
}

/// The rule for `duty` values; `None` only if its pattern does not compile.
pub fn duty_rule() -> (r: Option<Rule>)
    ensures
        r is Some <==> regex_valid(r"\b(attester|proposer|sync_committee|aggregator|attesting|proposing)\b"@),
        r matches Some(x) ==> x@ == row_rule((r"\b(attester|proposer|sync_committee|aggregator|attesting|proposing)\b"@, ColorView::Semantic(SemanticColor::Duty), false)),
{
    semantic_rule(r"\b(attester|proposer|sync_committee|aggregator|attesting|proposing)\b", SemanticColor::Duty, false)
}

/// The rule for `committee` values; `None` only if its pattern does not compile.
pub fn committee_rule() -> (r: Option<Rule>)
    ensures
        r is Some <==> regex_valid(r"\b(committee|subnet)[=:\s]+(\d+)"@),
        r matches Some(x) ==> x@ == row_rule((r"\b(committee|subnet)[=:\s]+(\d+)"@, ColorView::Semantic(SemanticColor::Committee), false)),
{
    semantic_rule(r"\b(committee|subnet)[=:\s]+(\d+)", SemanticColor::Committee, false)
}

/// The rule for `finality` values; `None` only if its pattern does not compile.
pub fn finality_rule() -> (r: Option<Rule>)
    ensures
        r is Some <==> regex_valid(r"\b(finalized|justified|finality|checkpoint)\b"@),
        r matches Some(x) ==> x@ == row_rule((r"\b(finalized|justified|finality|checkpoint)\b"@, ColorView::Semantic(SemanticColor::Finality), false)),
{
    semantic_rule(r"\b(finalized|justified|finality|checkpoint)\b", SemanticColor::Finality, false)
}

/// The rule for `root` values; `None` only if its pattern does not compile.
pub fn root_rule() -> (r: Option<Rule>)
    ensures
        r is Some <==> regex_valid(r"(state_root|block_root|root)[=:\s]+0x[a-fA-F0-9]{64}"@),
        r matches Some(x) ==> x@ == row_rule((r"(state_root|block_root|root)[=:\s]+0x[a-fA-F0-9]{64}"@, ColorView::Semantic(SemanticColor::Root), false)),
{
    semantic_rule(r"(state_root|block_root|root)[=:\s]+0x[a-fA-F0-9]{64}", SemanticColor::Root, false)
}

/// The rule for `attestation` values; `None` only if its pattern does not compile.
pub fn attestation_rule() -> (r: Option<Rule>)
    ensures
        r is Some <==> regex_valid(r"\b(attestation|attest|attested)\b"@),
        r matches Some(x) ==> x@ == row_rule((r"\b(attestation|attest|attested)\b"@, ColorView::Semantic(SemanticColor::Attestation), false)),
{
    semantic_rule(r"\b(attestation|attest|attested)\b", SemanticColor::Attestation, false)
}

/// The rule for `mev_value` values; `None` only if its pattern does not compile.
pub fn mev_value_rule() -> (r: Option<Rule>)
    ensures
        r is Some <==> regex_valid(r"(\d+\.?\d*)\s*(ETH|Gwei|gwei|wei)"@),
        r matches Some(x) ==> x@ == row_rule((r"(\d+\.?\d*)\s*(ETH|Gwei|gwei|wei)"@, ColorView::Semantic(SemanticColor::MevValue), true)),
{
    semantic_rule(r"(\d+\.?\d*)\s*(ETH|Gwei|gwei|wei)", SemanticColor::MevValue, true)
}

/// The rule for `relay` values; `None` only if its pattern does not compile.
pub fn relay_rule() -> (r: Option<Rule>)
    ensures
        r is Some <==> regex_valid(r"\b(flashbots|bloxroute|blocknative|eden|manifold|ultrasound|agnostic)\b"@),
        r matches Some(x) ==> x@ == row_rule((r"\b(flashbots|bloxroute|blocknative|eden|manifold|ultrasound|agnostic)\b"@, ColorView::Semantic(SemanticColor::Relay), false)),
{
    semantic_rule(r"\b(flashbots|bloxroute|blocknative|eden|manifold|ultrasound|agnostic)\b", SemanticColor::Relay, false)
}

/// The rule for `builder` values; `None` only if its pattern does not compile.
pub fn builder_rule() -> (r: Option<Rule>)
    ensures
        r is Some <==> regex_valid(r"builder[=:\s]+(\S+)"@),
        r matches Some(x) ==> x@ == row_rule((r"builder[=:\s]+(\S+)"@, ColorView::Semantic(SemanticColor::Builder), false)),
{
    semantic_rule(r"builder[=:\s]+(\S+)", SemanticColor::Builder, false)
}

/// The rows of: Common consensus layer patterns (validators, duties, attestations, etc.).
pub open spec fn consensus_patterns_table() -> Seq<(Seq<char>, ColorView, bool)> {
    seq![
        (r"\bslot[=:\s]+(\d+)"@, ColorView::Semantic(SemanticColor::Slot), false),
        (r"\bepoch[=:\s]+(\d+)"@, ColorView::Semantic(SemanticColor::Epoch), false),
        (r"0x[a-fA-F0-9]{40}"@, ColorView::Semantic(SemanticColor::Address), false),
        (r"0x[a-fA-F0-9]{8,}"@, ColorView::Semantic(SemanticColor::Hash), false),
        (r"\bpeers?[=:\s]+(\d+)"@, ColorView::Semantic(SemanticColor::PeerId), false),
        (r"\b(Syncing|Synced|syncing|synced)\b"@, ColorView::Semantic(SemanticColor::Syncing), false),
        (r"\b(success|valid|verified)\b"@, ColorView::Semantic(SemanticColor::Success), false),
        (r"\b(failed|invalid|error|timeout|rejected)\b"@, ColorView::Semantic(SemanticColor::Failure), false),
        (r"\b(validator|idx|validator_index)[=:\s]+(\d+)"@, ColorView::Semantic(SemanticColor::Validator), false),
        (r"pubkey[=:\s]+0x[a-fA-F0-9]{8,}"@, ColorView::Semantic(SemanticColor::Pubkey), false),
        (r"\b(attester|proposer|sync_committee|aggregator|attesting|proposing)\b"@, ColorView::Semantic(SemanticColor::Duty), false),
        (r"\b(committee|subnet)[=:\s]+(\d+)"@, ColorView::Semantic(SemanticColor::Committee), false),
        (r"\b(finalized|justified|finality|checkpoint)\b"@, ColorView::Semantic(SemanticColor::Finality), false),
        (r"(state_root|block_root|root)[=:\s]+0x[a-fA-F0-9]{64}"@, ColorView::Semantic(SemanticColor::Root), false),
        (r"\b(attestation|attest|attested)\b"@, ColorView::Semantic(SemanticColor::Attestation), false),
        (r"\b\d+(\.\d+)?\b"@, ColorView::Semantic(SemanticColor::Number), false),
    ]
}

/// The rows of `consensus_patterns_table`.
fn consensus_patterns_rows() -> (r: Vec<(&'static str, SemanticColor, bool)>)
    ensures
        semantic_rows(r@) == consensus_patterns_table(),
{
    let r = vec![
        (r"\bslot[=:\s]+(\d+)", SemanticColor::Slot, false),
        (r"\bepoch[=:\s]+(\d+)", SemanticColor::Epoch, false),
        (r"0x[a-fA-F0-9]{40}", SemanticColor::Address, false),
        (r"0x[a-fA-F0-9]{8,}", SemanticColor::Hash, false),
        (r"\bpeers?[=:\s]+(\d+)", SemanticColor::PeerId, false),
        (r"\b(Syncing|Synced|syncing|synced)\b", SemanticColor::Syncing, false),
        (r"\b(success|valid|verified)\b", SemanticColor::Success, false),
        (r"\b(failed|invalid|error|timeout|rejected)\b", SemanticColor::Failure, false),
        (r"\b(validator|idx|validator_index)[=:\s]+(\d+)", SemanticColor::Validator, false),
        (r"pubkey[=:\s]+0x[a-fA-F0-9]{8,}", SemanticColor::Pubkey, false),
        (r"\b(attester|proposer|sync_committee|aggregator|attesting|proposing)\b", SemanticColor::Duty, false),
        (r"\b(committee|subnet)[=:\s]+(\d+)", SemanticColor::Committee, false),
        (r"\b(finalized|justified|finality|checkpoint)\b", SemanticColor::Finality, false),
        (r"(state_root|block_root|root)[=:\s]+0x[a-fA-F0-9]{64}", SemanticColor::Root, false),
        (r"\b(attestation|attest|attested)\b", SemanticColor::Attestation, false),
        (r"\b\d+(\.\d+)?\b", SemanticColor::Number, false),
    ];
    assert(semantic_rows(r@) =~= consensus_patterns_table());
    r
}

/// Common consensus layer patterns (validators, duties, attestations, etc.).
pub fn consensus_patterns() -> (r: Vec<Rule>)
    ensures
        rules_view(r@) == keep_valid(consensus_patterns_table()),
{
    build_rules(&consensus_patterns_rows())
}

/// The rows of: Common execution layer patterns (blocks, forkchoice, etc.).
pub open spec fn execution_patterns_table() -> Seq<(Seq<char>, ColorView, bool)> {
    seq![
        (r"0x[a-fA-F0-9]{40}"@, ColorView::Semantic(SemanticColor::Address), false),
        (r"0x[a-fA-F0-9]{8,}"@, ColorView::Semantic(SemanticColor::Hash), false),
        (r"\bpeers?[=:\s]+(\d+)"@, ColorView::Semantic(SemanticColor::PeerId), false),
        (r"\b(Syncing|Synced|syncing|synced)\b"@, ColorView::Semantic(SemanticColor::Syncing), false),
        (r"\b(success|valid|verified)\b"@, ColorView::Semantic(SemanticColor::Success), false),
        (r"\b(failed|invalid|error|timeout|rejected)\b"@, ColorView::Semantic(SemanticColor::Failure), false),
        (r"(state_root|block_root|root)[=:\s]+0x[a-fA-F0-9]{64}"@, ColorView::Semantic(SemanticColor::Root), false),
        (r"\b(finalized|justified|finality|checkpoint)\b"@, ColorView::Semantic(SemanticColor::Finality), false),
        (r"\b\d+(\.\d+)?\b"@, ColorView::Semantic(SemanticColor::Number), false),
    ]
}

/// The rows of `execution_patterns_table`.
fn execution_patterns_rows() -> (r: Vec<(&'static str, SemanticColor, bool)>)
    ensures
        semantic_rows(r@) == execution_patterns_table(),
{
    let r = vec![
        (r"0x[a-fA-F0-9]{40}", SemanticColor::Address, false),
        (r"0x[a-fA-F0-9]{8,}", SemanticColor::Hash, false),
        (r"\bpeers?[=:\s]+(\d+)", SemanticColor::PeerId, false),
        (r"\b(Syncing|Synced|syncing|synced)\b", SemanticColor::Syncing, false),
        (r"\b(success|valid|verified)\b", SemanticColor::Success, false),
        (r"\b(failed|invalid|error|timeout|rejected)\b", SemanticColor::Failure, false),
        (r"(state_root|block_root|root)[=:\s]+0x[a-fA-F0-9]{64}", SemanticColor::Root, false),
        (r"\b(finalized|justified|finality|checkpoint)\b", SemanticColor::Finality, false),
        (r"\b\d+(\.\d+)?\b", SemanticColor::Number, false),
    ];
    assert(semantic_rows(r@) =~= execution_patterns_table());
    r
}

/// Common execution layer patterns (blocks, forkchoice, etc.).
pub fn execution_patterns() -> (r: Vec<Rule>)
    ensures
        rules_view(r@) == keep_valid(execution_patterns_table()),
{
    build_rules(&execution_patterns_rows())
}

/// The rows of: MEV/relay patterns.
pub open spec fn mev_patterns_table() -> Seq<(Seq<char>, ColorView, bool)> {
    seq![
        (r"(\d+\.?\d*)\s*(ETH|Gwei|gwei|wei)"@, ColorView::Semantic(SemanticColor::MevValue), true),
        (r"\b(flashbots|bloxroute|blocknative|eden|manifold|ultrasound|agnostic)\b"@, ColorView::Semantic(SemanticColor::Relay), false),
        (r"builder[=:\s]+(\S+)"@, ColorView::Semantic(SemanticColor::Builder), false),
    ]
}

/// The rows of `mev_patterns_table`.
fn mev_patterns_rows() -> (r: Vec<(&'static str, SemanticColor, bool)>)
    ensures
        semantic_rows(r@) == mev_patterns_table(),
{
    let r = vec![
        (r"(\d+\.?\d*)\s*(ETH|Gwei|gwei|wei)", SemanticColor::MevValue, true),
        (r"\b(flashbots|bloxroute|blocknative|eden|manifold|ultrasound|agnostic)\b", SemanticColor::Relay, false),
        (r"builder[=:\s]+(\S+)", SemanticColor::Builder, false),
    ];
    assert(semantic_rows(r@) =~= mev_patterns_table());
    r
}

/// MEV/relay patterns.
pub fn mev_patterns() -> (r: Vec<Rule>)
    ensures
        rules_view(r@) == keep_valid(mev_patterns_table()),
{
    build_rules(&mev_patterns_rows())
}

} // verus!
