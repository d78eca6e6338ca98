//! Ethereum client configurations.
//!
//! Supports 15 clients across consensus, execution, and middleware layers.
pub mod ethereum_patterns;
pub mod rows;

use vstd::prelude::*;
use crate::clients::ethereum_patterns as ep;
use crate::clients::rows::{append_rules, build_rules, color_rule, keep_valid, lemma_keep_valid_concat, push_rule, semantic_rows};
use crate::colorizer::rules_view;
use crate::colors::{Color, ColorView, SemanticColor};

use crate::rule::Rule;
use crate::category::Category;
use crate::program::{ProgramInfoView, ProgramView, SimpleProgram};
use crate::text::{lowercase, owned, push_str, str_eq, to_lowercase};

verus! {

/// All supported Ethereum clients.
#[derive(Debug, Clone, Copy, PartialEq, Eq, Hash, Structural)]
pub enum Client {
    Lighthouse,
    Prysm,
    Teku,
    Nimbus,
    Lodestar,
    Grandine,
    Lambda,
    Geth,
    Nethermind,
    Besu,
    Erigon,
    Reth,
    Mana,
    Charon,
    MevBoost,
}

/// Layer type for a client.
#[derive(Debug, Clone, Copy, PartialEq, Eq, Structural)]
pub enum Layer {
    Consensus,
    Execution,
    Full,
    Middleware,
}

/// Client metadata.
#[derive(Debug, Clone)]
pub struct ClientInfo {
    pub name: &'static str,
    pub description: &'static str,
    pub layer: Layer,
    pub language: &'static str,
    pub website: &'static str,
}

/// The metadata of a client: name, description, layer, language, website.
pub open spec fn client_info_spec(c: Client) -> (Seq<char>, Seq<char>, Layer, Seq<char>, Seq<char>) {
    match c {
        Client::Lighthouse => ("Lighthouse"@, "Ethereum consensus client in Rust"@, Layer::Consensus, "Rust"@, "https://lighthouse.sigmaprime.io/"@),
        Client::Prysm => ("Prysm"@, "Ethereum consensus client in Go"@, Layer::Consensus, "Go"@, "https://prysmaticlabs.com/"@),
        Client::Teku => ("Teku"@, "Ethereum consensus client in Java"@, Layer::Consensus, "Java"@, "https://consensys.net/knowledge-base/ethereum-2/teku/"@),
        Client::Nimbus => ("Nimbus"@, "Ethereum consensus client in Nim"@, Layer::Consensus, "Nim"@, "https://nimbus.team/"@),
        Client::Lodestar => ("Lodestar"@, "Ethereum consensus client in TypeScript"@, Layer::Consensus, "TypeScript"@, "https://lodestar.chainsafe.io/"@),
        Client::Grandine => ("Grandine"@, "High-performance consensus client in Rust"@, Layer::Consensus, "Rust"@, "https://grandine.io/"@),
        Client::Lambda => ("Lambda"@, "Ethereum consensus client in Elixir"@, Layer::Consensus, "Elixir"@, "https://github.com/lambdaclass/lambda_ethereum_consensus"@),
        Client::Geth => ("Geth"@, "Go Ethereum - the official Go implementation"@, Layer::Execution, "Go"@, "https://geth.ethereum.org/"@),
        Client::Nethermind => ("Nethermind"@, "Ethereum client in .NET"@, Layer::Execution, ".NET"@, "https://nethermind.io/"@),
        Client::Besu => ("Besu"@, "Hyperledger Besu - enterprise Ethereum client"@, Layer::Execution, "Java"@, "https://besu.hyperledger.org/"@),
        Client::Erigon => ("Erigon"@, "Efficiency-focused Ethereum client"@, Layer::Execution, "Go"@, "https://github.com/erigontech/erigon"@),
        Client::Reth => ("Reth"@, "Modular Ethereum client in Rust by Paradigm"@, Layer::Execution, "Rust"@, "https://paradigmxyz.github.io/reth/"@),
        Client::Mana => ("Mana"@, "Full Ethereum client (EL+CL) in Elixir with distributed features"@, Layer::Full, "Elixir"@, "https://github.com/axol-io/mana"@),
        Client::Charon => ("Charon"@, "Obol distributed validator middleware"@, Layer::Middleware, "Go"@, "https://obol.tech/"@),
        Client::MevBoost => ("MEV-Boost"@, "Flashbots MEV relay"@, Layer::Middleware, "Go"@, "https://boost.flashbots.net/"@),
    }
}

/// The layer of a client.
pub open spec fn layer_of(c: Client) -> Layer {
    client_info_spec(c).2
}

/// All clients, consensus first, then execution, then middleware.
pub open spec fn all_clients() -> Seq<Client> {
    seq![
        Client::Lighthouse,
        Client::Prysm,
        Client::Teku,
        Client::Nimbus,
        Client::Lodestar,
        Client::Grandine,
        Client::Lambda,
        Client::Geth,
        Client::Nethermind,
        Client::Besu,
        Client::Erigon,
        Client::Reth,
        Client::Mana,
        Client::Charon,
        Client::MevBoost,
    ]
}

/// The clients of a sequence that are in a layer, in order.
pub open spec fn clients_in_layer(cs: Seq<Client>, layer: Layer) -> Seq<Client>
    decreases cs.len(),
{
    if cs.len() == 0 {
        Seq::empty()
    } else if layer_of(cs.last()) == layer {
        clients_in_layer(cs.drop_last(), layer).push(cs.last())
    } else {
        clients_in_layer(cs.drop_last(), layer)
    }
}

/// The client a lower-cased name stands for.
pub open spec fn client_from_lower(l: Seq<char>) -> Option<Client> {
    if l == "lighthouse"@ {
        Some(Client::Lighthouse)
    } else if l == "prysm"@ {
        Some(Client::Prysm)
    } else if l == "teku"@ {
        Some(Client::Teku)
    } else if l == "nimbus"@ {
        Some(Client::Nimbus)
    } else if l == "lodestar"@ {
        Some(Client::Lodestar)
    } else if l == "grandine"@ {
        Some(Client::Grandine)
    } else if l == "lambda"@ {
        Some(Client::Lambda)
    } else if l == "geth"@ {
        Some(Client::Geth)
    } else if l == "nethermind"@ {
        Some(Client::Nethermind)
    } else if l == "besu"@ {
        Some(Client::Besu)
    } else if l == "erigon"@ {
        Some(Client::Erigon)
    } else if l == "reth"@ {
        Some(Client::Reth)
    } else if l == "mana"@ {
        Some(Client::Mana)
    } else if l == "charon"@ {
        Some(Client::Charon)
    } else if l == "mev-boost"@ || l == "mevboost"@ || l == "mev_boost"@ {
        Some(Client::MevBoost)
    } else {
        None
    }
}

/// The rule table of a client.
pub open spec fn client_table(c: Client) -> Seq<(Seq<char>, ColorView, bool)> {
    match c {
        Client::Lighthouse => lighthouse_table(),
        Client::Prysm => prysm_table(),
        Client::Teku => teku_table(),
        Client::Nimbus => nimbus_table(),
        Client::Lodestar => lodestar_table(),
        Client::Grandine => grandine_table(),
        Client::Lambda => lambda_table(),
        Client::Geth => geth_table(),
        Client::Nethermind => nethermind_table(),
        Client::Besu => besu_table(),
        Client::Erigon => erigon_table(),
        Client::Reth => reth_table(),
        Client::Mana => mana_table(),
        Client::Charon => charon_table(),
        Client::MevBoost => mevboost_table(),
    }
}

impl Client {
    /// Get all clients.
    pub fn all() -> (r: Vec<Client>)
        ensures
            r@ == all_clients(),
    {
        let r = vec![
            Client::Lighthouse,
            Client::Prysm,
            Client::Teku,
            Client::Nimbus,
            Client::Lodestar,
            Client::Grandine,
            Client::Lambda,
            Client::Geth,
            Client::Nethermind,
            Client::Besu,
            Client::Erigon,
            Client::Reth,
            Client::Mana,
            Client::Charon,
            Client::MevBoost,
        ];
        assert(r@ =~= all_clients());
        r
    }

    /// Get clients by layer, in the order of `all`.
    pub fn by_layer(layer: Layer) -> (r: Vec<Client>)
        ensures
            r@ == clients_in_layer(all_clients(), layer),
    {
        let all = Client::all();
        let mut r: Vec<Client> = Vec::new();
        let mut i: usize = 0;
        while i < all.len()
            invariant
                i <= all@.len(),
                all@ == all_clients(),
                r@ == clients_in_layer(all@.take(i as int), layer),
            decreases all@.len() - i,
        {
            let c = all[i];
            proof {
                let q = all@.take(i + 1);
                assert(q.drop_last() =~= all@.take(i as int));
                assert(q.last() == c);
            }
            if c.info().layer == layer {
                r.push(c);
            }
            i += 1;
        }
        assert(all@.take(all@.len() as int) =~= all@);
        r
    }

    /// Get client info.
    pub fn info(&self) -> (r: ClientInfo)
        ensures
            (r.name@, r.description@, r.layer, r.language@, r.website@) == client_info_spec(*self),
    {
        match self {
            Client::Lighthouse => ClientInfo {
                name: "Lighthouse",
                description: "Ethereum consensus client in Rust",
                layer: Layer::Consensus,
                language: "Rust",
                website: "https://lighthouse.sigmaprime.io/",
            },
            Client::Prysm => ClientInfo {
                name: "Prysm",
                description: "Ethereum consensus client in Go",
                layer: Layer::Consensus,
                language: "Go",
                website: "https://prysmaticlabs.com/",
            },
            Client::Teku => ClientInfo {
                name: "Teku",
                description: "Ethereum consensus client in Java",
                layer: Layer::Consensus,
                language: "Java",
                website: "https://consensys.net/knowledge-base/ethereum-2/teku/",
            },
            Client::Nimbus => ClientInfo {
                name: "Nimbus",
                description: "Ethereum consensus client in Nim",
                layer: Layer::Consensus,
                language: "Nim",
                website: "https://nimbus.team/",
            },
            Client::Lodestar => ClientInfo {
                name: "Lodestar",
                description: "Ethereum consensus client in TypeScript",
                layer: Layer::Consensus,
                language: "TypeScript",
                website: "https://lodestar.chainsafe.io/",
            },
            Client::Grandine => ClientInfo {
                name: "Grandine",
                description: "High-performance consensus client in Rust",
                layer: Layer::Consensus,
                language: "Rust",
                website: "https://grandine.io/",
            },
            Client::Lambda => ClientInfo {
                name: "Lambda",
                description: "Ethereum consensus client in Elixir",
                layer: Layer::Consensus,
                language: "Elixir",
                website: "https://github.com/lambdaclass/lambda_ethereum_consensus",
            },
            Client::Geth => ClientInfo {
                name: "Geth",
                description: "Go Ethereum - the official Go implementation",
                layer: Layer::Execution,
                language: "Go",
                website: "https://geth.ethereum.org/",
            },
            Client::Nethermind => ClientInfo {
                name: "Nethermind",
                description: "Ethereum client in .NET",
                layer: Layer::Execution,
                language: ".NET",
                website: "https://nethermind.io/",
            },
            Client::Besu => ClientInfo {
                name: "Besu",
                description: "Hyperledger Besu - enterprise Ethereum client",
                layer: Layer::Execution,
                language: "Java",
                website: "https://besu.hyperledger.org/",
            },
            Client::Erigon => ClientInfo {
                name: "Erigon",
                description: "Efficiency-focused Ethereum client",
                layer: Layer::Execution,
                language: "Go",
                website: "https://github.com/erigontech/erigon",
            },
            Client::Reth => ClientInfo {
                name: "Reth",
                description: "Modular Ethereum client in Rust by Paradigm",
                layer: Layer::Execution,
                language: "Rust",
                website: "https://paradigmxyz.github.io/reth/",
            },
            Client::Mana => ClientInfo {
                name: "Mana",
                description: "Full Ethereum client (EL+CL) in Elixir with distributed features",
                layer: Layer::Full,
                language: "Elixir",
                website: "https://github.com/axol-io/mana",
            },
            Client::Charon => ClientInfo {
                name: "Charon",
                description: "Obol distributed validator middleware",
                layer: Layer::Middleware,
                language: "Go",
                website: "https://obol.tech/",
            },
            Client::MevBoost => ClientInfo {
                name: "MEV-Boost",
                description: "Flashbots MEV relay",
                layer: Layer::Middleware,
                language: "Go",
                website: "https://boost.flashbots.net/",
            },
        }
    }

    /// Get colorization rules for this client: those of its table whose
    /// pattern compiles, in order.
    pub fn rules(&self) -> (r: Vec<Rule>)
        ensures
            rules_view(r@) == keep_valid(client_table(*self)),
    {
        match self {
            Client::Lighthouse => lighthouse_rules(),
            Client::Prysm => prysm_rules(),
            Client::Teku => teku_rules(),
            Client::Nimbus => nimbus_rules(),
            Client::Lodestar => lodestar_rules(),
            Client::Grandine => grandine_rules(),
            Client::Lambda => lambda_rules(),
            Client::Geth => geth_rules(),
            Client::Nethermind => nethermind_rules(),
            Client::Besu => besu_rules(),
            Client::Erigon => erigon_rules(),
            Client::Reth => reth_rules(),
            Client::Mana => mana_rules(),
            Client::Charon => charon_rules(),
            Client::MevBoost => mevboost_rules(),
        }
    }

    /// Parse client from string (any case).
    pub fn parse(s: &str) -> (r: Option<Client>)
        ensures
            r == client_from_lower(lowercase(s@)),
    {
        let l = to_lowercase(s);
        let l = l.as_str();
        if str_eq(l, "lighthouse") {
            Some(Client::Lighthouse)
        } else if str_eq(l, "prysm") {
            Some(Client::Prysm)
        } else if str_eq(l, "teku") {
            Some(Client::Teku)
        } else if str_eq(l, "nimbus") {
            Some(Client::Nimbus)
        } else if str_eq(l, "lodestar") {
            Some(Client::Lodestar)
        } else if str_eq(l, "grandine") {
            Some(Client::Grandine)
        } else if str_eq(l, "lambda") {
            Some(Client::Lambda)
        } else if str_eq(l, "geth") {
            Some(Client::Geth)
        } else if str_eq(l, "nethermind") {
            Some(Client::Nethermind)
        } else if str_eq(l, "besu") {
            Some(Client::Besu)
        } else if str_eq(l, "erigon") {
            Some(Client::Erigon)
        } else if str_eq(l, "reth") {
            Some(Client::Reth)
        } else if str_eq(l, "mana") {
            Some(Client::Mana)
        } else if str_eq(l, "charon") {
            Some(Client::Charon)
        } else if str_eq(l, "mev-boost") || str_eq(l, "mevboost") || str_eq(l, "mev_boost") {
            Some(Client::MevBoost)
        } else {
            None
        }
    }
}

/// The rows that the lodestar rules add to the shared ones.
pub open spec fn lodestar_extra_table() -> Seq<(Seq<char>, ColorView, bool)> {
    seq![
        (r"Eph\s+\d+/\d+"@, ColorView::Semantic(SemanticColor::Epoch), false),
        (r"slot=\d+"@, ColorView::Semantic(SemanticColor::Slot), false),
        (r"epoch=\d+"@, ColorView::Semantic(SemanticColor::Epoch), false),
        (r"\d{4}-\d{2}-\d{2}T\d{2}:\d{2}:\d{2}"@, ColorView::Semantic(SemanticColor::Timestamp), false),
    ]
}

/// The rows of `lodestar_extra_table`.
fn lodestar_extra_rows() -> (r: Vec<(&'static str, SemanticColor, bool)>)
    ensures
        semantic_rows(r@) == lodestar_extra_table(),
{
    let r = vec![
        (r"Eph\s+\d+/\d+", SemanticColor::Epoch, false),
        (r"slot=\d+", SemanticColor::Slot, false),
        (r"epoch=\d+", SemanticColor::Epoch, false),
        (r"\d{4}-\d{2}-\d{2}T\d{2}:\d{2}:\d{2}", SemanticColor::Timestamp, false),
    ];
    assert(semantic_rows(r@) =~= lodestar_extra_table());
    r
}

/// The rows that the lighthouse rules add to the shared ones.
pub open spec fn lighthouse_extra_table() -> Seq<(Seq<char>, ColorView, bool)> {
    seq![
        (r"\w{3}\s+\d{2}\s+\d{2}:\d{2}:\d{2}\.\d{3}"@, ColorView::Semantic(SemanticColor::Timestamp), false),
    ]
}

/// The rows of `lighthouse_extra_table`.
fn lighthouse_extra_rows() -> (r: Vec<(&'static str, SemanticColor, bool)>)
    ensures
        semantic_rows(r@) == lighthouse_extra_table(),
{
    let r = vec![
        (r"\w{3}\s+\d{2}\s+\d{2}:\d{2}:\d{2}\.\d{3}", SemanticColor::Timestamp, false),
    ];
    assert(semantic_rows(r@) =~= lighthouse_extra_table());
    r
}

/// The rows that the teku rules add to the shared ones.
pub open spec fn teku_extra_table() -> Seq<(Seq<char>, ColorView, bool)> {
    seq![
        (r"\d{2}:\d{2}:\d{2}\.\d{3}"@, ColorView::Semantic(SemanticColor::Timestamp), false),
    ]
}

/// The rows of `teku_extra_table`.
fn teku_extra_rows() -> (r: Vec<(&'static str, SemanticColor, bool)>)
    ensures
        semantic_rows(r@) == teku_extra_table(),
{
    let r = vec![
        (r"\d{2}:\d{2}:\d{2}\.\d{3}", SemanticColor::Timestamp, false),
    ];
    assert(semantic_rows(r@) =~= teku_extra_table());
    r
}

/// The rows that the geth rules add to the shared ones.
pub open spec fn geth_extra_table() -> Seq<(Seq<char>, ColorView, bool)> {
    seq![
        (r"\[\d{2}-\d{2}\|\d{2}:\d{2}:\d{2}\.\d{3}\]"@, ColorView::Semantic(SemanticColor::Timestamp), false),
        (r"number=\d+"@, ColorView::Semantic(SemanticColor::BlockNumber), false),
        (r"txs=\d+"@, ColorView::Semantic(SemanticColor::Number), false),
        (r"\b(forkchoice|FCU)\b"@, ColorView::Semantic(SemanticColor::Finality), true),
    ]
}

/// The rows of `geth_extra_table`.
fn geth_extra_rows() -> (r: Vec<(&'static str, SemanticColor, bool)>)
    ensures
        semantic_rows(r@) == geth_extra_table(),
{
    let r = vec![
        (r"\[\d{2}-\d{2}\|\d{2}:\d{2}:\d{2}\.\d{3}\]", SemanticColor::Timestamp, false),
        (r"number=\d+", SemanticColor::BlockNumber, false),
        (r"txs=\d+", SemanticColor::Number, false),
        (r"\b(forkchoice|FCU)\b", SemanticColor::Finality, true),
    ];
    assert(semantic_rows(r@) =~= geth_extra_table());
    r
}

/// The rows that the nethermind rules add to the shared ones.
pub open spec fn nethermind_extra_table() -> Seq<(Seq<char>, ColorView, bool)> {
    seq![
        (r"number=\d+"@, ColorView::Semantic(SemanticColor::BlockNumber), false),
    ]
}

/// The rows of `nethermind_extra_table`.
fn nethermind_extra_rows() -> (r: Vec<(&'static str, SemanticColor, bool)>)
    ensures
        semantic_rows(r@) == nethermind_extra_table(),
{
    let r = vec![
        (r"number=\d+", SemanticColor::BlockNumber, false),
    ];
    assert(semantic_rows(r@) =~= nethermind_extra_table());
    r
}

/// The rows that the besu rules add to the shared ones.
pub open spec fn besu_extra_table() -> Seq<(Seq<char>, ColorView, bool)> {
    seq![
        (r"Block #\d+"@, ColorView::Semantic(SemanticColor::BlockNumber), false),
    ]
}

/// The rows of `besu_extra_table`.
fn besu_extra_rows() -> (r: Vec<(&'static str, SemanticColor, bool)>)
    ensures
        semantic_rows(r@) == besu_extra_table(),
{
    let r = vec![
        (r"Block #\d+", SemanticColor::BlockNumber, false),
    ];
    assert(semantic_rows(r@) =~= besu_extra_table());
    r
}

/// The rows that the erigon rules add to the shared ones.
pub open spec fn erigon_extra_table() -> Seq<(Seq<char>, ColorView, bool)> {
    seq![
        (r"number=\d+"@, ColorView::Semantic(SemanticColor::BlockNumber), false),
    ]
}

/// The rows of `erigon_extra_table`.
fn erigon_extra_rows() -> (r: Vec<(&'static str, SemanticColor, bool)>)
    ensures
        semantic_rows(r@) == erigon_extra_table(),
{
    let r = vec![
        (r"number=\d+", SemanticColor::BlockNumber, false),
    ];
    assert(semantic_rows(r@) =~= erigon_extra_table());
    r
}

/// The rows that the reth rules add to the shared ones.
pub open spec fn reth_extra_table() -> Seq<(Seq<char>, ColorView, bool)> {
    seq![
        (r"stage=\w+"@, ColorView::Semantic(SemanticColor::Key), false),
        (r"progress=\d+\.\d+%"@, ColorView::Semantic(SemanticColor::Number), false),
        (r"number=\d+"@, ColorView::Semantic(SemanticColor::BlockNumber), false),
    ]
}

/// The rows of `reth_extra_table`.
fn reth_extra_rows() -> (r: Vec<(&'static str, SemanticColor, bool)>)
    ensures
        semantic_rows(r@) == reth_extra_table(),
{
    let r = vec![
        (r"stage=\w+", SemanticColor::Key, false),
        (r"progress=\d+\.\d+%", SemanticColor::Number, false),
        (r"number=\d+", SemanticColor::BlockNumber, false),
    ];
    assert(semantic_rows(r@) =~= reth_extra_table());
    r
}

/// The rows that the mana rules add to the shared ones.
pub open spec fn mana_extra_table() -> Seq<(Seq<char>, ColorView, bool)> {
    seq![
        (r"\b(Blockchain|EVM|ExWire|MerklePatriciaTree|JSONRPC2)\b"@, ColorView::Semantic(SemanticColor::Key), true),
        (r"\b(L2|layer2|rollup|optimistic|zk-?proof)\b"@, ColorView::Semantic(SemanticColor::Builder), false),
        (r"\b(verkle|crdt|antidote|distributed)\b"@, ColorView::Semantic(SemanticColor::Committee), false),
        (r"\b(eth_\w+|web3_\w+|net_\w+)\b"@, ColorView::Semantic(SemanticColor::Value), false),
    ]
}

/// The rows of `mana_extra_table`.
fn mana_extra_rows() -> (r: Vec<(&'static str, SemanticColor, bool)>)
    ensures
        semantic_rows(r@) == mana_extra_table(),
{
    let r = vec![
        (r"\b(Blockchain|EVM|ExWire|MerklePatriciaTree|JSONRPC2)\b", SemanticColor::Key, true),
        (r"\b(L2|layer2|rollup|optimistic|zk-?proof)\b", SemanticColor::Builder, false),
        (r"\b(verkle|crdt|antidote|distributed)\b", SemanticColor::Committee, false),
        (r"\b(eth_\w+|web3_\w+|net_\w+)\b", SemanticColor::Value, false),
    ];
    assert(semantic_rows(r@) =~= mana_extra_table());
    r
}

/// The rows that the charon rules add to the shared ones.
pub open spec fn charon_extra_table() -> Seq<(Seq<char>, ColorView, bool)> {
    seq![
        (r"\bQBFT\b"@, ColorView::Semantic(SemanticColor::Committee), true),
        (r"\b(pre-prepare|prepare|commit|round-change)\b"@, ColorView::Semantic(SemanticColor::Committee), false),
        (r"\bthreshold\b"@, ColorView::Semantic(SemanticColor::Attestation), false),
        (r"partial[_\s]?sig"@, ColorView::Semantic(SemanticColor::Attestation), false),
        (r"peer=\w+"@, ColorView::Semantic(SemanticColor::PeerId), false),
        (r"node=\d+"@, ColorView::Semantic(SemanticColor::Number), false),
    ]
}

/// The rows of `charon_extra_table`.
fn charon_extra_rows() -> (r: Vec<(&'static str, SemanticColor, bool)>)
    ensures
        semantic_rows(r@) == charon_extra_table(),
{
    let r = vec![
        (r"\bQBFT\b", SemanticColor::Committee, true),
        (r"\b(pre-prepare|prepare|commit|round-change)\b", SemanticColor::Committee, false),
        (r"\bthreshold\b", SemanticColor::Attestation, false),
        (r"partial[_\s]?sig", SemanticColor::Attestation, false),
        (r"peer=\w+", SemanticColor::PeerId, false),
        (r"node=\d+", SemanticColor::Number, false),
    ];
    assert(semantic_rows(r@) =~= charon_extra_table());
    r
}

/// The rows that the mevboost rules add to the shared ones.
pub open spec fn mevboost_extra_table() -> Seq<(Seq<char>, ColorView, bool)> {
    seq![
        (r"slot=\d+"@, ColorView::Semantic(SemanticColor::Slot), false),
        (r"value=[\d\.]+"@, ColorView::Semantic(SemanticColor::MevValue), true),
        (r"bid=[\d\.]+"@, ColorView::Semantic(SemanticColor::MevValue), true),
        (r"block_value=[\d\.]+"@, ColorView::Semantic(SemanticColor::MevValue), true),
        (r"relay=\S+"@, ColorView::Semantic(SemanticColor::Relay), false),
        (r"builder=\S+"@, ColorView::Semantic(SemanticColor::Builder), false),
        (r"builder_pubkey=0x[a-fA-F0-9]+"@, ColorView::Semantic(SemanticColor::Builder), false),
        (r"0x[a-fA-F0-9]{8,}"@, ColorView::Semantic(SemanticColor::Hash), false),
        (r"\b(success|valid|verified)\b"@, ColorView::Semantic(SemanticColor::Success), false),
        (r"\b(failed|invalid|error|timeout|rejected)\b"@, ColorView::Semantic(SemanticColor::Failure), false),
    ]
}

/// The rows of `mevboost_extra_table`.
fn mevboost_extra_rows() -> (r: Vec<(&'static str, SemanticColor, bool)>)
    ensures
        semantic_rows(r@) == mevboost_extra_table(),
{
    let r = vec![
        (r"slot=\d+", SemanticColor::Slot, false),
        (r"value=[\d\.]+", SemanticColor::MevValue, true),
        (r"bid=[\d\.]+", SemanticColor::MevValue, true),
        (r"block_value=[\d\.]+", SemanticColor::MevValue, true),
        (r"relay=\S+", SemanticColor::Relay, false),
        (r"builder=\S+", SemanticColor::Builder, false),
        (r"builder_pubkey=0x[a-fA-F0-9]+", SemanticColor::Builder, false),
        (r"0x[a-fA-F0-9]{8,}", SemanticColor::Hash, false),
        (r"\b(success|valid|verified)\b", SemanticColor::Success, false),
        (r"\b(failed|invalid|error|timeout|rejected)\b", SemanticColor::Failure, false),
    ];
    assert(semantic_rows(r@) =~= mevboost_extra_table());
    r
}

/// The rows that the elixir_common rules add to the shared ones.
pub open spec fn elixir_common_extra_table() -> Seq<(Seq<char>, ColorView, bool)> {
    seq![
        (r"\d{2}:\d{2}:\d{2}\.\d{3}"@, ColorView::Semantic(SemanticColor::Timestamp), false),
        (r"\b[A-Z][a-zA-Z0-9]*(\.[A-Z][a-zA-Z0-9]*)+"@, ColorView::Semantic(SemanticColor::Key), false),
        (r"#PID<[\d\.]+>"@, ColorView::Semantic(SemanticColor::PeerId), false),
        (r":\w+"@, ColorView::Semantic(SemanticColor::Value), false),
        (r#""[^"]*""#@, ColorView::Semantic(SemanticColor::String), false),
    ]
}

/// The rows of `elixir_common_extra_table`.
fn elixir_common_extra_rows() -> (r: Vec<(&'static str, SemanticColor, bool)>)
    ensures
        semantic_rows(r@) == elixir_common_extra_table(),
{
    let r = vec![
        (r"\d{2}:\d{2}:\d{2}\.\d{3}", SemanticColor::Timestamp, false),
        (r"\b[A-Z][a-zA-Z0-9]*(\.[A-Z][a-zA-Z0-9]*)+", SemanticColor::Key, false),
        (r"#PID<[\d\.]+>", SemanticColor::PeerId, false),
        (r":\w+", SemanticColor::Value, false),
        (r#""[^"]*""#, SemanticColor::String, false),
    ];
    assert(semantic_rows(r@) =~= elixir_common_extra_table());
    r
}

/// The rows that the prysm rules add to the shared ones.
pub open spec fn prysm_extra_table() -> Seq<(Seq<char>, ColorView, bool)> {
    seq![
        (r#"msg="[^"]*""#@, ColorView::Semantic(SemanticColor::String), false),
    ]
}

/// The rows of `prysm_extra_table`.
fn prysm_extra_rows() -> (r: Vec<(&'static str, SemanticColor, bool)>)
    ensures
        semantic_rows(r@) == prysm_extra_table(),
{
    let r = vec![
        (r#"msg="[^"]*""#, SemanticColor::String, false),
    ];
    assert(semantic_rows(r@) =~= prysm_extra_table());
    r
}

/// The Prysm `prefix="..."` row, colored cyan.
pub open spec fn prysm_prefix_table() -> Seq<(Seq<char>, ColorView, bool)> {
    seq![(r#"prefix="[^"]*""#@, ColorView::Named("cyan"@), false)]
}

/// The number row that closes the MEV-Boost rules.
pub open spec fn number_table() -> Seq<(Seq<char>, ColorView, bool)> {
    seq![(r"\b\d+(\.\d+)?\b"@, ColorView::Semantic(SemanticColor::Number), false)]
}

/// The rule table of the lodestar rules.
pub open spec fn lodestar_table() -> Seq<(Seq<char>, ColorView, bool)> {
    ep::lodestar_log_levels_table() + lodestar_extra_table() + ep::consensus_patterns_table()
}

/// The lodestar rules.
fn lodestar_rules() -> (r: Vec<Rule>)
    ensures
        rules_view(r@) == keep_valid(lodestar_table()),
{
    let mut r = ep::lodestar_log_levels();
    append_rules(&mut r, build_rules(&lodestar_extra_rows()));
    proof {
        lemma_keep_valid_concat(ep::lodestar_log_levels_table(), lodestar_extra_table());
    }
    append_rules(&mut r, ep::consensus_patterns());
    proof {
        lemma_keep_valid_concat((ep::lodestar_log_levels_table() + lodestar_extra_table()), ep::consensus_patterns_table());
    }
    r
}

/// The rule table of the lighthouse rules.
pub open spec fn lighthouse_table() -> Seq<(Seq<char>, ColorView, bool)> {
    ep::lighthouse_log_levels_table() + lighthouse_extra_table() + ep::consensus_patterns_table()
}

/// The lighthouse rules.
fn lighthouse_rules() -> (r: Vec<Rule>)
    ensures
        rules_view(r@) == keep_valid(lighthouse_table()),
{
    let mut r = ep::lighthouse_log_levels();
    append_rules(&mut r, build_rules(&lighthouse_extra_rows()));
    proof {
        lemma_keep_valid_concat(ep::lighthouse_log_levels_table(), lighthouse_extra_table());
    }
    append_rules(&mut r, ep::consensus_patterns());
    proof {
        lemma_keep_valid_concat((ep::lighthouse_log_levels_table() + lighthouse_extra_table()), ep::consensus_patterns_table());
    }
    r
}

/// The rule table of the prysm rules.
pub open spec fn prysm_table() -> Seq<(Seq<char>, ColorView, bool)> {
    ep::prysm_log_levels_table() + prysm_extra_table() + prysm_prefix_table() + ep::consensus_patterns_table()
}

/// The prysm rules.
fn prysm_rules() -> (r: Vec<Rule>)
    ensures
        rules_view(r@) == keep_valid(prysm_table()),
{
    let mut r = ep::prysm_log_levels();
    append_rules(&mut r, build_rules(&prysm_extra_rows()));
    proof {
        lemma_keep_valid_concat(ep::prysm_log_levels_table(), prysm_extra_table());
    }
    push_rule(&mut r, color_rule(r#"prefix="[^"]*""#, Color::named("cyan"), false));
    proof {
        lemma_keep_valid_concat((ep::prysm_log_levels_table() + prysm_extra_table()), prysm_prefix_table());

        reveal_with_fuel(keep_valid, 2);
        assert(prysm_prefix_table().drop_last() =~= Seq::<(Seq<char>, ColorView, bool)>::empty());
    }
    append_rules(&mut r, ep::consensus_patterns());
    proof {
        lemma_keep_valid_concat(((ep::prysm_log_levels_table() + prysm_extra_table()) + prysm_prefix_table()), ep::consensus_patterns_table());
    }
    r
}

/// The rule table of the teku rules.
pub open spec fn teku_table() -> Seq<(Seq<char>, ColorView, bool)> {
    ep::rust_log_levels_table() + teku_extra_table() + ep::consensus_patterns_table()
}

/// The teku rules.
fn teku_rules() -> (r: Vec<Rule>)
    ensures
        rules_view(r@) == keep_valid(teku_table()),
{
    let mut r = ep::rust_log_levels();
    append_rules(&mut r, build_rules(&teku_extra_rows()));
    proof {
        lemma_keep_valid_concat(ep::rust_log_levels_table(), teku_extra_table());
    }
    append_rules(&mut r, ep::consensus_patterns());
    proof {
        lemma_keep_valid_concat((ep::rust_log_levels_table() + teku_extra_table()), ep::consensus_patterns_table());
    }
    r
}

/// The rule table of the nimbus rules.
pub open spec fn nimbus_table() -> Seq<(Seq<char>, ColorView, bool)> {
    ep::nimbus_log_levels_table() + ep::consensus_patterns_table()
}

/// The nimbus rules.
fn nimbus_rules() -> (r: Vec<Rule>)
    ensures
        rules_view(r@) == keep_valid(nimbus_table()),
{
    let mut r = ep::nimbus_log_levels();
    append_rules(&mut r, ep::consensus_patterns());
    proof {
        lemma_keep_valid_concat(ep::nimbus_log_levels_table(), ep::consensus_patterns_table());
    }
    r
}

/// The rule table of the grandine rules.
pub open spec fn grandine_table() -> Seq<(Seq<char>, ColorView, bool)> {
    ep::rust_log_levels_table() + ep::consensus_patterns_table()
}

/// The grandine rules.
fn grandine_rules() -> (r: Vec<Rule>)
    ensures
        rules_view(r@) == keep_valid(grandine_table()),
{
    let mut r = ep::rust_log_levels();
    append_rules(&mut r, ep::consensus_patterns());
    proof {
        lemma_keep_valid_concat(ep::rust_log_levels_table(), ep::consensus_patterns_table());
    }
    r
}

/// The rule table of the lambda rules.
pub open spec fn lambda_table() -> Seq<(Seq<char>, ColorView, bool)> {
    elixir_common_table()
}

/// The lambda rules.
fn lambda_rules() -> (r: Vec<Rule>)
    ensures
        rules_view(r@) == keep_valid(lambda_table()),
{
    let mut r = elixir_common_rules();
    r
}

/// The rule table of the geth rules.
pub open spec fn geth_table() -> Seq<(Seq<char>, ColorView, bool)> {
    ep::rust_log_levels_table() + geth_extra_table() + ep::execution_patterns_table()
}

/// The geth rules.
fn geth_rules() -> (r: Vec<Rule>)
    ensures
        rules_view(r@) == keep_valid(geth_table()),
{
    let mut r = ep::rust_log_levels();
    append_rules(&mut r, build_rules(&geth_extra_rows()));
    proof {
        lemma_keep_valid_concat(ep::rust_log_levels_table(), geth_extra_table());
    }
    append_rules(&mut r, ep::execution_patterns());
    proof {
        lemma_keep_valid_concat((ep::rust_log_levels_table() + geth_extra_table()), ep::execution_patterns_table());
    }
    r
}

/// The rule table of the nethermind rules.
pub open spec fn nethermind_table() -> Seq<(Seq<char>, ColorView, bool)> {
    ep::dotnet_log_levels_table() + nethermind_extra_table() + ep::execution_patterns_table()
}

/// The nethermind rules.
fn nethermind_rules() -> (r: Vec<Rule>)
    ensures
        rules_view(r@) == keep_valid(nethermind_table()),
{
    let mut r = ep::dotnet_log_levels();
    append_rules(&mut r, build_rules(&nethermind_extra_rows()));
    proof {
        lemma_keep_valid_concat(ep::dotnet_log_levels_table(), nethermind_extra_table());
    }
    append_rules(&mut r, ep::execution_patterns());
    proof {
        lemma_keep_valid_concat((ep::dotnet_log_levels_table() + nethermind_extra_table()), ep::execution_patterns_table());
    }
    r
}

/// The rule table of the besu rules.
pub open spec fn besu_table() -> Seq<(Seq<char>, ColorView, bool)> {
    ep::rust_log_levels_table() + besu_extra_table() + ep::execution_patterns_table()
}

/// The besu rules.
fn besu_rules() -> (r: Vec<Rule>)
    ensures
        rules_view(r@) == keep_valid(besu_table()),
{
    let mut r = ep::rust_log_levels();
    append_rules(&mut r, build_rules(&besu_extra_rows()));
    proof {
        lemma_keep_valid_concat(ep::rust_log_levels_table(), besu_extra_table());
    }
    append_rules(&mut r, ep::execution_patterns());
    proof {
        lemma_keep_valid_concat((ep::rust_log_levels_table() + besu_extra_table()), ep::execution_patterns_table());
    }
    r
}

/// The rule table of the erigon rules.
pub open spec fn erigon_table() -> Seq<(Seq<char>, ColorView, bool)> {
    ep::erigon_log_levels_table() + erigon_extra_table() + ep::execution_patterns_table()
}

/// The erigon rules.
fn erigon_rules() -> (r: Vec<Rule>)
    ensures
        rules_view(r@) == keep_valid(erigon_table()),
{
    let mut r = ep::erigon_log_levels();
    append_rules(&mut r, build_rules(&erigon_extra_rows()));
    proof {
        lemma_keep_valid_concat(ep::erigon_log_levels_table(), erigon_extra_table());
    }
    append_rules(&mut r, ep::execution_patterns());
    proof {
        lemma_keep_valid_concat((ep::erigon_log_levels_table() + erigon_extra_table()), ep::execution_patterns_table());
    }
    r
}

/// The rule table of the reth rules.
pub open spec fn reth_table() -> Seq<(Seq<char>, ColorView, bool)> {
    ep::rust_log_levels_table() + reth_extra_table() + ep::execution_patterns_table()
}

/// The reth rules.
fn reth_rules() -> (r: Vec<Rule>)
    ensures
        rules_view(r@) == keep_valid(reth_table()),
{
    let mut r = ep::rust_log_levels();
    append_rules(&mut r, build_rules(&reth_extra_rows()));
    proof {
        lemma_keep_valid_concat(ep::rust_log_levels_table(), reth_extra_table());
    }
    append_rules(&mut r, ep::execution_patterns());
    proof {
        lemma_keep_valid_concat((ep::rust_log_levels_table() + reth_extra_table()), ep::execution_patterns_table());
    }
    r
}

/// The rule table of the mana rules.
pub open spec fn mana_table() -> Seq<(Seq<char>, ColorView, bool)> {
    elixir_common_table() + mana_extra_table()
}

/// The mana rules.
fn mana_rules() -> (r: Vec<Rule>)
    ensures
        rules_view(r@) == keep_valid(mana_table()),
{
    let mut r = elixir_common_rules();
    append_rules(&mut r, build_rules(&mana_extra_rows()));
    proof {
        lemma_keep_valid_concat(elixir_common_table(), mana_extra_table());
    }
    r
}

/// The rule table of the charon rules.
pub open spec fn charon_table() -> Seq<(Seq<char>, ColorView, bool)> {
    ep::rust_log_levels_table() + charon_extra_table() + ep::consensus_patterns_table()
}

/// The charon rules.
fn charon_rules() -> (r: Vec<Rule>)
    ensures
        rules_view(r@) == keep_valid(charon_table()),
{
    let mut r = ep::rust_log_levels();
    append_rules(&mut r, build_rules(&charon_extra_rows()));
    proof {
        lemma_keep_valid_concat(ep::rust_log_levels_table(), charon_extra_table());
    }
    append_rules(&mut r, ep::consensus_patterns());
    proof {
        lemma_keep_valid_concat((ep::rust_log_levels_table() + charon_extra_table()), ep::consensus_patterns_table());
    }
    r
}

/// The rule table of the mevboost rules.
pub open spec fn mevboost_table() -> Seq<(Seq<char>, ColorView, bool)> {
    ep::rust_log_levels_table() + mevboost_extra_table() + ep::mev_patterns_table() + number_table()
}

/// The mevboost rules.
fn mevboost_rules() -> (r: Vec<Rule>)
    ensures
        rules_view(r@) == keep_valid(mevboost_table()),
{
    let mut r = ep::rust_log_levels();
    append_rules(&mut r, build_rules(&mevboost_extra_rows()));
    proof {
        lemma_keep_valid_concat(ep::rust_log_levels_table(), mevboost_extra_table());
    }
    append_rules(&mut r, ep::mev_patterns());
    proof {
        lemma_keep_valid_concat((ep::rust_log_levels_table() + mevboost_extra_table()), ep::mev_patterns_table());
    }
    push_rule(&mut r, ep::number_rule());
    proof {
        lemma_keep_valid_concat(((ep::rust_log_levels_table() + mevboost_extra_table()) + ep::mev_patterns_table()), number_table());

        reveal_with_fuel(keep_valid, 2);
        assert(number_table().drop_last() =~= Seq::<(Seq<char>, ColorView, bool)>::empty());
    }
    r
}

/// The rule table of the elixir_common rules.
pub open spec fn elixir_common_table() -> Seq<(Seq<char>, ColorView, bool)> {
    ep::elixir_log_levels_table() + elixir_common_extra_table() + ep::consensus_patterns_table()
}

/// The elixir_common rules.
fn elixir_common_rules() -> (r: Vec<Rule>)
    ensures
        rules_view(r@) == keep_valid(elixir_common_table()),
{
    let mut r = ep::elixir_log_levels();
    append_rules(&mut r, build_rules(&elixir_common_extra_rows()));
    proof {
        lemma_keep_valid_concat(ep::elixir_log_levels_table(), elixir_common_extra_table());
    }
    append_rules(&mut r, ep::consensus_patterns());
    proof {
        lemma_keep_valid_concat((ep::elixir_log_levels_table() + elixir_common_extra_table()), ep::consensus_patterns_table());
    }
    r
}

/// The program of a client, as a registry holds it: ID `ethereum.` and the
/// lower-cased name, detected by its lower-cased name.
pub open spec fn client_program_spec(c: Client) -> ProgramView {
    let name = client_info_spec(c).0;
    ProgramView {
        info: ProgramInfoView {
            id: "ethereum."@ + lowercase(name),
            name,
            description: client_info_spec(c).1,
            category: Category::Ethereum,
        },
        rules: keep_valid(client_table(c)),
        detect: seq![lowercase(name)],
        domain_colors: Seq::empty(),
    }
}

impl Client {
    /// The program of this client.
    pub fn program(&self) -> (r: SimpleProgram)
        ensures
            r@ == client_program_spec(*self),
    {
        let ci = self.info();
        let lower = to_lowercase(ci.name);
        let mut id = owned("ethereum.");
        push_str(&mut id, lower.as_str());
        let r = SimpleProgram::new(id.as_str(), ci.name, ci.description, Category::Ethereum, self.rules());
        let detect = vec![lower];
        assert(crate::program::strings_view(detect@) =~= seq![lowercase(client_info_spec(*self).0)]);
        let r = r.with_detect_strings(detect);
        assert(r@.domain_colors =~= Seq::<(Seq<char>, ColorView)>::empty());
        r
    }
}

/// The programs of all clients, in order.
pub fn ethereum_programs() -> (r: Vec<SimpleProgram>)
    ensures
        r@.map_values(|p: SimpleProgram| p@) == all_clients().map_values(|c: Client| client_program_spec(c)),
{
    let clients = Client::all();
    let mut r: Vec<SimpleProgram> = Vec::new();
    let mut i: usize = 0;
    while i < clients.len()
        invariant
            i <= clients@.len(),
            clients@ == all_clients(),
            r@.map_values(|p: SimpleProgram| p@) == all_clients().take(i as int).map_values(
                |c: Client| client_program_spec(c),
            ),
        decreases clients@.len() - i,
    {
        let ghost before = r@;
        r.push(clients[i].program());
        proof {
            assert(r@.map_values(|p: SimpleProgram| p@) =~= before.map_values(|p: SimpleProgram| p@).push(
                client_program_spec(clients@[i as int]),
            ));
            assert(all_clients().take(i + 1).map_values(|c: Client| client_program_spec(c)) =~= all_clients().take(
                i as int,
            ).map_values(|c: Client| client_program_spec(c)).push(client_program_spec(clients@[i as int])));
        }
        i += 1;
    }
    assert(all_clients().take(i as int) =~= all_clients());
    r
}

/// Taken by layer, a sequence of clients falls apart into its four layers:
/// each client is listed under its own layer exactly as often as in the
/// sequence, under no other, and the four lists together are a permutation
/// of the sequence.
pub proof fn law_layers_partition(cs: Seq<Client>)
    ensures
        forall|layer: Layer, c: Client|
            #[trigger] clients_in_layer(cs, layer).to_multiset().count(c) == if layer_of(c) == layer {
                cs.to_multiset().count(c)
            } else {
                0
            },
        clients_in_layer(cs, Layer::Consensus).to_multiset().add(
            clients_in_layer(cs, Layer::Execution).to_multiset(),
        ).add(clients_in_layer(cs, Layer::Full).to_multiset()).add(
            clients_in_layer(cs, Layer::Middleware).to_multiset(),
        ) == cs.to_multiset(),
    decreases cs.len(),
{
    broadcast use vstd::seq_lib::group_to_multiset_ensures;
    if cs.len() == 0 {
        assert forall|layer: Layer, c: Client|
            #[trigger] clients_in_layer(cs, layer).to_multiset().count(c) == if layer_of(c) == layer {
                cs.to_multiset().count(c)
            } else {
                0
            } by {
            assert(clients_in_layer(cs, layer) =~= Seq::<Client>::empty());
        }
    } else {
        let d = cs.drop_last();
        law_layers_partition(d);
        assert(cs =~= d.push(cs.last()));
        assert forall|layer: Layer, c: Client|
            #[trigger] clients_in_layer(cs, layer).to_multiset().count(c) == if layer_of(c) == layer {
                cs.to_multiset().count(c)
            } else {
                0
            } by {
            assert(clients_in_layer(d, layer).to_multiset().count(c) == if layer_of(c) == layer {
                d.to_multiset().count(c)
            } else {
                0
            });
        }
    }
    let total = clients_in_layer(cs, Layer::Consensus).to_multiset().add(
        clients_in_layer(cs, Layer::Execution).to_multiset(),
    ).add(clients_in_layer(cs, Layer::Full).to_multiset()).add(
        clients_in_layer(cs, Layer::Middleware).to_multiset(),
    );
    assert forall|c: Client| total.count(c) == cs.to_multiset().count(c) by {
        assert(clients_in_layer(cs, Layer::Consensus).to_multiset().count(c) == if layer_of(c) == Layer::Consensus {
            cs.to_multiset().count(c)
        } else {
            0
        });
        assert(clients_in_layer(cs, Layer::Execution).to_multiset().count(c) == if layer_of(c) == Layer::Execution {
            cs.to_multiset().count(c)
        } else {
            0
        });
        assert(clients_in_layer(cs, Layer::Full).to_multiset().count(c) == if layer_of(c) == Layer::Full {
            cs.to_multiset().count(c)
        } else {
            0
        });
        assert(clients_in_layer(cs, Layer::Middleware).to_multiset().count(c) == if layer_of(c)
            == Layer::Middleware {
            cs.to_multiset().count(c)
        } else {
            0
        });
    }
    assert(total =~= cs.to_multiset());
}

} // verus!
