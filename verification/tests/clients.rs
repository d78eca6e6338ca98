use phos::clients::ethereum_patterns as ep;
use phos::clients::ethereum_patterns::{consensus_patterns, hash_rule, mev_patterns, slot_rule};
use phos::clients::{Client, Layer};

#[test]
fn test_all_clients() {
    assert_eq!(Client::all().len(), 15);
}

#[test]
fn test_parse_client() {
    assert_eq!(Client::parse("lodestar"), Some(Client::Lodestar));
    assert_eq!(Client::parse("GETH"), Some(Client::Geth));
    assert_eq!(Client::parse("mev-boost"), Some(Client::MevBoost));
    assert_eq!(Client::parse("mana"), Some(Client::Mana));
}

#[test]
fn test_mana_is_full_node() {
    assert_eq!(Client::Mana.info().layer, Layer::Full);
}

#[test]
fn test_elixir_clients() {
    assert_eq!(Client::Lambda.info().language, "Elixir");
    assert_eq!(Client::Mana.info().language, "Elixir");
}

#[test]
fn test_all_clients_have_rules() {
    for client in Client::all() {
        let rules = client.rules();
        assert!(!rules.is_empty(), "{client:?} has no rules");
    }
}

#[test]
fn parse_unknown_client() {
    assert_eq!(Client::parse("bitcoind"), None);
    assert_eq!(Client::parse(""), None);
}

#[test]
fn clients_by_layer() {
    let middleware = Client::by_layer(Layer::Middleware);
    assert_eq!(middleware, vec![Client::Charon, Client::MevBoost]);
    assert_eq!(Client::by_layer(Layer::Full), vec![Client::Mana]);
    assert_eq!(Client::Geth.info().name, "Geth");
}

#[test]
fn shared_rules_match_what_they_name() {
    let hash = hash_rule().unwrap();
    assert!(hash.is_match("block 0xdeadbeef01"));
    assert!(!hash.is_match("0x12"));
    let slot = slot_rule().unwrap();
    assert!(slot.is_match("slot=12345"));
    assert!(!consensus_patterns().is_empty());
    assert!(!mev_patterns().is_empty());
}

#[test]
fn ethereum_programs_register() {
    let programs = phos::clients::ethereum_programs();
    assert_eq!(programs.len(), 15);
    assert_eq!(programs[0].program_info().id, "ethereum.lighthouse");
    let mut registry = phos::program::ProgramRegistry::new();
    for p in programs {
        registry.register(p);
    }
    assert_eq!(registry.detect("docker logs -f mev-boost").unwrap().program_info().id, "ethereum.mev-boost");
    assert_eq!(Client::Teku.program().detect_list(), &vec!["teku".to_string()]);
}

#[test]
fn every_shared_rule_compiles() {
    let rules = [
        ep::address_rule(),
        ep::number_rule(),
        ep::epoch_rule(),
        ep::peers_rule(),
        ep::syncing_rule(),
        ep::success_rule(),
        ep::failure_rule(),
        ep::validator_rule(),
        ep::pubkey_rule(),
        ep::duty_rule(),
        ep::committee_rule(),
        ep::finality_rule(),
        ep::root_rule(),
        ep::attestation_rule(),
        ep::mev_value_rule(),
        ep::relay_rule(),
        ep::builder_rule(),
    ];
    assert!(rules.iter().all(|r| r.is_some()));
    assert!(ep::address_rule().unwrap().is_match("0x00000000219ab540356cBB839Cbe05303d7705Fa"));
}

#[test]
fn layers_partition_all_clients() {
    let mut together: Vec<Client> = Vec::new();
    for layer in [Layer::Consensus, Layer::Execution, Layer::Full, Layer::Middleware] {
        together.extend(Client::by_layer(layer));
    }
    let all = Client::all();
    assert_eq!(together.len(), all.len());
    for c in all {
        assert_eq!(together.iter().filter(|x| **x == c).count(), 1);
    }
}
