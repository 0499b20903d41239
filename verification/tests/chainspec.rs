use reth_p256::chainspec::{CustomChainSpec, CustomChainSpecParser};

#[derive(Debug, Clone, PartialEq, Eq)]
struct Configuration {
    chain_id: u64,
    forks: Vec<(String, u64)>,
}

fn configuration() -> Configuration {
    Configuration { chain_id: 1, forks: vec![("Cancun".to_string(), 19_426_587), ("Prague".to_string(), 22_431_084)] }
}

impl Configuration {
    fn chain(&self) -> u64 {
        self.chain_id
    }

    fn fork(&self, name: &str) -> Option<u64> {
        self.forks.iter().find(|(fork, _)| fork == name).map(|(_, block)| *block)
    }

    fn is_active_at(&self, name: &str, block: u64) -> bool {
        self.fork(name).is_some_and(|activation| activation <= block)
    }

    fn next_block_base_fee(&self, parent: &Header) -> Option<u64> {
        parent.base_fee_per_gas.map(|fee| fee + fee / 8)
    }
}

#[derive(Debug, Clone, PartialEq, Eq)]
struct Header {
    number: u64,
    timestamp: u64,
    base_fee_per_gas: Option<u64>,
    gas_used: u64,
    gas_limit: u64,
}

#[test]
fn next_block_base_fee_is_zero() {
    let facade = CustomChainSpec::new(configuration());
    let parent = Header { number: 10, timestamp: 1_700_000_000, base_fee_per_gas: Some(1_000_000_000), gas_used: 30_000_000, gas_limit: 30_000_000 };
    assert_eq!(facade.next_block_base_fee(&parent, 1_700_000_012), Some(0));
}

#[test]
fn next_block_base_fee_ignores_parent_and_timestamp() {
    let facade = CustomChainSpec::new(configuration());
    let empty = Header { number: 0, timestamp: 0, base_fee_per_gas: None, gas_used: 0, gas_limit: 0 };
    let full = Header { number: u64::MAX, timestamp: u64::MAX, base_fee_per_gas: Some(u64::MAX), gas_used: u64::MAX, gas_limit: u64::MAX };
    for timestamp in [0u64, 1, 1_710_338_135, u64::MAX] {
        assert_eq!(facade.next_block_base_fee(&empty, timestamp), Some(0));
        assert_eq!(facade.next_block_base_fee(&full, timestamp), Some(0));
    }
}

#[test]
fn next_block_base_fee_ignores_the_wrapped_configuration() {
    let parent = Header { number: 1, timestamp: 2, base_fee_per_gas: Some(7), gas_used: 3, gas_limit: 4 };
    assert_eq!(CustomChainSpec::new(5u8).next_block_base_fee(&parent, 3), Some(0));
    assert_eq!(CustomChainSpec::new("mainnet").next_block_base_fee(&parent, 3), Some(0));
    assert_eq!(CustomChainSpec::new(()).next_block_base_fee(&(), 3), Some(0));
}

#[test]
fn facade_hands_out_the_wrapped_configuration() {
    let facade = CustomChainSpec::new(configuration());
    assert_eq!(facade.inner(), &configuration());
    assert_eq!(facade.inner().chain_id, 1);
    assert_eq!(facade.inner().forks.len(), 2);
    assert_eq!(facade.clone().inner(), &configuration());
}

#[test]
fn queries_are_answered_by_the_wrapped_configuration() {
    let direct = configuration();
    let facade = CustomChainSpec::new(configuration());
    assert_eq!(facade.inner().chain(), direct.chain());
    for name in ["Cancun", "Prague", "Osaka"] {
        assert_eq!(facade.inner().fork(name), direct.fork(name));
        for block in [0u64, 19_426_587, 22_431_083, 22_431_084, u64::MAX] {
            assert_eq!(
                facade.inner().is_active_at(name, block),
                direct.is_active_at(name, block)
            );
        }
    }
    assert_eq!(facade.inner().fork("Prague"), Some(22_431_084));
}

#[test]
fn base_fee_is_not_the_one_of_the_wrapped_configuration() {
    let facade = CustomChainSpec::new(configuration());
    let parent = Header { number: 7, timestamp: 8, base_fee_per_gas: Some(800), gas_used: 1, gas_limit: 2 };
    assert_eq!(facade.inner().next_block_base_fee(&parent), Some(900));
    assert_eq!(facade.next_block_base_fee(&parent, 20), Some(0));
}

#[test]
fn parser_wraps_what_was_parsed() {
    let parsed: Result<Configuration, String> = Ok(configuration());
    let facade = CustomChainSpecParser::parse(parsed).unwrap();
    assert_eq!(facade.inner(), &configuration());
}

#[test]
fn parser_hands_the_error_on() {
    let parsed: Result<Configuration, String> = Err("unknown chain".to_string());
    match CustomChainSpecParser::parse(parsed) {
        Ok(_) => panic!("an error was expected"),
        Err(error) => assert_eq!(error, "unknown chain"),
    }
}

#[test]
fn parser_has_a_default() {
    let parser = CustomChainSpecParser::default();
    let copy = parser;
    assert_eq!(format!("{parser:?}"), format!("{copy:?}"));
}
