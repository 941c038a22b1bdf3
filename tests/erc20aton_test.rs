use erc20aton::ledger::Erc20Aton;
use erc20aton::model::CallContext;
use erc20aton::values::{Address, Amount};

// Vault address constant used for testing
const VAULT_ADDRESS: &str = "0x7e32B54800705876D3B5CfBC7d9C226A211F7C1A";

fn caller() -> CallContext {
    CallContext {
        sender: Address::new(0x1000, 0xabcd),
        value: Amount::zero(),
        own_address: Address::new(0x2000, 0x1),
        own_balance: Amount::zero(),
    }
}

fn to_address(a: stylus_sdk::alloy_primitives::Address) -> Address {
    let b = a.as_slice();
    let mut hi = [0u8; 4];
    let mut lo = [0u8; 16];
    hi.copy_from_slice(&b[..4]);
    lo.copy_from_slice(&b[4..]);
    Address::new(u32::from_be_bytes(hi), u128::from_be_bytes(lo))
}

#[test]
fn erc20params() {
    let contract = Erc20Aton::new();
    let name = contract.name();
    let symbol = contract.symbol();
    let decimals = contract.decimals();
    let vault_address = contract.vault_address();

    println!(
        "\n\nName: {}, Symbol: {}, Decimals: {}, Vault Address: {:?}",
        name, symbol, decimals, vault_address
    );

    assert_eq!(decimals, 18u8);
    assert_eq!(name, "ATON Stylus");
    assert_eq!(symbol, "ATON");
    assert!(vault_address.is_zero());
}

#[test]
fn initialize() {
    let mut contract = Erc20Aton::new();
    assert!(contract.initialize(&caller()));

    let owner = contract.owner();
    println!("\n\nOwner: {:?}", owner);
    assert!(!owner.is_zero());
}

#[test]
fn set_vault() {
    let mut contract = Erc20Aton::new();
    let parsed: stylus_sdk::alloy_primitives::Address = VAULT_ADDRESS
        .parse()
        .expect("Should parse valid hex address");

    let expected: stylus_sdk::alloy_primitives::Address = "7e32b54800705876d3b5cfbc7d9c226a211f7c1a"
        .parse()
        .expect("Should parse valid hex address");

    assert_eq!(parsed, expected);

    contract.set_vault(to_address(parsed));

    assert_eq!(contract.vault_address(), to_address(parsed));
}

#[test]
fn update_new_arenaton_engine() {
    let mut contract = Erc20Aton::new();
    let ctx = caller();
    let sender = ctx.sender;

    assert!(!contract.is_stake_engine(sender));

    assert!(contract.initialize(&ctx));

    assert!(sender == contract.owner());

    assert!(contract.update_stake_engine(&ctx, sender, true).is_ok());

    assert!(contract.is_stake_engine(sender));
}
