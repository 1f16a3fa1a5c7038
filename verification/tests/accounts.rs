use multisig_wallet::account::AccountId;

#[test]
fn parse_accepts_valid_names() {
    let longest = "0123456789012345678901234567890123456789012345678901234567890123";
    for name in [
        "aa",
        "a-a",
        "100",
        "alice.testnet",
        "bob.testnet",
        "b-o_w_e-n",
        "a.b-a.ra",
        "illia.cheapaccounts.near",
        "10-4.8-2",
        longest,
    ] {
        let id = AccountId::parse(name);
        assert!(id.is_some(), "{name} was refused");
        assert_eq!(id.unwrap().as_str(), name);
    }
}

#[test]
fn parse_refuses_invalid_names() {
    let too_long = "01234567890123456789012345678901234567890123456789012345678901234";
    for name in [
        "",
        "a",
        "A",
        "Abc",
        "nEar",
        "-near",
        "near-",
        "near.",
        ".near",
        "_bowen",
        "near@",
        "a..near",
        "0__0",
        "0_-_0",
        "hello world",
        "\u{43d}\u{435}\u{430}\u{440}",
        too_long,
    ] {
        assert!(AccountId::parse(name).is_none(), "{name} was accepted");
    }
}

#[test]
fn identities_are_equal_when_their_names_are() {
    let alice = AccountId::parse("alice.testnet").unwrap();
    let again = AccountId::parse("alice.testnet").unwrap();
    let bob = AccountId::parse("bob.testnet").unwrap();
    assert_eq!(alice, again);
    assert_eq!(alice, alice.clone());
    assert_ne!(alice, bob);
    assert_eq!(alice.clone().as_str(), "alice.testnet");
}
