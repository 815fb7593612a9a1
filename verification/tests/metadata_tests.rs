use wrapped_appchain_token::metadata::FungibleTokenMetadata;

fn base_metadata() -> FungibleTokenMetadata {
    FungibleTokenMetadata {
        spec_version: String::from("ft-1.0.0"),
        name: String::from("Wrapped Appchain Token"),
        symbol: String::from("WAT"),
        icon: None,
        reference: None,
        reference_hash: None,
        decimals: 18,
    }
}

#[test]
fn metadata_without_reference_is_valid() {
    assert!(base_metadata().is_valid());
}

#[test]
fn metadata_with_reference_and_full_hash_is_valid() {
    let mut m = base_metadata();
    m.reference = Some(String::from("https://example.org/token.json"));
    m.reference_hash = Some(vec![7u8; 32]);
    assert!(m.is_valid());
}

#[test]
fn metadata_with_wrong_spec_version_is_invalid() {
    let mut m = base_metadata();
    m.spec_version = String::from("ft-2.0.0");
    assert!(!m.is_valid());
}

#[test]
fn metadata_with_reference_but_no_hash_is_invalid() {
    let mut m = base_metadata();
    m.reference = Some(String::from("https://example.org/token.json"));
    assert!(!m.is_valid());
}

#[test]
fn metadata_with_hash_but_no_reference_is_invalid() {
    let mut m = base_metadata();
    m.reference_hash = Some(vec![7u8; 32]);
    assert!(!m.is_valid());
}

#[test]
fn metadata_with_short_hash_is_invalid() {
    let mut m = base_metadata();
    m.reference = Some(String::from("https://example.org/token.json"));
    m.reference_hash = Some(vec![7u8; 31]);
    assert!(!m.is_valid());
}

#[test]
fn metadata_clone_copies_every_field() {
    let mut m = base_metadata();
    m.icon = Some(String::from("data:image/svg"));
    m.reference = Some(String::from("https://example.org/token.json"));
    m.reference_hash = Some(vec![9u8; 32]);
    let c = m.clone();
    assert_eq!(c.spec_version, m.spec_version);
    assert_eq!(c.name, m.name);
    assert_eq!(c.symbol, m.symbol);
    assert_eq!(c.icon, m.icon);
    assert_eq!(c.reference, m.reference);
    assert_eq!(c.reference_hash, m.reference_hash);
    assert_eq!(c.decimals, m.decimals);
}
