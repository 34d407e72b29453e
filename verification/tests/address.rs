use wordvm::{Address, VmError};

#[test]
fn literal_words_resolve_to_themselves() {
    assert_eq!(Address::from(0), Ok(Address::Literal(0)));
    assert_eq!(Address::from(1), Ok(Address::Literal(1)));
    assert_eq!(Address::from(12345), Ok(Address::Literal(12345)));
    assert_eq!(Address::from(32767), Ok(Address::Literal(32767)));
}

#[test]
fn register_words_resolve_to_register_indices() {
    assert_eq!(Address::from(32768), Ok(Address::Register(0)));
    assert_eq!(Address::from(32769), Ok(Address::Register(1)));
    assert_eq!(Address::from(32772), Ok(Address::Register(4)));
    assert_eq!(Address::from(32775), Ok(Address::Register(7)));
}

#[test]
fn words_above_the_registers_are_invalid() {
    assert_eq!(Address::from(32776), Err(VmError::InvalidAddress));
    assert_eq!(Address::from(40000), Err(VmError::InvalidAddress));
    assert_eq!(Address::from(65535), Err(VmError::InvalidAddress));
}

#[test]
fn every_word_resolves_by_its_range() {
    let mut word: u32 = 0;
    while word <= 65535 {
        let w = word as u16;
        let expected = if w <= 32767 {
            Ok(Address::Literal(w))
        } else if w <= 32775 {
            Ok(Address::Register(w - 32768))
        } else {
            Err(VmError::InvalidAddress)
        };
        assert_eq!(Address::from(w), expected);
        word += 1;
    }
}
