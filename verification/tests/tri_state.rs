use mso_tri_state::MsoTriState;
use mso_tri_state::UnsupportedConversion;

#[test]
fn bool_to_mso_tri_state() {
    assert_eq!(MsoTriState::from(false), MsoTriState::msoFalse);
    assert_eq!(MsoTriState::from(true), MsoTriState::msoTrue);
}

#[test]
fn mso_tri_state_to_bool() {
    assert_eq!(MsoTriState::msoFalse.to_bool(), Ok(false));
    assert_eq!(MsoTriState::msoTrue.to_bool(), Ok(true));

    assert_eq!(
        MsoTriState::msoCTrue.to_bool(),
        Err(UnsupportedConversion { variant: MsoTriState::msoCTrue })
    );
    assert_eq!(
        MsoTriState::msoTriStateMixed.to_bool(),
        Err(UnsupportedConversion { variant: MsoTriState::msoTriStateMixed })
    );
    assert_eq!(
        MsoTriState::msoTriStateToggle.to_bool(),
        Err(UnsupportedConversion { variant: MsoTriState::msoTriStateToggle })
    );
}

#[test]
fn display() {
    assert_eq!(MsoTriState::msoCTrue.display(), "msoCTrue");
    assert_eq!(MsoTriState::msoFalse.display(), "msoFalse");
    assert_eq!(MsoTriState::msoTriStateMixed.display(), "msoTriStateMixed");
    assert_eq!(MsoTriState::msoTriStateToggle.display(), "msoTriStateToggle");
    assert_eq!(MsoTriState::msoTrue.display(), "msoTrue");
}

#[test]
fn round_trip_through_widening() {
    assert_eq!(MsoTriState::from_bool(false).to_bool(), Ok(false));
    assert_eq!(MsoTriState::from_bool(true).to_bool(), Ok(true));
}

#[test]
fn from_bool_literal_values() {
    assert_eq!(MsoTriState::from_bool(false), MsoTriState::msoFalse);
    assert_eq!(MsoTriState::from_bool(true), MsoTriState::msoTrue);
}

#[test]
fn legacy_numeric_codes() {
    assert_eq!(MsoTriState::msoCTrue.code(), 1);
    assert_eq!(MsoTriState::msoFalse.code(), 0);
    assert_eq!(MsoTriState::msoTriStateMixed.code(), -2);
    assert_eq!(MsoTriState::msoTriStateToggle.code(), -3);
    assert_eq!(MsoTriState::msoTrue.code(), -1);
}

#[test]
fn unsupported_conversion_names_the_variant() {
    let e = MsoTriState::msoTriStateToggle.to_bool().unwrap_err();
    assert_eq!(e.variant, MsoTriState::msoTriStateToggle);
    assert_eq!(e.variant.display(), "msoTriStateToggle");
}
