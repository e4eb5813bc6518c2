use weighty::dymo;
use weighty::make_driver;
use weighty::ScaleKind;

#[test]
fn known_vendor_and_product_resolve() {
    assert_eq!(make_driver(0x0922, 0x8003), Some(ScaleKind::DymoM10));
}

#[test]
fn unknown_vendor_resolves_to_none() {
    assert_eq!(make_driver(0x1234, 0x8003), None);
}

#[test]
fn known_vendor_unknown_product_resolves_to_none() {
    assert_eq!(make_driver(0x0922, 0x0001), None);
}

#[test]
fn dymo_registry_matches_only_the_m10() {
    assert_eq!(dymo::make_driver(dymo::M10_PRODUCT_ID), Some(ScaleKind::DymoM10));
    assert_eq!(dymo::make_driver(0x8004), None);
}
