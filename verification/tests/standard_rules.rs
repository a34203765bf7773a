use local_pickup::decimal::Decimal;
use local_pickup::input::{
    Address, Attribute, CartLine, CartSnapshot, FulfillmentGroup, FunctionInput, Location,
    Merchandise, Product,
};
use local_pickup::output::FunctionRunResult;
use local_pickup::pickup::{build_option, is_eligible, resolve_location, run};
use local_pickup::policy::{
    Policy, PICKUP_INSTRUCTION, PICKUP_TITLE, TRIGGER_PICKUP, TRIGGER_TRUE,
    VIRTUAL_LOCATION_HANDLE,
};

fn test_line() -> CartLine {
    CartLine {
        id: "gid://shopify/CartLine/1".to_string(),
        quantity: 1,
        merchandise: Merchandise::ProductVariant {
            id: "gid://shopify/ProductVariant/1".to_string(),
            product: Product {
                id: "gid://shopify/Product/1".to_string(),
                title: "Test Product".to_string(),
            },
        },
    }
}

fn line(id: &str) -> CartLine {
    CartLine { id: id.to_string(), quantity: 1, merchandise: Merchandise::CustomProduct }
}

fn attribute(value: &str) -> Option<Attribute> {
    Some(Attribute { value: Some(value.to_string()) })
}

fn test_location() -> Location {
    Location {
        handle: "test_location".to_string(),
        name: "Test Location".to_string(),
        address: Address {
            address1: Some("123 Test St".to_string()),
            address2: None,
            city: Some("Test City".to_string()),
            province_code: Some("CA".to_string()),
            country_code: Some("US".to_string()),
            zip: Some("12345".to_string()),
        },
    }
}

fn location(handle: &str) -> Location {
    Location {
        handle: handle.to_string(),
        name: format!("Shop {}", handle),
        address: Address {
            address1: None,
            address2: None,
            city: None,
            province_code: None,
            country_code: None,
            zip: None,
        },
    }
}

fn test_fulfillment_group() -> FulfillmentGroup {
    FulfillmentGroup {
        handle: "1".to_string(),
        line_ids: vec!["gid://shopify/CartLine/1".to_string()],
        delivery_group_id: "gid://shopify/CartDeliveryGroup/1".to_string(),
        inventory_location_handles: vec!["test_location".to_string()],
    }
}

fn input(
    attribute: Option<Attribute>,
    lines: Vec<CartLine>,
    locations: Vec<Location>,
) -> FunctionInput {
    FunctionInput {
        cart: CartSnapshot { attribute, lines },
        fulfillment_groups: vec![],
        locations,
        configuration: None,
    }
}

#[test]
fn missing_attribute_gives_nothing_whatever_else_is_there() {
    for lines in [vec![], vec![line("L1")], vec![line("L1"), line("L2")]] {
        for locations in [vec![], vec![location("shopA")], vec![location("a"), location("b")]] {
            let result = run(input(None, lines.clone(), locations));
            assert_eq!(result.operations.len(), 0);
        }
    }
}

#[test]
fn attribute_without_a_value_gives_nothing() {
    let result = run(input(
        Some(Attribute { value: None }),
        vec![line("L1")],
        vec![location("shopA")],
    ));
    assert_eq!(result, FunctionRunResult { operations: vec![] });
}

#[test]
fn other_attribute_values_give_nothing() {
    for value in ["other", "", "Pickup", "TRUE", "pickup ", " true", "false", "truepickup"] {
        let result = run(input(attribute(value), vec![line("L1")], vec![location("shopA")]));
        assert_eq!(result.operations.len(), 0, "value {:?}", value);
    }
}

#[test]
fn both_trigger_values_give_one_option() {
    for value in ["pickup", "true"] {
        let result = run(input(attribute(value), vec![line("L1")], vec![location("shopA")]));
        assert_eq!(result.operations.len(), 1, "value {:?}", value);
    }
}

#[test]
fn first_location_is_taken() {
    let result = run(input(
        attribute("pickup"),
        vec![line("L1")],
        vec![location("L1"), location("L2")],
    ));
    assert_eq!(result.operations.len(), 1);
    assert_eq!(result.operations[0].add.pickup_location.location_handle, "L1");

    let result = run(input(
        attribute("true"),
        vec![line("L1")],
        vec![location("L2"), location("L1"), location("L3")],
    ));
    assert_eq!(result.operations.len(), 1);
    assert_eq!(result.operations[0].add.pickup_location.location_handle, "L2");
}

#[test]
fn no_location_gives_the_virtual_one() {
    let result = run(input(attribute("pickup"), vec![line("L1")], vec![]));
    assert_eq!(result.operations.len(), 1);
    assert_eq!(
        result.operations[0].add.pickup_location.location_handle,
        VIRTUAL_LOCATION_HANDLE
    );
    assert_eq!(VIRTUAL_LOCATION_HANDLE, "diy-label-virtual-location");
}

#[test]
fn empty_cart_gives_nothing_whatever_the_locations() {
    for value in ["pickup", "true"] {
        for locations in [vec![], vec![location("shopA")], vec![location("a"), location("b")]] {
            let result = run(input(attribute(value), vec![], locations));
            assert_eq!(result, FunctionRunResult { operations: vec![] });
        }
    }
}

#[test]
fn an_option_is_free_titled_and_instructed() {
    for locations in [vec![], vec![location("shopA")]] {
        let result = run(input(attribute("pickup"), vec![line("L1")], locations));
        assert_eq!(result.operations.len(), 1);
        let option = &result.operations[0].add;
        assert_eq!(option.cost, Some(Decimal { hundredths: 0 }));
        assert!(option.cost.unwrap().is_zero());
        assert_eq!(option.title.as_deref(), Some(PICKUP_TITLE));
        assert_eq!(option.pickup_location.pickup_instruction.as_deref(), Some(PICKUP_INSTRUCTION));
        assert_eq!(option.metafields, None);
    }
}

#[test]
fn the_words_are_as_written() {
    assert_eq!(PICKUP_TITLE, "\u{f0}\u{178}\u{152}\u{b1} Local Print Shop Pickup");
    assert_eq!(PICKUP_TITLE.chars().count(), 28);
    assert_eq!(
        PICKUP_INSTRUCTION,
        "Your order will be printed at a local print shop and ready for pickup. You'll receive a notification with pickup details when it's ready."
    );
    assert_eq!(TRIGGER_PICKUP, "pickup");
    assert_eq!(TRIGGER_TRUE, "true");
}

#[test]
fn running_twice_gives_the_same_answer() {
    let inputs = [
        input(None, vec![line("L1")], vec![location("shopA")]),
        input(attribute("pickup"), vec![line("L1")], vec![location("shopA")]),
        input(attribute("true"), vec![line("L1")], vec![]),
        input(attribute("pickup"), vec![], vec![location("shopA")]),
    ];
    for one in inputs {
        let first = run(one.clone());
        let second = run(one);
        assert_eq!(first, second);
        assert_eq!(format!("{:?}", first), format!("{:?}", second));
    }
}

#[test]
fn scenario_one_line_one_shop() {
    let result = run(input(attribute("pickup"), vec![line("L1")], vec![location("shopA")]));
    assert_eq!(result, FunctionRunResult { operations: vec![build_option("shopA".to_string())] });
    let option = &result.operations[0].add;
    assert!(option.title.as_ref().unwrap().ends_with("Pickup"));
    assert_eq!(option.cost, Some(Decimal::zero()));
    assert_eq!(option.pickup_location.location_handle, "shopA");
    assert!(option.pickup_location.pickup_instruction.is_some());
}

#[test]
fn scenario_one_line_no_shop() {
    let result = run(input(attribute("pickup"), vec![line("L1")], vec![]));
    assert_eq!(result.operations.len(), 1);
    assert_eq!(
        result.operations[0].add.pickup_location.location_handle,
        "diy-label-virtual-location"
    );
}

#[test]
fn scenario_no_line() {
    let result = run(input(attribute("pickup"), vec![], vec![]));
    assert_eq!(result, FunctionRunResult { operations: vec![] });
}

#[test]
fn unread_parts_change_nothing() {
    let plain = input(attribute("pickup"), vec![line("L1")], vec![location("test_location")]);
    let mut full = input(attribute("pickup"), vec![test_line()], vec![test_location()]);
    full.fulfillment_groups = vec![test_fulfillment_group()];
    full.configuration = Some("{}".to_string());
    assert_eq!(run(plain), run(full));
}

#[test]
fn eligibility_needs_a_trigger_and_a_line() {
    let cart = |attribute, lines| CartSnapshot { attribute, lines };
    assert!(is_eligible(&cart(attribute("pickup"), vec![line("L1")])));
    assert!(is_eligible(&cart(attribute("true"), vec![line("L1"), line("L2")])));
    assert!(!is_eligible(&cart(attribute("pickup"), vec![])));
    assert!(!is_eligible(&cart(attribute("other"), vec![line("L1")])));
    assert!(!is_eligible(&cart(Some(Attribute { value: None }), vec![line("L1")])));
    assert!(!is_eligible(&cart(None, vec![line("L1")])));
    assert!(!is_eligible(&cart(None, vec![])));
}

#[test]
fn resolving_takes_the_first_handle_or_the_virtual_one() {
    assert_eq!(resolve_location(&vec![]), "diy-label-virtual-location");
    assert_eq!(resolve_location(&vec![location("shopA")]), "shopA");
    assert_eq!(resolve_location(&vec![location("L1"), location("L2")]), "L1");
    assert_eq!(resolve_location(&vec![location(""), location("L2")]), "");
}

#[test]
fn building_keeps_the_handle_and_fixes_the_rest() {
    let one = build_option("shopA".to_string());
    let other = build_option("shopB".to_string());
    assert_eq!(one.add.pickup_location.location_handle, "shopA");
    assert_eq!(other.add.pickup_location.location_handle, "shopB");
    assert_eq!(one.add.title, other.add.title);
    assert_eq!(one.add.cost, other.add.cost);
    assert_eq!(
        one.add.pickup_location.pickup_instruction,
        other.add.pickup_location.pickup_instruction
    );
    assert_eq!(one.add.metafields, None);
    assert_eq!(one.add.cost, Some(Decimal::zero()));
}

#[test]
fn the_standard_rules_are_what_run_applies() {
    let policy = Policy::standard();
    assert_eq!(policy.triggers, vec!["pickup".to_string(), "true".to_string()]);
    assert_eq!(policy.virtual_location.as_deref(), Some("diy-label-virtual-location"));
    assert_eq!(policy.title, PICKUP_TITLE);
    assert_eq!(policy.pickup_instruction, PICKUP_INSTRUCTION);
    for value in ["pickup", "true", "other"] {
        for locations in [vec![], vec![location("shopA")]] {
            let one = input(attribute(value), vec![line("L1")], locations);
            assert_eq!(policy.run(&one), run(one));
        }
    }
}
