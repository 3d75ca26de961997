use reclaim_cosmwasm::event_builder::{
    add_epoch_event, add_instantiate_event, add_signer_event, add_verify_event, Attribute, Event, Response,
};

fn attr(key: &str, value: &str) -> Attribute {
    Attribute { key: key.to_string(), value: value.to_string() }
}

#[test]
fn signer_event_has_address() {
    let r = add_signer_event(Response::new(), "0xabc");
    assert!(r.attributes.is_empty());
    assert_eq!(r.events, vec![Event { ty: "signer".to_string(), attributes: vec![attr("address", "0xabc")] }]);
}

#[test]
fn epoch_event_renders_numbers_in_decimal() {
    let r = add_epoch_event(Response::new(), 12, u128::MAX);
    assert_eq!(
        r.events,
        vec![Event {
            ty: "add_epoch".to_string(),
            attributes: vec![
                attr("epoch_id", "12"),
                attr("minimum_witness", "340282366920938463463374607431768211455")
            ],
        }]
    );
}

#[test]
fn instantiate_event_names_owner() {
    let r = add_instantiate_event(Response::new(), "owner");
    assert_eq!(r.events, vec![Event { ty: "instantiate".to_string(), attributes: vec![attr("owner", "owner")] }]);
}

#[test]
fn verify_event_reports_success() {
    let r = add_verify_event(Response::new().add_attribute("action", "verify_proof"), 0);
    assert_eq!(r.attributes, vec![attr("action", "verify_proof")]);
    assert_eq!(
        r.events,
        vec![Event {
            ty: "verify_proof".to_string(),
            attributes: vec![attr("result", "success"), attr("epoch_id", "0")]
        }]
    );
}

#[test]
fn events_are_appended_in_order() {
    let r = add_signer_event(add_signer_event(Response::new(), "a"), "b");
    assert_eq!(r.events.len(), 2);
    assert_eq!(r.events[0].attributes[0].value, "a");
    assert_eq!(r.events[1].attributes[0].value, "b");
}
