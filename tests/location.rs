use tver_downloader::error::CoreError;
use tver_downloader::location::{
    evaluate_reply, check_after, check_start, location_services, CheckStep, LocationReply, ReplyField,
    ServiceOutcome,
};

fn text(s: &str) -> ReplyField {
    ReplyField::Text(s.to_string())
}

#[test]
fn japan_reply_is_confirmed_with_ip() {
    let r = LocationReply { country_code: text("JP"), cc: ReplyField::Missing, ip: text("1.2.3.4") };
    let m = evaluate_reply(&r).ok().unwrap();
    assert!(m.contains("1.2.3.4"));
    assert_eq!(m, "Connected via Japan IP (1.2.3.4)");
}

#[test]
fn other_country_under_cc_is_denied_naming_country_and_ip() {
    let r = LocationReply { country_code: ReplyField::Missing, cc: text("US"), ip: text("5.6.7.8") };
    let e = evaluate_reply(&r).err().unwrap();
    let m = e.message();
    assert!(m.contains("US"));
    assert!(m.contains("5.6.7.8"));
    assert_eq!(m, "Not connected to Japan VPN (detected: US, IP: 5.6.7.8)");
}

#[test]
fn country_code_is_preferred_over_cc() {
    let r = LocationReply { country_code: text("DE"), cc: text("JP"), ip: text("9.9.9.9") };
    assert!(matches!(evaluate_reply(&r), Err(CoreError::LocationDenied { .. })));
}

#[test]
fn non_text_country_code_does_not_fall_back_to_cc() {
    let r = LocationReply { country_code: ReplyField::NotText, cc: text("JP"), ip: text("1.1.1.1") };
    let m = evaluate_reply(&r).err().unwrap().message();
    assert_eq!(m, "Not connected to Japan VPN (detected: , IP: 1.1.1.1)");
}

#[test]
fn reply_without_keys_is_denied_with_unknown_ip() {
    let r = LocationReply { country_code: ReplyField::Missing, cc: ReplyField::Missing, ip: ReplyField::Missing };
    let m = evaluate_reply(&r).err().unwrap().message();
    assert_eq!(m, "Not connected to Japan VPN (detected: , IP: unknown)");
}

#[test]
fn services_are_tried_in_order_until_one_replies() {
    let n = location_services().len();
    assert_eq!(n, 2);
    assert!(matches!(check_start(n), CheckStep::Query(0)));
    assert!(matches!(check_after(n, 0, ServiceOutcome::Unresponsive), CheckStep::Query(1)));
    let denied = LocationReply { country_code: text("US"), cc: ReplyField::Missing, ip: text("5.6.7.8") };
    assert!(matches!(
        check_after(n, 0, ServiceOutcome::Replied(denied)),
        CheckStep::Done(Err(CoreError::LocationDenied { .. }))
    ));
}

#[test]
fn no_responding_service_is_unverifiable() {
    let step = check_after(2, 1, ServiceOutcome::Unresponsive);
    match step {
        CheckStep::Done(Err(e)) => {
            assert!(matches!(e, CoreError::NetworkUnverifiable));
            assert_eq!(e.message(), "Could not verify VPN connection");
        }
        _ => panic!("expected a final failure"),
    }
    assert!(matches!(check_start(0), CheckStep::Done(Err(CoreError::NetworkUnverifiable))));
}
