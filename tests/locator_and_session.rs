use tkpd_ha::locator::{locator_from_parts, parse_locator, LocatorError};
use tkpd_ha::request::{referer, request_body, request_text_from, PDP_QUERY};
use tkpd_ha::session::{next_step, resolve_credentials, BusEvent, CredentialError, WorkerStep};

fn coordinates(url: &str) -> Result<(String, String), LocatorError> {
    parse_locator(url).map(|l| (l.shop_domain, l.product_key))
}

#[test]
fn locator_reads_shop_and_product() {
    assert_eq!(
        coordinates("https://www.tokopedia.com/acme-store/widget-123"),
        Ok(("acme-store".to_string(), "widget-123".to_string()))
    );
    assert_eq!(
        coordinates("https://tokopedia.com/acme-store/widget-123?extParam=1#top"),
        Ok(("acme-store".to_string(), "widget-123".to_string()))
    );
    assert_eq!(
        coordinates("https://tokopedia.com/acme-store/widget-123/review"),
        Ok(("acme-store".to_string(), "widget-123".to_string()))
    );
}

#[test]
fn locator_refuses_invalid_urls() {
    assert_eq!(coordinates("not a url"), Err(LocatorError::InvalidUrl));
    assert_eq!(coordinates(""), Err(LocatorError::InvalidUrl));
}

#[test]
fn locator_refuses_other_hosts() {
    assert_eq!(coordinates("https://example.com/acme-store/widget-123"), Err(LocatorError::UnsupportedHost));
    assert_eq!(coordinates("https://shop.tokopedia.com/a/b"), Err(LocatorError::UnsupportedHost));
    assert_eq!(coordinates("mailto:someone@tokopedia.com"), Err(LocatorError::UnsupportedHost));
}

#[test]
fn locator_refuses_missing_segments() {
    assert_eq!(coordinates("https://tokopedia.com"), Err(LocatorError::MissingShopDomain));
    assert_eq!(coordinates("https://tokopedia.com/"), Err(LocatorError::MissingShopDomain));
    assert_eq!(coordinates("https://tokopedia.com//widget"), Err(LocatorError::MissingShopDomain));
    assert_eq!(coordinates("https://tokopedia.com/acme-store"), Err(LocatorError::MissingProductKey));
    assert_eq!(coordinates("https://tokopedia.com/acme-store/"), Err(LocatorError::MissingProductKey));
}

#[test]
fn locator_from_parts_needs_a_rooted_path() {
    let r = locator_from_parts(Some("tokopedia.com".to_string()), "acme/widget");
    assert_eq!(r.err(), Some(LocatorError::InvalidUrl));
    let r = locator_from_parts(None, "/acme/widget");
    assert_eq!(r.err(), Some(LocatorError::UnsupportedHost));
}

#[test]
fn password_without_username_is_refused() {
    let r = resolve_credentials(None, Some("secret".to_string()));
    assert_eq!(r.err(), Some(CredentialError::PasswordWithoutUsername));
}

#[test]
fn username_without_password_gets_an_empty_password() {
    let c = resolve_credentials(Some("bob".to_string()), None).ok().unwrap().unwrap();
    assert_eq!(c.username, "bob");
    assert_eq!(c.password, "");
    assert!(c.password_missing);
}

#[test]
fn full_credentials_are_kept() {
    let c = resolve_credentials(Some("bob".to_string()), Some("pw".to_string())).ok().unwrap().unwrap();
    assert_eq!(c.username, "bob");
    assert_eq!(c.password, "pw");
    assert!(!c.password_missing);
}

#[test]
fn no_credentials_means_none() {
    assert!(matches!(resolve_credentials(None, None), Ok(None)));
}

#[test]
fn worker_finishes_only_on_abort_after_disconnect() {
    assert_eq!(next_step(true, BusEvent::ConnectionAborted), WorkerStep::Finish);
    assert_eq!(next_step(false, BusEvent::ConnectionAborted), WorkerStep::ReportAndContinue);
    assert_eq!(next_step(true, BusEvent::ConnectionFailed), WorkerStep::ReportAndContinue);
    assert_eq!(next_step(false, BusEvent::ConnectionFailed), WorkerStep::ReportAndContinue);
    assert_eq!(next_step(true, BusEvent::Notified), WorkerStep::Continue);
    assert_eq!(next_step(false, BusEvent::Notified), WorkerStep::Continue);
}

#[test]
fn request_body_carries_the_coordinates() {
    let l = parse_locator("https://tokopedia.com/acme-store/widget-123").ok().unwrap();
    let body = request_body(&l);
    let v: serde_json::Value = serde_json::from_str(&body).unwrap();
    assert_eq!(v["operationName"], "PDPGetLayoutQuery");
    assert_eq!(v["query"], PDP_QUERY);
    assert_eq!(v["variables"]["shopDomain"], "acme-store");
    assert_eq!(v["variables"]["productKey"], "widget-123");
    assert_eq!(v["variables"]["apiVersion"], 1);
    assert!(body.starts_with("{\"operationName\":\"PDPGetLayoutQuery\",\"query\":\"fragment"));
}

#[test]
fn referer_names_the_product_page() {
    let l = parse_locator("https://tokopedia.com/acme-store/widget-123").ok().unwrap();
    assert_eq!(referer(&l), "https://www.tokopedia.com/acme-store/widget-123");
}

#[test]
fn request_text_assembles_given_member_texts() {
    assert_eq!(
        request_text_from("\"Q\"", "\"K\"", "\"S\""),
        "{\"operationName\":\"PDPGetLayoutQuery\",\"query\":\"Q\",\"variables\":{\"apiVersion\":1,\"productKey\":\"K\",\"shopDomain\":\"S\"}}"
    );
}

#[test]
fn parsed_coordinates_hold_no_slash() {
    let l = parse_locator("https://tokopedia.com/a%2Fb/c").ok().unwrap();
    assert_eq!(l.shop_domain, "a%2Fb");
    assert_eq!(l.product_key, "c");
}
