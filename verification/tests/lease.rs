use ockam_relay::lease::json_proto::{
    LeaseProtocolOption, LeaseProtocolRequest, LeaseProtocolResponse,
};
use ockam_relay::table::Table;
use ockam_relay::Lease;

#[test]
fn lease_keeps_what_it_was_made_of() {
    let lease = Lease::new("token", 10, 100);
    assert_eq!(lease.value(), "token");
    assert_eq!(lease.ttl(), 10);
    assert_eq!(lease.issued(), 100);
}

#[test]
fn lease_is_valid_strictly_before_it_expires() {
    let lease = Lease::new("token", 10, 100);
    assert!(!lease.invalid());
    assert!(lease.is_valid(0));
    assert!(lease.is_valid(109));
    assert!(!lease.is_valid(110));
    assert!(!lease.is_valid(111));
}

#[test]
fn lease_without_value_ttl_or_issue_time_is_invalid() {
    assert!(Lease::new("", 10, 100).invalid());
    assert!(Lease::new("token", 0, 100).invalid());
    assert!(Lease::new("token", 10, 0).invalid());
    assert!(!Lease::new("", 10, 100).is_valid(50));
    assert!(!Lease::new("token", 0, 100).is_valid(50));
    assert!(!Lease::new("token", 10, 0).is_valid(5));
    assert!(Lease::default().invalid());
}

#[test]
fn lease_that_outlives_the_clock_is_always_valid() {
    let lease = Lease::new("token", usize::MAX, usize::MAX);
    assert!(lease.is_valid(0));
    assert!(lease.is_valid(usize::MAX));
    let lease = Lease::new("token", 2, usize::MAX - 1);
    assert!(lease.is_valid(usize::MAX));
}

#[test]
fn lease_clone_is_equal() {
    let lease = Lease::new("testing", 10_000, 77);
    assert_eq!(lease.clone(), lease);
}

#[test]
fn get_request_names_the_token() {
    let req = LeaseProtocolRequest::get("123");
    assert_eq!(req.action(), "get");
    assert_eq!(req.token_id(), "123");
    assert_eq!(req.options().count(), 0);
}

#[test]
fn revoke_request_names_the_token() {
    let req = LeaseProtocolRequest::revoke("456");
    assert_eq!(req.action(), "revoke");
    assert_eq!(req.token_id(), "456");
    assert_eq!(req.options().count(), 0);
}

#[test]
fn new_request_keeps_its_options() {
    let mut options: Table<String, LeaseProtocolOption> = Table::new();
    options.insert("ttl".to_string(), LeaseProtocolOption::TTL(5));
    options.insert("ttl".to_string(), LeaseProtocolOption::TTL(7));
    let req = LeaseProtocolRequest::new("renew", options, "9");
    assert_eq!(req.action(), "renew");
    assert_eq!(req.token_id(), "9");
    assert_eq!(req.options().count(), 1);
    assert!(matches!(
        req.options().get(&"ttl".to_string()),
        Some(LeaseProtocolOption::TTL(7))
    ));
    let bare = LeaseProtocolRequest::new_no_opts("renew", "9");
    assert_eq!(bare.action(), "renew");
    assert_eq!(bare.token_id(), "9");
    assert_eq!(bare.options().count(), 0);
}

#[test]
fn create_request_asks_to_read_authorizations() {
    let req = LeaseProtocolRequest::create(1000, "789");
    assert_eq!(req.action(), "create");
    assert_eq!(req.token_id(), "");
    let options = req.options();
    assert_eq!(options.count(), 3);
    assert!(matches!(
        options.get(&"ttl".to_string()),
        Some(LeaseProtocolOption::TTL(1000))
    ));
    match options.get(&"orgID".to_string()) {
        Some(LeaseProtocolOption::OrgId(org)) => assert_eq!(org, "789"),
        other => panic!("unexpected organization: {:?}", other),
    }
    match options.get(&"permissions".to_string()) {
        Some(LeaseProtocolOption::Permissions(list)) => {
            assert_eq!(list.len(), 1);
            assert_eq!(list[0].action(), "read");
            assert_eq!(list[0].resource().count(), 1);
            assert_eq!(
                list[0].resource().get(&"type".to_string()),
                Some(&"authorizations".to_string())
            );
        }
        other => panic!("unexpected permissions: {:?}", other),
    }
}

#[test]
fn failure_response_is_no_success() {
    let response = LeaseProtocolResponse::failure();
    assert_eq!(response.result(), "failure");
    assert_eq!(response.message(), "");
    assert!(response.lease().is_none());
    assert!(!response.is_success());

    let response = LeaseProtocolResponse::failure_with_message("timeout");
    assert_eq!(response.result(), "failure");
    assert_eq!(response.message(), "timeout");
    assert!(response.lease().is_none());
    assert!(!response.is_success());
    assert_eq!(response.clone(), response);
}

#[test]
fn success_response_brings_the_lease() {
    let lease = Lease::new("testing", 10_000, 1_700_000_000_000);
    let response = LeaseProtocolResponse::success(lease);
    assert!(response.is_success());
    assert_eq!(response.result(), "success");
    assert_eq!(response.message(), "");
    let lease = response.lease().unwrap();
    assert!(lease.is_valid(1_700_000_000_001));
    assert_eq!("testing", lease.value());
    assert_eq!(10_000, lease.ttl());
    assert!(lease.issued() > 0);
}

#[test]
fn success_needs_both_the_word_and_the_lease() {
    let lease = Lease::new("testing", 10_000, 5);
    assert!(!LeaseProtocolResponse::from_parts("success", None, "").is_success());
    assert!(!LeaseProtocolResponse::from_parts("failure", Some(lease.clone()), "").is_success());
    assert!(LeaseProtocolResponse::from_parts("success", Some(lease), "").is_success());
}

#[test]
fn unreadable_response_counts_as_failure() {
    let response = LeaseProtocolResponse::or_failure(None);
    assert_eq!(response, LeaseProtocolResponse::failure());
    let lease = Lease::new("testing", 10_000, 5);
    let read = LeaseProtocolResponse::success(lease);
    assert_eq!(LeaseProtocolResponse::or_failure(Some(read.clone())), read);
}
