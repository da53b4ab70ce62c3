use klock::handlers::{
    validate_predicate, validate_resource_type, AcquireLeaseRequest, DeclareIntentRequest,
    IntentItem,
};
use klock::text::u64_to_string;

#[test]
fn predicate_words_are_accepted_case_insensitively() {
    for word in ["PROVIDES", "consumes", "Mutates", "deletes", "DEPENDS_ON", "renames"] {
        assert!(validate_predicate(word).is_ok(), "{} should be accepted", word);
    }
}

#[test]
fn unknown_predicate_is_rejected_with_the_full_message() {
    let err = validate_predicate("write").unwrap_err();
    assert_eq!(
        err,
        "Invalid predicate 'write'. Must be one of: PROVIDES, CONSUMES, MUTATES, DELETES, \
         DEPENDS_ON, RENAMES"
    );
}

#[test]
fn resource_type_words_are_accepted_case_insensitively() {
    for word in ["FILE", "symbol", "Api_Endpoint", "database_table", "CONFIG_KEY"] {
        assert!(validate_resource_type(word).is_ok(), "{} should be accepted", word);
    }
}

#[test]
fn unknown_resource_type_is_rejected_with_the_full_message() {
    let err = validate_resource_type("folder").unwrap_err();
    assert_eq!(
        err,
        "Invalid resource_type 'folder'. Must be one of: FILE, SYMBOL, API_ENDPOINT, \
         DATABASE_TABLE, CONFIG_KEY"
    );
}

fn valid_acquire_request() -> AcquireLeaseRequest {
    AcquireLeaseRequest {
        agent_id: "A".to_string(),
        session_id: "s1".to_string(),
        resource_type: "file".to_string(),
        resource_path: "/x".to_string(),
        predicate: "mutates".to_string(),
        ttl: 60000,
    }
}

#[test]
fn acquire_request_validation_accepts_a_good_request() {
    assert!(valid_acquire_request().validate().is_ok());
}

#[test]
fn acquire_request_validation_reports_the_first_failure() {
    let mut req = valid_acquire_request();
    req.agent_id = String::new();
    assert_eq!(req.validate().unwrap_err(), "agent_id is required");

    let mut req = valid_acquire_request();
    req.session_id = String::new();
    assert_eq!(req.validate().unwrap_err(), "session_id is required");

    let mut req = valid_acquire_request();
    req.resource_path = String::new();
    assert_eq!(req.validate().unwrap_err(), "resource_path is required");

    let mut req = valid_acquire_request();
    req.predicate = "borrow".to_string();
    assert!(req.validate().unwrap_err().starts_with("Invalid predicate 'borrow'"));

    let mut req = valid_acquire_request();
    req.resource_type = "drive".to_string();
    assert!(req.validate().unwrap_err().starts_with("Invalid resource_type 'drive'"));

    let mut req = valid_acquire_request();
    req.ttl = 0;
    assert_eq!(req.validate().unwrap_err(), "ttl must be greater than 0");
}

#[test]
fn declare_request_validation_prefixes_the_item_position() {
    let req = DeclareIntentRequest {
        session_id: "s1".to_string(),
        agent_id: "A".to_string(),
        intents: vec![
            IntentItem {
                predicate: "mutates".to_string(),
                resource_type: "file".to_string(),
                resource_path: "/x".to_string(),
            },
            IntentItem {
                predicate: "mutates".to_string(),
                resource_type: "cupboard".to_string(),
                resource_path: "/y".to_string(),
            },
        ],
    };
    let err = req.validate().unwrap_err();
    assert_eq!(
        err,
        "intents[1]: Invalid resource_type 'cupboard'. Must be one of: FILE, SYMBOL, \
         API_ENDPOINT, DATABASE_TABLE, CONFIG_KEY"
    );
}

#[test]
fn declare_request_validation_rejects_empty_fields() {
    let empty = DeclareIntentRequest {
        session_id: "s1".to_string(),
        agent_id: "A".to_string(),
        intents: vec![],
    };
    assert_eq!(empty.validate().unwrap_err(), "intents must not be empty");

    let no_agent = DeclareIntentRequest {
        session_id: "s1".to_string(),
        agent_id: String::new(),
        intents: vec![],
    };
    assert_eq!(no_agent.validate().unwrap_err(), "agent_id is required");

    let no_session = DeclareIntentRequest {
        session_id: String::new(),
        agent_id: "A".to_string(),
        intents: vec![],
    };
    assert_eq!(no_session.validate().unwrap_err(), "session_id is required");
}

#[test]
fn decimal_rendering_matches_the_standard_formatter() {
    assert_eq!(u64_to_string(0), "0");
    assert_eq!(u64_to_string(7), "7");
    assert_eq!(u64_to_string(10), "10");
    assert_eq!(u64_to_string(1234567890), "1234567890");
    assert_eq!(u64_to_string(u64::MAX), "18446744073709551615");
    for n in [1u64, 99, 100, 101, 4096, 65535, 1_000_000] {
        assert_eq!(u64_to_string(n), format!("{}", n));
    }
}
