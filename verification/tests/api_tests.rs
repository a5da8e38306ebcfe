use newsletter::assoc::dedup_ids;
use newsletter::lists::{parse_list_type, ListType};
use newsletter::newsletter::split_list_names;
use newsletter::response::ApiResponse;

#[test]
fn duplicate_list_ids_collapse() {
    let ids = vec!["a".to_string(), "a".to_string(), "b".to_string()];
    let r = dedup_ids(&ids);
    assert_eq!(r, vec!["a".to_string(), "b".to_string()]);
}

#[test]
fn dedup_keeps_distinct_ids() {
    let ids = vec!["x".to_string(), "y".to_string()];
    assert_eq!(dedup_ids(&ids), ids);
    let empty: Vec<String> = vec![];
    assert_eq!(dedup_ids(&empty), empty);
}

#[test]
fn list_type_accepted_case_insensitively() {
    assert!(matches!(parse_list_type(&"AUTOMATIC".to_string()), Some(ListType::Automatic)));
    assert!(matches!(parse_list_type(&"Manual".to_string()), Some(ListType::Manual)));
    assert!(parse_list_type(&"weekly".to_string()).is_none());
    assert_eq!(ListType::Automatic.db_name(), "automatic");
    assert_eq!(ListType::Manual.db_name(), "manual");
}

#[test]
fn success_envelope_carries_payload() {
    let r: ApiResponse<u32> = ApiResponse::success(7);
    assert!(r.success);
    assert_eq!(r.data, Some(7));
    assert!(r.error.is_none());
}

#[test]
fn error_envelope_carries_message() {
    let r: ApiResponse<u32> = ApiResponse::error("database error".to_string());
    assert!(!r.success);
    assert!(r.data.is_none());
    assert_eq!(r.error.as_deref(), Some("database error"));
}

#[test]
fn list_names_split_on_commas() {
    let joined = "weekly,monthly".to_string();
    assert_eq!(
        split_list_names(Some(&joined)),
        vec!["weekly".to_string(), "monthly".to_string()]
    );
    let single = "weekly".to_string();
    assert_eq!(split_list_names(Some(&single)), vec!["weekly".to_string()]);
    assert_eq!(split_list_names(None), Vec::<String>::new());
}
