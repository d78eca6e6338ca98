use phos::category::{Category, ParseCategoryError};

#[test]
fn test_category_as_str() {
    assert_eq!(Category::Ethereum.as_str(), "ethereum");
    assert_eq!(Category::DevOps.as_str(), "devops");
    assert_eq!(Category::CI.as_str(), "ci");
}

#[test]
fn test_category_display() {
    assert_eq!(Category::Ethereum.to_string(), "ethereum");
    assert_eq!(Category::DevOps.to_string(), "devops");
}

#[test]
fn test_category_from_str() {
    assert_eq!("ethereum".parse::<Category>().unwrap(), Category::Ethereum);
    assert_eq!("DEVOPS".parse::<Category>().unwrap(), Category::DevOps);
    assert_eq!("Dev".parse::<Category>().unwrap(), Category::Dev);
}

#[test]
fn test_category_from_str_error() {
    let err = "invalid".parse::<Category>().unwrap_err();
    assert_eq!(err.0, "invalid");
    assert!(err.to_string().contains("unknown category"));
}

#[test]
fn test_category_all() {
    let all = Category::all();
    assert_eq!(all.len(), 10);
    assert!(all.contains(&Category::Ethereum));
    assert!(all.contains(&Category::CI));
    assert!(all.contains(&Category::Custom));
}

#[test]
fn test_category_display_name() {
    assert_eq!(Category::Ethereum.display_name(), "Ethereum");
    assert_eq!(Category::DevOps.display_name(), "DevOps");
    assert_eq!(Category::CI.display_name(), "CI/CD");
}

#[test]
fn category_error_message_lists_valid_ids() {
    let err = ParseCategoryError("x".to_string());
    assert_eq!(
        err.to_string(),
        "unknown category 'x'. Valid categories: ethereum, devops, system, dev, network, data, monitoring, messaging, ci, custom"
    );
}

#[test]
fn category_round_trips_through_its_id() {
    for c in Category::all() {
        assert_eq!(Category::parse(c.as_str()), Ok(c));
        assert_eq!(Category::from_id(c.as_str()), Some(c));
    }
    assert_eq!(Category::from_id("ETHEREUM"), None);
    assert_eq!(Category::parse("Custom"), Ok(Category::Custom));
}

#[test]
fn category_descriptions() {
    assert_eq!(Category::Data.description(), "Database systems");
    assert_eq!(Category::Dev.display_name(), "Development");
}
