use aikosh_backend::catalog::get_article_by_id;
use aikosh_backend::catalog::get_dataset_by_id;
use aikosh_backend::catalog::get_model_by_id;
use aikosh_backend::catalog::get_toolkit_by_id;
use aikosh_backend::catalog::get_usecase_by_id;
use aikosh_backend::errors::AppError;
use aikosh_backend::health_check;
use aikosh_backend::models::Article;
use aikosh_backend::models::Dataset;
use aikosh_backend::models::Leaderboard;
use aikosh_backend::models::Model;
use aikosh_backend::models::Toolkit;
use aikosh_backend::models::UpdateUserProfile;
use aikosh_backend::models::UseCase;
use aikosh_backend::models::User;
use aikosh_backend::models::empty_collection;
use aikosh_backend::profile::update_user_profile;

fn dataset(id: u8, title: &str) -> Dataset {
    Dataset {
        id,
        title: title.to_string(),
        description: String::new(),
        about_dataset: String::new(),
        image_url: None,
        likes_count: 0,
        downloads_count: 0,
        views_count: 0,
        source_org: None,
        tags: Vec::new(),
        license: String::new(),
        geographical_coverage: String::new(),
        sector: String::new(),
        author: String::new(),
        source_organisation: String::new(),
        uploaded_by: String::new(),
        data_quality_score: None,
        dataset_type: String::new(),
        frequency: String::new(),
        time_granularity: String::new(),
        year_range: None,
        date_and_time: String::new(),
        visibility: String::new(),
        hosted: String::new(),
        data_type: None,
        data_collection_method: None,
    }
}

fn model(id: u8, title: &str) -> Model {
    Model {
        id,
        title: title.to_string(),
        description: String::new(),
        about_model: String::new(),
        image_url: None,
        tags: Vec::new(),
        likes_count: 0,
        downloads_count: 0,
        source_org: String::new(),
        license: String::new(),
        hosted_by: String::new(),
        model_type: String::new(),
        model_format: String::new(),
        visibility: String::new(),
        source_organization: String::new(),
        sector: String::new(),
        updated_at: String::new(),
        created_by: String::new(),
        size: String::new(),
    }
}

fn toolkit(id: u8, title: &str) -> Toolkit {
    Toolkit {
        id,
        title: title.to_string(),
        description: String::new(),
        image_url: None,
        overview: String::new(),
        key_capabilities: String::new(),
        why_it_is_included: String::new(),
        resources_on_getting_started: String::new(),
        license_and_compliance: String::new(),
        screenshots_and_ui_previews: None,
        versioning_and_community_info: None,
    }
}

fn usecase(id: u8, title: &str) -> UseCase {
    UseCase {
        id,
        title: title.to_string(),
        description: String::new(),
        image_url: String::new(),
        source_org: String::new(),
        tags: Vec::new(),
        sector: String::new(),
        about_use_case: String::new(),
    }
}

fn article(id: u8, title: &str) -> Article {
    Article {
        id,
        title: title.to_string(),
        description: String::new(),
        content: None,
        image_url: String::new(),
        author: String::new(),
        read_time: String::new(),
        published_date: String::new(),
    }
}

fn user() -> User {
    User {
        id: 1,
        full_name: "Asha Rao".to_string(),
        username: "asha".to_string(),
        bio: "Data engineer".to_string(),
        employee_id: None,
        profile_picture_url: Some("https://example.test/asha.png".to_string()),
        role: "member".to_string(),
    }
}

fn no_patch() -> UpdateUserProfile {
    UpdateUserProfile { full_name: None, bio: None, employee_id: None }
}

#[test]
fn dataset_lookup_finds_present_id() {
    let records = vec![dataset(1, "first"), dataset(2, "second"), dataset(7, "seventh")];
    let found = get_dataset_by_id(records, 7).unwrap();
    assert_eq!(found.title, "seventh");
}

#[test]
fn dataset_lookup_absent_id_is_not_found() {
    let records = vec![dataset(1, "first"), dataset(2, "second")];
    let err = get_dataset_by_id(records, 9).unwrap_err();
    assert!(matches!(err, AppError::NotFound));
    let empty_err = get_dataset_by_id(Vec::new(), 1).unwrap_err();
    assert!(matches!(empty_err, AppError::NotFound));
}

#[test]
fn lookup_returns_first_match_in_file_order() {
    let records = vec![dataset(5, "earlier"), dataset(5, "later")];
    let found = get_dataset_by_id(records, 5).unwrap();
    assert_eq!(found.title, "earlier");
}

#[test]
fn model_lookup_by_id() {
    let records = vec![model(1, "m1"), model(3, "m3")];
    assert_eq!(get_model_by_id(records, 3).unwrap().title, "m3");
    assert!(matches!(get_model_by_id(vec![model(1, "m1")], 3), Err(AppError::NotFound)));
}

#[test]
fn toolkit_lookup_by_id() {
    let records = vec![toolkit(2, "t2"), toolkit(4, "t4")];
    assert_eq!(get_toolkit_by_id(records, 2).unwrap().title, "t2");
    assert!(matches!(get_toolkit_by_id(Vec::new(), 2), Err(AppError::NotFound)));
}

#[test]
fn usecase_lookup_by_id() {
    let records = vec![usecase(1, "u1"), usecase(2, "u2")];
    assert_eq!(get_usecase_by_id(records, 2).unwrap().title, "u2");
}

#[test]
fn article_lookup_by_id() {
    let records = vec![article(1, "a1"), article(2, "a2")];
    assert_eq!(get_article_by_id(records, 1).unwrap().title, "a1");
}

#[test]
fn blank_full_name_is_rejected_and_nothing_changes() {
    let before = user();
    let patch = UpdateUserProfile { full_name: Some("  ".to_string()), ..no_patch() };
    let err = update_user_profile(user(), patch).unwrap_err();
    match err {
        AppError::ValidationError(message) => assert_eq!(message, "Full name cannot be empty"),
        _ => panic!("expected a validation error"),
    }
    // The update returned no record, so the caller has nothing to write
    // back: the stored record it read stays what it was.
    assert_eq!(user(), before);
}

#[test]
fn unicode_blank_full_name_is_rejected() {
    let patch = UpdateUserProfile { full_name: Some("\u{00A0}\t\n".to_string()), ..no_patch() };
    assert!(matches!(
        update_user_profile(user(), patch),
        Err(AppError::ValidationError(_))
    ));
    let empty_patch = UpdateUserProfile { full_name: Some(String::new()), ..no_patch() };
    assert!(matches!(
        update_user_profile(user(), empty_patch),
        Err(AppError::ValidationError(_))
    ));
}

#[test]
fn bio_patch_changes_only_bio() {
    let before = user();
    let patch = UpdateUserProfile { bio: Some("x".to_string()), ..no_patch() };
    let updated = update_user_profile(user(), patch).unwrap();
    assert_eq!(updated.bio, "x");
    assert_eq!(updated.id, before.id);
    assert_eq!(updated.full_name, before.full_name);
    assert_eq!(updated.username, before.username);
    assert_eq!(updated.employee_id, before.employee_id);
    assert_eq!(updated.profile_picture_url, before.profile_picture_url);
    assert_eq!(updated.role, before.role);
}

#[test]
fn full_patch_merges_all_given_fields() {
    let patch = UpdateUserProfile {
        full_name: Some("Asha R.".to_string()),
        bio: Some("Lead".to_string()),
        employee_id: Some("E-42".to_string()),
    };
    let updated = update_user_profile(user(), patch).unwrap();
    assert_eq!(updated.full_name, "Asha R.");
    assert_eq!(updated.bio, "Lead");
    assert_eq!(updated.employee_id, Some("E-42".to_string()));
    assert_eq!(updated.username, "asha");
}

#[test]
fn empty_patch_changes_nothing() {
    let before = user();
    let updated = update_user_profile(user(), no_patch()).unwrap();
    assert_eq!(updated, before);
}

#[test]
fn error_responses_carry_status_and_message() {
    assert_eq!(
        AppError::NotFound.into_response(),
        (404, "Resource not found".to_string())
    );
    assert_eq!(
        AppError::InternalServerError("disk detail stays hidden".to_string()).into_response(),
        (500, "Internal server error".to_string())
    );
    assert_eq!(
        AppError::ValidationError("Full name cannot be empty".to_string()).into_response(),
        (400, "Full name cannot be empty".to_string())
    );
}

#[test]
fn health_check_is_ok() {
    assert_eq!(health_check(), (200, "OK"));
}

#[test]
fn placeholder_endpoints_answer_empty() {
    let leaderboard: Vec<Leaderboard> = empty_collection();
    assert!(leaderboard.is_empty());
}
