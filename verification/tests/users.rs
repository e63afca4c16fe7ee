use backend::error::EngineError;
use backend::graphql::schema::{MutationRoot, QueryRoot};
use backend::models::user::normalized_email;
use backend::password::{hash_password, hashing_result};
use backend::store::Store;

#[test]
fn registered_email_is_lower_cased_and_password_is_hashed() {
    let mut store = Store::new();
    let user = MutationRoot
        .register_user(&mut store, "Alice@Example.COM".to_string(), "s3cret".to_string())
        .unwrap();
    assert_eq!(user.email(), "alice@example.com");
    assert_eq!(user.id, 1);
    let hash = store.password_hash(user.id).unwrap();
    assert_ne!(hash, "s3cret");
    assert!(bcrypt::verify("s3cret", &hash).unwrap());
    assert!(!bcrypt::verify("other", &hash).unwrap());
    // the same email in another case is the same email
    assert_eq!(
        MutationRoot.register_user(&mut store, "ALICE@example.com".to_string(), "x".to_string()),
        Err(EngineError::Conflict)
    );
    assert_eq!(QueryRoot.get_users(&store), vec![user]);
}

#[test]
fn hashing_twice_gives_two_hashes_of_one_password() {
    let first = hash_password("pw").unwrap();
    let second = hash_password("pw").unwrap();
    assert_ne!(first, second);
    assert!(bcrypt::verify("pw", &first).unwrap());
    assert!(bcrypt::verify("pw", &second).unwrap());
}

#[test]
fn store_keeps_an_email_as_it_stands_and_once() {
    let mut store = Store::new();
    let first = store
        .insert_user("Mixed@Case".to_string(), "h1".to_string())
        .unwrap();
    assert_eq!(first.email(), "Mixed@Case");
    assert_eq!(
        store.insert_user("Mixed@Case".to_string(), "h2".to_string()),
        Err(EngineError::Conflict)
    );
    let second = store
        .insert_user("mixed@case".to_string(), "h3".to_string())
        .unwrap();
    assert_eq!(second.id, 2);
    assert_eq!(store.password_hash(1), Some("h1".to_string()));
    assert_eq!(store.password_hash(2), Some("h3".to_string()));
    assert_eq!(store.password_hash(3), None);
    assert_eq!(store.user(2), Some(second));
}

#[test]
fn users_are_listed_by_email() {
    let mut store = Store::new();
    for email in ["m@x", "b@x", "z@x", "a@x", "ab@x", "B@x", "é@x", ""] {
        store.insert_user(email.to_string(), "h".to_string()).unwrap();
    }
    let users = QueryRoot.get_users(&store);
    let emails: Vec<&str> = users.iter().map(|u| u.email()).collect();
    assert_eq!(emails, vec!["", "B@x", "a@x", "ab@x", "b@x", "m@x", "z@x", "é@x"]);
    let mut sorted = emails.clone();
    sorted.sort();
    assert_eq!(emails, sorted);
}

#[test]
fn templates_are_listed_by_name_and_ties_by_writing_order() {
    let mut store = Store::new();
    let owner = store.insert_user("o@x".to_string(), "h".to_string()).unwrap().id;
    for name in ["Release", "Audit", "Release", "Onboarding", "Audit"] {
        MutationRoot
            .create_workflow_template(&mut store, owner, name.to_string(), None)
            .unwrap();
    }
    let templates = QueryRoot.get_workflow_templates(&store);
    let listed: Vec<(&str, u128)> = templates.iter().map(|t| (t.name(), t.id)).collect();
    assert_eq!(
        listed,
        vec![("Audit", 3), ("Audit", 6), ("Onboarding", 5), ("Release", 2), ("Release", 4)]
    );
}

#[test]
fn projects_are_listed_for_their_owner() {
    let mut store = Store::new();
    let a = store.insert_user("a@x".to_string(), "h".to_string()).unwrap().id;
    let b = store.insert_user("b@x".to_string(), "h".to_string()).unwrap().id;
    let p1 = MutationRoot.create_project(&mut store, a, "one".to_string(), None).unwrap();
    let p2 = MutationRoot
        .create_project(&mut store, b, "two".to_string(), Some("second".to_string()))
        .unwrap();
    let p3 = MutationRoot.create_project(&mut store, a, "three".to_string(), None).unwrap();
    assert_eq!(p2.description(), Some("second"));
    assert_eq!(p1.description(), None);
    assert_eq!(p1.name(), "one");
    assert_eq!(QueryRoot.get_projects(&store, b), vec![p2]);
    assert_eq!(QueryRoot.get_projects(&store, a), vec![p1, p3]);
    assert!(QueryRoot.get_projects(&store, 99).is_empty());
}

#[test]
fn rows_for_an_unknown_caller_are_invalid_references() {
    let mut store = Store::new();
    assert_eq!(
        MutationRoot.create_project(&mut store, 7, "p".to_string(), None),
        Err(EngineError::InvalidReference)
    );
    assert_eq!(
        MutationRoot.create_workflow_template(&mut store, 7, "t".to_string(), None),
        Err(EngineError::InvalidReference)
    );
    assert_eq!(
        MutationRoot.create_growth_template(
            &mut store,
            7,
            "a".to_string(),
            "b".to_string(),
            "c".to_string(),
            "d".to_string()
        ),
        Err(EngineError::InvalidReference)
    );
    assert_eq!(
        MutationRoot.create_task(
            &mut store,
            "t".to_string(),
            "00000000-0000-0000-0000-000000000007"
        ),
        Err(EngineError::InvalidReference)
    );
    assert_eq!(
        MutationRoot.create_task(&mut store, "t".to_string(), "7"),
        Err(EngineError::MalformedIdentifier)
    );
    // nothing was written: the first identifier is still to be issued
    let user = store.insert_user("a@x".to_string(), "h".to_string()).unwrap();
    assert_eq!(user.id, 1);
}

#[test]
fn growth_template_is_written_for_the_caller() {
    let mut store = Store::new();
    let caller = store.insert_user("a@x".to_string(), "h".to_string()).unwrap().id;
    let written = MutationRoot
        .create_growth_template(
            &mut store,
            caller,
            "rust".to_string(),
            "proofs".to_string(),
            "shipped".to_string(),
            "reviews".to_string(),
        )
        .unwrap();
    assert_eq!(written.id, 2);
    assert_eq!(written.id(), "00000000-0000-0000-0000-000000000002");
    assert_eq!(written.user_id(), "00000000-0000-0000-0000-000000000001");
    assert_eq!(written.core_competencies(), "rust");
    assert_eq!(written.developing_skills(), "proofs");
    assert_eq!(written.recent_achievements(), "shipped");
    assert_eq!(written.how_to_contribute(), "reviews");
}

#[test]
fn template_fields_are_kept_as_given() {
    let mut store = Store::new();
    let caller = store.insert_user("a@x".to_string(), "h".to_string()).unwrap().id;
    let template = MutationRoot
        .create_workflow_template(
            &mut store,
            caller,
            "Release".to_string(),
            Some("every other week".to_string()),
        )
        .unwrap();
    assert_eq!(template.name(), "Release");
    assert_eq!(template.description(), Some("every other week"));
    assert_eq!(template.created_by_id, caller);
    assert_eq!(store.template(template.id), Some(template));
}

#[test]
fn emails_are_normalised_to_lower_case() {
    assert_eq!(normalized_email("Alice@Example.COM"), "alice@example.com");
    assert_eq!(normalized_email("already@lower.case"), "already@lower.case");
    assert_eq!(normalized_email("ÉCOLE@X.fr"), "école@x.fr");
    assert_eq!(normalized_email(""), "");
}

#[test]
fn hash_is_written_for_the_default_cost() {
    let hash = hash_password("correct horse").unwrap();
    assert_eq!(hash.len(), 60);
    assert!(hash.starts_with("$2b$12$"));
    let parts: bcrypt::HashParts = hash.parse().unwrap();
    assert_eq!(parts.get_cost(), bcrypt::DEFAULT_COST);
    assert_eq!(parts.format_for_version(bcrypt::Version::TwoB), hash);
    assert!(bcrypt::verify("correct horse", &hash).unwrap());
}

#[test]
fn hashing_result_hands_the_hash_on_and_reports_a_failure() {
    assert_eq!(hashing_result(Ok("$2b$12$abc".to_string())), Ok("$2b$12$abc".to_string()));
    assert_eq!(hashing_result(Ok(String::new())), Ok(String::new()));
    assert_eq!(
        hashing_result(Err("no randomness".to_string())),
        Err(EngineError::UpstreamError("no randomness".to_string()))
    );
}
