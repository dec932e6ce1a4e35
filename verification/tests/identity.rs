use std::collections::HashSet;

use user_service::handlers::new_user;
use user_service::models::{User, UserRequest};

fn request(id: Option<&str>) -> UserRequest {
    UserRequest {
        id: id.map(|id| id.to_string()),
        email: "ada@example.org".to_string(),
        name: "Ada".to_string(),
        role: "admin".to_string(),
        password: "secret".to_string(),
    }
}

#[test]
fn request_without_id_gets_a_random_uuid() {
    let user = new_user(request(None));
    assert!(!user.id.is_empty());
    assert_eq!(user.id.chars().count(), 36);
    let parsed = uuid::Uuid::parse_str(&user.id).expect("the id is a UUID");
    assert_eq!(parsed.get_version_num(), 4);
    assert_eq!(parsed.to_string(), user.id);
}

#[test]
fn generated_id_has_the_hyphenated_shape() {
    for _ in 0..100 {
        let user = new_user(request(None));
        let chars: Vec<char> = user.id.chars().collect();
        assert_eq!(chars.len(), 36);
        for (i, c) in chars.iter().enumerate() {
            if i == 8 || i == 13 || i == 18 || i == 23 {
                assert_eq!(*c, '-');
            } else {
                assert!(c.is_ascii_digit() || ('a'..='f').contains(c), "{c} at {i}");
            }
        }
        assert_eq!(chars[14], '4');
        assert!(matches!(chars[19], '8' | '9' | 'a' | 'b'));
    }
}

#[test]
fn generated_ids_are_distinct_over_many_trials() {
    let mut seen: HashSet<String> = HashSet::new();
    for _ in 0..2000 {
        let user = new_user(request(None));
        assert!(!user.id.is_empty());
        assert!(seen.insert(user.id), "an id came twice");
    }
    assert_eq!(seen.len(), 2000);
}

#[test]
fn request_with_id_keeps_it() {
    let user = new_user(request(Some("user-1")));
    assert_eq!(user.id, "user-1");
}

#[test]
fn request_with_empty_id_keeps_it_too() {
    let user = new_user(request(Some("")));
    assert_eq!(user.id, "");
}

#[test]
fn new_user_copies_every_field() {
    let user = new_user(request(Some("u")));
    assert_eq!(
        user,
        User {
            id: "u".to_string(),
            email: "ada@example.org".to_string(),
            name: "Ada".to_string(),
            role: "admin".to_string(),
            password: "secret".to_string(),
        }
    );
    let generated = new_user(request(None));
    assert_eq!(generated.email, "ada@example.org");
    assert_eq!(generated.name, "Ada");
    assert_eq!(generated.role, "admin");
    assert_eq!(generated.password, "secret");
}

#[test]
fn from_request_takes_the_fallback_only_without_id() {
    let with_id = User::from_request(request(Some("mine")), "fallback".to_string());
    assert_eq!(with_id.id, "mine");
    let without_id = User::from_request(request(None), "fallback".to_string());
    assert_eq!(without_id.id, "fallback");
    assert_eq!(without_id.password, "secret");
}

#[test]
fn clone_of_a_user_is_equal() {
    let user = new_user(request(Some("u")));
    assert_eq!(user.clone(), user);
}
