use linkblocks::db::bookmarks::InsertBookmark;
use linkblocks::federation::person::{verify_person, Person, PublicKey};
use linkblocks::federation::verification::FederationError;
use linkblocks::federation::signing::Keypair;
use linkblocks::form_errors::FormErrors;
use linkblocks::forms::ap_users::{CreateApUser, UpdateApUser};
use linkblocks::forms::bookmarks::CreateBookmark;
use linkblocks::forms::links::{CreateLink, PartialCreateLink};
use linkblocks::forms::lists::CreateList;
use linkblocks::forms::notes::CreateNote;
use linkblocks::forms::users::{CreateOidcUser, CreateUser, Credentials, Login, OidcSelectUsername};
use linkblocks::ids::Uuid;
use linkblocks::response_error::ResponseError;
use linkblocks::validation::{check_alphanumeric, check_ascii, check_length, check_url, Report};

fn entries(r: Result<(), Report>) -> Vec<(String, String)> {
    match r {
        Ok(()) => vec![],
        Err(report) => report.errors,
    }
}

fn e(path: &str, msg: &str) -> (String, String) {
    (path.to_string(), msg.to_string())
}

#[test]
fn rule_messages() {
    assert_eq!(check_length("ab", 3, 50), Some("length is lower than 3".to_string()));
    assert_eq!(check_length(&"x".repeat(51), 3, 50), Some("length is greater than 50".to_string()));
    assert_eq!(check_length("abc", 3, 50), None);
    // Length counts bytes: "é" is two bytes.
    assert_eq!(check_length("é", 2, 2), None);
    assert_eq!(check_ascii("héllo"), Some("not ascii".to_string()));
    assert_eq!(check_ascii("hello"), None);
    assert_eq!(check_alphanumeric("a-b"), Some("not alphanumeric".to_string()));
    assert_eq!(check_alphanumeric("héllo1"), None);
    assert_eq!(check_url("https://example.com"), None);
    assert!(check_url("example").unwrap().starts_with("not a valid url: "));
}

#[test]
fn create_user_validation() {
    let ok = CreateUser { username: "alice".to_string(), password: "correct horse".to_string() };
    assert!(ok.validate().is_ok());
    let bad = CreateUser { username: "é".to_string(), password: "short".to_string() };
    assert_eq!(
        entries(bad.validate()),
        vec![
            e("password", "length is lower than 10"),
            e("username", "not ascii"),
            e("username", "length is lower than 3"),
        ]
    );
    let dash = OidcSelectUsername { username: "al-ice".to_string() };
    assert_eq!(entries(dash.validate()), vec![e("username", "not alphanumeric")]);
}

#[test]
fn login_validation_uses_nested_paths() {
    let login = Login {
        previous_uri: None,
        credentials: Credentials { username: "al".to_string(), password: "0123456789".to_string() },
    };
    assert_eq!(entries(login.validate()), vec![e("credentials.username", "length is lower than 3")]);
    let creds = Credentials { username: "alice".to_string(), password: "x".repeat(101) };
    assert_eq!(entries(creds.validate()), vec![e("password", "length is greater than 100")]);
}

#[test]
fn oidc_user_validation() {
    let u = CreateOidcUser {
        oidc_id: "x".repeat(501),
        email: "a@example.com".to_string(),
        username: "alice".to_string(),
    };
    assert_eq!(entries(u.validate()), vec![e("oidc_id", "length is greater than 500")]);
}

#[test]
fn list_note_and_link_validation() {
    let list = CreateList { title: String::new(), content: None, private: false };
    assert_eq!(entries(list.validate()), vec![e("title", "length is lower than 1")]);
    let note = CreateNote { title: "t".repeat(100), content: None };
    assert!(note.validate().is_ok());
    assert!(CreateLink { src: Uuid::from_u128(1), dest: Uuid::from_u128(2) }.validate().is_ok());
    let partial = PartialCreateLink {
        search_term_src: Some("s".repeat(101)),
        search_term_dest: Some("d".repeat(101)),
        src: None,
        dest: None,
        submitted: false,
    };
    assert_eq!(
        entries(partial.validate()),
        vec![
            e("search_term_dest", "length is greater than 100"),
            e("search_term_src", "length is greater than 100"),
        ]
    );
}

fn bookmark_form(url: &str, submitted: bool) -> CreateBookmark {
    CreateBookmark {
        parents: vec![],
        create_parents: vec![],
        url: url.to_string(),
        title: "Title".to_string(),
        list_search_term: None,
        submitted,
    }
}

#[test]
fn bookmark_form_becomes_insert() {
    let b = InsertBookmark::try_from(bookmark_form("https://example.com", true)).unwrap();
    assert_eq!(b.url, "https://example.com");
    assert_eq!(b.title, "Title");
    match InsertBookmark::try_from(bookmark_form("https://example.com", false)) {
        Err(errors) => assert!(errors.0.errors.is_empty()),
        Ok(_) => panic!("an unsubmitted form is not inserted"),
    }
    match InsertBookmark::try_from(bookmark_form("no url", true)) {
        Err(errors) => {
            let url_errors = errors.filter("url");
            assert_eq!(url_errors.len(), 1);
            assert!(url_errors[0].starts_with("not a valid url: "));
            assert!(errors.filter("title").is_empty());
        }
        Ok(_) => panic!("an invalid form is not inserted"),
    }
}

#[test]
fn form_errors_filter_by_path() {
    let mut report = Report::new();
    report.append("a".to_string(), "one".to_string());
    report.append("b".to_string(), "two".to_string());
    report.append("a".to_string(), "three".to_string());
    assert_eq!(report.to_string(), "a: one\nb: two\na: three\n");
    let errors = FormErrors::from(report);
    assert_eq!(errors.filter("a"), vec!["one".to_string(), "three".to_string()]);
    assert_eq!(errors.filter("b"), vec!["two".to_string()]);
    assert!(errors.filter("c").is_empty());
    assert!(FormErrors::default().filter("a").is_empty());
}

fn keypair() -> Keypair {
    Keypair { private_key: "PRIVATE".to_string(), public_key: "PUBLIC".to_string() }
}

#[test]
fn local_ap_user_from_parts() {
    let id = Uuid::from_u128(0x67e5_5044_10b1_426f_9247_bb68_0e5f_e0c8);
    let u = CreateApUser::new_local_with("https://linkblocks.example", "alice".to_string(), id, keypair(), 77)
        .unwrap();
    assert_eq!(u.ap_id, "https://linkblocks.example/ap/user/67e55044-10b1-426f-9247-bb680e5fe0c8");
    assert_eq!(u.inbox_url, "https://linkblocks.example/ap/inbox/67e55044-10b1-426f-9247-bb680e5fe0c8");
    assert_eq!(u.private_key, Some("PRIVATE".to_string()));
    assert_eq!(u.public_key, "PUBLIC");
    assert_eq!(u.last_refreshed_at, 77);
    assert!(u.validate().is_ok());
    match CreateApUser::new_local_with("https://linkblocks.example", "a".repeat(51), id, keypair(), 0) {
        Err(ResponseError::Anyhow(m)) => assert_eq!(m, "username: length is greater than 50\n"),
        _ => panic!("expected a validation error"),
    }
    match CreateApUser::new_local_with("not a base", "alice".to_string(), id, keypair(), 0) {
        Err(ResponseError::Anyhow(m)) => assert_eq!(m, "relative URL without a base"),
        _ => panic!("expected an internal error"),
    }
}

fn person(name: Option<String>) -> Person {
    Person {
        id: "https://remote.example/u/bob".to_string(),
        preferred_username: "bob".to_string(),
        name,
        summary: Some("hi".to_string()),
        inbox: "https://remote.example/u/bob/inbox".to_string(),
        public_key: PublicKey {
            id: "https://remote.example/u/bob#main-key".to_string(),
            owner: "https://remote.example/u/bob".to_string(),
            public_key_pem: "PEM".to_string(),
        },
    }
}

#[test]
fn remote_ap_user_from_person() {
    let u = CreateApUser::new_remote(person(Some("Bob".to_string()))).unwrap();
    assert_eq!(u.ap_id, "https://remote.example/u/bob");
    assert_eq!(u.username, "bob");
    assert_eq!(u.private_key, None);
    assert_eq!(u.display_name, Some("Bob".to_string()));
    assert_eq!(u.bio, Some("hi".to_string()));
    assert_eq!((u.id.as_u128() >> 76) & 0xf, 4);
    let with = CreateApUser::new_remote_with(person(None), Uuid::from_u128(9), 5).unwrap();
    assert_eq!(with.id, Uuid::from_u128(9));
    assert_eq!(with.last_refreshed_at, 5);
    match CreateApUser::try_from(person(Some("n".repeat(101)))) {
        Err(ResponseError::Anyhow(m)) => assert_eq!(m, "display_name: length is greater than 100\n"),
        _ => panic!("expected a validation error"),
    }
}

#[test]
fn profile_update_validation() {
    let u = UpdateApUser { display_name: None, bio: Some("b".repeat(1001)) };
    assert_eq!(entries(u.validate()), vec![e("bio", "length is greater than 1000")]);
    assert!(UpdateApUser { display_name: Some("x".to_string()), bio: None }.validate().is_ok());
}

#[test]
fn received_persons_are_checked() {
    assert!(verify_person(person(None), "https://remote.example").is_ok());
    assert!(matches!(
        verify_person(person(None), "https://other.example"),
        Err(ResponseError::FederationError(FederationError::DomainsDoNotMatch))
    ));
    match verify_person(person(Some("n".repeat(101))), "https://remote.example") {
        Err(ResponseError::Anyhow(m)) => assert_eq!(m, "display_name: length is greater than 100\n"),
        _ => panic!("expected a validation error"),
    }
}
