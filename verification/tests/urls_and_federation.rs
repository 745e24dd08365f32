use linkblocks::db::ap_users::{ApUser, ApUserRow};
use linkblocks::federation::accept::Accept;
use linkblocks::federation::activity::{activity_id, generate_id, object_url};
use linkblocks::federation::bookmark::{BookmarkJson, Link};
use linkblocks::federation::config::federation_domain;
use linkblocks::federation::create_bookmark::CreateBookmark;
use linkblocks::federation::follow::Follow;
use linkblocks::federation::person::{Person, PublicKey};
use linkblocks::federation::undo_follow::UndoFollow;
use linkblocks::federation::verification::{
    is_local_url, verify_domains_match, verify_is_remote_object, verify_urls_match,
    FederationError,
};
use linkblocks::federation::webfinger::Resource;
use linkblocks::db::bookmarks::InsertBookmark;
use linkblocks::ids::Uuid;
use linkblocks::response_error::ResponseError;
use linkblocks::text::{concat2, u16_to_string, usize_to_string};
use linkblocks::urls;

fn ap_user(ap_id: &str) -> ApUser {
    ApUser {
        id: Uuid::from_u128(1),
        ap_id: ap_id.to_string(),
        username: "alice".to_string(),
        inbox_url: format!("{ap_id}/inbox"),
        public_key: "PEM".to_string(),
        private_key: None,
        last_refreshed_at: 0,
        display_name: Some("Alice".to_string()),
        bio: None,
    }
}

#[test]
fn text_helpers() {
    assert_eq!(u16_to_string(8080), "8080");
    assert_eq!(u16_to_string(0), "0");
    assert_eq!(usize_to_string(100), "100");
    assert_eq!(concat2("ab", "cd"), "abcd");
}

#[test]
fn url_parse_join_and_components() {
    assert_eq!(urls::parse("https://example.com").unwrap(), "https://example.com/");
    assert!(urls::parse("example").is_err());
    assert_eq!(
        urls::join("https://example.com/a/b", "/ap/bookmark/").unwrap(),
        "https://example.com/ap/bookmark/"
    );
    assert_eq!(urls::domain("https://sub.example.com:8443/x"), Some("sub.example.com".to_string()));
    assert_eq!(urls::domain("http://127.0.0.1/"), None);
    assert_eq!(urls::host("http://127.0.0.1/"), Some("127.0.0.1".to_string()));
    assert_eq!(urls::port("https://example.com:443/"), None);
    assert_eq!(urls::port("http://localhost:4040/"), Some(4040));
    assert_eq!(urls::domain_with_port("http://localhost:4040"), Some("localhost:4040".to_string()));
    assert_eq!(urls::domain_with_port("https://example.com"), Some("example.com".to_string()));
    assert_eq!(urls::host_with_port("http://10.0.0.1:81/"), Some("10.0.0.1:81".to_string()));
}

#[test]
fn object_urls_are_resolved_against_the_base() {
    let id = Uuid::from_u128(0x67e5_5044_10b1_426f_9247_bb68_0e5f_e0c8);
    assert_eq!(
        object_url("https://linkblocks.example/some/page", "/ap/user/", id).unwrap(),
        "https://linkblocks.example/ap/user/67e55044-10b1-426f-9247-bb680e5fe0c8"
    );
    assert_eq!(
        activity_id("http://localhost:4040", id).unwrap(),
        "http://localhost:4040/ap/activity/67e55044-10b1-426f-9247-bb680e5fe0c8"
    );
    assert!(activity_id("relative/base", id).is_err());
    let generated = generate_id("https://linkblocks.example").unwrap();
    assert!(generated.starts_with("https://linkblocks.example/ap/activity/"));
    assert_eq!(generated.len(), "https://linkblocks.example/ap/activity/".len() + 36);
}

#[test]
fn federation_domain_includes_port() {
    assert_eq!(federation_domain("http://localhost:4040").unwrap(), "localhost:4040");
    assert_eq!(federation_domain("https://linkblocks.example/").unwrap(), "linkblocks.example");
    match federation_domain("http://127.0.0.1:4040") {
        Err(ResponseError::Anyhow(m)) => assert_eq!(m, "Base URL must contain a domain name"),
        _ => panic!("expected an error"),
    }
}

#[test]
fn webfinger_handles() {
    let r = Resource::parse_handle("alice@remote.example", "https://local.example").unwrap();
    assert_eq!(r.name, "alice");
    assert_eq!(r.domain, "remote.example");
    let r = Resource::parse_handle("bob@a@b", "https://local.example").unwrap();
    assert_eq!(r.name, "bob");
    assert_eq!(r.domain, "a@b");
    let r = Resource::parse_handle("carol", "https://local.example:8443/").unwrap();
    assert_eq!(r.name, "carol");
    assert_eq!(r.domain, "local.example:8443");
    match Resource::parse_handle("dave", "http://127.0.0.1/") {
        Err(ResponseError::Anyhow(m)) => assert_eq!(m, "Missing domain for webfinger resource URL"),
        _ => panic!("expected an error"),
    }
    let r = Resource::from_name_and_url("erin".to_string(), "https://x.example").unwrap();
    assert_eq!(r.domain, "x.example");
}

#[test]
fn url_verification() {
    assert!(verify_domains_match("https://a.example/x", "https://a.example/y").is_ok());
    assert!(matches!(
        verify_domains_match("https://a.example/x", "https://b.example/x"),
        Err(FederationError::DomainsDoNotMatch)
    ));
    assert!(verify_urls_match("https://a.example/x", "https://a.example/x").is_ok());
    assert!(matches!(
        verify_urls_match("https://a.example/x", "https://a.example/y"),
        Err(FederationError::UrlsDoNotMatch)
    ));
    assert!(is_local_url("http://localhost:4040/ap/user/1", "localhost:4040"));
    assert!(!is_local_url("http://localhost:4041/ap/user/1", "localhost:4040"));
    assert!(matches!(
        verify_is_remote_object("http://localhost:4040/ap/user/1", "localhost:4040"),
        Err(FederationError::ObjectIsNotRemote)
    ));
    assert!(verify_is_remote_object("https://remote.example/u/1", "localhost:4040").is_ok());
    assert_eq!(FederationError::ObjectIsNotRemote.message(), "Object is not remote");
    assert_eq!(FederationError::Other("x".to_string()).message(), "x");
}

#[test]
fn follow_and_undo_verification() {
    let follow = Follow {
        actor: "https://remote.example/u/alice".to_string(),
        object: "https://local.example/ap/user/1".to_string(),
        id: "https://remote.example/activities/1".to_string(),
    };
    assert!(follow.verify("local.example").is_ok());
    let spoofed = Follow {
        actor: "https://remote.example/u/alice".to_string(),
        object: "https://local.example/ap/user/1".to_string(),
        id: "https://other.example/activities/1".to_string(),
    };
    assert!(matches!(spoofed.verify("local.example"), Err(FederationError::DomainsDoNotMatch)));
    let local = Follow {
        actor: "https://local.example/ap/user/2".to_string(),
        object: "https://local.example/ap/user/1".to_string(),
        id: "https://local.example/ap/activity/1".to_string(),
    };
    assert!(matches!(local.verify("local.example"), Err(FederationError::ObjectIsNotRemote)));

    let undo = UndoFollow {
        actor: "https://remote.example/u/alice".to_string(),
        to: Some("https://local.example/ap/user/1".to_string()),
        object: follow,
        id: "https://remote.example/activities/2".to_string(),
    };
    assert!(undo.verify("local.example").is_ok());
    let wrong_actor = UndoFollow {
        actor: "https://remote.example/u/mallory".to_string(),
        to: None,
        object: Follow {
            actor: "https://remote.example/u/alice".to_string(),
            object: "https://local.example/ap/user/1".to_string(),
            id: "https://remote.example/activities/1".to_string(),
        },
        id: "https://remote.example/activities/3".to_string(),
    };
    assert!(matches!(wrong_actor.verify("local.example"), Err(FederationError::UrlsDoNotMatch)));
    let wrong_to = UndoFollow {
        actor: "https://remote.example/u/alice".to_string(),
        to: Some("https://local.example/ap/user/9".to_string()),
        object: Follow {
            actor: "https://remote.example/u/alice".to_string(),
            object: "https://local.example/ap/user/1".to_string(),
            id: "https://remote.example/activities/1".to_string(),
        },
        id: "https://remote.example/activities/4".to_string(),
    };
    assert!(matches!(wrong_to.verify("local.example"), Err(FederationError::UrlsDoNotMatch)));
}

#[test]
fn activities_are_built_from_users() {
    let alice = ap_user("https://local.example/ap/user/1");
    let bob = ap_user("https://remote.example/u/bob");
    let follow = Follow::new(&alice, &bob, "https://local.example").unwrap();
    assert_eq!(follow.actor(), "https://local.example/ap/user/1");
    assert_eq!(follow.object, "https://remote.example/u/bob");
    assert!(follow.id().starts_with("https://local.example/ap/activity/"));
    let undo = UndoFollow::new(&alice, follow, "https://local.example").unwrap();
    assert_eq!(undo.to, Some("https://remote.example/u/bob".to_string()));
    assert_eq!(undo.actor(), "https://local.example/ap/user/1");
    let follow2 = Follow::new(&bob, &alice, "https://local.example").unwrap();
    let accept = Accept::new(&alice, follow2, "https://local.example").unwrap();
    assert_eq!(accept.actor(), "https://local.example/ap/user/1");
    assert!(accept.verify().is_ok());
    assert!(matches!(accept.receive(), Err(ResponseError::NotFound)));
    assert!(matches!(
        Follow::new(&alice, &bob, "nope"),
        Err(ResponseError::UrlParseError(_))
    ));
}

#[test]
fn create_bookmark_is_addressed_to_followers() {
    let alice = ap_user("https://local.example/ap/user/1");
    let followers = vec![ap_user("https://a.example/u/1"), ap_user("https://b.example/u/2")];
    let object = BookmarkJson {
        attributed_to: alice.ap_id.clone(),
        name: Some("Title".to_string()),
        attachments: vec![],
    };
    let create = CreateBookmark::new(&alice, &followers, object, "https://local.example").unwrap();
    assert_eq!(create.to, vec!["https://a.example/u/1".to_string(), "https://b.example/u/2".to_string()]);
    assert_eq!(create.actor(), "https://local.example/ap/user/1");
    assert!(create.id().starts_with("https://local.example/ap/activity/"));
    assert!(matches!(create.receive(), Err(ResponseError::NotFound)));
}

#[test]
fn received_bookmarks_need_url_and_title() {
    let json = BookmarkJson {
        attributed_to: "https://remote.example/u/1".to_string(),
        name: Some("Title".to_string()),
        attachments: vec![
            Link { href: "https://example.com/a".to_string(), media_type: None },
            Link { href: "https://example.com/b".to_string(), media_type: None },
        ],
    };
    let b = InsertBookmark::try_from_json(json).unwrap();
    assert_eq!(b.url, "https://example.com/a");
    assert_eq!(b.title, "Title");
    let no_url = BookmarkJson {
        attributed_to: "x".to_string(),
        name: Some("Title".to_string()),
        attachments: vec![],
    };
    match InsertBookmark::try_from_json(no_url) {
        Err(ResponseError::Anyhow(m)) => assert_eq!(m, "Missing URL"),
        _ => panic!("expected an error"),
    }
    let no_title = BookmarkJson {
        attributed_to: "x".to_string(),
        name: None,
        attachments: vec![Link { href: "https://example.com/a".to_string(), media_type: None }],
    };
    match InsertBookmark::try_from_json(no_title) {
        Err(ResponseError::Anyhow(m)) => assert_eq!(m, "Missing title"),
        _ => panic!("expected an error"),
    }
}

#[test]
fn ap_user_round_trips_to_person() {
    let user = ap_user("https://local.example/ap/user/1");
    let key = user.public_key();
    assert_eq!(key.id, "https://local.example/ap/user/1#main-key");
    let person = user.into_json();
    assert_eq!(person.id, "https://local.example/ap/user/1");
    assert_eq!(person.preferred_username, "alice");
    assert_eq!(person.name, Some("Alice".to_string()));
    assert_eq!(person.inbox, "https://local.example/ap/user/1/inbox");
    assert_eq!(person.public_key.owner, "https://local.example/ap/user/1");
    assert_eq!(person.public_key.public_key_pem, "PEM");
    let _unused: Option<Person> = None;
    let _k: Option<PublicKey> = None;
}

#[test]
fn ap_user_rows_are_parsed() {
    let row = ApUserRow {
        id: Uuid::from_u128(3),
        ap_id: "https://Remote.example/u/3".to_string(),
        username: "x".to_string(),
        inbox_url: "https://remote.example/u/3/inbox".to_string(),
        public_key: "k".to_string(),
        private_key: None,
        last_refreshed_at: 9,
        display_name: None,
        bio: Some("bio".to_string()),
    };
    let u = ApUser::try_from(row).unwrap();
    assert_eq!(u.ap_id, "https://remote.example/u/3");
    assert_eq!(u.id(), "https://remote.example/u/3");
    assert_eq!(u.inbox(), "https://remote.example/u/3/inbox");
    assert_eq!(u.public_key_pem(), "k");
    assert_eq!(u.bio, Some("bio".to_string()));
    let bad = ApUserRow {
        id: Uuid::from_u128(3),
        ap_id: "https://remote.example/u/3".to_string(),
        username: "x".to_string(),
        inbox_url: "inbox".to_string(),
        public_key: "k".to_string(),
        private_key: None,
        last_refreshed_at: 9,
        display_name: None,
        bio: None,
    };
    match ApUser::try_from(bad) {
        Err(ResponseError::Anyhow(m)) => assert_eq!(m, "relative URL without a base"),
        _ => panic!("expected an internal error"),
    }
}
