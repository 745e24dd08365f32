use linkblocks::db::bookmarks::{is_public, new_local_ids, Bookmark, BookmarkRow};
use linkblocks::db::links::{is_bookmark_public, LinkDestination, LinkDestinationWithChildren};
use linkblocks::db::lists::{List, ListWithLinks};
use linkblocks::db::notes::Note;
use linkblocks::ids::Uuid;
use linkblocks::response_error::ResponseError;

const ID: u128 = 0x67e5_5044_10b1_426f_9247_bb68_0e5f_e0c8;

fn bookmark(id: u128) -> Bookmark {
    Bookmark {
        id: Uuid::from_u128(id),
        created_at: 0,
        ap_user_id: Uuid::from_u128(7),
        url: "https://example.com/article".to_string(),
        title: "An article".to_string(),
        ap_id: "https://linkblocks.example/ap/bookmark/x".to_string(),
    }
}

fn list(id: u128) -> List {
    List {
        id: Uuid::from_u128(id),
        created_at: 0,
        ap_user_id: Uuid::from_u128(7),
        title: "Reading".to_string(),
        content: None,
        private: false,
        pinned: true,
    }
}

#[test]
fn uuid_is_formatted_hyphenated_lower_case() {
    assert_eq!(Uuid::from_u128(ID).to_string(), "67e55044-10b1-426f-9247-bb680e5fe0c8");
    assert_eq!(Uuid::from_u128(0).to_string(), "00000000-0000-0000-0000-000000000000");
    assert_eq!(Uuid::from_u128(u128::MAX).to_string(), "ffffffff-ffff-ffff-ffff-ffffffffffff");
}

#[test]
fn new_v4_sets_version_and_variant() {
    let a = Uuid::new_v4();
    let b = Uuid::new_v4();
    assert_eq!((a.as_u128() >> 76) & 0xf, 4);
    assert_eq!((a.as_u128() >> 62) & 0x3, 2);
    assert_ne!(a, b);
    assert_eq!(a.to_string().chars().nth(14), Some('4'));
}

#[test]
fn bookmark_list_and_note_paths() {
    assert_eq!(bookmark(ID).path(), "/bookmarks/67e55044-10b1-426f-9247-bb680e5fe0c8");
    assert_eq!(list(ID).path(), "/lists/67e55044-10b1-426f-9247-bb680e5fe0c8");
    let note = Note {
        id: Uuid::from_u128(1),
        created_at: 0,
        user_id: Uuid::from_u128(2),
        title: "n".to_string(),
        content: None,
    };
    assert_eq!(note.path(), "/notes/00000000-0000-0000-0000-000000000001");
}

#[test]
fn link_destination_id_and_path() {
    let b = LinkDestination::Bookmark(bookmark(1));
    let l = LinkDestination::List(list(2));
    assert_eq!(b.id(), Uuid::from_u128(1));
    assert_eq!(l.id(), Uuid::from_u128(2));
    assert_eq!(b.path(), "/bookmarks/00000000-0000-0000-0000-000000000001");
    assert_eq!(l.path(), "/lists/00000000-0000-0000-0000-000000000002");
    let with_children = LinkDestinationWithChildren::List(ListWithLinks {
        list: list(3),
        links: vec![b],
    });
    assert_eq!(with_children.id(), Uuid::from_u128(3));
    assert_eq!(LinkDestinationWithChildren::Bookmark(bookmark(4)).id(), Uuid::from_u128(4));
}

#[test]
fn bookmark_row_with_valid_ap_id_is_read() {
    let row = BookmarkRow {
        id: Uuid::from_u128(5),
        created_at: 42,
        ap_user_id: Uuid::from_u128(6),
        url: "https://example.com".to_string(),
        title: "Example".to_string(),
        ap_id: "https://linkblocks.example/ap/bookmark/5".to_string(),
    };
    let b = Bookmark::try_from(row).unwrap();
    assert_eq!(b.id, Uuid::from_u128(5));
    assert_eq!(b.created_at, 42);
    assert_eq!(b.ap_id, "https://linkblocks.example/ap/bookmark/5");
    assert_eq!(b.title, "Example");
}

#[test]
fn bookmark_row_with_invalid_ap_id_fails() {
    let row = BookmarkRow {
        id: Uuid::from_u128(5),
        created_at: 42,
        ap_user_id: Uuid::from_u128(6),
        url: "https://example.com".to_string(),
        title: "Example".to_string(),
        ap_id: "not a url".to_string(),
    };
    assert!(matches!(Bookmark::try_from(row), Err(ResponseError::UrlParseError(_))));
}

#[test]
fn bookmark_ap_id_is_serialized_on_read() {
    let row = BookmarkRow {
        id: Uuid::from_u128(5),
        created_at: 0,
        ap_user_id: Uuid::from_u128(6),
        url: "u".to_string(),
        title: "t".to_string(),
        ap_id: "HTTPS://Example.COM".to_string(),
    };
    assert_eq!(Bookmark::try_from(row).unwrap().ap_id, "https://example.com/");
}

#[test]
fn new_local_bookmark_ids_correlate() {
    let (id, ap_id) = new_local_ids("https://linkblocks.example").unwrap();
    assert_eq!(ap_id, format!("https://linkblocks.example/ap/bookmark/{}", id.to_string()));
    assert!(matches!(new_local_ids("no base"), Err(ResponseError::UrlParseError(_))));
}

#[test]
fn public_counts() {
    assert!(!is_public(0));
    assert!(is_public(1));
    assert!(is_bookmark_public(3));
    assert!(!is_bookmark_public(0));
}
