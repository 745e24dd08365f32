use crate::date_time::now_utc;
use crate::federation::activity::{is_v4, object_url, spec_object_url};
use crate::federation::person::Person;
use crate::federation::signing::generate_keypair;
use crate::federation::signing::{pem_keypair, Keypair};
use crate::ids::Uuid;
use crate::response_error::{is_anyhow, ResponseError, ResponseResult};
use crate::urls::{opt_view, parse_error_message};
use crate::validation::{
    check_length, check_opt_length, entry, finish, length_error, opt_length_error, outcome, record,
    report_text, Report,
};
use vstd::prelude::*;

verus! {

/// The data of a new ActivityPub user. URLs are serialized; lengths are
/// limited: URLs to 255 bytes, the user name to 50, keys to 10 000, the
/// display name to 100 and the bio to 5 000.
#[derive(Debug)]
pub struct CreateApUser {
    pub id: Uuid,
    pub ap_id: String,
    pub username: String,
    pub inbox_url: String,
    pub public_key: String,
    pub private_key: Option<String>,
    /// Nanoseconds since the Unix epoch.
    pub last_refreshed_at: i128,
    pub display_name: Option<String>,
    pub bio: Option<String>,
}

/// The report entries of a new ActivityPub user with the given fields.
pub open spec fn ap_user_entries(
    ap_id: Seq<char>,
    bio: Option<Seq<char>>,
    display_name: Option<Seq<char>>,
    inbox_url: Seq<char>,
    private_key: Option<Seq<char>>,
    public_key: Seq<char>,
    username: Seq<char>,
) -> Seq<(Seq<char>, Seq<char>)> {
    entry("ap_id"@, length_error(ap_id, 0, 255)) + entry(
        "bio"@,
        opt_length_error(bio, 0, 5000),
    ) + entry("display_name"@, opt_length_error(display_name, 0, 100)) + entry(
        "inbox_url"@,
        length_error(inbox_url, 0, 255),
    ) + entry("private_key"@, opt_length_error(private_key, 0, 10000)) + entry(
        "public_key"@,
        length_error(public_key, 0, 10000),
    ) + entry("username"@, length_error(username, 0, 50))
}

pub open spec fn create_ap_user_entries(c: CreateApUser) -> Seq<(Seq<char>, Seq<char>)> {
    ap_user_entries(
        c.ap_id@,
        opt_view(c.bio),
        opt_view(c.display_name),
        c.inbox_url@,
        opt_view(c.private_key),
        c.public_key@,
        c.username@,
    )
}

pub open spec fn user_prefix() -> Seq<char> {
    "/ap/user/"@
}

pub open spec fn inbox_prefix() -> Seq<char> {
    "/ap/inbox/"@
}

impl CreateApUser {
    pub fn validate(&self) -> (r: Result<(), Report>)
        ensures
            outcome(create_ap_user_entries(*self), r),
    {
        let mut report = Report::new();
        record(&mut report, "ap_id", check_length(self.ap_id.as_str(), 0, 255));
        record(&mut report, "bio", check_opt_length(&self.bio, 0, 5000));
        record(&mut report, "display_name", check_opt_length(&self.display_name, 0, 100));
        record(&mut report, "inbox_url", check_length(self.inbox_url.as_str(), 0, 255));
        record(&mut report, "private_key", check_opt_length(&self.private_key, 0, 10000));
        record(&mut report, "public_key", check_length(self.public_key.as_str(), 0, 10000));
        record(&mut report, "username", check_length(self.username.as_str(), 0, 50));
        assert(report@ =~= create_ap_user_entries(*self));
        finish(report)
    }

    /// Keeps a user that passes validation; otherwise fails with the report's text.
    fn validated(self) -> (r: ResponseResult<CreateApUser>)
        ensures
            create_ap_user_entries(self).len() == 0 ==> r == Ok::<
                CreateApUser,
                ResponseError,
            >(self),
            create_ap_user_entries(self).len() > 0 ==> is_anyhow(
                r,
                report_text(create_ap_user_entries(self)),
            ),
    {
        match self.validate() {
            Ok(()) => Ok(self),
            Err(report) => Err(ResponseError::Anyhow(report.to_string())),
        }
    }

    /// A new local user with identifier `id`, key pair `keypair` and refresh
    /// time `now`: its ActivityPub id is `{base_url}/ap/user/{id}` and its
    /// inbox `{base_url}/ap/inbox/{id}`. A base URL that these cannot be
    /// resolved against is an internal error.
    pub fn new_local_with(
        base_url: &str,
        username: String,
        id: Uuid,
        keypair: Keypair,
        now: i128,
    ) -> (r: ResponseResult<CreateApUser>)
        ensures
            spec_object_url(base_url@, user_prefix(), id) is None ==> (r is Err
                && r->Err_0 is Anyhow),
            spec_object_url(base_url@, user_prefix(), id) is Some && spec_object_url(
                base_url@,
                inbox_prefix(),
                id,
            ) is None ==> (r is Err && r->Err_0 is Anyhow),
            spec_object_url(base_url@, user_prefix(), id) matches Some(ap_id)
                ==> spec_object_url(base_url@, inbox_prefix(), id) matches Some(inbox) ==> {
                let entries = ap_user_entries(
                    ap_id,
                    None,
                    None,
                    inbox,
                    Some(keypair.private_key@),
                    keypair.public_key@,
                    username@,
                );
                &&& r is Ok <==> entries.len() == 0
                &&& entries.len() > 0 ==> is_anyhow(r, report_text(entries))
                &&& r matches Ok(c) ==> {
                    &&& c.id == id
                    &&& c.ap_id@ == ap_id
                    &&& c.username@ == username@
                    &&& c.inbox_url@ == inbox
                    &&& c.public_key@ == keypair.public_key@
                    &&& c.private_key == Some(keypair.private_key)
                    &&& c.last_refreshed_at == now
                    &&& c.display_name is None
                    &&& c.bio is None
                }
            },
    {
        proof {
            reveal_strlit("/ap/user/");
            reveal_strlit("/ap/inbox/");
        }
        let ap_id = match object_url(base_url, "/ap/user/", id) {
            Ok(u) => u,
            Err(e) => {
                return Err(ResponseError::Anyhow(parse_error_message(e)));
            },
        };
        let inbox_url = match object_url(base_url, "/ap/inbox/", id) {
            Ok(u) => u,
            Err(e) => {
                return Err(ResponseError::Anyhow(parse_error_message(e)));
            },
        };
        let create = CreateApUser {
            id,
            ap_id,
            username,
            inbox_url,
            public_key: keypair.public_key,
            private_key: Some(keypair.private_key),
            last_refreshed_at: now,
            display_name: None,
            bio: None,
        };
        create.validated()
    }

    /// Create a new local activitypub user with a freshly generated key pair
    /// (the private key a PKCS#8 PEM document, the public key an SPKI one), a
    /// fresh random identifier and the current time.
    pub fn new_local(base_url: &str, username: String) -> (r: ResponseResult<CreateApUser>)
        ensures
            r matches Ok(c) ==> {
                &&& is_v4(c.id)
                &&& spec_object_url(base_url@, user_prefix(), c.id) == Some(c.ap_id@)
                &&& spec_object_url(base_url@, inbox_prefix(), c.id) == Some(c.inbox_url@)
                &&& c.username@ == username@
                &&& c.private_key matches Some(p) && pem_keypair(
                    (Keypair { private_key: p, public_key: c.public_key }),
                )
                &&& c.display_name is None
                &&& c.bio is None
                &&& create_ap_user_entries(c).len() == 0
            },
            r is Err ==> r->Err_0 is Anyhow,
    {
        let id = Uuid::new_v4();
        let keypair = match generate_keypair() {
            Ok(k) => k,
            Err(e) => {
                return Err(e);
            },
        };
        let now = now_utc();
        let r = Self::new_local_with(base_url, username, id, keypair, now);
        proof {
            if r is Ok {
                let c = r->Ok_0;
                assert(create_ap_user_entries(c) =~= ap_user_entries(
                    c.ap_id@,
                    None,
                    None,
                    c.inbox_url@,
                    opt_view(c.private_key),
                    c.public_key@,
                    c.username@,
                ));
            }
        }
        r
    }

    /// The entries of a remote user that would be created from `json`.
    pub open spec fn remote_entries(json: Person) -> Seq<(Seq<char>, Seq<char>)> {
        ap_user_entries(
            json.id@,
            opt_view(json.summary),
            opt_view(json.name),
            json.inbox@,
            None,
            json.public_key.public_key_pem@,
            json.preferred_username@,
        )
    }

    /// A user of another instance (without a private key), with identifier
    /// `id` and refresh time `now`.
    pub fn new_remote_with(json: Person, id: Uuid, now: i128) -> (r: ResponseResult<CreateApUser>)
        ensures
            r is Ok <==> Self::remote_entries(json).len() == 0,
            Self::remote_entries(json).len() > 0 ==> is_anyhow(
                r,
                report_text(Self::remote_entries(json)),
            ),
            r matches Ok(c) ==> {
                &&& c.id == id
                &&& c.ap_id@ == json.id@
                &&& c.username@ == json.preferred_username@
                &&& c.inbox_url@ == json.inbox@
                &&& c.public_key@ == json.public_key.public_key_pem@
                &&& c.private_key is None
                &&& c.last_refreshed_at == now
                &&& c.display_name == json.name
                &&& c.bio == json.summary
            },
    {
        let ghost j = json;
        let create_user = CreateApUser {
            id,
            ap_id: json.id,
            username: json.preferred_username,
            inbox_url: json.inbox,
            public_key: json.public_key.public_key_pem,
            private_key: None,
            last_refreshed_at: now,
            display_name: json.name,
            bio: json.summary,
        };
        assert(create_ap_user_entries(create_user) =~= Self::remote_entries(j));
        create_user.validated()
    }

    /// Create a new activitypub user from a different instance - without a
    /// private key - with a fresh random identifier and the current time.
    pub fn new_remote(json: Person) -> (r: ResponseResult<CreateApUser>)
        ensures
            r is Ok <==> Self::remote_entries(json).len() == 0,
            Self::remote_entries(json).len() > 0 ==> is_anyhow(
                r,
                report_text(Self::remote_entries(json)),
            ),
            r matches Ok(c) ==> {
                &&& is_v4(c.id)
                &&& c.ap_id@ == json.id@
                &&& c.username@ == json.preferred_username@
                &&& c.inbox_url@ == json.inbox@
                &&& c.public_key@ == json.public_key.public_key_pem@
                &&& c.private_key is None
                &&& c.display_name == json.name
                &&& c.bio == json.summary
            },
    {
        let id = Uuid::new_v4();
        let now = now_utc();
        Self::new_remote_with(json, id, now)
    }

    /// A remote `Person` becomes a new user.
    pub fn try_from(json: Person) -> (r: ResponseResult<CreateApUser>)
        ensures
            r is Ok <==> Self::remote_entries(json).len() == 0,
            Self::remote_entries(json).len() > 0 ==> is_anyhow(
                r,
                report_text(Self::remote_entries(json)),
            ),
            r matches Ok(c) ==> {
                &&& is_v4(c.id)
                &&& c.ap_id@ == json.id@
                &&& c.username@ == json.preferred_username@
                &&& c.inbox_url@ == json.inbox@
                &&& c.public_key@ == json.public_key.public_key_pem@
                &&& c.private_key is None
                &&& c.display_name == json.name
                &&& c.bio == json.summary
            },
    {
        Self::new_remote(json)
    }
}

/// Changes to a user's profile: a display name of at most 100 bytes and a
/// bio of at most 1 000.
#[derive(Debug)]
pub struct UpdateApUser {
    pub display_name: Option<String>,
    pub bio: Option<String>,
}

pub open spec fn update_ap_user_entries(u: UpdateApUser) -> Seq<(Seq<char>, Seq<char>)> {
    entry("bio"@, opt_length_error(opt_view(u.bio), 0, 1000)) + entry(
        "display_name"@,
        opt_length_error(opt_view(u.display_name), 0, 100),
    )
}

impl UpdateApUser {
    pub fn validate(&self) -> (r: Result<(), Report>)
        ensures
            outcome(update_ap_user_entries(*self), r),
    {
        let mut report = Report::new();
        record(&mut report, "bio", check_opt_length(&self.bio, 0, 1000));
        record(&mut report, "display_name", check_opt_length(&self.display_name, 0, 100));
        assert(report@ =~= update_ap_user_entries(*self));
        finish(report)
    }
}

} // verus!
