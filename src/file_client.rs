//! The file service client: what request each operation sends, on behalf of
//! which user, and how each reply becomes the gateway's response.
use vstd::prelude::*;
use crate::dto::{
    self, FileType, GenerateResponse, GetAllFilesResponse, GetAllUsersResponse, GetFileResponse,
    GetPresignedGetUrlResponse, GetPresignedUploadUrlResponse, Share, ShareResponse,
    UnshareResponse, UserProfile,
};
use crate::envelope::{ApiResponse, STATUS_INTERNAL_ERROR, STATUS_NOT_FOUND};
use crate::text::{
    decimal, decimal_string, lemma_percent_round_trip, percent_decode, query_value, strings_view,
    url_encode,
};
use vstd::utf8::{decode_utf8, encode_utf8, encode_utf8_decode_utf8};
use crate::upstream::{
    EmptyResponse, FileData, FilesData, GetPresignedGetUrlData, GetPresignedUploadUrlData,
    ShareData, UnshareData, Upstream,
};

verus! {

#[derive(PartialEq, Eq, Structural, Clone, Copy, Debug)]
pub enum Method {
    Get,
    Post,
    Delete,
}

/// A request for the file service, complete but for sending: the query and
/// form pairs are encoded by whoever sends it.
pub struct HttpRequest {
    pub method: Method,
    pub url: String,
    pub headers: Vec<(String, String)>,
    pub query: Vec<(String, String)>,
    pub form: Vec<(String, String)>,
    pub json_body: Option<String>,
}

pub struct RequestView {
    pub method: Method,
    pub url: Seq<char>,
    pub headers: Seq<(Seq<char>, Seq<char>)>,
    pub query: Seq<(Seq<char>, Seq<char>)>,
    pub form: Seq<(Seq<char>, Seq<char>)>,
    pub json_body: Option<Seq<char>>,
}

pub open spec fn pairs_view(v: Seq<(String, String)>) -> Seq<(Seq<char>, Seq<char>)> {
    v.map_values(|p: (String, String)| (p.0@, p.1@))
}

impl View for HttpRequest {
    type V = RequestView;

    open spec fn view(&self) -> RequestView {
        RequestView {
            method: self.method,
            url: self.url@,
            headers: pairs_view(self.headers@),
            query: pairs_view(self.query@),
            form: pairs_view(self.form@),
            json_body: match self.json_body {
                Some(b) => Some(b@),
                None => None,
            },
        }
    }
}

/// The header that names the user a request is made for.
pub open spec fn user_id_header() -> Seq<char> {
    "X-User-Id"@
}

/// A request made on behalf of `user` with nothing but a URL.
pub open spec fn plain_request(method: Method, url: Seq<char>, user: Seq<char>) -> RequestView {
    RequestView {
        method,
        url,
        headers: seq![(user_id_header(), user)],
        query: seq![],
        form: seq![],
        json_body: None,
    }
}

/// Whether a request names `user` as the user it is made for.
pub open spec fn carries_user(r: RequestView, user: Seq<char>) -> bool {
    r.headers.contains((user_id_header(), user))
}

/// The JSON text of a list of strings.
pub uninterp spec fn json_of_strings(v: Seq<Seq<char>>) -> Seq<char>;

/// Relies on `serde_json::to_string` on a list of strings, which writes it as
/// a JSON array and does not fail on strings.
#[verifier::external_body]
fn json_string_list(v: &Vec<String>) -> (r: String)
    ensures
        r@ == json_of_strings(strings_view(v@)),
{
    serde_json::to_string(v).unwrap_or_default()
}

/// The body of a generation request: the list of ids under `file_ids`.
pub open spec fn generate_body(ids: Seq<Seq<char>>) -> Seq<char> {
    "{\"file_ids\":"@ + json_of_strings(ids) + "}"@
}

pub open spec fn unreachable_message() -> Seq<char> {
    "File service unavailable"@
}

pub open spec fn malformed_message() -> Seq<char> {
    "Failed to parse response"@
}

pub open spec fn empty_file_ids_message() -> Seq<char> {
    "file_ids must not be empty"@
}

pub open spec fn delete_failed_message(status: u16) -> Seq<char> {
    "Failed to delete file: status "@ + decimal(status as nat)
}

/// `e` is the gateway's answer to a call that did not deliver: a failing
/// status with its body passed on as they came, and 500 where the service
/// could not be reached or answered in a shape it should not have.
pub open spec fn is_failure_of<T, U>(r: Upstream<T>, e: ApiResponse<U>) -> bool {
    match r {
        Upstream::Failed { status, body } => e.is_error(status, body@),
        Upstream::Unreachable => e.is_error(STATUS_INTERNAL_ERROR, unreachable_message()),
        Upstream::Malformed => e.is_error(STATUS_INTERNAL_ERROR, malformed_message()),
        Upstream::Delivered(_) => false,
    }
}

pub(crate) fn pair(name: &str, value: String) -> (r: (String, String))
    ensures
        r.0@ == name@,
        r.1 == value,
{
    (String::from_str(name), value)
}

fn user_headers(user_id: String) -> (r: Vec<(String, String)>)
    ensures
        pairs_view(r@) == seq![(user_id_header(), user_id@)],
{
    let mut v = Vec::new();
    v.push(pair("X-User-Id", user_id));
    assert(pairs_view(v@) =~= seq![(user_id_header(), user_id@)]);
    v
}

fn plain(method: Method, url: String, user_id: String) -> (r: HttpRequest)
    ensures
        r@ == plain_request(method, url@, user_id@),
{
    let r = HttpRequest {
        method,
        url,
        headers: user_headers(user_id),
        query: Vec::new(),
        form: Vec::new(),
        json_body: None,
    };
    assert(pairs_view(r.query@) =~= seq![]);
    assert(pairs_view(r.form@) =~= seq![]);
    r
}

/// Passes a delivered payload on, and turns any other outcome into the
/// gateway's error for it.
fn delivered<T, U>(r: Upstream<T>) -> (res: Result<T, ApiResponse<U>>)
    ensures
        match r {
            Upstream::Delivered(d) => res == Ok::<T, ApiResponse<U>>(d),
            _ => res matches Err(e) && is_failure_of(r, e),
        },
{
    match r {
        Upstream::Delivered(d) => Ok(d),
        Upstream::Failed { status, body } => Err(ApiResponse::error(status, body.as_str())),
        Upstream::Unreachable => Err(ApiResponse::internal_error("File service unavailable")),
        Upstream::Malformed => Err(ApiResponse::internal_error("Failed to parse response")),
    }
}

/// The display name of the user with id `id`: the name of the last profile
/// with that id, or empty where there is none.
pub open spec fn display_name(users: Seq<(Seq<char>, Seq<char>)>, id: Seq<char>) -> Seq<char>
    decreases users.len(),
{
    if users.len() == 0 {
        seq![]
    } else if users.last().0 == id {
        users.last().1
    } else {
        display_name(users.drop_last(), id)
    }
}

pub open spec fn profiles_view(v: Seq<UserProfile>) -> Seq<(Seq<char>, Seq<char>)> {
    v.map_values(|u: UserProfile| u@)
}

/// Looks up the display name of a user among the known profiles.
pub fn lookup_display_name(users: &Vec<UserProfile>, id: &String) -> (r: String)
    ensures
        r@ == display_name(profiles_view(users@), id@),
{
    let mut i: usize = users.len();
    assert(users@.subrange(0, i as int) =~= users@);
    while i > 0
        invariant
            i <= users@.len(),
            display_name(profiles_view(users@.subrange(0, i as int)), id@) == display_name(
                profiles_view(users@),
                id@,
            ),
        decreases i,
    {
        let ghost before = profiles_view(users@.subrange(0, i as int));
        assert(before.drop_last() =~= profiles_view(users@.subrange(0, i - 1)));
        if users[i - 1].id == *id {
            return users[i - 1].name.clone();
        }
        i -= 1;
    }
    assert(profiles_view(users@.subrange(0, 0)) =~= seq![]);
    String::new()
}

pub struct CheatsheetService {
    pub cheatsheet_api_url: String,
}

impl CheatsheetService {
    pub fn new(cheatsheet_api_url: String) -> (r: Self)
        ensures
            r.cheatsheet_api_url == cheatsheet_api_url,
    {
        CheatsheetService { cheatsheet_api_url }
    }

    pub open spec fn base(&self) -> Seq<char> {
        self.cheatsheet_api_url@
    }

    fn url(&self, path: &str) -> (r: String)
        ensures
            r@ == self.base() + path@,
    {
        let mut u = self.cheatsheet_api_url.clone();
        u.append(path);
        u
    }

    pub open spec fn spec_presigned_upload_url_request(
        &self,
        filename: Seq<char>,
        user_id: Seq<char>,
    ) -> RequestView {
        plain_request(
            Method::Get,
            self.base() + "/files/presign/upload?filename="@ + query_value(filename),
            user_id,
        )
    }

    /// Asks for a URL to upload `filename` to, on behalf of `user_id`.
    pub fn get_presigned_upload_url_request(&self, filename: &str, user_id: String) -> (r:
        HttpRequest)
        ensures
            r@ == self.spec_presigned_upload_url_request(filename@, user_id@),
    {
        let mut u = self.url("/files/presign/upload?filename=");
        let encoded = url_encode(filename);
        u.append(encoded.as_str());
        plain(Method::Get, u, user_id)
    }

    /// The gateway's answer to an upload-URL reply: the URL and key as they
    /// came, and the lifetime in seconds written in decimal.
    pub fn get_presigned_upload_url_reply(r: Upstream<GetPresignedUploadUrlData>) -> (res:
        ApiResponse<GetPresignedUploadUrlResponse>)
        ensures
            match r {
                Upstream::Delivered(d) => res matches ApiResponse::Success(p) && p.url == d.url
                    && p.key == d.key && p.expires_in@ == decimal(d.expires_in as nat),
                _ => is_failure_of(r, res),
            },
    {
        match delivered(r) {
            Ok(d) => ApiResponse::ok(
                GetPresignedUploadUrlResponse {
                    expires_in: decimal_string(d.expires_in),
                    url: d.url,
                    key: d.key,
                },
            ),
            Err(e) => e,
        }
    }

    pub open spec fn spec_presigned_get_url_request(
        &self,
        key: Seq<char>,
        user_id: Seq<char>,
    ) -> RequestView {
        plain_request(Method::Get, self.base() + "/files/presign?key="@ + query_value(key), user_id)
    }

    /// Asks for a URL to download the object under `key` from.
    pub fn get_presigned_get_url_request(&self, key: &str, user_id: String) -> (r: HttpRequest)
        ensures
            r@ == self.spec_presigned_get_url_request(key@, user_id@),
    {
        let mut u = self.url("/files/presign?key=");
        let encoded = url_encode(key);
        u.append(encoded.as_str());
        plain(Method::Get, u, user_id)
    }

    pub fn get_presigned_get_url_reply(r: Upstream<GetPresignedGetUrlData>) -> (res: ApiResponse<
        GetPresignedGetUrlResponse,
    >)
        ensures
            match r {
                Upstream::Delivered(d) => res matches ApiResponse::Success(p) && p.url == d.url
                    && p.expires_in@ == decimal(d.expires_in as nat),
                _ => is_failure_of(r, res),
            },
    {
        match delivered(r) {
            Ok(d) => ApiResponse::ok(
                GetPresignedGetUrlResponse { expires_in: decimal_string(d.expires_in), url: d.url },
            ),
            Err(e) => e,
        }
    }

    pub open spec fn spec_remove_file_request(
        &self,
        file_type: FileType,
        file: Seq<char>,
        user_id: Seq<char>,
    ) -> RequestView {
        RequestView {
            method: Method::Delete,
            url: self.base() + "/files"@,
            headers: seq![(user_id_header(), user_id)],
            query: seq![
                ("file_type"@, file_type.spec_text()),
                ("user_id"@, user_id),
                ("file"@, file),
            ],
            form: seq![],
            json_body: None,
        }
    }

    /// Asks to delete `file` of the given kind, owned by `user_id`.
    pub fn remove_file_request(&self, file_type: FileType, file: String, user_id: String) -> (r:
        HttpRequest)
        ensures
            r@ == self.spec_remove_file_request(file_type, file@, user_id@),
    {
        let mut query = Vec::new();
        query.push(pair("file_type", file_type.to_string()));
        query.push(pair("user_id", user_id.clone()));
        query.push(pair("file", file));
        let r = HttpRequest {
            method: Method::Delete,
            url: self.url("/files"),
            headers: user_headers(user_id),
            query,
            form: Vec::new(),
            json_body: None,
        };
        assert(pairs_view(r.form@) =~= seq![]);
        assert(r@.query =~= self.spec_remove_file_request(file_type, file@, user_id@).query);
        r
    }

    /// The gateway's answer to a deletion: a 404 passes on with the service's
    /// message, any other failing status is a 500 that names it.
    pub fn remove_file_reply(r: Upstream<EmptyResponse>) -> (res: ApiResponse<EmptyResponse>)
        ensures
            match r {
                Upstream::Delivered(_) => res is Success,
                Upstream::Failed { status, body } => if status == STATUS_NOT_FOUND {
                    res.is_error(STATUS_NOT_FOUND, body@)
                } else {
                    res.is_error(STATUS_INTERNAL_ERROR, delete_failed_message(status))
                },
                _ => is_failure_of(r, res),
            },
    {
        match r {
            Upstream::Failed { status, body } => {
                if status == STATUS_NOT_FOUND {
                    ApiResponse::not_found(body.as_str())
                } else {
                    let mut m = String::from_str("Failed to delete file: status ");
                    let code = decimal_string(status as u64);
                    m.append(code.as_str());
                    ApiResponse::internal_error(m.as_str())
                }
            },
            other => match delivered(other) {
                Ok(_) => ApiResponse::ok(EmptyResponse {  }),
                Err(e) => e,
            },
        }
    }

    /// Lists the files visible to `user_id`.
    pub fn get_all_files_request(&self, user_id: String) -> (r: HttpRequest)
        ensures
            r@ == plain_request(Method::Get, self.base() + "/files"@, user_id@),
    {
        plain(Method::Get, self.url("/files"), user_id)
    }

    pub fn get_all_files_reply(r: Upstream<FilesData>) -> (res: ApiResponse<GetAllFilesResponse>)
        ensures
            match r {
                Upstream::Delivered(d) => res matches ApiResponse::Success(p) && p.files@.map_values(
                    |f: dto::File| f@,
                ) == d.files@.map_values(|f: crate::upstream::File| f@),
                _ => is_failure_of(r, res),
            },
    {
        match delivered(r) {
            Ok(d) => {
                let mut files: Vec<dto::File> = Vec::new();
                let mut i: usize = 0;
                while i < d.files.len()
                    invariant
                        i <= d.files@.len(),
                        files@.len() == i,
                        forall|j: int| 0 <= j < i ==> #[trigger] files@[j]@ == d.files@[j]@,
                    decreases d.files@.len() - i,
                {
                    let f = &d.files[i];
                    files.push(
                        dto::File {
                            id: f.id.clone(),
                            user_id: f.user_id.clone(),
                            created_at: f.created_at.clone(),
                            name: f.name.clone(),
                            key: f.key.clone(),
                        },
                    );
                    i += 1;
                }
                assert(files@.map_values(|f: dto::File| f@) =~= d.files@.map_values(
                    |f: crate::upstream::File| f@,
                ));
                ApiResponse::ok(GetAllFilesResponse { files })
            },
            Err(e) => e,
        }
    }

    /// Fetches the file `file_id` with its shares, as `user_id` sees it.
    pub fn get_file_request(&self, user_id: String, file_id: &str) -> (r: HttpRequest)
        ensures
            r@ == plain_request(Method::Get, self.base() + "/files/"@ + file_id@, user_id@),
    {
        let mut u = self.url("/files/");
        u.append(file_id);
        plain(Method::Get, u, user_id)
    }

    /// The first step of answering for one file: its record and shares, or
    /// the gateway's error, in which case no user list is asked for.
    pub fn get_file_fetched(r: Upstream<FileData>) -> (res: Result<FileData, ApiResponse<GetFileResponse>>)
        ensures
            match r {
                Upstream::Delivered(d) => res == Ok::<FileData, ApiResponse<GetFileResponse>>(d),
                _ => res matches Err(e) && is_failure_of(r, e),
            },
    {
        delivered(r)
    }

    /// The answer for one file once the identity service has listed its
    /// users: each share under the display name of its user, or the identity
    /// service's error as it stands.
    pub fn get_file_reply(data: FileData, users: ApiResponse<GetAllUsersResponse>) -> (res:
        ApiResponse<GetFileResponse>)
        ensures
            match users {
                ApiResponse::Success(u) => res matches ApiResponse::Success(p) && p.file@
                    == data.file@ && p.shares@.len() == data.shares@.len() && forall|i: int|
                    0 <= i < p.shares@.len() ==> #[trigger] p.shares@[i]@ == (
                        data.shares@[i].user_id@,
                        display_name(profiles_view(u.users@), data.shares@[i].user_id@),
                    ),
                ApiResponse::Error { status, message } => res.is_error(status, message@),
            },
    {
        match users {
            ApiResponse::Error { status, message } => ApiResponse::Error { status, message },
            ApiResponse::Success(u) => {
                let mut shares: Vec<Share> = Vec::new();
                let mut i: usize = 0;
                while i < data.shares.len()
                    invariant
                        i <= data.shares@.len(),
                        shares@.len() == i,
                        forall|j: int|
                            0 <= j < i ==> #[trigger] shares@[j]@ == (
                                data.shares@[j].user_id@,
                                display_name(profiles_view(u.users@), data.shares@[j].user_id@),
                            ),
                    decreases data.shares@.len() - i,
                {
                    let id = data.shares[i].user_id.clone();
                    let name = lookup_display_name(&u.users, &id);
                    shares.push(Share { user_id: id, name });
                    i += 1;
                }
                let f = data.file;
                ApiResponse::ok(
                    GetFileResponse {
                        file: dto::File {
                            id: f.id,
                            user_id: f.user_id,
                            created_at: f.created_at,
                            name: f.name,
                            key: f.key,
                        },
                        shares,
                    },
                )
            },
        }
    }

    pub open spec fn spec_share_request(
        &self,
        owner_id: Seq<char>,
        user_id: Seq<char>,
        file_id: Seq<char>,
    ) -> RequestView {
        RequestView {
            method: Method::Post,
            url: self.base() + "/share"@,
            headers: seq![(user_id_header(), owner_id)],
            query: seq![],
            form: seq![("user_id"@, user_id), ("file_id"@, file_id)],
            json_body: None,
        }
    }

    /// Grants `user_id` access to `file_id`, on behalf of its owner.
    pub fn share_request(&self, owner_id: String, user_id: String, file_id: String) -> (r:
        HttpRequest)
        ensures
            r@ == self.spec_share_request(owner_id@, user_id@, file_id@),
    {
        let mut form = Vec::new();
        form.push(pair("user_id", user_id));
        form.push(pair("file_id", file_id));
        let r = HttpRequest {
            method: Method::Post,
            url: self.url("/share"),
            headers: user_headers(owner_id),
            query: Vec::new(),
            form,
            json_body: None,
        };
        assert(pairs_view(r.query@) =~= seq![]);
        assert(r@.form =~= self.spec_share_request(owner_id@, user_id@, file_id@).form);
        r
    }

    pub fn share_reply(r: Upstream<ShareData>) -> (res: ApiResponse<ShareResponse>)
        ensures
            match r {
                Upstream::Delivered(d) => res matches ApiResponse::Success(p) && p.shared
                    == d.shared,
                _ => is_failure_of(r, res),
            },
    {
        match delivered(r) {
            Ok(d) => ApiResponse::ok(ShareResponse { shared: d.shared }),
            Err(e) => e,
        }
    }

    pub open spec fn spec_unshare_request(
        &self,
        owner_id: Seq<char>,
        user_id: Seq<char>,
        file_id: Seq<char>,
    ) -> RequestView {
        RequestView {
            method: Method::Post,
            url: self.base() + "/unshare"@,
            headers: seq![(user_id_header(), owner_id)],
            query: seq![("user_id"@, user_id), ("file_id"@, file_id)],
            form: seq![],
            json_body: None,
        }
    }

    /// Revokes the access of `user_id` to `file_id`, on behalf of its owner.
    pub fn unshare_request(&self, owner_id: String, user_id: String, file_id: String) -> (r:
        HttpRequest)
        ensures
            r@ == self.spec_unshare_request(owner_id@, user_id@, file_id@),
    {
        let mut query = Vec::new();
        query.push(pair("user_id", user_id));
        query.push(pair("file_id", file_id));
        let r = HttpRequest {
            method: Method::Post,
            url: self.url("/unshare"),
            headers: user_headers(owner_id),
            query,
            form: Vec::new(),
            json_body: None,
        };
        assert(pairs_view(r.form@) =~= seq![]);
        assert(r@.query =~= self.spec_unshare_request(owner_id@, user_id@, file_id@).query);
        r
    }

    pub fn unshare_reply(r: Upstream<UnshareData>) -> (res: ApiResponse<UnshareResponse>)
        ensures
            match r {
                Upstream::Delivered(d) => res matches ApiResponse::Success(p) && p.unshared
                    == d.unshared,
                _ => is_failure_of(r, res),
            },
    {
        match delivered(r) {
            Ok(d) => ApiResponse::ok(UnshareResponse { unshared: d.unshared }),
            Err(e) => e,
        }
    }

    pub open spec fn spec_generate_request(
        &self,
        file_ids: Seq<Seq<char>>,
        user_id: Seq<char>,
    ) -> RequestView {
        RequestView {
            method: Method::Post,
            url: self.base() + "/generate"@,
            headers: seq![(user_id_header(), user_id)],
            query: seq![],
            form: seq![],
            json_body: Some(generate_body(file_ids)),
        }
    }

    /// Asks to merge the given files into one. An empty list is refused with
    /// a 400 and no request.
    pub fn generate_request(&self, file_ids: &Vec<String>, user_id: String) -> (r: Result<
        HttpRequest,
        ApiResponse<GenerateResponse>,
    >)
        ensures
            file_ids@.len() == 0 ==> (r matches Err(e) && e.is_error(
                crate::envelope::STATUS_BAD_REQUEST,
                empty_file_ids_message(),
            )),
            file_ids@.len() > 0 ==> (r matches Ok(q) && q@ == self.spec_generate_request(
                strings_view(file_ids@),
                user_id@,
            )),
    {
        if file_ids.len() == 0 {
            return Err(ApiResponse::bad_request("file_ids must not be empty"));
        }
        let mut body = String::from_str("{\"file_ids\":");
        let list = json_string_list(file_ids);
        body.append(list.as_str());
        body.append("}");
        let r = plain(Method::Post, self.url("/generate"), user_id);
        Ok(HttpRequest { json_body: Some(body), ..r })
    }

    pub fn generate_reply(r: Upstream<GenerateResponse>) -> (res: ApiResponse<GenerateResponse>)
        ensures
            match r {
                Upstream::Delivered(d) => res == ApiResponse::Success(d),
                _ => is_failure_of(r, res),
            },
    {
        match delivered(r) {
            Ok(d) => ApiResponse::ok(d),
            Err(e) => e,
        }
    }
}

/// The key that an upload-URL reply hands out, asked for again in a
/// download-URL request, travels there percent-encoded: decoding the query
/// value gives the same key back.
pub proof fn lemma_presigned_key_round_trip(
    service: CheatsheetService,
    data: GetPresignedUploadUrlData,
    reply: ApiResponse<GetPresignedUploadUrlResponse>,
    user_id: Seq<char>,
)
    requires
        reply matches ApiResponse::Success(p) && p.key == data.key,
    ensures
        reply matches ApiResponse::Success(p) && ({
            let q = service.spec_presigned_get_url_request(p.key@, user_id);
            &&& q.url == service.base() + "/files/presign?key="@ + query_value(data.key@)
            &&& decode_utf8(percent_decode(query_value(p.key@))) == data.key@
        }),
{
    lemma_percent_round_trip(encode_utf8(data.key@));
    encode_utf8_decode_utf8(data.key@);
}

} // verus!