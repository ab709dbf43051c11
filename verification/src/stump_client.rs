//! The requests that are sent to Stump.

use crate::decimal;
use crate::decimal::format_i64;
use crate::text::{concat2, concat3, trimmed_end_slashes};
use crate::types;
use crate::types::{StumpMedia, SyncError};
use vstd::prelude::*;
use vstd::string::*;

verus! {

/// Fetches every media of a library with its active session (`readProgress`,
/// singular and nullable) and its finished sessions (`readHistory`), both of
/// the user that the API key belongs to. Without a limit all media come back.
pub const GET_LIBRARY_MEDIA_QUERY: &'static str = r#"
    query GetLibraryMedia($libraryId: ID!) {
        libraryById(id: $libraryId) {
            id
            media {
                id
                name
                pages
                path
                readProgress {
                    page
                    updatedAt
                }
                readHistory {
                    completedAt
                }
            }
        }
    }
"#;

/// Sends a page. It never completes a comic nor takes a completion back. The
/// answer is a union, so it is selected through inline fragments.
pub const UPDATE_PROGRESS_MUTATION: &'static str = r#"
    mutation UpdateProgress($id: ID!, $page: Int!) {
        updateMediaProgress(id: $id, input: { paged: { page: $page } }) {
            __typename
            ... on ActiveReadingSession { id page }
            ... on FinishedReadingSession { id completedAt }
        }
    }
"#;

/// Marks a comic complete. Stump records a finished session at every call, so
/// this is sent only for a comic that Stump does not hold as complete.
pub const MARK_COMPLETE_MUTATION: &'static str = r#"
    mutation MarkComplete($id: ID!) {
        markMediaAsComplete(id: $id, isComplete: true) {
            id
            completedAt
        }
    }
"#;

/// Lists the libraries with their ids, names and paths.
pub const LIST_LIBRARIES_QUERY: &'static str = r#"
            query ListLibraries {
                libraries(
                    orderBy: [{ field: NAME, direction: ASC }]
                    pagination: { offset: { page: 1, pageSize: 200, zeroBased: false } }
                ) {
                    nodes {
                        id
                        name
                        path
                    }
                }
            }
        "#;

/// A character that may stand in the value of an HTTP header: anything but the
/// control characters, of which only the tab is allowed.
pub open spec fn header_char(c: char) -> bool {
    (c >= ' ' && c != '\u{7f}') || c == '\t'
}

/// A text that can be the value of an HTTP header.
pub open spec fn header_safe(s: Seq<char>) -> bool {
    forall|i: int| 0 <= i < s.len() ==> header_char(#[trigger] s[i])
}

/// `HeaderValue::from_str` of `http`, as `reqwest` offers it: accepts a text
/// whose UTF-8 bytes are at least 32 and not 127, or a tab; these are the bytes
/// of the characters that `header_char` admits. For any other text its error
/// reads "failed to parse header value".
#[verifier::external_body]
fn check_header_value(value: &str) -> (r: Result<(), String>)
    ensures
        match r {
            Ok(_) => header_safe(value@),
            Err(m) => !header_safe(value@) && m@ == "failed to parse header value"@,
        },
{
    reqwest::header::HeaderValue::from_str(value).map(|_| ()).map_err(|e| e.to_string())
}

/// The digit of a hexadecimal number, in lower case.
pub open spec fn hex_digit(d: int) -> char {
    if d < 10 {
        ('0' as int + d) as char
    } else {
        ('a' as int + d - 10) as char
    }
}

/// A character as it stands inside a JSON string.
pub open spec fn json_char(c: char) -> Seq<char> {
    if c == '"' {
        seq!['\\', '"']
    } else if c == '\\' {
        seq!['\\', '\\']
    } else if c == '\u{8}' {
        seq!['\\', 'b']
    } else if c == '\t' {
        seq!['\\', 't']
    } else if c == '\n' {
        seq!['\\', 'n']
    } else if c == '\u{c}' {
        seq!['\\', 'f']
    } else if c == '\r' {
        seq!['\\', 'r']
    } else if ' ' > c {
        seq!['\\', 'u', '0', '0', hex_digit(c as int / 16), hex_digit(c as int % 16)]
    } else {
        seq![c]
    }
}

/// A text as it stands inside a JSON string.
pub open spec fn json_chars(s: Seq<char>) -> Seq<char>
    decreases s.len(),
{
    if s.len() == 0 {
        Seq::empty()
    } else {
        json_chars(s.drop_last()) + json_char(s.last())
    }
}

/// A text as a JSON string.
pub open spec fn json_text(s: Seq<char>) -> Seq<char> {
    seq!['"'] + json_chars(s) + seq!['"']
}

/// `serde_json::to_string` on a string slice: the text in double quotes, with
/// quotes, backslashes and control characters escaped and everything else as
/// it is. It cannot fail on a string slice.
#[verifier::external_body]
fn json_string(value: &str) -> (r: String)
    ensures
        r@ == json_text(value@),
{
    serde_json::to_string(value).unwrap_or_default()
}

/// The variables of a request.
#[derive(Debug, Clone)]
pub enum Variables {
    Absent,
    Library { library_id: String },
    Progress { id: String, page: i32 },
    Media { id: String },
}

/// The contents of [`Variables`].
pub enum VariablesView {
    Absent,
    Library { library_id: Seq<char> },
    Progress { id: Seq<char>, page: i32 },
    Media { id: Seq<char> },
}

impl View for Variables {
    type V = VariablesView;

    open spec fn view(&self) -> VariablesView {
        match *self {
            Variables::Absent => VariablesView::Absent,
            Variables::Library { library_id } => VariablesView::Library {
                library_id: library_id@,
            },
            Variables::Progress { id, page } => VariablesView::Progress { id: id@, page },
            Variables::Media { id } => VariablesView::Media { id: id@ },
        }
    }
}

/// The variables as a JSON value.
pub open spec fn variables_json(variables: VariablesView) -> Seq<char> {
    match variables {
        VariablesView::Absent => "null"@,
        VariablesView::Library { library_id } => "{\"libraryId\":"@ + json_text(library_id)
            + "}"@,
        VariablesView::Progress { id, page } => "{\"id\":"@ + json_text(id) + ",\"page\":"@
            + decimal::decimal(page as int) + "}"@,
        VariablesView::Media { id } => "{\"id\":"@ + json_text(id) + "}"@,
    }
}

/// The body of a request: an object with the query and the variables.
pub open spec fn body_json(query: Seq<char>, variables: VariablesView) -> Seq<char> {
    "{\"query\":"@ + json_text(query) + ",\"variables\":"@ + variables_json(variables) + "}"@
}

/// A request to Stump, ready to be posted.
#[derive(Debug, Clone)]
pub struct PostRequest {
    pub url: String,
    pub body: String,
}

/// The contents of a [`PostRequest`].
pub struct PostRequestView {
    pub url: Seq<char>,
    pub body: Seq<char>,
}

impl View for PostRequest {
    type V = PostRequestView;

    open spec fn view(&self) -> PostRequestView {
        PostRequestView { url: self.url@, body: self.body@ }
    }
}

/// What is needed to talk to a Stump server.
pub struct StumpClient {
    base_url: String,
    authorization: String,
    user_id: String,
}

/// The contents of a [`StumpClient`].
pub struct ClientView {
    pub base_url: Seq<char>,
    pub authorization: Seq<char>,
    pub user_id: Seq<char>,
}

impl View for StumpClient {
    type V = ClientView;

    closed spec fn view(&self) -> ClientView {
        ClientView {
            base_url: self.base_url@,
            authorization: self.authorization@,
            user_id: self.user_id@,
        }
    }
}

impl ClientView {
    /// A request with this query and these variables.
    pub open spec fn request(self, query: Seq<char>, variables: VariablesView) -> PostRequestView {
        PostRequestView {
            url: self.base_url + "/graphql"@,
            body: body_json(query, variables),
        }
    }
}

/// The body of a request as JSON.
fn request_body(query: &str, variables: &Variables) -> (r: String)
    ensures
        r@ == body_json(query@, variables@),
{
    let vars: String = match variables {
        Variables::Absent => "null".to_owned(),
        Variables::Library { library_id } => {
            let id = json_string(library_id.as_str());
            concat3("{\"libraryId\":", id.as_str(), "}")
        },
        Variables::Progress { id, page } => {
            let id = json_string(id.as_str());
            let page = format_i64(*page as i64);
            let mut v = concat3("{\"id\":", id.as_str(), ",\"page\":");
            v.append(page.as_str());
            v.append("}");
            v
        },
        Variables::Media { id } => {
            let id = json_string(id.as_str());
            concat3("{\"id\":", id.as_str(), "}")
        },
    };
    let q = json_string(query);
    let mut body = concat3("{\"query\":", q.as_str(), ",\"variables\":");
    body.append(vars.as_str());
    body.append("}");
    body
}

impl StumpClient {
    /// A client for the server at `base_url`. Trailing slashes of the address
    /// are dropped. A key that cannot stand in a header is refused.
    pub fn new(base_url: String, api_key: String, user_id: String) -> (r: Result<
        StumpClient,
        SyncError,
    >)
        ensures
            match r {
                Ok(client) => header_safe(api_key@) && client@ == (ClientView {
                    base_url: crate::text::trim_end_slashes(base_url@),
                    authorization: "Bearer "@ + api_key@,
                    user_id: user_id@,
                }),
                Err(e) => !header_safe(api_key@) && e@ == types::ErrorView::Config(
                    "invalid API key header: failed to parse header value"@,
                ),
            },
    {
        let authorization = concat2("Bearer ", api_key.as_str());
        proof {
            bearer_is_safe(api_key@);
            reveal_strlit("invalid API key header: ");
            reveal_strlit("failed to parse header value");
            reveal_strlit("invalid API key header: failed to parse header value");
            assert("invalid API key header: "@ + "failed to parse header value"@
                =~= "invalid API key header: failed to parse header value"@);
        }
        match check_header_value(authorization.as_str()) {
            Ok(_) => Ok(
                StumpClient {
                    base_url: trimmed_end_slashes(base_url.as_str()),
                    authorization,
                    user_id,
                },
            ),
            Err(m) => Err(
                SyncError::Config(concat2("invalid API key header: ", m.as_str())),
            ),
        }
    }

    /// The value of the authorization header.
    pub fn authorization(&self) -> (r: &str)
        ensures
            r@ == self@.authorization,
    {
        self.authorization.as_str()
    }

    /// The user the client was made for. Stump goes by the API key instead.
    pub fn user_id(&self) -> (r: &str)
        ensures
            r@ == self@.user_id,
    {
        self.user_id.as_str()
    }

    /// A request with this query and these variables.
    fn request(&self, query: &str, variables: &Variables) -> (r: PostRequest)
        ensures
            r@ == self@.request(query@, variables@),
    {
        PostRequest {
            url: concat2(self.base_url.as_str(), "/graphql"),
            body: request_body(query, variables),
        }
    }

    /// Asks for the list of libraries.
    pub fn list_libraries(&self) -> (r: PostRequest)
        ensures
            r@ == self@.request(LIST_LIBRARIES_QUERY@, VariablesView::Absent),
    {
        self.request(LIST_LIBRARIES_QUERY, &Variables::Absent)
    }

    /// Asks for the media of a library.
    pub fn get_library_media(&self, library_id: &str) -> (r: PostRequest)
        ensures
            r@ == self@.request(
                GET_LIBRARY_MEDIA_QUERY@,
                VariablesView::Library { library_id: library_id@ },
            ),
    {
        self.request(
            GET_LIBRARY_MEDIA_QUERY,
            &Variables::Library { library_id: library_id.to_owned() },
        )
    }

    /// Sends the page of a media.
    pub fn update_progress(&self, media_id: &str, page: i32) -> (r: PostRequest)
        ensures
            r@ == self@.request(
                UPDATE_PROGRESS_MUTATION@,
                VariablesView::Progress { id: media_id@, page },
            ),
    {
        self.request(
            UPDATE_PROGRESS_MUTATION,
            &Variables::Progress { id: media_id.to_owned(), page },
        )
    }

    /// Marks a media complete.
    pub fn mark_complete(&self, media_id: &str) -> (r: PostRequest)
        ensures
            r@ == self@.request(MARK_COMPLETE_MUTATION@, VariablesView::Media { id: media_id@ }),
    {
        self.request(MARK_COMPLETE_MUTATION, &Variables::Media { id: media_id.to_owned() })
    }
}

/// The media of a library; a library that Stump does not know has none.
pub fn library_media(library: Option<Vec<StumpMedia>>) -> (r: Vec<StumpMedia>)
    ensures
        r@ == (match library {
            Some(media) => media@,
            None => Seq::empty(),
        }),
{
    match library {
        Some(media) => media,
        None => Vec::new(),
    }
}

/// The scheme in front of the key is always fit for a header, so the key alone
/// decides.
pub proof fn bearer_is_safe(key: Seq<char>)
    ensures
        header_safe("Bearer "@ + key) == header_safe(key),
{
    reveal_strlit("Bearer ");
    let all = "Bearer "@ + key;
    assert forall|i: int| 0 <= i < 7 implies header_char(#[trigger] "Bearer "@[i]) by {}
    if header_safe(all) {
        assert forall|i: int| 0 <= i < key.len() implies header_char(#[trigger] key[i]) by {
            assert(all[i + 7] == key[i]);
        }
    }
    if header_safe(key) {
        assert forall|i: int| 0 <= i < all.len() implies header_char(#[trigger] all[i]) by {
            if i >= 7 {
                assert(all[i] == key[i - 7]);
            } else {
                assert(all[i] == "Bearer "@[i]);
            }
        }
    }
}

/// Every request goes to the GraphQL address of the server, and its body is an
/// object with the query and then the variables.
pub proof fn request_carries_query_and_variables(
    client: ClientView,
    query: Seq<char>,
    variables: VariablesView,
)
    ensures
        client.request(query, variables).url == client.base_url + "/graphql"@,
        client.request(query, variables).body == "{\"query\":"@ + json_text(query)
            + ",\"variables\":"@ + variables_json(variables) + "}"@,
{
}

/// The variables name what the request is about: the library, the media, and
/// for a page the page that was asked for, each exactly as it was given.
pub proof fn variables_carry_what_was_given(id: Seq<char>, page: i32)
    ensures
        variables_json(VariablesView::Absent) == "null"@,
        variables_json((VariablesView::Library { library_id: id })) == "{\"libraryId\":"@
            + json_text(id) + "}"@,
        variables_json((VariablesView::Media { id })) == "{\"id\":"@ + json_text(id) + "}"@,
        variables_json((VariablesView::Progress { id, page })) == "{\"id\":"@ + json_text(id)
            + ",\"page\":"@ + decimal::decimal(page as int) + "}"@,
{
}

/// A key is fit for a header exactly where it holds no control character but
/// the tab.
pub proof fn control_characters_are_unfit_for_a_header(key: Seq<char>)
    ensures
        header_safe(key) <==> forall|i: int|
            0 <= i < key.len() ==> (#[trigger] key[i] as int >= 32 && key[i] as int != 127)
                || key[i] as int == 9,
{
    if header_safe(key) {
        assert forall|i: int| 0 <= i < key.len() implies (#[trigger] key[i] as int >= 32
            && key[i] as int != 127) || key[i] as int == 9 by {
            assert(header_char(key[i]));
        }
    }
}

/// A page is sent to the very media and with the very page that were asked for,
/// and a mark to the very media.
pub proof fn pushes_say_what_was_asked(
    client: &StumpClient,
    media_id: &str,
    page: i32,
    progress: PostRequest,
    mark: PostRequest,
)
    requires
        call_ensures(StumpClient::update_progress, (client, media_id, page), progress),
        call_ensures(StumpClient::mark_complete, (client, media_id), mark),
    ensures
        progress.url@ == client@.base_url + "/graphql"@,
        progress.body@ == "{\"query\":"@ + json_text(UPDATE_PROGRESS_MUTATION@)
            + ",\"variables\":"@ + ("{\"id\":"@ + json_text(media_id@) + ",\"page\":"@
            + decimal::decimal(page as int) + "}"@) + "}"@,
        mark.url@ == client@.base_url + "/graphql"@,
        mark.body@ == "{\"query\":"@ + json_text(MARK_COMPLETE_MUTATION@) + ",\"variables\":"@ + (
        "{\"id\":"@ + json_text(media_id@) + "}"@) + "}"@,
{
}

/// The media are asked for by the very library that was named, and the list of
/// libraries without any variable.
pub proof fn queries_say_what_was_asked(
    client: &StumpClient,
    library_id: &str,
    media: PostRequest,
    listing: PostRequest,
)
    requires
        call_ensures(StumpClient::get_library_media, (client, library_id), media),
        call_ensures(StumpClient::list_libraries, (client,), listing),
    ensures
        media.url@ == client@.base_url + "/graphql"@,
        media.body@ == "{\"query\":"@ + json_text(GET_LIBRARY_MEDIA_QUERY@) + ",\"variables\":"@ + (
        "{\"libraryId\":"@ + json_text(library_id@) + "}"@) + "}"@,
        listing.url@ == client@.base_url + "/graphql"@,
        listing.body@ == "{\"query\":"@ + json_text(LIST_LIBRARIES_QUERY@) + ",\"variables\":"@
            + "null"@ + "}"@,
{
}

/// A client is had for every key that is fit for a header. It talks to the
/// address without trailing slashes and shows the key behind the scheme.
pub proof fn client_is_made_for_fit_keys(
    base_url: String,
    api_key: String,
    user_id: String,
    r: Result<StumpClient, SyncError>,
)
    requires
        call_ensures(StumpClient::new, (base_url, api_key, user_id), r),
    ensures
        r is Ok <==> header_safe(api_key@),
        r matches Ok(client) ==> {
            &&& client@.base_url.is_prefix_of(base_url@)
            &&& client@.base_url.len() > 0 ==> client@.base_url.last() != '/'
            &&& forall|i: int|
                client@.base_url.len() <= i < base_url@.len() ==> #[trigger] base_url@[i] == '/'
            &&& client@.authorization == "Bearer "@ + api_key@
            &&& client@.user_id == user_id@
        },
{
    crate::text::trimmed_end_holds_no_slash(base_url@);
}

/// A library that Stump knows has the media that it lists, and one that Stump
/// does not know has none.
pub proof fn unknown_library_has_no_media(library: Option<Vec<StumpMedia>>, r: Vec<StumpMedia>)
    requires
        call_ensures(library_media, (library,), r),
    ensures
        library matches Some(media) ==> r@ == media@,
        library is None ==> r@.len() == 0,
{
}

} // verus!
