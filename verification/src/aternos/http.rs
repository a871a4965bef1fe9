//! Starting a server through the requests that the Aternos pages make
//! themselves, without a browser.

use vstd::prelude::*;
use crate::json::{Json, JsonTree};
use crate::outside;
use crate::outside::{group_texts, match_texts, regex_matches, unicode_lower};
use crate::text;
use crate::text::{begins, holds, opt_text, split_on, texts};

verus! {

/// The pattern of the token on the login page.
pub const TOKEN_PATTERN: &'static str = "AJAX_TOKEN\\s*=\\s*\"([^\"]+)\"";

/// The pattern of the token on the server page.
pub const SEC_PATTERN: &'static str = "SEC\\s*=\\s*\"([^\"]+)\"";

/// The first group of the first match.
pub open spec fn first_group(found: Option<Seq<Seq<Option<Seq<char>>>>>) -> Option<Seq<char>> {
    match found {
        Some(list) => if list.len() > 0 && list[0].len() > 1 {
            list[0][1]
        } else {
            None
        },
        None => None,
    }
}

/// The first group of the first match.
pub fn select_group(found: &Option<Vec<Vec<Option<String>>>>) -> (r: Option<String>)
    ensures
        opt_text(r) == first_group(
            match *found {
                Some(list) => Some(match_texts(list@)),
                None => None,
            },
        ),
{
    match found {
        Some(list) => {
            proof {
                assert(match_texts(list@).len() == list@.len());
            }
            if list.len() > 0 {
                proof {
                    assert(match_texts(list@)[0] == group_texts(list@[0]@));
                    assert(group_texts(list@[0]@).len() == list@[0]@.len());
                }
                if list[0].len() > 1 {
                    proof {
                        assert(group_texts(list@[0]@)[1] == opt_text(list@[0]@[1]));
                    }
                    return text::copy_opt(&list[0][1]);
                }
            }
            None
        },
        None => None,
    }
}

/// The token that a pattern finds on a page.
pub fn token_on(pattern: &str, page: &str) -> (r: Option<String>)
    ensures
        opt_text(r) == first_group(regex_matches(pattern@, page@)),
{
    select_group(&outside::find_matches(pattern, page))
}

/// What a start asks for next.
#[verifier::ext_equal]
#[derive(Debug)]
pub enum HttpAction<T = String> {
    GetLoginPage,
    PostLogin { token: T },
    /// Visit the configured server, so that the session knows it.
    VisitServer { server_id: T },
    GetServerPage,
    PostStart { sec: T, token: T },
    Finish { end: Result<T, T> },
}

impl View for HttpAction<String> {
    type V = HttpAction<Seq<char>>;

    open spec fn view(&self) -> HttpAction<Seq<char>> {
        match *self {
            HttpAction::GetLoginPage => HttpAction::GetLoginPage,
            HttpAction::PostLogin { token } => HttpAction::PostLogin { token: token@ },
            HttpAction::VisitServer { server_id } => HttpAction::VisitServer { server_id: server_id@ },
            HttpAction::GetServerPage => HttpAction::GetServerPage,
            HttpAction::PostStart { sec, token } => HttpAction::PostStart { sec: sec@, token: token@ },
            HttpAction::Finish { end: Ok(message) } => HttpAction::Finish { end: Ok(message@) },
            HttpAction::Finish { end: Err(message) } => HttpAction::Finish { end: Err(message@) },
        }
    }
}

// ---------------------------------------------------------------------------
// The requests
// ---------------------------------------------------------------------------

/// The page that holds the login form.
pub const LOGIN_PAGE_URL: &'static str = "https://aternos.org/go/";

/// Where the login form goes.
pub const LOGIN_URL: &'static str = "https://aternos.org/panel/ajax/account/login.php";

/// The page of the server that the session knows. The pages of single servers
/// stand below it.
pub const SERVER_PAGE_URL: &'static str = "https://aternos.org/server/";

/// Where a start is asked for.
pub const START_URL: &'static str = "https://aternos.org/panel/ajax/start.php";

/// A request to Aternos.
#[verifier::ext_equal]
#[derive(Debug, PartialEq, Eq)]
#[allow(inconsistent_fields)]
pub enum HttpRequest<T = String, F = Vec<(String, String)>> {
    Get { url: T },
    Post { url: T, form: F },
}

/// The fields of a form, in their order.
pub open spec fn form_texts(form: Seq<(String, String)>) -> Seq<(Seq<char>, Seq<char>)> {
    Seq::new(form.len(), |i: int| (form[i].0@, form[i].1@))
}

impl View for HttpRequest<String, Vec<(String, String)>> {
    type V = HttpRequest<Seq<char>, Seq<(Seq<char>, Seq<char>)>>;

    open spec fn view(&self) -> HttpRequest<Seq<char>, Seq<(Seq<char>, Seq<char>)>> {
        match *self {
            HttpRequest::Get { url } => HttpRequest::Get { url: url@ },
            HttpRequest::Post { url, form } => HttpRequest::Post { url: url@, form: form_texts(form@) },
        }
    }
}

/// The request that an action asks for; the end asks for none.
pub open spec fn requested(action: HttpAction<Seq<char>>, username: Seq<char>, password: Seq<char>) -> Option<
    HttpRequest<Seq<char>, Seq<(Seq<char>, Seq<char>)>>,
> {
    match action {
        HttpAction::GetLoginPage => Some(HttpRequest::Get { url: LOGIN_PAGE_URL@ }),
        HttpAction::PostLogin { token } => Some(
            HttpRequest::Post {
                url: LOGIN_URL@,
                form: seq![("user"@, username), ("password"@, password), ("token"@, token)],
            },
        ),
        HttpAction::VisitServer { server_id } => Some(
            HttpRequest::Get { url: SERVER_PAGE_URL@ + server_id + "/"@ },
        ),
        HttpAction::GetServerPage => Some(HttpRequest::Get { url: SERVER_PAGE_URL@ }),
        HttpAction::PostStart { sec, token } => Some(
            HttpRequest::Post { url: START_URL@, form: seq![("SEC"@, sec), ("token"@, token)] },
        ),
        HttpAction::Finish { .. } => None,
    }
}

/// The view of a request or of its absence.
pub open spec fn opt_request(request: Option<HttpRequest>) -> Option<
    HttpRequest<Seq<char>, Seq<(Seq<char>, Seq<char>)>>,
> {
    match request {
        Some(request) => Some(request@),
        None => None,
    }
}

/// The request that an action asks for, in the name of the account; the end asks
/// for none.
pub fn request(action: &HttpAction, username: &str, password: &str) -> (r: Option<HttpRequest>)
    ensures
        opt_request(r) == requested(action@, username@, password@),
{
    match action {
        HttpAction::GetLoginPage => Some(HttpRequest::Get { url: LOGIN_PAGE_URL.to_owned() }),
        HttpAction::PostLogin { token } => {
            let mut form: Vec<(String, String)> = Vec::new();
            form.push(("user".to_owned(), username.to_owned()));
            form.push(("password".to_owned(), password.to_owned()));
            form.push(("token".to_owned(), token.clone()));
            proof {
                assert(form_texts(form@) =~= seq![
                    ("user"@, username@),
                    ("password"@, password@),
                    ("token"@, token@),
                ]);
            }
            Some(HttpRequest::Post { url: LOGIN_URL.to_owned(), form })
        },
        HttpAction::VisitServer { server_id } => Some(
            HttpRequest::Get { url: text::cat3(SERVER_PAGE_URL, server_id.as_str(), "/") },
        ),
        HttpAction::GetServerPage => Some(HttpRequest::Get { url: SERVER_PAGE_URL.to_owned() }),
        HttpAction::PostStart { sec, token } => {
            let mut form: Vec<(String, String)> = Vec::new();
            form.push(("SEC".to_owned(), sec.clone()));
            form.push(("token".to_owned(), token.clone()));
            proof {
                assert(form_texts(form@) =~= seq![("SEC"@, sec@), ("token"@, token@)]);
            }
            Some(HttpRequest::Post { url: START_URL.to_owned(), form })
        },
        HttpAction::Finish { .. } => None,
    }
}

/// What came of a request; an error is told by its message.
#[verifier::ext_equal]
#[allow(inconsistent_fields)]
pub enum HttpEvent<T = String, J = Json> {
    Page { reply: Result<T, T> },
    Answer { reply: Result<J, T> },
    Visited { error: Option<T> },
}

impl View for HttpEvent<String, Json> {
    type V = HttpEvent<Seq<char>, JsonTree>;

    open spec fn view(&self) -> HttpEvent<Seq<char>, JsonTree> {
        match *self {
            HttpEvent::Page { reply: Ok(page) } => HttpEvent::Page { reply: Ok(page@) },
            HttpEvent::Page { reply: Err(message) } => HttpEvent::Page { reply: Err(message@) },
            HttpEvent::Answer { reply: Ok(json) } => HttpEvent::Answer { reply: Ok(json@) },
            HttpEvent::Answer { reply: Err(message) } => HttpEvent::Answer { reply: Err(message@) },
            HttpEvent::Visited { error } => HttpEvent::Visited { error: opt_text(error) },
        }
    }
}

/// Which outcome a start waits for.
#[verifier::ext_equal]
#[derive(Debug)]
pub enum HttpStart<T = String> {
    LoginPage,
    Login { token: T },
    Visit { token: T },
    ServerPage { token: T },
    Start,
    Over,
}

impl View for HttpStart<String> {
    type V = HttpStart<Seq<char>>;

    open spec fn view(&self) -> HttpStart<Seq<char>> {
        match *self {
            HttpStart::LoginPage => HttpStart::LoginPage,
            HttpStart::Login { token } => HttpStart::Login { token: token@ },
            HttpStart::Visit { token } => HttpStart::Visit { token: token@ },
            HttpStart::ServerPage { token } => HttpStart::ServerPage { token: token@ },
            HttpStart::Start => HttpStart::Start,
            HttpStart::Over => HttpStart::Over,
        }
    }
}

/// A start and what it asks for.
pub type HttpStep = (HttpStart<Seq<char>>, HttpAction<Seq<char>>);

/// What a start waits for the outcome of.
pub open spec fn http_awaits(flow: HttpStart<Seq<char>>, event: HttpEvent<Seq<char>, JsonTree>) -> bool {
    match flow {
        HttpStart::LoginPage | HttpStart::ServerPage { .. } => event is Page,
        HttpStart::Login { .. } | HttpStart::Start => event is Answer,
        HttpStart::Visit { .. } => event is Visited,
        HttpStart::Over => false,
    }
}

/// The start is over.
pub open spec fn http_ends(end: Result<Seq<char>, Seq<char>>) -> HttpStep {
    (HttpStart::Over, HttpAction::Finish { end })
}

/// Whether an answer reports success.
pub open spec fn succeeded(answer: JsonTree) -> bool {
    answer.bool_member("success"@) == Some(true)
}

/// The error that an answer reports, or `fallback`.
pub open spec fn reported(answer: JsonTree, fallback: Seq<char>) -> Seq<char> {
    match answer.text_member("error"@) {
        Some(error) => error,
        None => fallback,
    }
}

/// Whether an error, in lower case, says that the server runs already.
pub open spec fn says_running(lowered: Seq<char>) -> bool {
    holds(lowered, "already"@) || holds(lowered, "running"@) || holds(lowered, "online"@)
}

/// What the answer to the start request amounts to.
pub open spec fn start_end(success: bool, error: Seq<char>, lowered: Seq<char>) -> Result<Seq<char>, Seq<char>> {
    if success {
        Ok("Server start command sent successfully!"@)
    } else if says_running(lowered) {
        Ok("Server is already running (Aternos said: "@ + error + ")"@)
    } else {
        Err("Failed to start server: "@ + error)
    }
}

/// The view of the end of a start.
pub open spec fn http_end_view(end: Result<String, String>) -> Result<Seq<char>, Seq<char>> {
    match end {
        Ok(message) => Ok(message@),
        Err(message) => Err(message@),
    }
}

/// What the answer to the start request amounts to, given its error and that
/// error in lower case.
pub fn conclude(success: bool, error: &str, lowered: &str) -> (r: Result<String, String>)
    ensures
        http_end_view(r) == start_end(success, error@, lowered@),
{
    if success {
        return Ok("Server start command sent successfully!".to_owned());
    }
    if text::contains(lowered, "already") || text::contains(lowered, "running") || text::contains(
        lowered,
        "online",
    ) {
        Ok(text::cat3("Server is already running (Aternos said: ", error, ")"))
    } else {
        Err(text::cat2("Failed to start server: ", error))
    }
}

/// What follows the login page, given the token on it.
pub open spec fn login_page_read(token: Option<Seq<char>>) -> HttpStep {
    match token {
        Some(token) => (HttpStart::Login { token }, HttpAction::PostLogin { token }),
        None => http_ends(
            Err(
                "Could not find AJAX_TOKEN on the Aternos login page. The page structure may have changed."@,
            ),
        ),
    }
}

/// What follows the server page, given the token on it.
pub open spec fn server_page_read(token: Seq<char>, sec: Option<Seq<char>>) -> HttpStep {
    match sec {
        Some(sec) => (HttpStart::Start, HttpAction::PostStart { sec, token }),
        None => http_ends(
            Err(
                "Could not find SEC token on the Aternos server page. You may not have a server, or the page structure may have changed."@,
            ),
        ),
    }
}

/// The next step of a start of the server `server_id`, where one is configured.
pub open spec fn http_step(
    flow: HttpStart<Seq<char>>,
    event: HttpEvent<Seq<char>, JsonTree>,
    server_id: Option<Seq<char>>,
) -> HttpStep {
    match (flow, event) {
        (_, HttpEvent::Page { reply: Err(message) }) => http_ends(Err(message)),
        (_, HttpEvent::Answer { reply: Err(message) }) => http_ends(Err(message)),
        (_, HttpEvent::Visited { error: Some(message) }) => http_ends(Err(message)),
        (HttpStart::LoginPage, HttpEvent::Page { reply: Ok(page) }) => login_page_read(
            first_group(regex_matches(TOKEN_PATTERN@, page)),
        ),
        (HttpStart::Login { token }, HttpEvent::Answer { reply: Ok(answer) }) => if !succeeded(answer) {
            http_ends(
                Err("Aternos login failed: "@ + reported(answer, "Unknown login error"@)),
            )
        } else {
            match server_id {
                Some(server_id) => (
                    HttpStart::Visit { token },
                    HttpAction::VisitServer { server_id },
                ),
                None => (HttpStart::ServerPage { token }, HttpAction::GetServerPage),
            }
        },
        (HttpStart::Visit { token }, _) => (
            HttpStart::ServerPage { token },
            HttpAction::GetServerPage,
        ),
        (HttpStart::ServerPage { token }, HttpEvent::Page { reply: Ok(page) }) => server_page_read(
            token,
            first_group(regex_matches(SEC_PATTERN@, page)),
        ),
        (HttpStart::Start, HttpEvent::Answer { reply: Ok(answer) }) => http_ends(
            start_end(
                succeeded(answer),
                reported(answer, "Unknown error"@),
                unicode_lower(reported(answer, "Unknown error"@)),
            ),
        ),
        _ => arbitrary(),
    }
}

fn finish(end: Result<String, String>) -> (r: (HttpStart, HttpAction))
    ensures
        (r.0@, r.1@) == http_ends(http_end_view(end)),
{
    (HttpStart::Over, HttpAction::Finish { end })
}

fn success_of(answer: &Json) -> (r: bool)
    ensures
        r == succeeded(answer@),
{
    match answer.bool_of("success") {
        Some(value) => value,
        None => false,
    }
}

fn error_of(answer: &Json, fallback: &str) -> (r: String)
    ensures
        r@ == reported(answer@, fallback@),
{
    match answer.text_of("error") {
        Some(error) => error,
        None => fallback.to_owned(),
    }
}

/// What follows the login page, given the token on it.
pub fn after_login_page(token: Option<String>) -> (r: (HttpStart, HttpAction))
    ensures
        (r.0@, r.1@) == login_page_read(opt_text(token)),
{
    match token {
        Some(token) => {
            let sent = token.clone();
            (HttpStart::Login { token }, HttpAction::PostLogin { token: sent })
        },
        None => finish(
            Err(
                "Could not find AJAX_TOKEN on the Aternos login page. The page structure may have changed.".to_owned(),
            ),
        ),
    }
}

/// What follows the server page, given the token on it.
pub fn after_server_page(token: String, sec: Option<String>) -> (r: (HttpStart, HttpAction))
    ensures
        (r.0@, r.1@) == server_page_read(token@, opt_text(sec)),
{
    match sec {
        Some(sec) => (HttpStart::Start, HttpAction::PostStart { sec, token }),
        None => finish(
            Err(
                "Could not find SEC token on the Aternos server page. You may not have a server, or the page structure may have changed.".to_owned(),
            ),
        ),
    }
}

impl HttpStart<String> {
    /// A start that is about to begin, and what it asks for first.
    pub fn begin() -> (r: (HttpStart, HttpAction))
        ensures
            (r.0@, r.1@) == (HttpStart::<Seq<char>>::LoginPage, HttpAction::<Seq<char>>::GetLoginPage),
    {
        (HttpStart::LoginPage, HttpAction::GetLoginPage)
    }

    /// Takes the outcome that the start waits for to its next action.
    pub fn start(self, event: HttpEvent, server_id: &Option<String>) -> (r: (HttpStart, HttpAction))
        requires
            http_awaits(self@, event@),
        ensures
            (r.0@, r.1@) == http_step(self@, event@, opt_text(*server_id)),
    {
        match (self, event) {
            (_, HttpEvent::Page { reply: Err(message) }) => finish(Err(message)),
            (_, HttpEvent::Answer { reply: Err(message) }) => finish(Err(message)),
            (_, HttpEvent::Visited { error: Some(message) }) => finish(Err(message)),
            (HttpStart::LoginPage, HttpEvent::Page { reply: Ok(page) }) => after_login_page(
                token_on(TOKEN_PATTERN, page.as_str()),
            ),
            (HttpStart::Login { token }, HttpEvent::Answer { reply: Ok(answer) }) => {
                if !success_of(&answer) {
                    let error = error_of(&answer, "Unknown login error");
                    return finish(Err(text::cat2("Aternos login failed: ", error.as_str())));
                }
                match server_id {
                    Some(id) => (
                        HttpStart::Visit { token },
                        HttpAction::VisitServer { server_id: id.clone() },
                    ),
                    None => (HttpStart::ServerPage { token }, HttpAction::GetServerPage),
                }
            },
            (HttpStart::Visit { token }, _) => (
                HttpStart::ServerPage { token },
                HttpAction::GetServerPage,
            ),
            (HttpStart::ServerPage { token }, HttpEvent::Page { reply: Ok(page) }) => after_server_page(
                token,
                token_on(SEC_PATTERN, page.as_str()),
            ),
            (HttpStart::Start, HttpEvent::Answer { reply: Ok(answer) }) => {
                let error = error_of(&answer, "Unknown error");
                let lowered = outside::unicode_lowered(error.as_str());
                finish(conclude(success_of(&answer), error.as_str(), lowered.as_str()))
            },
            _ => vstd::pervasive::unreached(),
        }
    }
}

/// The start request carries the token of the login, and is sent only after a
/// successful login.
pub proof fn start_follows_login(
    flow: HttpStart<Seq<char>>,
    event: HttpEvent<Seq<char>, JsonTree>,
    server_id: Option<Seq<char>>,
)
    requires
        http_awaits(flow, event),
    ensures
        http_step(flow, event, server_id).1 matches HttpAction::PostStart { token, .. } ==> flow
            == (HttpStart::ServerPage { token }),
        http_step(flow, event, server_id).0 matches HttpStart::ServerPage { token } ==> flow
            == (HttpStart::Visit { token }) || flow == (HttpStart::Login { token }) && (event
            matches HttpEvent::Answer { reply: Ok(answer) } && succeeded(answer)),
        http_step(flow, event, server_id).0 matches HttpStart::Visit { token } ==> flow
            == (HttpStart::Login { token }) && (event matches HttpEvent::Answer { reply: Ok(answer) }
            && succeeded(answer)),
{
}

/// Each action is sent where Aternos takes it, with the fields that it asks for; the end
/// sends nothing.
pub proof fn actions_are_sent_where_they_are_taken(
    token: Seq<char>,
    sec: Seq<char>,
    server_id: Seq<char>,
    username: Seq<char>,
    password: Seq<char>,
    end: Result<Seq<char>, Seq<char>>,
)
    ensures
        requested(HttpAction::GetLoginPage, username, password) == Some(
            HttpRequest::<Seq<char>, Seq<(Seq<char>, Seq<char>)>>::Get { url: "https://aternos.org/go/"@ },
        ),
        requested(HttpAction::PostLogin { token }, username, password) == Some(
            HttpRequest::Post {
                url: "https://aternos.org/panel/ajax/account/login.php"@,
                form: seq![("user"@, username), ("password"@, password), ("token"@, token)],
            },
        ),
        requested(HttpAction::VisitServer { server_id }, username, password) == Some(
            HttpRequest::<Seq<char>, Seq<(Seq<char>, Seq<char>)>>::Get {
                url: "https://aternos.org/server/"@ + server_id + "/"@,
            },
        ),
        requested(HttpAction::GetServerPage, username, password) == Some(
            HttpRequest::<Seq<char>, Seq<(Seq<char>, Seq<char>)>>::Get { url: "https://aternos.org/server/"@ },
        ),
        requested(HttpAction::PostStart { sec, token }, username, password) == Some(
            HttpRequest::Post {
                url: "https://aternos.org/panel/ajax/start.php"@,
                form: seq![("SEC"@, sec), ("token"@, token)],
            },
        ),
        requested(HttpAction::Finish { end }, username, password) is None,
{
}

/// A start over plain HTTP goes in order: the login page with its token, the login, a
/// visit to the server where one is configured, the server page with its own token, and
/// the request. A page without its token, a login that is refused, and an error end it.
pub proof fn starts_go_in_order(
    page: Seq<char>,
    answer: JsonTree,
    token: Seq<char>,
    server_id: Option<Seq<char>>,
    message: Seq<char>,
)
    ensures
        ({
            let shown = HttpEvent::<Seq<char>, JsonTree>::Page { reply: Ok(page) };
            let told = HttpEvent::<Seq<char>, JsonTree>::Answer { reply: Ok(answer) };
            let first = http_step(HttpStart::LoginPage, shown, server_id);
            let login = http_step(HttpStart::Login { token }, told, server_id);
            let visited = http_step(HttpStart::Visit { token }, HttpEvent::Visited { error: None }, server_id);
            let server = http_step(HttpStart::ServerPage { token }, shown, server_id);
            let success = answer.bool_member("success"@) == Some(true);
            &&& match first_group(regex_matches("AJAX_TOKEN\\s*=\\s*\"([^\"]+)\""@, page)) {
                Some(found) => first.1 == (HttpAction::PostLogin { token: found }) && first.0 == (HttpStart::Login {
                    token: found,
                }),
                None => first.1 matches HttpAction::Finish { end: Err(_) },
            }
            &&& !success ==> login.1 == (HttpAction::Finish {
                end: Err::<Seq<char>, Seq<char>>(
                    "Aternos login failed: "@ + match answer.text_member("error"@) {
                        Some(error) => error,
                        None => "Unknown login error"@,
                    },
                ),
            })
            &&& success && server_id is Some ==> login.1 == (HttpAction::VisitServer { server_id: server_id->0 })
                && login.0 == (HttpStart::Visit { token })
            &&& success && server_id is None ==> login.1 is GetServerPage && login.0 == (HttpStart::ServerPage { token })
            &&& visited.1 is GetServerPage && visited.0 == (HttpStart::ServerPage { token })
            &&& match first_group(regex_matches("SEC\\s*=\\s*\"([^\"]+)\""@, page)) {
                Some(sec) => server.1 == (HttpAction::PostStart { sec, token }) && server.0 is Start,
                None => server.1 matches HttpAction::Finish { end: Err(_) },
            }
            &&& http_step(HttpStart::LoginPage, HttpEvent::Page { reply: Err(message) }, server_id).1 == (
            HttpAction::Finish { end: Err::<Seq<char>, Seq<char>>(message) })
            &&& http_step(HttpStart::Login { token }, HttpEvent::Answer { reply: Err(message) }, server_id).1 == (
            HttpAction::Finish { end: Err::<Seq<char>, Seq<char>>(message) })
            &&& http_step(HttpStart::Visit { token }, HttpEvent::Visited { error: Some(message) }, server_id).1 == (
            HttpAction::Finish { end: Err::<Seq<char>, Seq<char>>(message) })
            &&& http_step(HttpStart::ServerPage { token }, HttpEvent::Page { reply: Err(message) }, server_id).1 == (
            HttpAction::Finish { end: Err::<Seq<char>, Seq<char>>(message) })
            &&& http_step(HttpStart::Start, HttpEvent::Answer { reply: Err(message) }, server_id).1 == (
            HttpAction::Finish { end: Err::<Seq<char>, Seq<char>>(message) })
        }),
{
}

/// The answer to the request decides: a success is told, an error that speaks of a
/// server that runs already counts as one, and any other error is the start's.
pub proof fn answers_to_the_request_decide(answer: JsonTree, server_id: Option<Seq<char>>)
    ensures
        ({
            let step = http_step(HttpStart::Start, HttpEvent::Answer { reply: Ok(answer) }, server_id);
            let error = match answer.text_member("error"@) {
                Some(error) => error,
                None => "Unknown error"@,
            };
            let shown = unicode_lower(error);
            let runs = holds(shown, "already"@) || holds(shown, "running"@) || holds(shown, "online"@);
            step.1 == (HttpAction::Finish {
                end: if answer.bool_member("success"@) == Some(true) {
                    Ok::<Seq<char>, Seq<char>>("Server start command sent successfully!"@)
                } else if runs {
                    Ok("Server is already running (Aternos said: "@ + error + ")"@)
                } else {
                    Err("Failed to start server: "@ + error)
                },
            })
        }),
{
}

/// The token on a page is the first group of the first match.
pub proof fn tokens_are_first_groups(found: Seq<Seq<Option<Seq<char>>>>)
    ensures
        first_group(None) is None,
        found.len() == 0 ==> first_group(Some(found)) is None,
        found.len() > 0 && found[0].len() > 1 ==> first_group(Some(found)) == found[0][1],
        found.len() > 0 && found[0].len() <= 1 ==> first_group(Some(found)) is None,
{
}

// ---------------------------------------------------------------------------
// The command
// ---------------------------------------------------------------------------

/// The host of an address: what stands before its first colon.
pub fn host_of(address: &str) -> (r: String)
    ensures
        r@ == split_on(address@, ':')[0],
{
    let pieces = text::split_at_mark(address, ':');
    proof {
        assert(texts(pieces@)[0] == pieces@[0]@);
    }
    pieces[0].clone()
}

/// What the check before a start leads to.
#[derive(Clone, Debug)]
pub enum StartCheck {
    /// The server runs: say so, and do not start it.
    Abort { reply: String },
    /// The check failed: say so, and start the server.
    Warn { reply: String },
    /// The server is offline: start it.
    Proceed,
}

/// What the status before a start, or the error of its check, leads to.
pub fn check_before_start(status: Result<&str, &str>) -> (r: StartCheck)
    ensures
        match status {
            Ok(shown) => if begins(shown@, "Offline"@) {
                r == StartCheck::Proceed
            } else {
                r matches StartCheck::Abort { reply } && reply@ == "⚠️ Server is already **"@
                    + shown@ + "**. Aborting start."@
            },
            Err(error) => r matches StartCheck::Warn { reply } && reply@
                == "⚠️ Could not check server status ("@ + error@
                + "), proceeding with start anyway..."@,
        },
{
    match status {
        Ok(shown) => {
            if text::starts_with(shown, "Offline") {
                StartCheck::Proceed
            } else {
                StartCheck::Abort {
                    reply: text::cat3("⚠️ Server is already **", shown, "**. Aborting start."),
                }
            }
        },
        Err(error) => StartCheck::Warn {
            reply: text::cat3(
                "⚠️ Could not check server status (",
                error,
                "), proceeding with start anyway...",
            ),
        },
    }
}

/// The reply about the end of a start.
pub fn start_reply(end: Result<&str, &str>) -> (r: String)
    ensures
        r@ == match end {
            Ok(message) => "✅ "@ + message@,
            Err(error) => "❌ Error: "@ + error@,
        },
{
    match end {
        Ok(message) => text::cat2("✅ ", message),
        Err(error) => text::cat2("❌ Error: ", error),
    }
}

} // verus!
