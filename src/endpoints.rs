use vstd::prelude::*;

verus! {

/// The chat platform's bot API.
pub const BOT_API_URL: &'static str = "https://bot-api.zapps.me";

/// Where the question bank is served from.
pub const CONTENT_BASE_URL: &'static str = "https://mister-teddy.github.io/gmat-database";

/// The release hosting API.
pub const RELEASES_API_URL: &'static str = "https://api.github.com/repos";

/// The URL of the bot API method `method` for the bot `token`.
pub open spec fn bot_method_url_of(token: Seq<char>, method: Seq<char>) -> Seq<char> {
    BOT_API_URL@ + "/bot"@ + token + "/"@ + method
}

/// The URL of the question bank index.
pub open spec fn index_url_of() -> Seq<char> {
    CONTENT_BASE_URL@ + "/index.json"@
}

/// The URL of the content of the question `id`.
pub open spec fn question_url_of(id: Seq<char>) -> Seq<char> {
    CONTENT_BASE_URL@ + "/"@ + id + ".json"@
}

/// The URL of the releases of the repository `repo`.
pub open spec fn releases_url_of(repo: Seq<char>) -> Seq<char> {
    RELEASES_API_URL@ + "/"@ + repo + "/releases"@
}

pub fn bot_method_url(token: &str, method: &str) -> (r: String)
    ensures
        r@ == bot_method_url_of(token@, method@),
{
    let mut s = String::from_str(BOT_API_URL);
    s.append("/bot");
    s.append(token);
    s.append("/");
    s.append(method);
    s
}

pub fn index_url() -> (r: String)
    ensures
        r@ == index_url_of(),
{
    String::from_str(CONTENT_BASE_URL).concat("/index.json")
}

pub fn question_url(id: &str) -> (r: String)
    ensures
        r@ == question_url_of(id@),
{
    let mut s = String::from_str(CONTENT_BASE_URL);
    s.append("/");
    s.append(id);
    s.append(".json");
    s
}

pub fn releases_url(repo: &str) -> (r: String)
    ensures
        r@ == releases_url_of(repo@),
{
    let mut s = String::from_str(RELEASES_API_URL);
    s.append("/");
    s.append(repo);
    s.append("/releases");
    s
}

} // verus!
