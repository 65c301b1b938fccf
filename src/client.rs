use vstd::prelude::*;

verus! {

/// The address of the service.
pub const BASE_URL: &'static str = "https://jpdb.io/api/v1/";

/// The address of the service's mock server, for tests.
pub const MOCK_BASE_URL: &'static str = "https://stoplight.io/mocks/jpdb/jpdb/125397907/api/v1/";

/// Everything that a call needs besides the transport: the credential, the
/// value of the authorization header and the address of the service.
#[derive(Debug, Clone)]
pub struct Client {
    token: String,
    bearer: String,
    prefer: Option<String>,
    base_url: String,
}

impl Client {
    /// The API token.
    pub closed spec fn spec_token(&self) -> Seq<char> {
        self.token@
    }

    /// The value of the `Authorization` header.
    pub closed spec fn spec_bearer(&self) -> Seq<char> {
        self.bearer@
    }

    /// The address that endpoint paths are appended to.
    pub closed spec fn spec_base_url(&self) -> Seq<char> {
        self.base_url@
    }

    /// The `Prefer` header that selects a mock server's response, if any.
    pub closed spec fn spec_prefer(&self) -> Option<Seq<char>> {
        match self.prefer {
            Some(p) => Some(p@),
            None => None,
        }
    }

    /// A client for the service at `base_url`.
    pub fn with_base_url(token: &str, base_url: &str, prefer: Option<String>) -> (r: Client)
        ensures
            r.spec_token() == token@,
            r.spec_bearer() == "Bearer "@ + token@,
            r.spec_base_url() == base_url@,
            r.spec_prefer() == (match prefer {
                Some(p) => Some(p@),
                None => None::<Seq<char>>,
            }),
    {
        Client {
            token: token.to_owned(),
            bearer: "Bearer ".to_owned().concat(token),
            prefer,
            base_url: base_url.to_owned(),
        }
    }

    /// A client for the live service.
    pub fn new(token: &str) -> (r: Client)
        ensures
            r.spec_token() == token@,
            r.spec_bearer() == "Bearer "@ + token@,
            r.spec_base_url() == BASE_URL@,
            r.spec_prefer() == None::<Seq<char>>,
    {
        Client::with_base_url(token, BASE_URL, None)
    }

    /// A client for the service's mock server, asking it for the response
    /// that `prefer` names.
    pub fn new_mock(token: &str, prefer: Option<String>) -> (r: Client)
        ensures
            r.spec_token() == token@,
            r.spec_bearer() == "Bearer "@ + token@,
            r.spec_base_url() == MOCK_BASE_URL@,
            r.spec_prefer() == (match prefer {
                Some(p) => Some(p@),
                None => None::<Seq<char>>,
            }),
    {
        Client::with_base_url(token, MOCK_BASE_URL, prefer)
    }

    pub fn token(&self) -> (r: &str)
        ensures
            r@ == self.spec_token(),
    {
        self.token.as_str()
    }

    pub fn bearer(&self) -> (r: &str)
        ensures
            r@ == self.spec_bearer(),
    {
        self.bearer.as_str()
    }

    pub fn base_url(&self) -> (r: &str)
        ensures
            r@ == self.spec_base_url(),
    {
        self.base_url.as_str()
    }

    pub fn prefer(&self) -> (r: Option<&str>)
        ensures
            match r {
                Some(p) => self.spec_prefer() == Some(p@),
                None => self.spec_prefer() == None::<Seq<char>>,
            },
    {
        match &self.prefer {
            Some(p) => Some(p.as_str()),
            None => None,
        }
    }

    /// The full address of the endpoint at `path`.
    pub fn create_url(base_url: &str, path: &str) -> (r: String)
        ensures
            r@ == base_url@ + path@,
    {
        base_url.to_owned().concat(path)
    }

    /// A one-line description of the client.
    pub fn to_string(&self) -> (r: String)
        ensures
            r@ == "jpdb client, token: "@ + self.spec_bearer(),
    {
        "jpdb client, token: ".to_owned().concat(self.bearer.as_str())
    }
}

} // verus!
