use vstd::prelude::*;
use crate::http::{bearer_header, bearer_value, HttpMethod, HttpRequest, RequestBody};
use crate::jsontext::json_of_payment;
use crate::model::{outgoing_matches, PaymentRequest};

verus! {

/// The gateway to the provider's REST API.  It holds the credentials fixed
/// at construction and turns each operation into an outbound request value;
/// the surrounding application sends it and hands the response back to the
/// parsing functions.
pub struct TinkApiGateway {
    pub api_url: String,
    pub client_id: String,
    pub client_secret: String,
}

impl TinkApiGateway {
    /// The token endpoint.
    pub open spec fn token_url(self) -> Seq<char> {
        self.api_url@ + "/api/v1/oauth/token"@
    }

    /// The payment-creation endpoint.
    pub open spec fn payments_url(self) -> Seq<char> {
        self.api_url@ + "/api/v1/payments/requests"@
    }

    /// The status-lookup endpoint for one payment request.
    pub open spec fn status_url(self, request_id: Seq<char>) -> Seq<char> {
        self.api_url@ + "/api/v1/payments/requests/"@ + request_id
    }

    /// The form fields of the client-credentials token request, in order.
    pub open spec fn token_form_matches(self, fields: Seq<(String, String)>) -> bool {
        &&& fields.len() == 4
        &&& fields[0].0@ == "client_id"@ && fields[0].1@ == self.client_id@
        &&& fields[1].0@ == "client_secret"@ && fields[1].1@ == self.client_secret@
        &&& fields[2].0@ == "grant_type"@ && fields[2].1@ == "client_credentials"@
        &&& fields[3].0@ == "scope"@ && fields[3].1@ == "payment:read,payment:write"@
    }

    /// Holds exactly when `r` is the token request for these credentials: a
    /// form-encoded POST to the token endpoint carrying client id, client
    /// secret, the client-credentials grant and the payment scopes.  The
    /// header list is fixed whole: the content type and nothing else, so
    /// in particular no Authorization header is sent.
    pub open spec fn is_token_request(self, r: HttpRequest) -> bool {
        &&& r.method is Post
        &&& r.url@ == self.token_url()
        &&& r.headers@.len() == 1
        &&& r.headers@[0].0@ == "Content-Type"@
        &&& r.headers@[0].1@ == "application/x-www-form-urlencoded; charset=utf-8"@
        &&& r.body matches RequestBody::Form(fields) && self.token_form_matches(fields@)
    }

    /// Holds exactly when `r` submits the payment body `p` under the given
    /// bearer token: a JSON POST to the payment-creation endpoint whose
    /// document is the serialisation of `p`.
    pub open spec fn is_payment_post(self, token: Seq<char>, p: PaymentRequest, r: HttpRequest) -> bool {
        &&& r.method is Post
        &&& r.url@ == self.payments_url()
        &&& r.headers@.len() == 2
        &&& r.headers@[0].0@ == "Content-Type"@
        &&& r.headers@[0].1@ == "application/json; charset=utf-8"@
        &&& r.headers@[1].0@ == "Authorization"@
        &&& r.headers@[1].1@ == bearer_value(token)
        &&& r.body matches RequestBody::Json(doc) && doc@ == json_of_payment(p)
    }

    /// Holds exactly when `r` submits an outgoing payment for the given
    /// market, currency and amount under the given bearer token.
    pub open spec fn is_payment_submission(
        self,
        token: Seq<char>,
        market: Seq<char>,
        currency: Seq<char>,
        amount: u32,
        r: HttpRequest,
    ) -> bool {
        exists|p: PaymentRequest|
            #[trigger] outgoing_matches(p, market, currency, amount) && self.is_payment_post(
                token,
                p,
                r,
            )
    }

    /// Holds exactly when `r` is the status lookup for `request_id` under
    /// the given bearer token: a GET of the request's own URL.
    pub open spec fn is_status_request(
        self,
        token: Seq<char>,
        request_id: Seq<char>,
        r: HttpRequest,
    ) -> bool {
        &&& r.method is Get
        &&& r.url@ == self.status_url(request_id)
        &&& r.headers@.len() == 1
        &&& r.headers@[0].0@ == "Authorization"@
        &&& r.headers@[0].1@ == bearer_value(token)
        &&& r.body is Empty
    }

    /// Pure value assembly; no I/O, cannot fail.
    pub fn new(api_url: String, client_id: String, client_secret: String) -> (r: Self)
        ensures
            r.api_url == api_url,
            r.client_id == client_id,
            r.client_secret == client_secret,
    {
        TinkApiGateway { api_url, client_id, client_secret }
    }

    /// Builds the client-credentials token request.
    pub fn token_request(&self) -> (r: HttpRequest)
        ensures
            self.is_token_request(r),
    {
        let mut headers: Vec<(String, String)> = Vec::new();
        headers.push(
            (
                "Content-Type".to_owned(),
                "application/x-www-form-urlencoded; charset=utf-8".to_owned(),
            ),
        );
        let mut fields: Vec<(String, String)> = Vec::new();
        fields.push(("client_id".to_owned(), self.client_id.clone()));
        fields.push(("client_secret".to_owned(), self.client_secret.clone()));
        fields.push(("grant_type".to_owned(), "client_credentials".to_owned()));
        fields.push(("scope".to_owned(), "payment:read,payment:write".to_owned()));
        let r = HttpRequest {
            method: HttpMethod::Post,
            url: self.api_url.clone().concat("/api/v1/oauth/token"),
            headers,
            body: RequestBody::Form(fields),
        };
        r
    }

    /// Builds the outgoing payment body and the JSON POST that submits it.
    /// The body carries the caller's market, currency and amount, no id, and
    /// the fixed demo-store defaults; the parse failure of a later response
    /// cannot touch it.
    pub fn create_payment_request(
        &self,
        access_token: &str,
        market: &str,
        currency: &str,
        amount: u32,
    ) -> (r: (PaymentRequest, HttpRequest))
        ensures
            outgoing_matches(r.0, market@, currency@, amount),
            self.is_payment_post(access_token@, r.0, r.1),
            self.is_payment_submission(access_token@, market@, currency@, amount, r.1),
    {
        let payment = PaymentRequest::outgoing(market, currency, amount);
        let doc = crate::jsontext::payment_to_json(&payment);
        let mut headers: Vec<(String, String)> = Vec::new();
        headers.push(("Content-Type".to_owned(), "application/json; charset=utf-8".to_owned()));
        headers.push(("Authorization".to_owned(), bearer_header(access_token)));
        let r = HttpRequest {
            method: HttpMethod::Post,
            url: self.api_url.clone().concat("/api/v1/payments/requests"),
            headers,
            body: RequestBody::Json(doc),
        };
        (payment, r)
    }

    /// Builds the status lookup for one payment request: a GET of the
    /// request's own URL under the bearer token.
    pub fn get_transfer_status(&self, access_token: &str, request_id: &str) -> (r: HttpRequest)
        ensures
            self.is_status_request(access_token@, request_id@, r),
    {
        let mut headers: Vec<(String, String)> = Vec::new();
        headers.push(("Authorization".to_owned(), bearer_header(access_token)));
        let r = HttpRequest {
            method: HttpMethod::Get,
            url: self.api_url.clone().concat("/api/v1/payments/requests/").concat(request_id),
            headers,
            body: RequestBody::Empty,
        };
        r
    }
}

/// Whatever the base URL, the status-lookup URL ends in `/requests/`
/// followed by the request id itself.
pub proof fn lemma_status_url_suffix(gw: TinkApiGateway, request_id: Seq<char>)
    ensures
        gw.status_url(request_id).len() == gw.api_url@.len() + 26 + request_id.len(),
        gw.status_url(request_id).subrange(
            gw.api_url@.len() as int + 16,
            gw.status_url(request_id).len() as int,
        ) == "/requests/"@ + request_id,
{
    reveal_strlit("/api/v1/payments/requests/");
    reveal_strlit("/requests/");
    assert(gw.status_url(request_id).subrange(
        gw.api_url@.len() as int + 16,
        gw.status_url(request_id).len() as int,
    ) =~= "/requests/"@ + request_id);
}

} // verus!
