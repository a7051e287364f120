//! The client of the document management service: it builds each request,
//! hands it to the transport, and reads the answer.

use crate::auth::{bearer_header, bearer_value, AuthToken};
use crate::error::{view_of, SdkError, SdkErrorView, SdkResult};
use crate::models::{HealthStatus, Node, TokenResponse, UploadUrlResponse};
use crate::text::{joined, lossy_text, trimmed, utf8_lossy};
use crate::transport::{
    headers_view, HttpRequest, HttpRequestView, HttpResponse, HttpTransport,
};
use vstd::prelude::*;
use vstd::utf8::encode_utf8;

verus! {

/// An optional text as an optional character sequence.
pub open spec fn optional_text(text: Option<&str>) -> Option<Seq<char>> {
    match text {
        Some(t) => Some(t@),
        None => None,
    }
}

/// The request that asks for the service's health.
pub open spec fn health_request(base_url: Seq<char>) -> HttpRequestView {
    HttpRequestView {
        method: "GET"@,
        path: base_url + "/healthz"@,
        headers: Seq::empty(),
        body: Seq::empty(),
    }
}

/// The form body of a token exchange: the grant type, then user name and
/// password where they are given, none of them encoded.
pub open spec fn token_form(
    grant_type: Seq<char>,
    username: Option<Seq<char>>,
    password: Option<Seq<char>>,
) -> Seq<char> {
    "grant_type="@ + grant_type + (match username {
        Some(user) => "&username="@ + user,
        None => Seq::empty(),
    }) + (match password {
        Some(pass) => "&password="@ + pass,
        None => Seq::empty(),
    })
}

/// The request of a token exchange, given the grant type and its trimmed
/// form. A grant type of white space alone is refused.
pub open spec fn token_request(
    base_url: Seq<char>,
    grant_type: Seq<char>,
    trimmed_grant_type: Seq<char>,
    username: Option<Seq<char>>,
    password: Option<Seq<char>>,
) -> Result<HttpRequestView, SdkErrorView> {
    if trimmed_grant_type.len() == 0 {
        Err(SdkErrorView::InvalidInput("grant_type is required"@))
    } else {
        Ok(
            HttpRequestView {
                method: "POST"@,
                path: base_url + "/auth/token"@,
                headers: seq![("content-type"@, "application/x-www-form-urlencoded"@)],
                body: encode_utf8(token_form(grant_type, username, password)),
            },
        )
    }
}

/// The request that lists the nodes below `parent_id`.
pub open spec fn list_nodes_request(
    base_url: Seq<char>,
    authorization: Seq<char>,
    tenant_id: Seq<char>,
    parent_id: Seq<char>,
) -> HttpRequestView {
    HttpRequestView {
        method: "GET"@,
        path: base_url + "/tenants/"@ + tenant_id + "/nodes?parent_id="@ + parent_id,
        headers: seq![("authorization"@, authorization)],
        body: Seq::empty(),
    }
}

/// The JSON body that announces an upload: the parent and the encrypted
/// name as given, size and content hash still unset.
pub open spec fn upload_body(parent_id: Seq<char>, encrypted_name: Seq<char>) -> Seq<char> {
    "{\"parent_id\":\""@ + parent_id + "\",\"encrypted_name\":\""@ + encrypted_name
        + "\",\"size_bytes\":0,\"content_hash\":\"\",\"cipher_alg\":\"xchacha20-poly1305\"}"@
}

/// The request that asks where to upload a file.
pub open spec fn upload_url_request(
    base_url: Seq<char>,
    authorization: Seq<char>,
    tenant_id: Seq<char>,
    encrypted_name: Seq<char>,
    parent_id: Seq<char>,
) -> HttpRequestView {
    HttpRequestView {
        method: "POST"@,
        path: base_url + "/tenants/"@ + tenant_id + "/files/upload-url"@,
        headers: seq![("authorization"@, authorization), ("content-type"@, "application/json"@)],
        body: encode_utf8(upload_body(parent_id, encrypted_name)),
    }
}

/// The authorization header of a client: that of its token, and an error
/// where it has none.
pub open spec fn authorization(token: Option<AuthToken>) -> Result<Seq<char>, SdkErrorView> {
    match token {
        Some(t) => bearer_value(t.access_token@, trimmed(t.access_token@), trimmed(t.token_type@)),
        None => Err(SdkErrorView::Auth("missing access token"@)),
    }
}

/// The listing request of a client with `token`, or the error that its
/// missing or unusable token gives.
pub open spec fn authorized_list_nodes_request(
    base_url: Seq<char>,
    token: Option<AuthToken>,
    tenant_id: Seq<char>,
    parent_id: Seq<char>,
) -> Result<HttpRequestView, SdkErrorView> {
    match authorization(token) {
        Ok(header) => Ok(list_nodes_request(base_url, header, tenant_id, parent_id)),
        Err(e) => Err(e),
    }
}

/// The upload request of a client with `token`, or the error that its
/// missing or unusable token gives.
pub open spec fn authorized_upload_url_request(
    base_url: Seq<char>,
    token: Option<AuthToken>,
    tenant_id: Seq<char>,
    encrypted_name: Seq<char>,
    parent_id: Seq<char>,
) -> Result<HttpRequestView, SdkErrorView> {
    match authorization(token) {
        Ok(header) => Ok(upload_url_request(base_url, header, tenant_id, encrypted_name, parent_id)),
        Err(e) => Err(e),
    }
}

/// Builds the request of a token exchange from the grant type and its
/// trimmed form.
pub fn compose_token_request(
    base_url: &str,
    grant_type: &str,
    trimmed_grant_type: &str,
    username: Option<&str>,
    password: Option<&str>,
) -> (r: SdkResult<HttpRequest>)
    ensures
        view_of(r) == token_request(
            base_url@,
            grant_type@,
            trimmed_grant_type@,
            optional_text(username),
            optional_text(password),
        ),
        r matches Ok(req) ==> req.well_formed(),
{
    if trimmed_grant_type.is_empty() {
        return Err(SdkError::InvalidInput("grant_type is required".to_owned()));
    }
    let mut body = joined("grant_type=", grant_type);
    if let Some(user) = username {
        body.append("&username=");
        body.append(user);
    }
    if let Some(pass) = password {
        body.append("&password=");
        body.append(pass);
    }
    assert(body@ =~= token_form(grant_type@, optional_text(username), optional_text(password)));

    let mut headers: Vec<(String, String)> = Vec::new();
    headers.push(("content-type".to_owned(), "application/x-www-form-urlencoded".to_owned()));
    assert(headers_view(headers@) =~= seq![
        ("content-type"@, "application/x-www-form-urlencoded"@),
    ]);

    Ok(
        HttpRequest {
            method: "POST".to_owned(),
            path: joined(base_url, "/auth/token"),
            headers,
            body: body.as_str().as_bytes_vec(),
        },
    )
}

/// Builds the request that lists nodes, with the authorization header
/// given.
pub fn compose_list_nodes_request(
    base_url: &str,
    authorization: String,
    tenant_id: &str,
    parent_id: &str,
) -> (req: HttpRequest)
    ensures
        req@ == list_nodes_request(base_url@, authorization@, tenant_id@, parent_id@),
        req.well_formed(),
{
    let mut headers: Vec<(String, String)> = Vec::new();
    headers.push(("authorization".to_owned(), authorization));
    assert(headers_view(headers@) =~= seq![("authorization"@, authorization@)]);

    let mut path = joined(base_url, "/tenants/");
    path.append(tenant_id);
    path.append("/nodes?parent_id=");
    path.append(parent_id);

    HttpRequest { method: "GET".to_owned(), path, headers, body: Vec::new() }
}

/// Builds the request that asks for an upload address, with the
/// authorization header given.
pub fn compose_upload_url_request(
    base_url: &str,
    authorization: String,
    tenant_id: &str,
    encrypted_name: &str,
    parent_id: &str,
) -> (req: HttpRequest)
    ensures
        req@ == upload_url_request(
            base_url@,
            authorization@,
            tenant_id@,
            encrypted_name@,
            parent_id@,
        ),
        req.well_formed(),
{
    let mut headers: Vec<(String, String)> = Vec::new();
    headers.push(("authorization".to_owned(), authorization));
    headers.push(("content-type".to_owned(), "application/json".to_owned()));
    assert(headers_view(headers@) =~= seq![
        ("authorization"@, authorization@),
        ("content-type"@, "application/json"@),
    ]);
    proof {
        reveal_strlit("authorization");
        reveal_strlit("content-type");
        assert("authorization"@.len() != "content-type"@.len());
    }

    let mut body = joined("{\"parent_id\":\"", parent_id);
    body.append("\",\"encrypted_name\":\"");
    body.append(encrypted_name);
    body.append(
        "\",\"size_bytes\":0,\"content_hash\":\"\",\"cipher_alg\":\"xchacha20-poly1305\"}",
    );

    let mut path = joined(base_url, "/tenants/");
    path.append(tenant_id);
    path.append("/files/upload-url");

    HttpRequest { method: "POST".to_owned(), path, headers, body: body.as_str().as_bytes_vec() }
}

/// The error that an answer of the transport amounts to, if any: the
/// transport's own error, or the failure that a status of 400 or more
/// reports, with the body as its message.
pub open spec fn failure_of(res: SdkResult<HttpResponse>) -> Option<SdkErrorView> {
    match res {
        Err(e) => Some(e@),
        Ok(response) => if response.status >= 400 {
            Some(SdkErrorView::Api { status: response.status, message: utf8_lossy(response.body@) })
        } else {
            None
        },
    }
}

/// Hands a good answer on, and turns the transport's error or a failure
/// status into the error of the call.
pub fn check_response(res: SdkResult<HttpResponse>) -> (r: SdkResult<HttpResponse>)
    ensures
        match failure_of(res) {
            Some(failure) => r matches Err(e) && e@ == failure,
            None => r == res,
        },
        res matches Err(e) ==> r == res,
{
    match res {
        Err(e) => Err(e),
        Ok(response) => {
            if response.status >= 400 {
                Err(SdkError::api(response.status, lossy_text(response.body.as_slice())))
            } else {
                Ok(response)
            }
        },
    }
}

/// What a health check returns for an answer of the transport: the error
/// that the answer amounts to, else the status `ok`.
pub open spec fn health_outcome(res: SdkResult<HttpResponse>, r: SdkResult<HealthStatus>) -> bool {
    match failure_of(res) {
        Some(failure) => r matches Err(e) && e@ == failure,
        None => r matches Ok(health) && health.status@ == "ok"@,
    }
}

/// What a token exchange returns for an answer of the transport: the error
/// that the answer amounts to, else an empty bearer token; the body is not
/// read.
pub open spec fn token_outcome(res: SdkResult<HttpResponse>, r: SdkResult<TokenResponse>) -> bool {
    match failure_of(res) {
        Some(failure) => r matches Err(e) && e@ == failure,
        None => {
            &&& r matches Ok(token)
            &&& token.access_token@ == Seq::<char>::empty()
            &&& token.token_type@ == "Bearer"@
            &&& token.expires_in == 0
            &&& token.refresh_token is None
        },
    }
}

/// What a listing returns for an answer of the transport: the error that
/// the answer amounts to, else no nodes; the body is not read.
pub open spec fn nodes_outcome(res: SdkResult<HttpResponse>, r: SdkResult<Vec<Node>>) -> bool {
    match failure_of(res) {
        Some(failure) => r matches Err(e) && e@ == failure,
        None => r matches Ok(nodes) && nodes@.len() == 0,
    }
}

/// What a request for an upload address returns for an answer of the
/// transport: the error that the answer amounts to, else empty fields; the
/// body is not read.
pub open spec fn upload_url_outcome(
    res: SdkResult<HttpResponse>,
    r: SdkResult<UploadUrlResponse>,
) -> bool {
    match failure_of(res) {
        Some(failure) => r matches Err(e) && e@ == failure,
        None => {
            &&& r matches Ok(upload)
            &&& upload.upload_id@ == Seq::<char>::empty()
            &&& upload.put_url@ == Seq::<char>::empty()
            &&& upload.expires_at@ == Seq::<char>::empty()
        },
    }
}

/// Reads the answer to a health check.
pub fn health_from(res: SdkResult<HttpResponse>) -> (r: SdkResult<HealthStatus>)
    ensures
        health_outcome(res, r),
{
    match check_response(res) {
        Ok(_) => Ok(HealthStatus { status: "ok".to_owned() }),
        Err(e) => Err(e),
    }
}

/// Reads the answer to a token exchange.
pub fn token_from(res: SdkResult<HttpResponse>) -> (r: SdkResult<TokenResponse>)
    ensures
        token_outcome(res, r),
{
    match check_response(res) {
        Ok(_) => Ok(
            TokenResponse {
                access_token: String::new(),
                token_type: "Bearer".to_owned(),
                expires_in: 0,
                refresh_token: None,
            },
        ),
        Err(e) => Err(e),
    }
}

/// Reads the answer to a listing.
pub fn nodes_from(res: SdkResult<HttpResponse>) -> (r: SdkResult<Vec<Node>>)
    ensures
        nodes_outcome(res, r),
{
    match check_response(res) {
        Ok(_) => Ok(Vec::new()),
        Err(e) => Err(e),
    }
}

/// Reads the answer to a request for an upload address.
pub fn upload_url_from(res: SdkResult<HttpResponse>) -> (r: SdkResult<UploadUrlResponse>)
    ensures
        upload_url_outcome(res, r),
{
    match check_response(res) {
        Ok(_) => Ok(
            UploadUrlResponse {
                upload_id: String::new(),
                put_url: String::new(),
                expires_at: String::new(),
            },
        ),
        Err(e) => Err(e),
    }
}

/// A client of the service at one base address, with the transport it
/// sends through and the token it presents.
pub struct DmsClient<T: HttpTransport> {
    base_url: String,
    transport: T,
    token: Option<AuthToken>,
}

impl<T: HttpTransport> DmsClient<T> {
    /// The address that every path starts with.
    pub closed spec fn base_url(&self) -> Seq<char> {
        self.base_url@
    }

    /// The transport that requests are sent through.
    pub closed spec fn transport(&self) -> T {
        self.transport
    }

    /// The token that authorized requests present, once one is set.
    pub closed spec fn token(&self) -> Option<AuthToken> {
        self.token
    }

    /// A client without a token.
    pub fn new(base_url: &str, transport: T) -> (client: Self)
        ensures
            client.base_url() == base_url@,
            client.transport() == transport,
            client.token() is None,
    {
        Self { base_url: base_url.to_owned(), transport, token: None }
    }

    /// Sets the token, in place of any earlier one.
    pub fn set_token(&mut self, token: AuthToken)
        ensures
            final(self).token() == Some(token),
            final(self).base_url() == old(self).base_url(),
            final(self).transport() == old(self).transport(),
    {
        self.token = Some(token);
    }

    /// The request that asks for the service's health.
    pub fn build_health_request(&self) -> (req: HttpRequest)
        ensures
            req@ == health_request(self.base_url()),
            req.well_formed(),
    {
        let headers: Vec<(String, String)> = Vec::new();
        assert(headers_view(headers@) =~= Seq::empty());
        HttpRequest {
            method: "GET".to_owned(),
            path: joined(self.base_url.as_str(), "/healthz"),
            headers,
            body: Vec::new(),
        }
    }

    /// Asks the service for its health: sends the health request and reads
    /// whatever the transport answers.
    pub fn healthz(&self) -> (r: SdkResult<HealthStatus>)
        ensures
            exists|res: SdkResult<HttpResponse>|
                {
                    &&& #[trigger] self.transport().answers(health_request(self.base_url()), res)
                    &&& health_outcome(res, r)
                },
    {
        let req = self.build_health_request();
        let res = self.transport.send(req);
        let ghost answer = res;
        let r = health_from(res);
        assert(self.transport().answers(health_request(self.base_url()), answer)
            && health_outcome(answer, r));
        r
    }

    /// The request of a token exchange. A grant type of white space alone
    /// is refused; user name and password go into the form as they are.
    pub fn build_token_request(
        &self,
        grant_type: &str,
        username: Option<&str>,
        password: Option<&str>,
    ) -> (r: SdkResult<HttpRequest>)
        ensures
            view_of(r) == token_request(
                self.base_url(),
                grant_type@,
                trimmed(grant_type@),
                optional_text(username),
                optional_text(password),
            ),
            r matches Ok(req) ==> req.well_formed(),
    {
        compose_token_request(
            self.base_url.as_str(),
            grant_type,
            grant_type.trim(),
            username,
            password,
        )
    }

    /// Exchanges credentials for a token: refuses a blank grant type, else
    /// sends the token request and reads whatever the transport answers.
    pub fn exchange_token(
        &self,
        grant_type: &str,
        username: Option<&str>,
        password: Option<&str>,
    ) -> (r: SdkResult<TokenResponse>)
        ensures
            match token_request(
                self.base_url(),
                grant_type@,
                trimmed(grant_type@),
                optional_text(username),
                optional_text(password),
            ) {
                Err(refusal) => r matches Err(e) && e@ == refusal,
                Ok(req) => exists|res: SdkResult<HttpResponse>|
                    {
                        &&& #[trigger] self.transport().answers(req, res)
                        &&& token_outcome(res, r)
                    },
            },
    {
        match self.build_token_request(grant_type, username, password) {
            Err(e) => Err(e),
            Ok(req) => {
                let res = self.transport.send(req);
                let ghost answer = res;
                let r = token_from(res);
                assert(self.transport().answers(
                    token_request(
                        self.base_url(),
                        grant_type@,
                        trimmed(grant_type@),
                        optional_text(username),
                        optional_text(password),
                    )->Ok_0,
                    answer,
                ) && token_outcome(answer, r));
                r
            },
        }
    }

    /// The request that lists the nodes below `parent_id`, authorized with
    /// the client's token.
    pub fn build_list_nodes_request(&self, tenant_id: &str, parent_id: &str) -> (r: SdkResult<
        HttpRequest,
    >)
        ensures
            view_of(r) == authorized_list_nodes_request(
                self.base_url(),
                self.token(),
                tenant_id@,
                parent_id@,
            ),
            r matches Ok(req) ==> req.well_formed(),
    {
        match self.auth_header() {
            Err(e) => Err(e),
            Ok(header) => Ok(
                compose_list_nodes_request(self.base_url.as_str(), header, tenant_id, parent_id),
            ),
        }
    }

    /// Lists the nodes below `parent_id`: fails without a usable token,
    /// else sends the listing request and reads whatever the transport
    /// answers.
    pub fn list_nodes(&self, tenant_id: &str, parent_id: &str) -> (r: SdkResult<Vec<Node>>)
        ensures
            match authorized_list_nodes_request(
                self.base_url(),
                self.token(),
                tenant_id@,
                parent_id@,
            ) {
                Err(refusal) => r matches Err(e) && e@ == refusal,
                Ok(req) => exists|res: SdkResult<HttpResponse>|
                    {
                        &&& #[trigger] self.transport().answers(req, res)
                        &&& nodes_outcome(res, r)
                    },
            },
    {
        match self.build_list_nodes_request(tenant_id, parent_id) {
            Err(e) => Err(e),
            Ok(req) => {
                let res = self.transport.send(req);
                let ghost answer = res;
                let r = nodes_from(res);
                assert(self.transport().answers(
                    authorized_list_nodes_request(
                        self.base_url(),
                        self.token(),
                        tenant_id@,
                        parent_id@,
                    )->Ok_0,
                    answer,
                ) && nodes_outcome(answer, r));
                r
            },
        }
    }

    /// The request that asks where to upload a file, authorized with the
    /// client's token.
    pub fn build_upload_url_request(
        &self,
        tenant_id: &str,
        encrypted_name: &str,
        parent_id: &str,
    ) -> (r: SdkResult<HttpRequest>)
        ensures
            view_of(r) == authorized_upload_url_request(
                self.base_url(),
                self.token(),
                tenant_id@,
                encrypted_name@,
                parent_id@,
            ),
            r matches Ok(req) ==> req.well_formed(),
    {
        match self.auth_header() {
            Err(e) => Err(e),
            Ok(header) => Ok(
                compose_upload_url_request(
                    self.base_url.as_str(),
                    header,
                    tenant_id,
                    encrypted_name,
                    parent_id,
                ),
            ),
        }
    }

    /// Asks where to upload a file: fails without a usable token, else
    /// sends the request and reads whatever the transport answers.
    pub fn create_upload_url(&self, tenant_id: &str, encrypted_name: &str, parent_id: &str) -> (r:
        SdkResult<UploadUrlResponse>)
        ensures
            match authorized_upload_url_request(
                self.base_url(),
                self.token(),
                tenant_id@,
                encrypted_name@,
                parent_id@,
            ) {
                Err(refusal) => r matches Err(e) && e@ == refusal,
                Ok(req) => exists|res: SdkResult<HttpResponse>|
                    {
                        &&& #[trigger] self.transport().answers(req, res)
                        &&& upload_url_outcome(res, r)
                    },
            },
    {
        match self.build_upload_url_request(tenant_id, encrypted_name, parent_id) {
            Err(e) => Err(e),
            Ok(req) => {
                let res = self.transport.send(req);
                let ghost answer = res;
                let r = upload_url_from(res);
                assert(self.transport().answers(
                    authorized_upload_url_request(
                        self.base_url(),
                        self.token(),
                        tenant_id@,
                        encrypted_name@,
                        parent_id@,
                    )->Ok_0,
                    answer,
                ) && upload_url_outcome(answer, r));
                r
            },
        }
    }

    /// The authorization header of the client's token.
    fn auth_header(&self) -> (r: SdkResult<String>)
        ensures
            view_of(r) == authorization(self.token()),
    {
        match &self.token {
            None => Err(SdkError::Auth("missing access token".to_owned())),
            Some(token) => bearer_header(token),
        }
    }
}

} // verus!
