//! The REST side of the protocol: what each operation asks of the service,
//! the signed request that carries it, and what the answer means.

use crate::auth::{optional_text, signed_headers, AuthHeaders, AuthHeadersView};
use crate::clock::Timestamp;
use crate::config::{option_text, Config};
use crate::crypto::{secret_key_bytes, SigningError};
use crate::text::{decimal_text, push_char, push_decimal};
use vstd::prelude::*;
use vstd::string::*;

verus! {

/// The HTTP methods that the client uses.
#[derive(Clone, Copy, Debug, PartialEq, Eq, Structural)]
pub enum HttpMethod {
    Get,
    Post,
    Delete,
}

impl HttpMethod {
    /// The method's name as it is signed and sent.
    pub open spec fn name_text(self) -> Seq<char> {
        match self {
            HttpMethod::Get => "GET"@,
            HttpMethod::Post => "POST"@,
            HttpMethod::Delete => "DELETE"@,
        }
    }

    /// The method's name.
    pub fn name(&self) -> (r: &'static str)
        ensures
            r@ == self.name_text(),
    {
        match self {
            HttpMethod::Get => "GET",
            HttpMethod::Post => "POST",
            HttpMethod::Delete => "DELETE",
        }
    }
}

/// An operation of the REST API, with what names its target.
#[derive(Clone, Debug)]
pub enum RestOperation {
    CreateProject { name: String, project_type: String, enable_histogram: bool },
    DeleteProject { name: String },
    ProjectInfo { project: String },
    Learn { project: String },
    Build { project: String, model_type: String, model_name: String },
    AutoSelect { project: String, task: String, model_name: String },
    Predict { project: String, model: String },
    DeleteModel { project: String, model: String },
    Job { id: String },
}

/// `true` or `false`, as a flag is written in a query.
pub open spec fn flag_text(flag: bool) -> Seq<char> {
    if flag {
        "true"@
    } else {
        "false"@
    }
}

impl RestOperation {
    /// The method of the operation.
    pub open spec fn method_of(self) -> HttpMethod {
        match self {
            RestOperation::CreateProject { .. } => HttpMethod::Post,
            RestOperation::DeleteProject { .. } => HttpMethod::Delete,
            RestOperation::ProjectInfo { .. } => HttpMethod::Get,
            RestOperation::Learn { .. } => HttpMethod::Post,
            RestOperation::Build { .. } => HttpMethod::Post,
            RestOperation::AutoSelect { .. } => HttpMethod::Post,
            RestOperation::Predict { .. } => HttpMethod::Post,
            RestOperation::DeleteModel { .. } => HttpMethod::Delete,
            RestOperation::Job { .. } => HttpMethod::Get,
        }
    }

    /// What follows the user's root in the resource path.
    pub open spec fn path_text(self) -> Seq<char> {
        match self {
            RestOperation::CreateProject { .. } => "/projects"@,
            RestOperation::DeleteProject { name } => "/projects/"@ + name@,
            RestOperation::ProjectInfo { project } => "/projects/"@ + project@ + "/info"@,
            RestOperation::Learn { project } => "/projects/"@ + project@ + "/learn"@,
            RestOperation::Build { project, .. } => "/projects/"@ + project@ + "/build"@,
            RestOperation::AutoSelect { project, .. } => "/projects/"@ + project@
                + "/autoSelect"@,
            RestOperation::Predict { project, model } => "/projects/"@ + project@ + "/predict/"@
                + model@,
            RestOperation::DeleteModel { project, model } => "/projects/"@ + project@
                + "/models/"@ + model@,
            RestOperation::Job { id } => "/jobs/"@ + id@,
        }
    }

    /// The resource path of the operation for a user.
    pub open spec fn resource_text(self, user: Seq<char>) -> Seq<char> {
        "/symetry/rest/"@ + user + self.path_text()
    }

    /// The query of the operation, where it has one.
    pub open spec fn query_text(self) -> Option<Seq<char>> {
        match self {
            RestOperation::CreateProject { name, project_type, enable_histogram } => Some(
                "pid="@ + name@ + "&persist=true&type="@ + project_type@ + "&enableHistogram="@
                    + flag_text(enable_histogram),
            ),
            RestOperation::Build { model_type, model_name, .. } => Some(
                "algo="@ + model_type@ + "&modelid="@ + model_name@,
            ),
            RestOperation::AutoSelect { task, model_name, .. } => Some(
                "task="@ + task@ + "&modelid="@ + model_name@,
            ),
            _ => None,
        }
    }

    /// The method of the operation.
    pub fn method(&self) -> (r: HttpMethod)
        ensures
            r == self.method_of(),
    {
        match self {
            RestOperation::CreateProject { .. } => HttpMethod::Post,
            RestOperation::DeleteProject { .. } => HttpMethod::Delete,
            RestOperation::ProjectInfo { .. } => HttpMethod::Get,
            RestOperation::Learn { .. } => HttpMethod::Post,
            RestOperation::Build { .. } => HttpMethod::Post,
            RestOperation::AutoSelect { .. } => HttpMethod::Post,
            RestOperation::Predict { .. } => HttpMethod::Post,
            RestOperation::DeleteModel { .. } => HttpMethod::Delete,
            RestOperation::Job { .. } => HttpMethod::Get,
        }
    }

    /// The resource path of the operation for a user.
    pub fn resource(&self, user: &str) -> (r: String)
        ensures
            r@ == self.resource_text(user@),
    {
        let mut out = String::new();
        out.append("/symetry/rest/");
        out.append(user);
        match self {
            RestOperation::CreateProject { .. } => {
                out.append("/projects");
            },
            RestOperation::DeleteProject { name } => {
                out.append("/projects/");
                out.append(name.as_str());
            },
            RestOperation::ProjectInfo { project } => {
                out.append("/projects/");
                out.append(project.as_str());
                out.append("/info");
            },
            RestOperation::Learn { project } => {
                out.append("/projects/");
                out.append(project.as_str());
                out.append("/learn");
            },
            RestOperation::Build { project, .. } => {
                out.append("/projects/");
                out.append(project.as_str());
                out.append("/build");
            },
            RestOperation::AutoSelect { project, .. } => {
                out.append("/projects/");
                out.append(project.as_str());
                out.append("/autoSelect");
            },
            RestOperation::Predict { project, model } => {
                out.append("/projects/");
                out.append(project.as_str());
                out.append("/predict/");
                out.append(model.as_str());
            },
            RestOperation::DeleteModel { project, model } => {
                out.append("/projects/");
                out.append(project.as_str());
                out.append("/models/");
                out.append(model.as_str());
            },
            RestOperation::Job { id } => {
                out.append("/jobs/");
                out.append(id.as_str());
            },
        }
        out
    }

    /// The query of the operation, where it has one.
    pub fn query(&self) -> (r: Option<String>)
        ensures
            option_text(r) == self.query_text(),
    {
        match self {
            RestOperation::CreateProject { name, project_type, enable_histogram } => {
                let mut out = String::new();
                out.append("pid=");
                out.append(name.as_str());
                out.append("&persist=true&type=");
                out.append(project_type.as_str());
                out.append("&enableHistogram=");
                if *enable_histogram {
                    out.append("true");
                } else {
                    out.append("false");
                }
                Some(out)
            },
            RestOperation::Build { model_type, model_name, .. } => {
                let mut out = String::new();
                out.append("algo=");
                out.append(model_type.as_str());
                out.append("&modelid=");
                out.append(model_name.as_str());
                Some(out)
            },
            RestOperation::AutoSelect { task, model_name, .. } => {
                let mut out = String::new();
                out.append("task=");
                out.append(task.as_str());
                out.append("&modelid=");
                out.append(model_name.as_str());
                Some(out)
            },
            _ => None,
        }
    }
}

/// The URL of a resource on a host: the query, where there is one, follows a
/// question mark.
pub open spec fn url_text(host: Seq<char>, port: u16, resource: Seq<char>, query: Option<Seq<char>>)
    -> Seq<char> {
    "http://"@ + host + seq![':'] + decimal_text(port as nat) + resource + match query {
        Some(q) => seq!['?'] + q,
        None => Seq::empty(),
    }
}

/// The texts of a list of name-value pairs.
pub open spec fn pair_texts(pairs: Seq<(String, String)>) -> Seq<(Seq<char>, Seq<char>)> {
    pairs.map_values(|p: (String, String)| (p.0@, p.1@))
}

/// The headers of a signed call, in the order in which they are attached:
/// the three signed values with the customer among them, the protocol
/// version, and the content type where the call has a body.
pub open spec fn request_headers(signed: AuthHeadersView, customer_id: Seq<char>, has_body: bool)
    -> Seq<(Seq<char>, Seq<char>)> {
    let always = seq![
        ("Content-MD5"@, signed.content_md5),
        ("Sym-date"@, signed.sym_date),
        ("Customer-ID"@, customer_id),
        ("Authorization"@, signed.authorization),
        ("sym-version"@, "6.3"@),
    ];
    if has_body {
        always.push(("Content-Type"@, "application/json"@))
    } else {
        always
    }
}

/// A request that is ready to be sent.
#[derive(Clone, Debug)]
pub struct RestRequest {
    pub method: HttpMethod,
    pub url: String,
    pub headers: Vec<(String, String)>,
    pub body: Option<String>,
}

/// What a `RestRequest` holds, as text.
pub ghost struct RestRequestView {
    pub method: HttpMethod,
    pub url: Seq<char>,
    pub headers: Seq<(Seq<char>, Seq<char>)>,
    pub body: Option<Seq<char>>,
}

impl View for RestRequest {
    type V = RestRequestView;

    open spec fn view(&self) -> RestRequestView {
        RestRequestView {
            method: self.method,
            url: self.url@,
            headers: pair_texts(self.headers@),
            body: option_text(self.body),
        }
    }
}

/// The signed request of an operation at the date `sym_date`, or the reason
/// why the secret key cannot sign anything.
pub open spec fn signed_request(
    host: Seq<char>,
    port: u16,
    user: Seq<char>,
    secret_key: Seq<char>,
    operation: RestOperation,
    body: Option<Seq<char>>,
    sym_date: Seq<char>,
) -> Result<RestRequestView, SigningError> {
    match signed_headers(
        operation.method_of().name_text(),
        operation.resource_text(user),
        operation.query_text(),
        body,
        user,
        secret_key,
        sym_date,
    ) {
        Err(e) => Err(e),
        Ok(signed) => Ok(
            RestRequestView {
                method: operation.method_of(),
                url: url_text(host, port, operation.resource_text(user), operation.query_text()),
                headers: request_headers(signed, user, body is Some),
                body,
            },
        ),
    }
}

fn push_header(headers: &mut Vec<(String, String)>, name: &str, value: &str)
    ensures
        pair_texts(final(headers)@) == pair_texts(old(headers)@).push((name@, value@)),
{
    headers.push((name.to_owned(), value.to_owned()));
}

fn option_str(field: &Option<String>) -> (r: Option<&str>)
    ensures
        optional_text(r) == option_text(*field),
{
    match field {
        Some(text) => Some(text.as_str()),
        None => None,
    }
}

/// Prepares the request of an operation, signed with the timestamp given.
pub fn rest_request_at(
    config: &Config,
    secret_key: &str,
    operation: &RestOperation,
    body: Option<String>,
    timestamp: &Timestamp,
) -> (r: Result<RestRequest, SigningError>)
    ensures
        match r {
            Ok(request) => Ok::<RestRequestView, SigningError>(request@),
            Err(e) => Err::<RestRequestView, SigningError>(e),
        } == signed_request(
            config.host@,
            config.port,
            config.user@,
            secret_key@,
            *operation,
            option_text(body),
            timestamp.wire_text(),
        ),
{
    let method = operation.method();
    let resource = operation.resource(config.user());
    let query = operation.query();
    let auth = match AuthHeaders::generate_at(
        method.name(),
        resource.as_str(),
        option_str(&query),
        option_str(&body),
        config.user(),
        secret_key,
        timestamp,
    ) {
        Ok(auth) => auth,
        Err(e) => {
            return Err(e);
        },
    };
    let mut url = String::new();
    url.append("http://");
    url.append(config.host());
    push_char(&mut url, ':');
    push_decimal(&mut url, config.port() as u64);
    url.append(resource.as_str());
    match &query {
        Some(q) => {
            push_char(&mut url, '?');
            url.append(q.as_str());
        },
        None => {},
    }
    let mut headers: Vec<(String, String)> = Vec::new();
    push_header(&mut headers, "Content-MD5", auth.content_md5.as_str());
    push_header(&mut headers, "Sym-date", auth.sym_date.as_str());
    push_header(&mut headers, "Customer-ID", config.user());
    push_header(&mut headers, "Authorization", auth.authorization.as_str());
    push_header(&mut headers, "sym-version", "6.3");
    if body.is_some() {
        push_header(&mut headers, "Content-Type", "application/json");
    }
    proof {
        assert(url@ =~= url_text(
            config.host@,
            config.port,
            operation.resource_text(config.user@),
            operation.query_text(),
        ));
        assert(pair_texts(headers@) =~= request_headers(auth@, config.user@, body is Some));
    }
    Ok(RestRequest { method, url, headers, body })
}

/// Prepares the request of an operation, signed at the present time.
/// Whatever the clock says, the request is the one that `rest_request_at`
/// gives for some instant.
pub fn rest_request(
    config: &Config,
    secret_key: &str,
    operation: &RestOperation,
    body: Option<String>,
) -> (r: Result<RestRequest, SigningError>)
    ensures
        match r {
            Ok(request) => exists|t: Timestamp| #[trigger]
                t.is_instant() && Ok::<RestRequestView, SigningError>(request@) == signed_request(
                    config.host@,
                    config.port,
                    config.user@,
                    secret_key@,
                    *operation,
                    option_text(body),
                    t.wire_text(),
                ),
            Err(e) => secret_key_bytes(secret_key@) == Err::<Seq<u8>, SigningError>(e),
        },
{
    let timestamp = Timestamp::now();
    rest_request_at(config, secret_key, operation, body, &timestamp)
}

/// An answer of the service that is no success.
#[derive(Clone, Debug)]
pub struct RestFailure {
    pub status: u16,
    pub text: String,
}

/// Whether a status code means success: the codes from 200 to 299 do.
pub open spec fn is_success(status: u16) -> bool {
    200 <= status < 300
}

/// Reads the answer to a request. A status from 200 to 299 is success and
/// hands the body's text on; any other status is a failure that carries the
/// status and the text. Nothing is tried again.
pub fn check_response(status: u16, text: String) -> (r: Result<String, RestFailure>)
    ensures
        match r {
            Ok(body) => is_success(status) && body == text,
            Err(failure) => !is_success(status) && failure.status == status && failure.text
                == text,
        },
{
    if 200 <= status && status < 300 {
        Ok(text)
    } else {
        Err(RestFailure { status, text })
    }
}

impl RestFailure {
    /// The message of this failure.
    pub open spec fn message_text(self) -> Seq<char> {
        "Request failed with status: "@ + decimal_text(self.status as nat)
    }

    /// Says with which status the request failed.
    pub fn message(&self) -> (r: String)
        ensures
            r@ == self.message_text(),
    {
        let mut out = String::new();
        out.append("Request failed with status: ");
        push_decimal(&mut out, self.status as u64);
        out
    }
}

} // verus!
