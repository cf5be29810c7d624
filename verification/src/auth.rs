//! Signing of REST calls: the canonical string of a request, and the three
//! header values that carry its signature.

use crate::clock::Timestamp;
use crate::crypto::{
    content_md5, content_md5_text, decode_secret_key, secret_key_bytes, sign, signature_text,
    SigningError,
};
use crate::text::push_char;
use vstd::prelude::*;
use vstd::string::*;

verus! {

/// A field of a canonical string: the text, then a newline.
pub open spec fn line(field: Seq<char>) -> Seq<char> {
    field.push('\n')
}

/// An optional field: its line where it is given, nothing where it is not.
pub open spec fn optional_line(field: Option<Seq<char>>) -> Seq<char> {
    match field {
        Some(text) => line(text),
        None => Seq::empty(),
    }
}

/// The view of an optional string.
pub open spec fn optional_text(field: Option<&str>) -> Option<Seq<char>> {
    match field {
        Some(text) => Some(text@),
        None => None,
    }
}

/// The string that is signed for a REST call. Five fields come first, in
/// this order: method, content MD5, secret key, date, customer. A body, where
/// there is one, comes next, ahead of the resource; a query, where there is
/// one, comes last. Every field ends in a newline, and a field that is not
/// given leaves no trace, not even an empty line.
pub open spec fn canonical_request_text(
    method: Seq<char>,
    content_md5: Seq<char>,
    secret_key: Seq<char>,
    sym_date: Seq<char>,
    customer_id: Seq<char>,
    resource: Seq<char>,
    query: Option<Seq<char>>,
    body: Option<Seq<char>>,
) -> Seq<char> {
    line(method) + line(content_md5) + line(secret_key) + line(sym_date) + line(customer_id)
        + optional_line(body) + line(resource) + optional_line(query)
}

/// Appends a field and its newline to `out`.
pub(crate) fn push_line(out: &mut String, field: &str)
    ensures
        final(out)@ == old(out)@ + line(field@),
{
    out.append(field);
    push_char(out, '\n');
}

fn push_optional_line(out: &mut String, field: Option<&str>)
    ensures
        final(out)@ == old(out)@ + optional_line(optional_text(field)),
{
    match field {
        Some(text) => {
            push_line(out, text);
        },
        None => {},
    }
}

/// Assembles the string to sign for a REST call.
pub fn canonical_request(
    method: &str,
    content_md5: &str,
    secret_key: &str,
    sym_date: &str,
    customer_id: &str,
    resource: &str,
    query: Option<&str>,
    body: Option<&str>,
) -> (r: String)
    ensures
        r@ == canonical_request_text(
            method@,
            content_md5@,
            secret_key@,
            sym_date@,
            customer_id@,
            resource@,
            optional_text(query),
            optional_text(body),
        ),
{
    let mut out = String::new();
    push_line(&mut out, method);
    push_line(&mut out, content_md5);
    push_line(&mut out, secret_key);
    push_line(&mut out, sym_date);
    push_line(&mut out, customer_id);
    push_optional_line(&mut out, body);
    push_line(&mut out, resource);
    push_optional_line(&mut out, query);
    out
}

/// The header values that authenticate one REST call.
#[derive(Clone, Debug)]
pub struct AuthHeaders {
    pub content_md5: String,
    pub sym_date: String,
    pub authorization: String,
}

/// What an `AuthHeaders` holds, as text.
pub ghost struct AuthHeadersView {
    pub content_md5: Seq<char>,
    pub sym_date: Seq<char>,
    pub authorization: Seq<char>,
}

impl View for AuthHeaders {
    type V = AuthHeadersView;

    open spec fn view(&self) -> AuthHeadersView {
        AuthHeadersView {
            content_md5: self.content_md5@,
            sym_date: self.sym_date@,
            authorization: self.authorization@,
        }
    }
}

/// The `Content-MD5` value of a call: that of its body, or the empty string
/// where it has none.
pub open spec fn body_md5_text(body: Option<Seq<char>>) -> Seq<char> {
    match body {
        Some(text) => content_md5_text(text),
        None => Seq::empty(),
    }
}

/// The headers that sign a REST call made at the date `sym_date`, or the
/// reason why the secret key cannot sign anything.
pub open spec fn signed_headers(
    method: Seq<char>,
    resource: Seq<char>,
    query: Option<Seq<char>>,
    body: Option<Seq<char>>,
    customer_id: Seq<char>,
    secret_key: Seq<char>,
    sym_date: Seq<char>,
) -> Result<AuthHeadersView, SigningError> {
    match secret_key_bytes(secret_key) {
        Err(e) => Err(e),
        Ok(key) => Ok(
            AuthHeadersView {
                content_md5: body_md5_text(body),
                sym_date,
                authorization: signature_text(
                    key,
                    canonical_request_text(
                        method,
                        body_md5_text(body),
                        secret_key,
                        sym_date,
                        customer_id,
                        resource,
                        query,
                        body,
                    ),
                ),
            },
        ),
    }
}

/// What one REST call is signed from: the request, the caller's identity and
/// the caller's secret.
#[derive(Clone, Copy, Debug)]
pub struct SigningContext<'a> {
    /// The HTTP verb.
    pub method: &'a str,
    /// The path of the resource.
    pub resource_path: &'a str,
    /// The query, where the call has one.
    pub query: Option<&'a str>,
    /// The raw JSON body, where the call has one.
    pub body: Option<&'a str>,
    /// Who calls.
    pub customer_id: &'a str,
    /// The caller's secret key, in base64.
    pub secret_key: &'a str,
}

impl<'a> SigningContext<'a> {
    /// The secret key decodes to at least one byte. A context without this
    /// signs nothing.
    pub open spec fn wf(self) -> bool {
        secret_key_bytes(self.secret_key@) is Ok
    }

    /// The string that is signed for this call at the date `sym_date`.
    pub open spec fn canonical_text(self, sym_date: Seq<char>) -> Seq<char> {
        canonical_request_text(
            self.method@,
            body_md5_text(optional_text(self.body)),
            self.secret_key@,
            sym_date,
            self.customer_id@,
            self.resource_path@,
            optional_text(self.query),
            optional_text(self.body),
        )
    }

    /// The headers that sign this call at the date `sym_date`.
    pub open spec fn headers_at(self, sym_date: Seq<char>) -> Result<
        AuthHeadersView,
        SigningError,
    > {
        signed_headers(
            self.method@,
            self.resource_path@,
            optional_text(self.query),
            optional_text(self.body),
            self.customer_id@,
            self.secret_key@,
            sym_date,
        )
    }

    /// Signs the call with the timestamp given. The secret key is decoded
    /// first: a key that is not base64, or that decodes to nothing, fails
    /// here, before anything is hashed.
    pub fn sign_at(&self, timestamp: &Timestamp) -> (r: Result<AuthHeaders, SigningError>)
        ensures
            r is Ok <==> self.wf(),
            match r {
                Ok(headers) => Ok::<AuthHeadersView, SigningError>(headers@),
                Err(e) => Err::<AuthHeadersView, SigningError>(e),
            } == self.headers_at(timestamp.wire_text()),
    {
        let key = match decode_secret_key(self.secret_key) {
            Ok(key) => key,
            Err(e) => {
                return Err(e);
            },
        };
        let content_md5 = match self.body {
            Some(text) => content_md5(text),
            None => String::new(),
        };
        let sym_date = timestamp.to_wire();
        let string_to_sign = canonical_request(
            self.method,
            content_md5.as_str(),
            self.secret_key,
            sym_date.as_str(),
            self.customer_id,
            self.resource_path,
            self.query,
            self.body,
        );
        let authorization = sign(key.as_slice(), string_to_sign.as_str());
        Ok(AuthHeaders { content_md5, sym_date, authorization })
    }

    /// Signs the call with the present time. Whatever the clock says, the
    /// result is what `sign_at` gives for the date that it carries.
    pub fn sign(&self) -> (r: Result<AuthHeaders, SigningError>)
        ensures
            r is Ok <==> self.wf(),
            match r {
                Ok(headers) => {
                    &&& exists|t: Timestamp| #[trigger]
                        t.is_instant() && headers.sym_date@ == t.wire_text()
                    &&& self.headers_at(headers.sym_date@) == Ok::<AuthHeadersView, SigningError>(
                        headers@,
                    )
                },
                Err(e) => secret_key_bytes(self.secret_key@) == Err::<Seq<u8>, SigningError>(e),
            },
    {
        let timestamp = Timestamp::now();
        self.sign_at(&timestamp)
    }
}

impl AuthHeaders {
    /// Generate authentication headers for a call made at the timestamp
    /// given.
    pub fn generate_at(
        method: &str,
        resource: &str,
        query: Option<&str>,
        body: Option<&str>,
        customer_id: &str,
        secret_key: &str,
        timestamp: &Timestamp,
    ) -> (r: Result<AuthHeaders, SigningError>)
        ensures
            r is Ok <==> secret_key_bytes(secret_key@) is Ok,
            match r {
                Ok(headers) => Ok::<AuthHeadersView, SigningError>(headers@),
                Err(e) => Err::<AuthHeadersView, SigningError>(e),
            } == signed_headers(
                method@,
                resource@,
                optional_text(query),
                optional_text(body),
                customer_id@,
                secret_key@,
                timestamp.wire_text(),
            ),
    {
        let context = SigningContext {
            method,
            resource_path: resource,
            query,
            body,
            customer_id,
            secret_key,
        };
        context.sign_at(timestamp)
    }

    /// Generate authentication headers for a call made now. Whatever the
    /// clock says, the result is what `generate_at` gives for the date that
    /// it carries.
    pub fn generate(
        method: &str,
        resource: &str,
        query: Option<&str>,
        body: Option<&str>,
        customer_id: &str,
        secret_key: &str,
    ) -> (r: Result<AuthHeaders, SigningError>)
        ensures
            r is Ok <==> secret_key_bytes(secret_key@) is Ok,
            match r {
                Ok(headers) => {
                    &&& exists|t: Timestamp| #[trigger]
                        t.is_instant() && headers.sym_date@ == t.wire_text()
                    &&& signed_headers(
                        method@,
                        resource@,
                        optional_text(query),
                        optional_text(body),
                        customer_id@,
                        secret_key@,
                        headers.sym_date@,
                    ) == Ok::<AuthHeadersView, SigningError>(headers@)
                },
                Err(e) => secret_key_bytes(secret_key@) == Err::<Seq<u8>, SigningError>(e),
            },
    {
        let context = SigningContext {
            method,
            resource_path: resource,
            query,
            body,
            customer_id,
            secret_key,
        };
        context.sign()
    }
}

/// The canonical string has one of four shapes, by whether a body and a
/// query are given: six fields; seven with the query after the resource;
/// seven with the body before the resource; eight with both. Each field ends
/// in a newline, the last one too.
pub proof fn lemma_canonical_request_shapes(
    method: Seq<char>,
    content_md5: Seq<char>,
    secret_key: Seq<char>,
    sym_date: Seq<char>,
    customer_id: Seq<char>,
    resource: Seq<char>,
    query: Seq<char>,
    body: Seq<char>,
)
    ensures
        canonical_request_text(
            method,
            content_md5,
            secret_key,
            sym_date,
            customer_id,
            resource,
            None,
            None,
        ) == line(method) + line(content_md5) + line(secret_key) + line(sym_date) + line(
            customer_id,
        ) + line(resource),
        canonical_request_text(
            method,
            content_md5,
            secret_key,
            sym_date,
            customer_id,
            resource,
            Some(query),
            None,
        ) == line(method) + line(content_md5) + line(secret_key) + line(sym_date) + line(
            customer_id,
        ) + line(resource) + line(query),
        canonical_request_text(
            method,
            content_md5,
            secret_key,
            sym_date,
            customer_id,
            resource,
            None,
            Some(body),
        ) == line(method) + line(content_md5) + line(secret_key) + line(sym_date) + line(
            customer_id,
        ) + line(body) + line(resource),
        canonical_request_text(
            method,
            content_md5,
            secret_key,
            sym_date,
            customer_id,
            resource,
            Some(query),
            Some(body),
        ) == line(method) + line(content_md5) + line(secret_key) + line(sym_date) + line(
            customer_id,
        ) + line(body) + line(resource) + line(query),
{
}

/// A signature depends on the key and on the canonical string alone: two
/// calls under the same secret key whose canonical strings are the same carry
/// the same authorization, whatever else differs between them, the time
/// included.
pub proof fn lemma_signature_is_determined(
    a: SigningContext,
    date_a: Seq<char>,
    b: SigningContext,
    date_b: Seq<char>,
)
    requires
        a.wf(),
        a.secret_key@ == b.secret_key@,
        a.canonical_text(date_a) == b.canonical_text(date_b),
    ensures
        a.headers_at(date_a) is Ok,
        b.headers_at(date_b) is Ok,
        a.headers_at(date_a)->Ok_0.authorization == b.headers_at(date_b)->Ok_0.authorization,
{
}

} // verus!
