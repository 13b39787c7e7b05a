//! Requests to the notification service, which sends e-mails on the
//! service's behalf, and how its answers are read.

use vstd::prelude::*;
use crate::text::hex_digit;

verus! {

/// How a message to the notification service can fail.
#[derive(Debug)]
pub enum NotifierError {
    /// The request could not be made; the text describes why.
    RequestFailed(String),
    /// The service answered with an error.
    ServiceError(String),
}

/// The text of a notifier error.
pub open spec fn notifier_error_text(e: NotifierError) -> Seq<char> {
    match e {
        NotifierError::RequestFailed(m) => "HTTP request failed: "@ + m@,
        NotifierError::ServiceError(m) => "Notification service error: "@ + m@,
    }
}

impl NotifierError {
    /// The error's text: what failed, then the details.
    pub fn message(&self) -> (res: String)
        ensures
            res@ == notifier_error_text(*self),
    {
        match self {
            NotifierError::RequestFailed(m) => {
                let mut s = String::from_str("HTTP request failed: ");
                s.append(m.as_str());
                s
            },
            NotifierError::ServiceError(m) => {
                let mut s = String::from_str("Notification service error: ");
                s.append(m.as_str());
                s
            },
        }
    }
}

/// One character of a JSON string literal as `serde_json` writes it: `"` and
/// `\` are escaped, as are control characters (short forms where JSON has
/// them, else `\u00XX` in lower-case hexadecimal); all else is kept.
pub open spec fn json_char(c: char) -> Seq<char> {
    let u = c as u32;
    if c == '"' {
        seq!['\\', '"']
    } else if c == '\\' {
        seq!['\\', '\\']
    } else if u == 0x08 {
        seq!['\\', 'b']
    } else if u == 0x09 {
        seq!['\\', 't']
    } else if u == 0x0A {
        seq!['\\', 'n']
    } else if u == 0x0C {
        seq!['\\', 'f']
    } else if u == 0x0D {
        seq!['\\', 'r']
    } else if u < 0x20 {
        seq!['\\', 'u', '0', '0', hex_digit((u / 16) as int), hex_digit((u % 16) as int)]
    } else {
        seq![c]
    }
}

/// The escaped characters of a string.
pub open spec fn json_escaped(s: Seq<char>) -> Seq<char>
    decreases s.len(),
{
    if s.len() == 0 {
        seq![]
    } else {
        json_escaped(s.drop_last()) + json_char(s.last())
    }
}

/// A string as a JSON string literal.
pub open spec fn json_quoted(s: Seq<char>) -> Seq<char> {
    seq!['"'] + json_escaped(s) + seq!['"']
}

#[verifier::external_type_specification]
#[verifier::external_body]
pub struct ExJsonError(serde_json::Error);

/// `serde_json::to_string` of a string: the literal `json_quoted`, which is
/// how its serializer escapes strings; writing into a buffer never fails.
#[verifier::external_body]
fn json_string(s: &str) -> (res: Result<String, serde_json::Error>)
    ensures
        res is Ok,
        res matches Ok(t) ==> t@ == json_quoted(s@),
{
    serde_json::to_string(s)
}

/// A request to the notification service: where it goes, the key it is
/// sent with, and its JSON body.
pub struct NotifierRequest {
    pub url: String,
    pub api_key: String,
    pub body: String,
}

/// The address messages are posted to.
pub open spec fn send_url(base_url: Seq<char>) -> Seq<char> {
    base_url + "/api/v1/send"@
}

/// The body of a password-reset e-mail request.
pub open spec fn password_reset_body(to: Seq<char>, user_name: Seq<char>, action_url: Seq<char>) -> Seq<char> {
    "{\"channel\":\"email\",\"data\":{\"action_url\":"@ + json_quoted(action_url)
        + ",\"user_name\":"@ + json_quoted(user_name) + "},\"template\":\"password_reset\",\"to\":"@
        + json_quoted(to) + "}"@
}

/// The body of a welcome e-mail request.
pub open spec fn welcome_body(to: Seq<char>, user_name: Seq<char>) -> Seq<char> {
    "{\"channel\":\"email\",\"data\":{\"user_name\":"@ + json_quoted(user_name)
        + "},\"template\":\"welcome\",\"to\":"@ + json_quoted(to) + "}"@
}

/// The error text of an answer that is not a success.
pub open spec fn service_error_text(status: Seq<char>, body: Seq<char>) -> Seq<char> {
    "HTTP "@ + status + ": "@ + body
}

/// Where and how messages are sent.
#[derive(Clone)]
pub struct NotifierService {
    base_url: String,
    api_key: String,
}

impl NotifierService {
    pub closed spec fn base_url(&self) -> Seq<char> {
        self.base_url@
    }

    pub closed spec fn api_key(&self) -> Seq<char> {
        self.api_key@
    }

    pub fn new(base_url: String, api_key: String) -> (res: Self)
        ensures
            res.base_url() == base_url@,
            res.api_key() == api_key@,
    {
        NotifierService { base_url, api_key }
    }

    fn request(&self, body: String) -> (res: NotifierRequest)
        ensures
            res.url@ == send_url(self.base_url()),
            res.api_key@ == self.api_key(),
            res.body@ == body@,
    {
        let mut url = self.base_url.clone();
        url.append("/api/v1/send");
        NotifierRequest { url, api_key: self.api_key.clone(), body }
    }

    /// The request that asks for a password-reset e-mail to `to`.
    pub fn send_password_reset(&self, to: &str, user_name: &str, action_url: &str) -> (res:
        NotifierRequest)
        ensures
            res.url@ == send_url(self.base_url()),
            res.api_key@ == self.api_key(),
            res.body@ == password_reset_body(to@, user_name@, action_url@),
    {
        let a = json_string(action_url);
        let u = json_string(user_name);
        let t = json_string(to);
        let mut body = String::from_str("{\"channel\":\"email\",\"data\":{\"action_url\":");
        if let (Ok(a), Ok(u), Ok(t)) = (a, u, t) {
            body.append(a.as_str());
            body.append(",\"user_name\":");
            body.append(u.as_str());
            body.append("},\"template\":\"password_reset\",\"to\":");
            body.append(t.as_str());
            body.append("}");
        }
        self.request(body)
    }

    /// The request that asks for a welcome e-mail to `to`.
    pub fn send_welcome(&self, to: &str, user_name: &str) -> (res: NotifierRequest)
        ensures
            res.url@ == send_url(self.base_url()),
            res.api_key@ == self.api_key(),
            res.body@ == welcome_body(to@, user_name@),
    {
        let u = json_string(user_name);
        let t = json_string(to);
        let mut body = String::from_str("{\"channel\":\"email\",\"data\":{\"user_name\":");
        if let (Ok(u), Ok(t)) = (u, t) {
            body.append(u.as_str());
            body.append("},\"template\":\"welcome\",\"to\":");
            body.append(t.as_str());
            body.append("}");
        }
        self.request(body)
    }

    /// Reads the service's answer: a 2xx status is a success; any other is a
    /// `ServiceError` with the status (as `HTTP` writes it) and the body.
    pub fn response_outcome(status_code: u16, status: &str, body: &str) -> (res: Result<
        (),
        NotifierError,
    >)
        ensures
            200 <= status_code <= 299 ==> res is Ok,
            !(200 <= status_code <= 299) ==> (res matches Err(NotifierError::ServiceError(m)) && m@
                == service_error_text(status@, body@)),
    {
        if 200 <= status_code && status_code <= 299 {
            Ok(())
        } else {
            let mut m = String::from_str("HTTP ");
            m.append(status);
            m.append(": ");
            m.append(body);
            Err(NotifierError::ServiceError(m))
        }
    }
}

} // verus!
