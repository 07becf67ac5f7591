use vstd::prelude::*;
use vstd::slice::slice_to_vec;
use vstd::string::*;
use vstd::utf8::encode_utf8;

verus! {

/// What the caller receives: a status code and a JSON body.
pub struct ProxyResponse {
    pub status: u16,
    pub body: ResponseBody,
}

/// The body of a response: a JSON text relayed as it came, or an error
/// envelope `{"error": message}`, given here by its message.
pub enum ResponseBody {
    Json(Vec<u8>),
    Error(String),
}

/// The model of a response body.
pub enum BodyView {
    Json(Seq<u8>),
    Error(Seq<char>),
}

/// The model of a response.
pub struct ResponseView {
    pub status: u16,
    pub body: BodyView,
}

impl View for ResponseBody {
    type V = BodyView;

    open spec fn view(&self) -> BodyView {
        match self {
            ResponseBody::Json(bytes) => BodyView::Json(bytes@),
            ResponseBody::Error(message) => BodyView::Error(message@),
        }
    }
}

impl View for ProxyResponse {
    type V = ResponseView;

    open spec fn view(&self) -> ResponseView {
        ResponseView { status: self.status, body: self.body@ }
    }
}

/// The response that carries an error envelope.
pub open spec fn error_response(status: u16, message: Seq<char>) -> ResponseView {
    ResponseView { status, body: BodyView::Error(message) }
}

/// The JSON string literal that `serde_json` writes for a text: the text in
/// double quotes, with the characters that JSON reserves escaped.
pub uninterp spec fn json_string_text(text: Seq<char>) -> Seq<char>;

/// Relies on the `Display` of `serde_json::Value::String`: the JSON string
/// literal of the text, which depends on the text alone.
#[verifier::external_body]
fn json_string(text: &str) -> (r: String)
    ensures
        r@ == json_string_text(text@),
{
    serde_json::Value::String(text.to_string()).to_string()
}

/// The text of the error envelope `{"error": message}`.
pub open spec fn envelope_text(message: Seq<char>) -> Seq<char> {
    "{\"error\":"@ + json_string_text(message) + "}"@
}

/// The bytes sent for a body.
pub open spec fn body_bytes_of(body: BodyView) -> Seq<u8> {
    match body {
        BodyView::Json(bytes) => bytes,
        BodyView::Error(message) => encode_utf8(envelope_text(message)),
    }
}

impl ResponseBody {
    /// The bytes sent for this body: the relayed JSON text as it came, or the
    /// error envelope in UTF-8.
    pub fn to_bytes(&self) -> (r: Vec<u8>)
        ensures
            r@ == body_bytes_of(self@),
    {
        match self {
            ResponseBody::Json(bytes) => bytes.clone(),
            ResponseBody::Error(message) => {
                let quoted = json_string(message.as_str());
                let text = String::from_str("{\"error\":").concat(quoted.as_str()).concat("}");
                slice_to_vec(text.as_str().as_bytes())
            },
        }
    }
}

} // verus!
