use vstd::prelude::*;
use crate::auth::AuthMethod;

verus! {

/// formatx's error type: a template that does not parse, or a placeholder
/// that no supplied value answers.
#[verifier::external_type_specification]
#[verifier::external_body]
pub struct ExFormatxError(formatx::Error);

/// The placeholder names of the template, in their fixed order.
pub const API_URL_SLOT: &'static str = "api_url";
pub const REST_URL_SLOT: &'static str = "rest_url";
pub const USERNAME_SLOT: &'static str = "username";
pub const PASSWORD_SLOT: &'static str = "password";
pub const TOKEN_SLOT: &'static str = "oauth2_token";

/// Where a left-to-right reading of a template stands, in the way formatx
/// reads it: `{{` and `}}` are escaped braces, a lone `{` opens a
/// placeholder and the next `}` closes it.
#[derive(Debug, Clone, Copy, PartialEq, Eq, Structural)]
pub enum ScanState {
    /// In literal text.
    Text,
    /// Just after a `{`: an escaped brace or the start of a placeholder.
    OpenPending,
    /// Just after a `}` in literal text: the first half of an escaped brace.
    ClosePending,
    /// Inside a placeholder, before any `:`.
    Placeholder,
    /// A `:` was met inside a placeholder: it starts a format spec.
    FormatSpec,
}

/// The state after reading one more character.
pub open spec fn scan_step(s: ScanState, c: char) -> ScanState {
    match s {
        ScanState::Text => if c == '{' {
            ScanState::OpenPending
        } else if c == '}' {
            ScanState::ClosePending
        } else {
            ScanState::Text
        },
        ScanState::OpenPending => if c == '{' || c == '}' {
            ScanState::Text
        } else if c == ':' {
            ScanState::FormatSpec
        } else {
            ScanState::Placeholder
        },
        ScanState::ClosePending => if c == '{' {
            ScanState::OpenPending
        } else {
            ScanState::Text
        },
        ScanState::Placeholder => if c == ':' {
            ScanState::FormatSpec
        } else if c == '}' {
            ScanState::Text
        } else {
            ScanState::Placeholder
        },
        ScanState::FormatSpec => ScanState::FormatSpec,
    }
}

/// The state after reading the first `n` characters of `t`.
pub open spec fn scan_state(t: Seq<char>, n: int) -> ScanState
    decreases n,
{
    if n <= 0 {
        ScanState::Text
    } else {
        scan_step(scan_state(t, n - 1), t[n - 1])
    }
}

/// Whether some placeholder of the template carries a format spec (fill,
/// alignment, sign, width, precision or type): a `:` right inside a
/// placeholder, where formatx starts reading one. A template without one
/// has placeholders that are a bare name or position; its escaped braces
/// may surround any text.
pub open spec fn has_format_spec(t: Seq<char>) -> bool {
    scan_state(t, t.len() as int) is FormatSpec
}

fn next_state(s: ScanState, c: char) -> (r: ScanState)
    ensures
        r == scan_step(s, c),
{
    match s {
        ScanState::Text => if c == '{' {
            ScanState::OpenPending
        } else if c == '}' {
            ScanState::ClosePending
        } else {
            ScanState::Text
        },
        ScanState::OpenPending => if c == '{' || c == '}' {
            ScanState::Text
        } else if c == ':' {
            ScanState::FormatSpec
        } else {
            ScanState::Placeholder
        },
        ScanState::ClosePending => if c == '{' {
            ScanState::OpenPending
        } else {
            ScanState::Text
        },
        ScanState::Placeholder => if c == ':' {
            ScanState::FormatSpec
        } else if c == '}' {
            ScanState::Text
        } else {
            ScanState::Placeholder
        },
        ScanState::FormatSpec => ScanState::FormatSpec,
    }
}

/// Tells whether the template holds a format spec.
pub fn template_has_format_spec(template: &str) -> (r: bool)
    ensures
        r == has_format_spec(template@),
{
    broadcast use vstd::string::axiom_spec_iter;

    let mut state = ScanState::Text;
    for c in it: template.chars()
        invariant
            it.seq() == template@,
            state == scan_state(template@, it.index() as int),
    {
        state = next_state(state, c);
    }
    state == ScanState::FormatSpec
}

/// The text formatx renders from a template and five (name, value) pairs,
/// or `None` where it reports an error.
pub uninterp spec fn formatx_rendered(
    template: Seq<char>,
    first: (Seq<char>, Seq<char>),
    second: (Seq<char>, Seq<char>),
    third: (Seq<char>, Seq<char>),
    fourth: (Seq<char>, Seq<char>),
    fifth: (Seq<char>, Seq<char>),
) -> Option<Seq<char>>;

/// Relies on formatx's `Template::new`, `Renderer::named` and
/// `Renderer::finish` (strict rendering): each value is bound both to its
/// name and, in the order given, to its position; the rendered text, or the
/// error, depends on the template and the pairs alone. A width or precision
/// above 65535 makes std's formatting panic; a template without format specs
/// has neither.
#[verifier::external_body]
fn render_template(
    template: &str,
    first: (&str, &str),
    second: (&str, &str),
    third: (&str, &str),
    fourth: (&str, &str),
    fifth: (&str, &str),
) -> (r: Result<String, formatx::Error>)
    requires
        !has_format_spec(template@),
    ensures
        r is Ok <==> formatx_rendered(template@, (first.0@, first.1@), (second.0@, second.1@), (third.0@, third.1@), (fourth.0@, fourth.1@), (fifth.0@, fifth.1@)) is Some,
        r is Ok ==> r->Ok_0@ == formatx_rendered(template@, (first.0@, first.1@), (second.0@, second.1@), (third.0@, third.1@), (fourth.0@, fourth.1@), (fifth.0@, fifth.1@))->0,
{
    let t = formatx::Template::new(template)?;
    let mut r = t.render();
    r.named(first.0, first.1).named(second.0, second.1).named(third.0, third.1);
    r.named(fourth.0, fourth.1).named(fifth.0, fifth.1);
    r.finish()
}

/// What one provisioning run writes into the configuration file.
#[derive(Debug, Clone)]
pub struct ProvisioningRequest {
    pub username: String,
    pub auth: AuthMethod,
    pub api_url: String,
    pub rest_url: String,
}

/// Why a template could not be filled.
#[derive(Debug, Clone, Copy, PartialEq, Eq, Structural)]
pub enum TemplateFillError {
    /// The template is malformed, names a placeholder that the filler does
    /// not supply, or gives a placeholder a format spec.
    PlaceholderMismatch,
}

/// The five values handed to the template, in their fixed order.
pub open spec fn slot_values(req: ProvisioningRequest) -> Seq<Seq<char>> {
    seq![
        req.api_url@,
        req.rest_url@,
        req.username@,
        req.auth.password_view(),
        req.auth.token_view(),
    ]
}

/// The text that filling `template` with `req` gives, if it can be filled:
/// a template with a format spec cannot.
pub open spec fn filled(template: Seq<char>, req: ProvisioningRequest) -> Option<Seq<char>> {
    if has_format_spec(template) {
        None
    } else {
        formatx_rendered(
            template,
            (API_URL_SLOT@, req.api_url@),
            (REST_URL_SLOT@, req.rest_url@),
            (USERNAME_SLOT@, req.username@),
            (PASSWORD_SLOT@, req.auth.password_view()),
            (TOKEN_SLOT@, req.auth.token_view()),
        )
    }
}

impl ProvisioningRequest {
    pub fn new(username: String, auth: AuthMethod, api_url: String, rest_url: String) -> (r: Self)
        ensures
            r.username@ == username@,
            r.auth == auth,
            r.api_url@ == api_url@,
            r.rest_url@ == rest_url@,
    {
        ProvisioningRequest { username, auth, api_url, rest_url }
    }
}

/// Fills the template's placeholders with the request's values: the secret
/// goes to the slot of its kind, and the other slot receives empty text.
pub fn fill(template: &str, request: &ProvisioningRequest) -> (r: Result<String, TemplateFillError>)
    ensures
        match filled(template@, *request) {
            Some(text) => (r matches Ok(s) && s@ == text),
            None => r == Err::<String, TemplateFillError>(TemplateFillError::PlaceholderMismatch),
        },
{
    if template_has_format_spec(template) {
        return Err(TemplateFillError::PlaceholderMismatch);
    }
    let password = request.auth.password_text();
    let token = request.auth.token_text();
    match render_template(
        template,
        (API_URL_SLOT, request.api_url.as_str()),
        (REST_URL_SLOT, request.rest_url.as_str()),
        (USERNAME_SLOT, request.username.as_str()),
        (PASSWORD_SLOT, password.as_str()),
        (TOKEN_SLOT, token.as_str()),
    ) {
        Ok(text) => Ok(text),
        Err(_) => Err(TemplateFillError::PlaceholderMismatch),
    }
}

/// The values handed to the template carry the whole request: two requests
/// with non-empty secrets that hand over the same five values have the same
/// username, URLs, kind of credential and secret.
pub proof fn lemma_slots_determine_request(a: ProvisioningRequest, b: ProvisioningRequest)
    requires
        slot_values(a) == slot_values(b),
        a.auth.secret_view().len() > 0,
        b.auth.secret_view().len() > 0,
    ensures
        a.username@ == b.username@,
        a.api_url@ == b.api_url@,
        a.rest_url@ == b.rest_url@,
        (a.auth is Password) == (b.auth is Password),
        a.auth.secret_view() == b.auth.secret_view(),
{
    assert(slot_values(a)[3] == slot_values(b)[3]);
    assert(slot_values(a)[4] == slot_values(b)[4]);
    assert(slot_values(a)[0] == slot_values(b)[0]);
    assert(slot_values(a)[1] == slot_values(b)[1]);
    assert(slot_values(a)[2] == slot_values(b)[2]);
}

} // verus!
