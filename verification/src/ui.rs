//! What the pages show, decided from the flow data: the rendering itself
//! (HTML) is done by the caller.
use vstd::prelude::*;
use crate::text::{concat2, concat3, contains, contains_seq, replace, replace_all, same_text};
use crate::form::{urlencode_or_empty, encoded_or_empty, pairs_view};
use crate::headers::{HeaderMap, values_of, header_text};
use crate::domain::{ConsentUiNode, InputValue, UiNodeInputAttributes, UiNodeMeta, UiText};
use crate::urls::{query_pairs_of, url_query_pairs};

verus! {

/// How a Kratos message is shown, by its type.
#[derive(Clone, Copy, Debug, PartialEq, Eq, Structural)]
pub enum AlertKind {
    Error,
    Info,
    Success,
    Neutral,
}

pub open spec fn spec_alert_kind(text_type: Seq<char>) -> AlertKind {
    if text_type == "error"@ {
        AlertKind::Error
    } else if text_type == "info"@ {
        AlertKind::Info
    } else if text_type == "success"@ {
        AlertKind::Success
    } else {
        AlertKind::Neutral
    }
}

/// How a message of type `text_type` is shown.
pub fn alert_kind(text_type: &str) -> (k: AlertKind)
    ensures
        k == spec_alert_kind(text_type@),
{
    if same_text(text_type, "error") {
        AlertKind::Error
    } else if same_text(text_type, "info") {
        AlertKind::Info
    } else if same_text(text_type, "success") {
        AlertKind::Success
    } else {
        AlertKind::Neutral
    }
}

/// How an input node is shown.
pub enum InputView {
    /// A hidden input.
    Hidden { name: String, value: String },
    /// A submit button; `primary` buttons are emphasized.
    Button { name: String, value: String, disabled: bool, primary: bool, label: String },
    /// A labelled field with its messages.
    Field {
        label: String,
        required: bool,
        input_type: String,
        name: String,
        value: String,
        disabled: bool,
        placeholder: String,
        messages: Vec<String>,
    },
}

/// The text of an input's value: empty for none or JSON null, the string
/// itself for a JSON string, the JSON text otherwise.
pub open spec fn value_text(v: Option<InputValue>) -> Seq<char> {
    match v {
        Some(InputValue::Text(s)) => s@,
        Some(InputValue::Other(s)) => s@,
        _ => Seq::empty(),
    }
}

pub open spec fn is_button_type(t: Seq<char>) -> bool {
    t == "submit"@ || t == "button"@
}

/// The label: the input's own, else the node's, else nothing for buttons
/// and the input's name for other inputs.
pub open spec fn label_text(attr: UiNodeInputAttributes, meta: UiNodeMeta) -> Seq<char> {
    match attr.label {
        Some(l) => l.text@,
        None => match meta.label {
            Some(l) => l.text@,
            None => if is_button_type(attr.input_type@) {
                Seq::empty()
            } else {
                attr.name@
            },
        },
    }
}

/// A primary button: method and provider choices, password, TOTP and
/// WebAuthn actions, and plain submits.
pub open spec fn is_primary_button(name: Seq<char>) -> bool {
    name == "method"@ || name == "provider"@ || contains_seq(name, "password"@) || contains_seq(name, "totp"@)
        || contains_seq(name, "webauthn"@) || name == "submit"@
}

/// The placeholder of a field: `Enter <name with spaces>...`.
pub open spec fn placeholder_of(name: Seq<char>) -> Seq<char> {
    "Enter "@ + replace_all(name, "_"@, " "@) + "..."@
}

/// The texts of messages.
pub open spec fn message_texts(m: Seq<UiText>) -> Seq<Seq<char>> {
    m.map_values(|t: UiText| t.text@)
}

/// How the input node with these attributes, meta and messages is shown.
pub open spec fn spec_input_view(v: InputView, attr: UiNodeInputAttributes, meta: UiNodeMeta, messages: Seq<UiText>) -> bool {
    let value = value_text(attr.value);
    let label = label_text(attr, meta);
    if attr.input_type@ == "hidden"@ {
        v matches InputView::Hidden { name, value: x } && name@ == attr.name@ && x@ == value
    } else if is_button_type(attr.input_type@) {
        v matches InputView::Button { name, value: x, disabled, primary, label: l } && name@ == attr.name@
            && x@ == (if value.len() > 0 {
            value
        } else {
            attr.name@
        }) && disabled == attr.disabled && primary == is_primary_button(attr.name@) && l@ == label
    } else {
        v matches InputView::Field {
            label: l,
            required,
            input_type,
            name,
            value: x,
            disabled,
            placeholder,
            messages: ms,
        } && l@ == label && required == (attr.required == Some(true)) && input_type@ == attr.input_type@ && name@
            == attr.name@ && x@ == value && disabled == attr.disabled && placeholder@ == placeholder_of(attr.name@)
            && ms@.map_values(|s: String| s@) == message_texts(messages)
    }
}

/// Decides how an input node is shown.
pub fn input_view(attr: &UiNodeInputAttributes, meta: &UiNodeMeta, messages: &Vec<UiText>) -> (v: InputView)
    ensures
        spec_input_view(v, *attr, *meta, messages@),
{
    let name = attr.name.clone();
    let input_type = attr.input_type.clone();
    let value = match &attr.value {
        Some(InputValue::Text(s)) => s.clone(),
        Some(InputValue::Other(s)) => s.clone(),
        _ => String::new(),
    };
    let button = same_text(input_type.as_str(), "submit") || same_text(input_type.as_str(), "button");
    let label = match &attr.label {
        Some(l) => l.text.clone(),
        None => match &meta.label {
            Some(l) => l.text.clone(),
            None => if button {
                String::new()
            } else {
                name.clone()
            },
        },
    };
    if same_text(input_type.as_str(), "hidden") {
        return InputView::Hidden { name, value };
    }
    if button {
        let primary = same_text(name.as_str(), "method") || same_text(name.as_str(), "provider") || contains(
            name.as_str(),
            "password",
        ) || contains(name.as_str(), "totp") || contains(name.as_str(), "webauthn") || same_text(name.as_str(), "submit");
        let submit_value = if value.unicode_len() > 0 {
            value
        } else {
            name.clone()
        };
        return InputView::Button { name, value: submit_value, disabled: attr.disabled, primary, label };
    }
    let required = match attr.required {
        Some(b) => b,
        None => false,
    };
    let spaced = replace(name.as_str(), "_", " ");
    let placeholder = concat3("Enter ", spaced.as_str(), "...");
    let mut texts: Vec<String> = Vec::new();
    let mut i: usize = 0;
    while i < messages.len()
        invariant
            i <= messages.len(),
            texts@.map_values(|s: String| s@) == message_texts(messages@.subrange(0, i as int)),
        decreases messages.len() - i,
    {
        let ghost before = texts@;
        let t = messages[i].text.clone();
        texts.push(t);
        assert(texts@.map_values(|s: String| s@) =~= before.map_values(|s: String| s@).push(t@));
        assert(message_texts(messages@.subrange(0, i + 1)) =~= message_texts(messages@.subrange(0, i as int)).push(
            messages@[i as int].text@,
        ));
        i = i + 1;
    }
    assert(messages@.subrange(0, messages@.len() as int) =~= messages@);
    InputView::Field {
        label,
        required,
        input_type,
        name,
        value,
        disabled: attr.disabled,
        placeholder,
        messages: texts,
    }
}

/// The pairs of `pairs` whose key is `login_challenge` or `return_to`.
pub open spec fn kept_pairs(pairs: Seq<(Seq<char>, Seq<char>)>) -> Seq<(Seq<char>, Seq<char>)>
    decreases pairs.len(),
{
    if pairs.len() == 0 {
        Seq::empty()
    } else {
        let rest = kept_pairs(pairs.drop_last());
        let k = pairs.last().0;
        if k == "login_challenge"@ || k == "return_to"@ {
            rest.push(pairs.last())
        } else {
            rest
        }
    }
}

/// The sign-up link of the login page: the registration page, keeping the
/// `login_challenge` and `return_to` parameters of the flow's request URL.
pub open spec fn spec_signup_href(request_url: Seq<char>) -> Seq<char> {
    match url_query_pairs(request_url) {
        Some(pairs) => if kept_pairs(pairs).len() == 0 {
            "/registration"@
        } else {
            "/registration?"@ + encoded_or_empty(kept_pairs(pairs))
        },
        None => "/registration"@,
    }
}

/// The sign-up link of the login page for a flow requested at `request_url`.
pub fn signup_href(request_url: &str) -> (href: String)
    ensures
        href@ == spec_signup_href(request_url@),
{
    match query_pairs_of(request_url) {
        None => "/registration".to_owned(),
        Some(pairs) => {
            let ghost p = pairs_view(pairs@);
            let mut kept: Vec<(String, String)> = Vec::new();
            let mut i: usize = 0;
            while i < pairs.len()
                invariant
                    i <= pairs.len(),
                    p == pairs_view(pairs@),
                    pairs_view(kept@) == kept_pairs(p.subrange(0, i as int)),
                decreases pairs.len() - i,
            {
                assert(p.subrange(0, i + 1).drop_last() =~= p.subrange(0, i as int));
                let key = pairs[i].0.clone();
                if same_text(key.as_str(), "login_challenge") || same_text(key.as_str(), "return_to") {
                    let ghost before = kept@;
                    let value = pairs[i].1.clone();
                    kept.push((key, value));
                    assert(pairs_view(kept@) =~= pairs_view(before).push(p[i as int]));
                }
                i = i + 1;
            }
            assert(p.subrange(0, p.len() as int) =~= p);
            if kept.len() == 0 {
                "/registration".to_owned()
            } else {
                let encoded = urlencode_or_empty(&kept);
                concat2("/registration?", encoded.as_str())
            }
        },
    }
}

/// The name shown for the client of a consent request: its name, or its id.
pub open spec fn spec_client_name(req: ConsentUiNode) -> Seq<char> {
    match req.client.client_name {
        Some(n) => n@,
        None => req.client.client_id@,
    }
}

/// The subtitle of the consent page.
pub fn consent_subtitle(req: &ConsentUiNode) -> (s: String)
    ensures
        s@ == spec_client_name(*req) + " wishes to access your account"@,
{
    let name = match &req.client.client_name {
        Some(n) => n.clone(),
        None => req.client.client_id.clone(),
    };
    concat2(name.as_str(), " wishes to access your account")
}

/// The first text value of `name` among `headers`, when its first value is
/// visible ASCII.
pub open spec fn first_header_text(headers: Seq<(Seq<char>, Seq<u8>)>, name: Seq<char>) -> Option<Seq<char>> {
    let vs = values_of(headers, name);
    if vs.len() > 0 {
        header_text(vs[0])
    } else {
        None
    }
}

fn first_text(headers: &HeaderMap, name: &str) -> (t: Option<String>)
    ensures
        match first_header_text(headers@, name@) {
            Some(x) => t matches Some(s) && s@ == x,
            None => t is None,
        },
{
    match headers.get(name) {
        Some(v) => v.to_str(),
        None => None,
    }
}

/// The client address logged for a request: the forwarded-for header, else
/// the real-IP header, else `unknown`.
pub fn request_client_ip(headers: &HeaderMap) -> (ip: String)
    ensures
        ip@ == match first_header_text(headers@, "x-forwarded-for"@) {
            Some(x) => x,
            None => match first_header_text(headers@, "x-real-ip"@) {
                Some(y) => y,
                None => "unknown"@,
            },
        },
{
    match first_text(headers, "x-forwarded-for") {
        Some(x) => x,
        None => match first_text(headers, "x-real-ip") {
            Some(y) => y,
            None => "unknown".to_owned(),
        },
    }
}

/// The user agent logged for a request, or `unknown`.
pub fn request_user_agent(headers: &HeaderMap) -> (ua: String)
    ensures
        ua@ == match first_header_text(headers@, "user-agent"@) {
            Some(x) => x,
            None => "unknown"@,
        },
{
    match first_text(headers, "user-agent") {
        Some(x) => x,
        None => "unknown".to_owned(),
    }
}

} // verus!
