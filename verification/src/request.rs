//! The outbound half of the request codec: endpoint, headers, and the
//! JSON body built from provider fields and rendered messages.

use vstd::prelude::*;
use crate::prompt::{MessagePart, RenderedMessage};
use crate::resolve::{headers_match, ResolvedProperties};
use crate::text::concat_str;
use crate::value::{lookup_field, value_eq, Value};

verus! {

/// True when `v` is the wire object for one message part.
pub open spec fn is_part_object(v: Value, p: MessagePart) -> bool {
    match p {
        MessagePart::Text(t) => match v {
            Value::Obj(fs) => {
                &&& fs@.len() == 2
                &&& fs@[0].0@ == "type"@
                &&& fs@[0].1.spec_as_text() == Some("text"@)
                &&& fs@[1].0@ == "text"@
                &&& fs@[1].1.spec_as_text() == Some(t@)
            },
            _ => false,
        },
        MessagePart::ImageUrl(u) => match v {
            Value::Obj(fs) => {
                &&& fs@.len() == 2
                &&& fs@[0].0@ == "type"@
                &&& fs@[0].1.spec_as_text() == Some("image_url"@)
                &&& fs@[1].0@ == "image_url"@
                &&& match fs@[1].1 {
                    Value::Obj(inner) => {
                        &&& inner@.len() == 1
                        &&& inner@[0].0@ == "url"@
                        &&& inner@[0].1.spec_as_text() == Some(u@)
                    },
                    _ => false,
                }
            },
            _ => false,
        },
        MessagePart::ImageBase64(b) => match v {
            Value::Obj(fs) => {
                &&& fs@.len() == 2
                &&& fs@[0].0@ == "type"@
                &&& fs@[0].1.spec_as_text() == Some("image_url"@)
                &&& fs@[1].0@ == "image_url"@
                &&& match fs@[1].1 {
                    Value::Obj(inner) => {
                        &&& inner@.len() == 1
                        &&& inner@[0].0@ == "base64"@
                        &&& inner@[0].1.spec_as_text() == Some(b@)
                    },
                    _ => false,
                }
            },
            _ => false,
        },
    }
}

/// True when `v` is the wire form of a message's parts: the bare text for
/// a single text part, otherwise the list of part objects.
pub open spec fn is_content_value(v: Value, parts: Seq<MessagePart>) -> bool {
    if parts.len() == 1 && parts[0] is Text {
        v.spec_as_text() == Some(parts[0]->Text_0@)
    } else {
        match v {
            Value::Arr(items) => {
                &&& items@.len() == parts.len()
                &&& forall|i: int| 0 <= i < parts.len() ==> is_part_object(#[trigger] items@[i], parts[i])
            },
            _ => false,
        }
    }
}

/// True when `v` is the wire object for one rendered message.
pub open spec fn is_message_object(v: Value, m: RenderedMessage) -> bool {
    match v {
        Value::Obj(fs) => {
            &&& fs@.len() == 2
            &&& fs@[0].0@ == "role"@
            &&& fs@[0].1.spec_as_text() == Some(m.role@)
            &&& fs@[1].0@ == "content"@
            &&& is_content_value(fs@[1].1, m.parts@)
        },
        _ => false,
    }
}

/// True when `v` is the wire array for a whole prompt.
pub open spec fn is_messages_array(v: Value, msgs: Seq<RenderedMessage>) -> bool {
    match v {
        Value::Arr(items) => {
            &&& items@.len() == msgs.len()
            &&& forall|i: int| 0 <= i < msgs.len() ==> is_message_object(#[trigger] items@[i], msgs[i])
        },
        _ => false,
    }
}

/// Serializes one message's parts.  A message with exactly one text part
/// is sent as a bare string, matching providers that expect scalar
/// content; anything else becomes the list of typed part objects.
pub fn convert_message_parts_to_content(parts: &Vec<MessagePart>) -> (r: Value)
    ensures
        is_content_value(r, parts@),
{
    if parts.len() == 1 {
        if let MessagePart::Text(t) = &parts[0] {
            return Value::Text(t.clone());
        }
    }
    let mut items: Vec<Value> = Vec::new();
    let mut i: usize = 0;
    while i < parts.len()
        invariant
            i <= parts.len(),
            items@.len() == i,
            forall|j: int| 0 <= j < i ==> is_part_object(#[trigger] items@[j], parts@[j]),
        decreases parts.len() - i,
    {
        let obj: Value = match &parts[i] {
            MessagePart::Text(t) => Value::Obj(
                vec![
                    ("type".to_owned(), Value::Text("text".to_owned())),
                    ("text".to_owned(), Value::Text(t.clone())),
                ],
            ),
            MessagePart::ImageUrl(u) => Value::Obj(
                vec![
                    ("type".to_owned(), Value::Text("image_url".to_owned())),
                    (
                        "image_url".to_owned(),
                        Value::Obj(vec![("url".to_owned(), Value::Text(u.clone()))]),
                    ),
                ],
            ),
            MessagePart::ImageBase64(b) => Value::Obj(
                vec![
                    ("type".to_owned(), Value::Text("image_url".to_owned())),
                    (
                        "image_url".to_owned(),
                        Value::Obj(vec![("base64".to_owned(), Value::Text(b.clone()))]),
                    ),
                ],
            ),
        };
        items.push(obj);
        i = i + 1;
    }
    Value::Arr(items)
}

/// Serializes one rendered message into its wire object.
pub fn message_to_value(m: &RenderedMessage) -> (r: Value)
    ensures
        is_message_object(r, *m),
{
    let content = convert_message_parts_to_content(&m.parts);
    Value::Obj(
        vec![
            ("role".to_owned(), Value::Text(m.role.clone())),
            ("content".to_owned(), content),
        ],
    )
}

/// The fields of a chat request body: every pass-through provider field
/// in order, then `stream: true` for streaming calls, then the serialized
/// messages under `messages`.  Later fields shadow earlier ones under
/// object lookup, as repeated insertion into a map would.
pub open spec fn is_chat_body(
    v: Value,
    props: Seq<(String, Value)>,
    msgs: Seq<RenderedMessage>,
    stream: bool,
) -> bool {
    match v {
        Value::Obj(fs) => {
            let n = props.len() as int;
            &&& fs@.len() == n + (if stream { 1int } else { 0int }) + 1
            &&& forall|i: int|
                0 <= i < n ==> (#[trigger] fs@[i]).0@ == props[i].0@ && value_eq(
                    fs@[i].1,
                    props[i].1,
                )
            &&& (stream ==> fs@[n].0@ == "stream"@ && fs@[n].1 == Value::Bool(true))
            &&& fs@.last().0@ == "messages"@
            &&& is_messages_array(fs@.last().1, msgs)
        },
        _ => false,
    }
}

/// Builds the outbound JSON body for a chat call.
///
/// Because a lookup in a body object reads the last binding of a key,
/// the appended `messages` and `stream` fields shadow any pass-through
/// option of the same name, as repeated insertion into a map would.
pub fn build_chat_body(
    props: &ResolvedProperties,
    messages: &Vec<RenderedMessage>,
    stream: bool,
) -> (body: Value)
    ensures
        is_chat_body(body, props.properties@, messages@, stream),
        body matches Value::Obj(fs) && {
            &&& lookup_field(fs@, "messages"@) matches Some(m) && is_messages_array(m, messages@)
            &&& (stream ==> lookup_field(fs@, "stream"@) == Some(Value::Bool(true)))
        },
{
    let mut fields: Vec<(String, Value)> = Vec::new();
    let mut i: usize = 0;
    while i < props.properties.len()
        invariant
            i <= props.properties.len(),
            fields@.len() == i,
            forall|j: int|
                0 <= j < i ==> (#[trigger] fields@[j]).0@ == props.properties@[j].0@ && value_eq(
                    fields@[j].1,
                    props.properties@[j].1,
                ),
        decreases props.properties.len() - i,
    {
        let k = props.properties[i].0.clone();
        let v = props.properties[i].1.clone();
        fields.push((k, v));
        i = i + 1;
    }
    if stream {
        fields.push(("stream".to_owned(), Value::Bool(true)));
    }
    let mut items: Vec<Value> = Vec::new();
    let mut j: usize = 0;
    while j < messages.len()
        invariant
            j <= messages.len(),
            items@.len() == j,
            forall|t: int| 0 <= t < j ==> is_message_object(#[trigger] items@[t], messages@[t]),
        decreases messages.len() - j,
    {
        items.push(message_to_value(&messages[j]));
        j = j + 1;
    }
    let ghost before_messages = fields@;
    fields.push(("messages".to_owned(), Value::Arr(items)));
    proof {
        reveal_strlit("messages");
        reveal_strlit("stream");
        assert("messages"@.len() == 8);
        assert("stream"@.len() == 6);
        assert(fields@.drop_last() =~= before_messages);
        assert(lookup_field(fields@, "messages"@) == Some(fields@.last().1));
        if stream {
            assert(lookup_field(fields@, "stream"@) == lookup_field(before_messages, "stream"@));
            assert(before_messages.last().0@ == "stream"@);
            assert(lookup_field(before_messages, "stream"@) == Some(Value::Bool(true)));
        }
    }
    Value::Obj(fields)
}

/// The header list sent with a request: a bearer authorization header
/// first when a credential is configured, then every custom header in
/// order.
pub open spec fn request_headers_view(
    api_key: Option<String>,
    custom: Seq<(String, String)>,
) -> Seq<(Seq<char>, Seq<char>)> {
    let auth: Seq<(Seq<char>, Seq<char>)> = match api_key {
        Some(k) => seq![("Authorization"@, "Bearer "@ + k@)],
        None => Seq::empty(),
    };
    auth + Seq::new(custom.len(), |i: int| (custom[i].0@, custom[i].1@))
}

/// Builds the headers for a call: the credential, when present, becomes a
/// bearer authorization header and is never taken from the custom list.
pub fn build_request_headers(props: &ResolvedProperties) -> (r: Vec<(String, String)>)
    ensures
        headers_match(r@, request_headers_view(props.api_key, props.headers@)),
{
    let mut out: Vec<(String, String)> = Vec::new();
    match &props.api_key {
        Some(key) => {
            out.push(("Authorization".to_owned(), concat_str("Bearer ", key.as_str())));
        },
        None => {},
    }
    let ghost base: int = out@.len() as int;
    let mut i: usize = 0;
    while i < props.headers.len()
        invariant
            i <= props.headers.len(),
            out@.len() == base + i,
            base == (match props.api_key {
                Some(k) => 1int,
                None => 0int,
            }),
            forall|j: int|
                0 <= j < base ==> (#[trigger] out@[j]).0@ == request_headers_view(
                    props.api_key,
                    props.headers@,
                )[j].0 && out@[j].1@ == request_headers_view(props.api_key, props.headers@)[j].1,
            forall|j: int|
                0 <= j < i ==> (#[trigger] out@[base + j]).0@ == props.headers@[j].0@ && out@[base
                    + j].1@ == props.headers@[j].1@,
        decreases props.headers.len() - i,
    {
        let k = props.headers[i].0.clone();
        let v = props.headers[i].1.clone();
        out.push((k, v));
        i = i + 1;
    }
    proof {
        let expected = request_headers_view(props.api_key, props.headers@);
        assert(expected.len() == base + props.headers@.len());
        assert forall|j: int| 0 <= j < out@.len() implies (#[trigger] out@[j]).0@ == expected[j].0
            && out@[j].1@ == expected[j].1 by {
            if j >= base {
                assert(expected[j] == (props.headers@[j - base].0@, props.headers@[j - base].1@));
                assert(out@[j] == out@[base + (j - base)]);
            }
        }
    }
    out
}

/// The full endpoint of the chat-completions API under a base URL.
pub fn chat_endpoint(base_url: &str) -> (r: String)
    ensures
        r@ == base_url@ + "/v1/chat/completions"@,
{
    concat_str(base_url, "/v1/chat/completions")
}

} // verus!
