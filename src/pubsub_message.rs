use vstd::prelude::*;

verus! {

/// The URL-safe, padded base64 text of `bytes`, as the base64 crate writes it.
pub uninterp spec fn base64_url(bytes: Seq<u8>) -> Seq<char>;

/// Relies on base64::encode_config with base64::URL_SAFE: the text it returns
/// depends on the bytes alone.
#[verifier::external_body]
fn encode_url_safe(bytes: &[u8]) -> (r: String)
    ensures
        r@ == base64_url(bytes@),
{
    base64::encode_config(bytes, base64::URL_SAFE)
}

/// Relies on base64::decode_config with base64::URL_SAFE: text that the same
/// configuration encoded decodes back to the bytes it was made from.
#[verifier::external_body]
fn decode_url_safe(text: &str) -> (r: Option<Vec<u8>>)
    ensures
        r is Some <== exists|b: Seq<u8>| #[trigger] base64_url(b) == text@,
        r matches Some(v) ==> forall|b: Seq<u8>| #[trigger] base64_url(b) == text@ ==> v@ == b,
{
    base64::decode_config(text, base64::URL_SAFE).ok()
}

/// The JSON object that carries one message: `{"data":"<data>"}`.
pub open spec fn message_json(data: Seq<char>) -> Seq<char> {
    "{\"data\":\""@ + data + "\"}"@
}

/// The message objects of `datas`, separated by commas.
pub open spec fn messages_json(datas: Seq<Seq<char>>) -> Seq<char>
    decreases datas.len(),
{
    if datas.len() == 0 {
        Seq::empty()
    } else if datas.len() == 1 {
        message_json(datas[0])
    } else {
        messages_json(datas.drop_last()) + ","@ + message_json(datas.last())
    }
}

/// The JSON body of a publish request: `{"messages":[...]}`.
pub open spec fn publish_body(datas: Seq<Seq<char>>) -> Seq<char> {
    "{\"messages\":["@ + messages_json(datas) + "]}"@
}

/// One message of a publish request: the base64 text of its JSON payload.
#[derive(Debug, Clone)]
pub struct PubSubMessage {
    data: String,
}

impl View for PubSubMessage {
    type V = Seq<char>;

    closed spec fn view(&self) -> Seq<char> {
        self.data@
    }
}

impl PubSubMessage {
    /// Wraps the serialized JSON of a message value.
    pub fn new(json: &[u8]) -> (r: PubSubMessage)
        ensures
            r@ == base64_url(json@),
    {
        PubSubMessage { data: encode_url_safe(json) }
    }

    /// The base64 text sent as the message's data.
    pub fn data(&self) -> (r: &str)
        ensures
            r@ == self@,
    {
        self.data.as_str()
    }

    /// The payload bytes the message carries; every message built by `new`
    /// gives back exactly the bytes it was built from.
    pub fn payload(&self) -> (r: Option<Vec<u8>>)
        ensures
            forall|b: Seq<u8>| #[trigger] base64_url(b) == self@ ==> (r matches Some(v) && v@ == b),
    {
        decode_url_safe(self.data.as_str())
    }
}

/// The messages of one publish request, in the order they are sent.
#[derive(Debug, Clone)]
pub struct PubSubMessages {
    messages: Vec<PubSubMessage>,
}

impl View for PubSubMessages {
    type V = Seq<Seq<char>>;

    closed spec fn view(&self) -> Seq<Seq<char>> {
        self.messages@.map_values(|m: PubSubMessage| m@)
    }
}

impl PubSubMessages {
    /// A request that carries one message.
    pub fn oneshot(json: &[u8]) -> (r: PubSubMessages)
        ensures
            r@ == seq![base64_url(json@)],
    {
        let mut messages: Vec<PubSubMessage> = Vec::new();
        messages.push(PubSubMessage::new(json));
        let r = PubSubMessages { messages };
        assert(r@ =~= seq![base64_url(json@)]);
        r
    }

    /// A request that carries one message for each serialized value, in order.
    pub fn from_json_values(values: &[Vec<u8>]) -> (r: PubSubMessages)
        ensures
            r@.len() == values@.len(),
            forall|i: int| 0 <= i < values@.len() ==> #[trigger] r@[i] == base64_url(values@[i]@),
    {
        let mut messages: Vec<PubSubMessage> = Vec::new();
        let mut i: usize = 0;
        while i < values.len()
            invariant
                i <= values@.len(),
                messages@.len() == i,
                forall|j: int| 0 <= j < i ==> #[trigger] messages@[j]@ == base64_url(values@[j]@),
            decreases values@.len() - i,
        {
            messages.push(PubSubMessage::new(values[i].as_slice()));
            i = i + 1;
        }
        PubSubMessages { messages }
    }

    /// The number of messages in the request.
    pub fn len(&self) -> (r: usize)
        ensures
            r == self@.len(),
    {
        self.messages.len()
    }

    /// The JSON body of the publish request that carries these messages.
    pub fn to_body(&self) -> (r: String)
        ensures
            r@ == publish_body(self@),
    {
        let ghost datas = self@;
        let mut out = String::from_str("{\"messages\":[");
        let mut i: usize = 0;
        while i < self.messages.len()
            invariant
                i <= datas.len(),
                datas == self@,
                out@ == "{\"messages\":["@ + messages_json(datas.take(i as int)),
            decreases datas.len() - i,
        {
            proof {
                assert(datas.take(i as int + 1).drop_last() =~= datas.take(i as int));
                assert(datas.take(i as int + 1).last() == datas[i as int]);
            }
            if i > 0 {
                out.append(",");
            }
            out.append("{\"data\":\"");
            out.append(self.messages[i].data.as_str());
            out.append("\"}");
            proof {
                if i == 0 {
                    assert(datas.take(0).len() == 0);
                }
            }
            assert(out@ =~= "{\"messages\":["@ + messages_json(datas.take(i as int + 1)));
            i = i + 1;
        }
        out.append("]}");
        assert(datas.take(datas.len() as int) =~= datas);
        out
    }
}

/// The answer to a publish request: the ids given to the published messages.
#[derive(Debug, Clone)]
pub struct PubSubResponse {
    pub message_ids: Vec<String>,
}

impl PubSubResponse {
    /// The id of the last published message, if any was given.
    pub fn last_id(self) -> (r: Option<String>)
        ensures
            self.message_ids@.len() == 0 ==> r is None,
            self.message_ids@.len() > 0 ==> (r matches Some(id) && id == self.message_ids@.last()),
    {
        let mut ids = self.message_ids;
        ids.pop()
    }
}

} // verus!
