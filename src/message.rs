use vstd::prelude::*;

verus! {

/// The MD5 digest of a text, taken over its UTF-8 bytes.
pub uninterp spec fn md5_of(text: Seq<char>) -> Seq<u8>;

/// Relies on `md5::compute`: the digest of the text's bytes, which it returns as
/// a `Digest([u8; 16])`.
#[verifier::external_body]
fn md5_digest(text: &str) -> (r: Vec<u8>)
    ensures
        r@ == md5_of(text@),
        r@.len() == 16,
{
    md5::compute(text.as_bytes()).0.to_vec()
}

/// The lower-case hexadecimal digit for a value below sixteen.
pub open spec fn hex_digit(v: u8) -> char {
    if v < 10 {
        (48 + v) as char
    } else {
        (87 + v) as char
    }
}

/// Lower-case hexadecimal text of a byte string: two digits per byte, the high
/// half first.
pub open spec fn lower_hex(bytes: Seq<u8>) -> Seq<char> {
    Seq::new(
        2 * bytes.len(),
        |i: int|
            if i % 2 == 0 {
                hex_digit(bytes[i / 2] / 16)
            } else {
                hex_digit(bytes[i / 2] % 16)
            },
    )
}

fn hex_char(v: u8) -> (c: char)
    requires
        v < 16,
    ensures
        c == hex_digit(v),
{
    if v < 10 {
        (48u8 + v) as char
    } else {
        (87u8 + v) as char
    }
}

/// Whether `expected` is the lower-case hexadecimal text of `digest`.
pub fn digest_matches(digest: &Vec<u8>, expected: &str) -> (r: bool)
    ensures
        r == (expected@ == lower_hex(digest@)),
{
    let n = expected.unicode_len();
    if n % 2 != 0 || n / 2 != digest.len() {
        proof {
            assert(expected@.len() != lower_hex(digest@).len());
        }
        return false;
    }
    let mut i: usize = 0;
    while i < digest.len()
        invariant
            i <= digest.len(),
            expected@.len() == 2 * digest@.len(),
            n == expected@.len(),
            forall|j: int|
                0 <= j < 2 * i ==> #[trigger] expected@[j] == lower_hex(digest@)[j],
        decreases digest.len() - i,
    {
        let b = digest[i];
        let hi = hex_char(b / 16);
        let lo = hex_char(b % 16);
        if expected.get_char(2 * i) != hi {
            proof {
                assert(expected@[2 * i as int] != lower_hex(digest@)[2 * i as int]);
            }
            return false;
        }
        if expected.get_char(2 * i + 1) != lo {
            proof {
                assert(expected@[2 * i + 1] != lower_hex(digest@)[2 * i + 1]);
            }
            return false;
        }
        i = i + 1;
    }
    proof {
        assert(expected@ =~= lower_hex(digest@));
    }
    true
}

/// A message as received from the input queue.
#[derive(Clone, Debug, PartialEq, Eq)]
pub struct Message {
    /// The payload, delivered verbatim to the endpoint.
    pub body: String,
    /// The token that deletes this delivery from the queue.
    pub receipt_handle: String,
    /// The identifier the queue gave the message.
    pub message_id: String,
    /// The lower-case hexadecimal MD5 digest of the body, as the queue reports it.
    pub md5_of_body: String,
}

/// The content of a message, as sequences of characters.
pub struct MessageView {
    pub body: Seq<char>,
    pub receipt_handle: Seq<char>,
    pub message_id: Seq<char>,
    pub md5_of_body: Seq<char>,
}

impl View for Message {
    type V = MessageView;

    open spec fn view(&self) -> MessageView {
        MessageView {
            body: self.body@,
            receipt_handle: self.receipt_handle@,
            message_id: self.message_id@,
            md5_of_body: self.md5_of_body@,
        }
    }
}

/// A message is intact when its reported digest is the digest of its body.
pub open spec fn intact(m: MessageView) -> bool {
    m.md5_of_body == lower_hex(md5_of(m.body))
}

impl Message {
    /// Whether the digest reported with the message is the MD5 digest of its
    /// body, compared as lower-case hexadecimal text.
    pub fn check_hash(&self) -> (r: bool)
        ensures
            r == intact(self@),
    {
        let digest = md5_digest(self.body.as_str());
        digest_matches(&digest, self.md5_of_body.as_str())
    }

    /// A message from the four fields of a queue envelope, when all four are present.
    pub fn from_envelope(
        body: Option<String>,
        receipt_handle: Option<String>,
        message_id: Option<String>,
        md5_of_body: Option<String>,
    ) -> (r: Option<Message>)
        ensures
            r is Some <==> body is Some && receipt_handle is Some && message_id is Some
                && md5_of_body is Some,
            r matches Some(m) ==> m@ == (MessageView {
                body: body.unwrap()@,
                receipt_handle: receipt_handle.unwrap()@,
                message_id: message_id.unwrap()@,
                md5_of_body: md5_of_body.unwrap()@,
            }),
    {
        match (body, receipt_handle, message_id, md5_of_body) {
            (Some(body), Some(receipt_handle), Some(message_id), Some(md5_of_body)) => Some(
                Message { body, receipt_handle, message_id, md5_of_body },
            ),
            _ => None,
        }
    }
}

/// The four fields of a message as the queue delivers them, each possibly absent.
pub struct Envelope {
    pub body: Option<String>,
    pub receipt_handle: Option<String>,
    pub message_id: Option<String>,
    pub md5_of_body: Option<String>,
}

/// The fields of an envelope, as sequences of characters.
pub struct EnvelopeView {
    pub body: Option<Seq<char>>,
    pub receipt_handle: Option<Seq<char>>,
    pub message_id: Option<Seq<char>>,
    pub md5_of_body: Option<Seq<char>>,
}

/// The view of an optional string.
pub open spec fn opt_view(s: Option<String>) -> Option<Seq<char>> {
    match s {
        Some(v) => Some(v@),
        None => None,
    }
}

impl View for Envelope {
    type V = EnvelopeView;

    open spec fn view(&self) -> EnvelopeView {
        EnvelopeView {
            body: opt_view(self.body),
            receipt_handle: opt_view(self.receipt_handle),
            message_id: opt_view(self.message_id),
            md5_of_body: opt_view(self.md5_of_body),
        }
    }
}

/// An envelope is complete when all four fields are present.
pub open spec fn complete(e: EnvelopeView) -> bool {
    e.body is Some && e.receipt_handle is Some && e.message_id is Some && e.md5_of_body is Some
}

/// The message that a complete envelope carries.
pub open spec fn message_of(e: EnvelopeView) -> MessageView {
    MessageView {
        body: e.body.unwrap(),
        receipt_handle: e.receipt_handle.unwrap(),
        message_id: e.message_id.unwrap(),
        md5_of_body: e.md5_of_body.unwrap(),
    }
}

/// The messages of the complete envelopes among `es`, in their order; the
/// incomplete ones are left out.
pub open spec fn complete_messages(es: Seq<EnvelopeView>) -> Seq<MessageView>
    decreases es.len(),
{
    if es.len() == 0 {
        Seq::empty()
    } else {
        let rest = complete_messages(es.drop_last());
        if complete(es.last()) {
            rest.push(message_of(es.last()))
        } else {
            rest
        }
    }
}

/// The views of a sequence of envelopes.
pub open spec fn envelope_views(es: Seq<Envelope>) -> Seq<EnvelopeView> {
    es.map_values(|e: Envelope| e@)
}

/// The messages of a received list of envelopes: those whose four fields are
/// all present, in the order received.
pub fn from_envelopes(envelopes: Vec<Envelope>) -> (r: Vec<Message>)
    ensures
        r@.map_values(|m: Message| m@) == complete_messages(envelope_views(envelopes@)),
{
    let ghost whole = envelope_views(envelopes@);
    let n = envelopes.len();
    let mut rest = envelopes;
    let mut r: Vec<Message> = Vec::new();
    let mut k: usize = 0;
    while rest.len() > 0
        invariant
            k + rest@.len() == n,
            whole.len() == n,
            envelope_views(rest@) == whole.subrange(k as int, n as int),
            r@.map_values(|m: Message| m@) == complete_messages(whole.take(k as int)),
        decreases rest.len(),
    {
        let ghost before = rest@;
        let e = rest.remove(0);
        proof {
            assert(envelope_views(before)[0] == before[0]@);
            assert(whole.subrange(k as int, n as int)[0] == whole[k as int]);
            assert(e@ == whole[k as int]);
            assert(rest@ =~= before.subrange(1, before.len() as int));
            assert forall|i: int| 0 <= i < rest@.len() implies envelope_views(rest@)[i] == whole[k + 1 + i] by {
                assert(envelope_views(before)[i + 1] == before[i + 1]@);
                assert(whole.subrange(k as int, n as int)[i + 1] == whole[k + 1 + i]);
            }
            assert(envelope_views(rest@) =~= whole.subrange(k + 1, n as int));
            assert(whole.take(k + 1).drop_last() =~= whole.take(k as int));
        }
        let ghost old_r = r@;
        match Message::from_envelope(e.body, e.receipt_handle, e.message_id, e.md5_of_body) {
            Some(m) => {
                r.push(m);
                proof {
                    assert(r@.map_values(|m: Message| m@) =~= old_r.map_values(|m: Message| m@).push(
                        message_of(whole[k as int]),
                    ));
                }
            },
            None => {},
        }
        k = k + 1;
    }
    proof {
        assert(whole.take(n as int) =~= whole);
    }
    r
}

/// The integrity check depends on the message's content alone: two messages
/// with the same fields, such as a message and its copy, pass or fail it alike.
pub proof fn lemma_check_hash_is_pure(a: Message, b: Message)
    requires
        a@ == b@,
    ensures
        intact(a@) == intact(b@),
{
}

} // verus!
