//! What the commands do: show a key pair, or open a session.
//!
//! Nothing here prints or connects. A key pair is shown as a text that the
//! caller prints; a session is handed to the caller to run, as
//! [`crate::session`] describes.

use crate::encoding::{encoded, pk_to_hex, sk_to_hex};
use crate::identity::{Keypair, PeerIdentity, PublicKey};
use crate::session::{bind_of, initiator_of, listener_of, Action, Session};
use vstd::prelude::*;

verus! {

/// Names the bind that a session under the key pair `local` begins with.
pub fn make_service<I, E>(local: Keypair) -> (action: Action<I, E>)
    ensures
        action@ == bind_of::<I, E>(local),
{
    Action::Bind { our_id: PeerIdentity::new(local.public), secret: local.secret }
}

/// A listener under the key pair `local`, with nothing done yet.
pub fn listen(local: Keypair) -> (session: Session)
    ensures
        session@ == listener_of(local),
{
    Session::listener(local)
}

/// The payload that [`send`] sends.
pub open spec fn payload() -> Seq<u8> {
    seq![0u8, 2u8, 4u8]
}

/// An initiator under the key pair `local` that is to send the bytes 0, 2, 4
/// to the peer whose public key is `remote_pk`, with nothing done yet.
pub fn send(remote_pk: PublicKey, local: Keypair) -> (session: Session)
    ensures
        session@ == initiator_of(remote_pk, local, payload()),
{
    let bytes: Vec<u8> = vec![0, 2, 4];
    Session::initiator(remote_pk, local, bytes)
}

/// A listener under the key pair `local`, together with the text that
/// announces it: the textual form of its public key.
pub fn gen_listen(local: Keypair) -> (r: (String, Session))
    ensures
        r.0@ == encoded(local.public@),
        r.1@ == listener_of(local),
{
    (pk_to_hex(local.public), listen(local))
}

/// An initiator under the freshly made key pair `local`, as [`send`] gives
/// it.
pub fn gen_send(remote_pk: PublicKey, local: Keypair) -> (session: Session)
    ensures
        session@ == initiator_of(remote_pk, local, payload()),
{
    send(remote_pk, local)
}

/// Every character of `text` is an ASCII letter or digit.
pub open spec fn is_plain(text: Seq<char>) -> bool {
    forall|i: int|
        0 <= i < text.len() ==> {
            let c = #[trigger] text[i];
            ('0' <= c <= '9') || ('a' <= c <= 'z') || ('A' <= c <= 'Z')
        }
}

/// The compact JSON text of an object with two members whose values are
/// strings.
pub open spec fn object_text(
    first_key: Seq<char>,
    first: Seq<char>,
    second_key: Seq<char>,
    second: Seq<char>,
) -> Seq<char> {
    seq!['{', '"'] + first_key + seq!['"', ':', '"'] + first + seq!['"', ',', '"'] + second_key
        + seq!['"', ':', '"'] + second + seq!['"', '}']
}

/// The JSON text that shows a key pair: its two keys in their textual
/// form, the public one first.
pub open spec fn keypair_json(local: Keypair) -> Seq<char> {
    object_text("public"@, encoded(local.public@), "secret"@, encoded(local.secret@))
}

/// `serde_json`: the text of a `Value::Object` with the two string members
/// given, as `to_string` writes it.
///
/// The text is the compact form, without white space. No character of a
/// key or a value is escaped, since each is a letter or a digit. The member
/// with `first_key` comes first: it is inserted first, and its key is the
/// smaller one, so that it comes first whether the object keeps its members
/// by key or in the order of insertion.
#[verifier::external_body]
fn json_object(first_key: &str, first: &str, second_key: &str, second: &str) -> (text: String)
    requires
        is_plain(first_key@),
        is_plain(first@),
        is_plain(second_key@),
        is_plain(second@),
        first_key@.len() > 0,
        second_key@.len() > 0,
        first_key@[0] < second_key@[0],
    ensures
        text@ == object_text(first_key@, first@, second_key@, second@),
{
    let mut members = serde_json::Map::new();
    members.insert(first_key.to_owned(), serde_json::Value::String(first.to_owned()));
    members.insert(second_key.to_owned(), serde_json::Value::String(second.to_owned()));
    serde_json::Value::Object(members).to_string()
}

/// Shows the key pair `local` as JSON: an object whose members `public` and
/// `secret` hold the two keys in their textual form.
pub fn generate(local: Keypair) -> (text: String)
    ensures
        text@ == keypair_json(local),
{
    let secret = sk_to_hex(local.secret);
    let public = pk_to_hex(local.public);
    proof {
        reveal_strlit("public");
        reveal_strlit("secret");
    }
    json_object("public", public.as_str(), "secret", secret.as_str())
}

} // verus!
