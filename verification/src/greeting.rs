//! The greeting, in which a client lists the authentication methods it
//! offers and the server picks one.

use crate::reply::{METHOD_NO_AUTH, SOCKS_VERSION};
use crate::wire::Decoded;
use vstd::prelude::*;

verus! {

/// The server's verdict on a greeting.
#[derive(Clone, Copy, Debug, PartialEq, Eq)]
pub enum Greeting {
    /// The client offered "no authentication"; the session goes on.
    Accepted,
    /// The greeting is malformed or offers nothing acceptable.
    Refused,
}

/// The largest number of methods that a greeting may announce.
pub const MAX_METHODS: u8 = 0xfe;

/// The greeting of a client that offers `methods`.
pub open spec fn greeting_frame(methods: Seq<u8>) -> Seq<u8> {
    seq![SOCKS_VERSION, methods.len() as u8] + methods
}

/// The verdict on the bytes `buf` received from a client that has just
/// connected. The header is two bytes, version and method count; a wrong
/// version or a count above `MAX_METHODS` is refused on the header alone.
/// Otherwise the methods are awaited, and the greeting is accepted exactly
/// when one of them is "no authentication".
pub open spec fn greeting_outcome(buf: Seq<u8>) -> Decoded<Greeting> {
    if buf.len() < 2 {
        Decoded::NeedMore(2)
    } else if buf[0] != SOCKS_VERSION || buf[1] > MAX_METHODS {
        Decoded::Ready(Greeting::Refused)
    } else if buf.len() < 2 + buf[1] {
        Decoded::NeedMore((2 + buf[1]) as usize)
    } else if buf.subrange(2, 2 + buf[1]).contains(METHOD_NO_AUTH) {
        Decoded::Ready(Greeting::Accepted)
    } else {
        Decoded::Ready(Greeting::Refused)
    }
}

/// Decodes the greeting at the start of `buf`. Bytes beyond the greeting are
/// not looked at.
pub fn decode_greeting(buf: &[u8]) -> (outcome: Decoded<Greeting>)
    ensures
        outcome == greeting_outcome(buf@),
{
    if buf.len() < 2 {
        return Decoded::NeedMore(2);
    }
    if buf[0] != SOCKS_VERSION || buf[1] > MAX_METHODS {
        return Decoded::Ready(Greeting::Refused);
    }
    let count: usize = buf[1] as usize;
    if buf.len() < 2 + count {
        return Decoded::NeedMore(2 + count);
    }
    let ghost methods = buf@.subrange(2, 2 + count);
    let mut i: usize = 0;
    while i < count
        invariant
            i <= count <= MAX_METHODS,
            2 + count <= buf@.len(),
            buf@[0] == SOCKS_VERSION,
            buf@[1] == count,
            methods == buf@.subrange(2, 2 + count),
            forall|j: int| 0 <= j < i ==> methods[j] != METHOD_NO_AUTH,
        decreases count - i,
    {
        if buf[2 + i] == METHOD_NO_AUTH {
            assert(methods[i as int] == METHOD_NO_AUTH);
            return Decoded::Ready(Greeting::Accepted);
        }
        i += 1;
    }
    Decoded::Ready(Greeting::Refused)
}

/// The decoder asks for more bytes than it was given, and never for more
/// than the longest greeting has.
pub proof fn lemma_greeting_needs_more(buf: Seq<u8>, total: usize)
    requires
        greeting_outcome(buf) == Decoded::<Greeting>::NeedMore(total),
    ensures
        buf.len() < total <= 2 + MAX_METHODS,
{
}

/// Once the verdict is reached, bytes that follow do not change it.
pub proof fn lemma_greeting_verdict_stands(buf: Seq<u8>, more: Seq<u8>)
    requires
        greeting_outcome(buf) is Ready,
    ensures
        greeting_outcome(buf + more) == greeting_outcome(buf),
{
    let longer = buf + more;
    assert(longer[0] == buf[0] && longer[1] == buf[1]);
    if buf[0] == SOCKS_VERSION && buf[1] <= MAX_METHODS {
        assert(longer.subrange(2, 2 + buf[1]) =~= buf.subrange(2, 2 + buf[1]));
    }
}

/// A greeting that counts between one and `MAX_METHODS` methods, "no
/// authentication" among them, is accepted.
pub proof fn lemma_greeting_offering_no_auth(methods: Seq<u8>)
    requires
        1 <= methods.len() <= MAX_METHODS,
        methods.contains(METHOD_NO_AUTH),
    ensures
        greeting_outcome(greeting_frame(methods)) == Decoded::Ready(Greeting::Accepted),
{
    let frame = greeting_frame(methods);
    assert(frame.subrange(2, 2 + frame[1]) =~= methods);
}

/// A greeting that counts between one and `MAX_METHODS` methods, none of
/// them "no authentication", is refused.
pub proof fn lemma_greeting_lacking_no_auth(methods: Seq<u8>)
    requires
        1 <= methods.len() <= MAX_METHODS,
        !methods.contains(METHOD_NO_AUTH),
    ensures
        greeting_outcome(greeting_frame(methods)) == Decoded::Ready(Greeting::Refused),
{
    let frame = greeting_frame(methods);
    assert(frame.subrange(2, 2 + frame[1]) =~= methods);
}

} // verus!
