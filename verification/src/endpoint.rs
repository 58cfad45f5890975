//! The endpoint that a database client connects to.

use crate::text::{decimal, lemma_decimal_injective, push_decimal};
use vstd::prelude::*;

verus! {

/// Address on which every container port is published: loopback only.
pub const LOOPBACK_HOST: &'static str = "127.0.0.1";

/// Database that a client lands in when it names none.
pub const DEFAULT_DATABASE: &'static str = "messenger";

/// The connection string for the server published on `port`:
/// `mongodb://127.0.0.1:<port>/messenger?directConnection=true`.
///
/// The `directConnection` option keeps the client from looking for a
/// replica set.
pub open spec fn connection_uri_text(port: u16) -> Seq<char> {
    "mongodb://"@ + LOOPBACK_HOST@ + ":"@ + decimal(port as nat) + "/"@ + DEFAULT_DATABASE@
        + "?directConnection=true"@
}

/// Builds the connection string for the server published on `port`.
pub fn connection_uri(port: u16) -> (uri: String)
    ensures
        uri@ == connection_uri_text(port),
{
    let mut uri = String::from_str("mongodb://");
    uri.append(LOOPBACK_HOST);
    uri.append(":");
    push_decimal(&mut uri, port as u64);
    uri.append("/");
    uri.append(DEFAULT_DATABASE);
    uri.append("?directConnection=true");
    uri
}

/// Distinct ports have distinct connection strings: a client that was given
/// one manager's endpoint cannot reach the server of another.
pub proof fn lemma_connection_uri_injective(p: u16, q: u16)
    requires
        connection_uri_text(p) == connection_uri_text(q),
    ensures
        p == q,
{
    let head = "mongodb://"@ + LOOPBACK_HOST@ + ":"@;
    let tail = "/"@ + DEFAULT_DATABASE@ + "?directConnection=true"@;
    let a = decimal(p as nat);
    let b = decimal(q as nat);
    assert(connection_uri_text(p) =~= head + a + tail);
    assert(connection_uri_text(q) =~= head + b + tail);
    assert((head + a + tail).len() == head.len() + a.len() + tail.len());
    assert((head + b + tail).len() == head.len() + b.len() + tail.len());
    assert(a =~= (head + a + tail).subrange(head.len() as int, (head.len() + a.len()) as int));
    assert(b =~= (head + b + tail).subrange(head.len() as int, (head.len() + b.len()) as int));
    lemma_decimal_injective(p as nat, q as nat);
}

} // verus!
