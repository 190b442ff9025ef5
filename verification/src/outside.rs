//! Outside types that the library's errors carry through unread.

use vstd::prelude::*;

verus! {

/// `std::io::Error`: the failure of binding an endpoint's socket.
#[verifier::external_type_specification]
#[verifier::external_body]
pub struct ExIoError(std::io::Error);

/// `quinn::ConnectError`: an endpoint's refusal to start a connection.
#[verifier::external_type_specification]
#[verifier::external_body]
pub struct ExConnectError(quinn::ConnectError);

/// `quinn::ConnectionError`: the loss of an established or starting connection.
#[verifier::external_type_specification]
#[verifier::external_body]
pub struct ExConnectionError(quinn::ConnectionError);

} // verus!
