//! An HTTP authentication gateway core: a callback-URL validator that gates
//! single-sign-on redirects, and the pure decision logic of the two gateway
//! flows (identity lookup and login redirect). All request-independent logic
//! lives here and is verified; the HTTP transport around it does not.

use vstd::prelude::*;

pub mod bytes;
pub mod gateway;
pub mod identity;
pub mod validator;

verus! {

} // verus!
