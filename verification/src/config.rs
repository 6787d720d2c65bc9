//! The fixed settings of the console.

use vstd::prelude::*;

verus! {

/// Identity of the node that the console connects to at start.
pub const LIPA_NODE_ID: &'static str =
    "03f984c30b10c63f18732756d42c6e0d73507763feb4180b5bd785d2dc4a35db75";

/// Network address of the node that the console connects to at start.
pub const LIPA_NODE_ADDRESS: &'static str = "34.65.188.150:9735";

/// The LNURL that the command `lnurlp` pays.
pub const ANDREIS_LNURLP: &'static str =
    "LNURL1DP68GURN8GHJ7AR9WD6XUET59ECXCETZDEJHGTNYV4MZ7MRWW4EXCUP0GACNVDT62UMGXDKN";

/// The line that the console greets with.
pub const BANNER: &'static str = "T:U:S:C:A:N:Y sample lightning node console";

/// The prompt of the console.
pub const PROMPT: &'static str = "\u{3df} ";

/// Seconds after which a request to the LNURL service is given up.
pub const LNURL_TIMEOUT_SECS: u64 = 10;

} // verus!
