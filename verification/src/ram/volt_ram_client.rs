use vstd::prelude::*;
use vstd::string::*;

use crate::common::error::VumError;
use crate::common::result::VumResult;
use crate::util::number::{decimal_string, spec_decimal};
use crate::util::text::{concat_str, contains_str, spec_contains, starts_with, str_to_string};

verus! {

/// Where the RAM manager listens by default.
pub const DEFAULT_SOCKET_PATH: &'static str = "/tmp/volt-ram-mgr.sock";

/// The state of the connection to the RAM manager service and the quota it
/// granted. The socket exchange itself is carried out by the caller.
#[derive(Debug)]
pub struct VoltRamClient {
    connected: bool,
    quota_mb: u64,
    socket_path: String,
}

/// A reply accepts when it starts with "OK" or contains `keyword`.
pub open spec fn spec_reply_accepts(reply: Seq<char>, keyword: Seq<char>) -> bool {
    "OK"@.is_prefix_of(reply) || spec_contains(reply, keyword)
}

/// The request for a quota of `mb` mebibytes.
pub open spec fn spec_quota_request(mb: u64) -> Seq<char> {
    "SBP-MEM:REQUEST_QUOTA:"@ + spec_decimal(mb as nat) + seq!['\n']
}

/// The notice that a quota of `mb` mebibytes is given back.
pub open spec fn spec_quota_release(mb: u64) -> Seq<char> {
    "SBP-MEM:RELEASE_QUOTA:"@ + spec_decimal(mb as nat) + seq!['\n']
}

/// Whether a reply accepts: it starts with "OK" or contains `keyword`.
pub fn reply_accepts(reply: &str, keyword: &str) -> (r: bool)
    ensures
        r == spec_reply_accepts(reply@, keyword@),
{
    starts_with(reply, "OK") || contains_str(reply, keyword)
}

impl VoltRamClient {
    pub closed spec fn spec_connected(&self) -> bool {
        self.connected
    }

    pub closed spec fn spec_quota_mb(&self) -> u64 {
        self.quota_mb
    }

    pub closed spec fn spec_socket_path(&self) -> Seq<char> {
        self.socket_path@
    }

    /// Not connected, a quota of 512 MiB, the default socket path.
    pub fn new() -> (c: Self)
        ensures
            !c.spec_connected(),
            c.spec_quota_mb() == 512,
            c.spec_socket_path() == DEFAULT_SOCKET_PATH@,
    {
        VoltRamClient { connected: false, quota_mb: 512, socket_path: str_to_string(DEFAULT_SOCKET_PATH) }
    }

    /// The message that opens a connection.
    pub fn connect_message() -> (m: &'static str)
        ensures
            m@ == "SBP-MEM:CONNECT\n"@,
    {
        "SBP-MEM:CONNECT\n"
    }

    /// Takes the service's reply to a connection attempt: a reply that
    /// starts with "OK" or contains "CONNECTED" connects; anything else
    /// leaves the client disconnected with `InternalInvariantViolation`.
    pub fn finish_connect(&mut self, reply: &str) -> (r: VumResult<()>)
        ensures
            r is Ok <==> spec_reply_accepts(reply@, "CONNECTED"@),
            final(self).spec_connected() == r is Ok,
            final(self).spec_quota_mb() == old(self).spec_quota_mb(),
            final(self).spec_socket_path() == old(self).spec_socket_path(),
            r is Err ==> (r matches Err(VumError::InternalInvariantViolation(m))
                && m@ == "volt-ram-manager socket not available"@),
    {
        if reply_accepts(reply, "CONNECTED") {
            self.connected = true;
            Ok(())
        } else {
            self.connected = false;
            Err(VumError::InternalInvariantViolation(str_to_string("volt-ram-manager socket not available")))
        }
    }

    /// Notes that no connection could be made.
    pub fn connect_failed(&mut self)
        ensures
            !final(self).spec_connected(),
            final(self).spec_quota_mb() == old(self).spec_quota_mb(),
            final(self).spec_socket_path() == old(self).spec_socket_path(),
    {
        self.connected = false;
    }

    /// Quota requests and releases need a connection: `Ok` when connected,
    /// `InternalInvariantViolation` otherwise.
    pub fn require_connected(&self) -> (r: VumResult<()>)
        ensures
            r is Ok <==> self.spec_connected(),
            r is Err ==> (r matches Err(VumError::InternalInvariantViolation(m))
                && m@ == "Not connected to volt-ram-manager"@),
    {
        if self.connected {
            Ok(())
        } else {
            Err(VumError::InternalInvariantViolation(str_to_string("Not connected to volt-ram-manager")))
        }
    }

    /// The request for a quota of `mb` mebibytes.
    pub fn quota_request(mb: u64) -> (m: String)
        ensures
            m@ == spec_quota_request(mb),
    {
        let mut m = String::from_str("SBP-MEM:REQUEST_QUOTA:");
        let n = decimal_string(mb);
        m.append(n.as_str());
        crate::util::text::push_char(&mut m, '\n');
        m
    }

    /// Takes the service's reply to a quota request for `mb` mebibytes: a
    /// reply that starts with "OK" or contains "GRANTED" sets the quota;
    /// anything else is a refusal (`InternalInvariantViolation`).
    pub fn finish_quota_request(&mut self, mb: u64, reply: &str) -> (r: VumResult<()>)
        ensures
            r is Ok <==> spec_reply_accepts(reply@, "GRANTED"@),
            final(self).spec_quota_mb() == if r is Ok { mb } else { old(self).spec_quota_mb() },
            final(self).spec_connected() == old(self).spec_connected(),
            final(self).spec_socket_path() == old(self).spec_socket_path(),
            r is Err ==> (r matches Err(VumError::InternalInvariantViolation(m))
                && m@ == "Quota request denied: "@ + reply@),
    {
        if reply_accepts(reply, "GRANTED") {
            self.quota_mb = mb;
            Ok(())
        } else {
            Err(VumError::InternalInvariantViolation(concat_str("Quota request denied: ", reply)))
        }
    }

    /// The notice that gives back the current quota.
    pub fn release_notice(&self) -> (m: String)
        ensures
            m@ == spec_quota_release(self.spec_quota_mb()),
    {
        let mut m = String::from_str("SBP-MEM:RELEASE_QUOTA:");
        let n = decimal_string(self.quota_mb);
        m.append(n.as_str());
        crate::util::text::push_char(&mut m, '\n');
        m
    }

    /// Notes that the quota was given back: disconnected, no quota.
    pub fn finish_release(&mut self)
        ensures
            !final(self).spec_connected(),
            final(self).spec_quota_mb() == 0,
            final(self).spec_socket_path() == old(self).spec_socket_path(),
    {
        self.connected = false;
        self.quota_mb = 0;
    }

    pub fn is_connected(&self) -> (r: bool)
        ensures
            r == self.spec_connected(),
    {
        self.connected
    }

    pub fn quota_mb(&self) -> (r: u64)
        ensures
            r == self.spec_quota_mb(),
    {
        self.quota_mb
    }

    pub fn socket_path(&self) -> (p: &str)
        ensures
            p@ == self.spec_socket_path(),
    {
        self.socket_path.as_str()
    }

    pub fn set_socket_path(&mut self, path: &str)
        ensures
            final(self).spec_socket_path() == path@,
            final(self).spec_connected() == old(self).spec_connected(),
            final(self).spec_quota_mb() == old(self).spec_quota_mb(),
    {
        self.socket_path = str_to_string(path);
    }
}

impl Default for VoltRamClient {
    fn default() -> (c: Self)
        ensures
            !c.spec_connected(),
            c.spec_quota_mb() == 512,
    {
        Self::new()
    }
}

} // verus!
