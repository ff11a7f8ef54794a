//! SSH connections: the state of a client, and the text of the server's
//! host key fingerprint.

use vstd::prelude::*;
use crate::error::{LagideError, Result};
use crate::text::{concat2, decimal, decimal_string, digit_char, digit_to_char, owned, string_from_chars};

verus! {

/// What a command run over SSH printed, and how it exited.
#[derive(Debug, Clone)]
pub struct CommandOutput {
    pub stdout: String,
    pub stderr: String,
    /// The exit status, or -1 where the server reported none.
    pub exit_code: i32,
}

impl CommandOutput {
    /// The output of a command, with the exit status that the server
    /// reported, if any.
    pub fn new(stdout: String, stderr: String, exit_status: Option<i32>) -> (r: Self)
        ensures
            r.stdout == stdout,
            r.stderr == stderr,
            r.exit_code == match exit_status {
                Some(c) => c,
                None => -1i32,
            },
    {
        let exit_code = match exit_status {
            Some(c) => c,
            None => -1,
        };
        CommandOutput { stdout, stderr, exit_code }
    }
}

/// The two lower-case hexadecimal digits of a byte.
pub open spec fn hex_pair(b: u8) -> Seq<char> {
    seq![digit_char((b / 16) as nat), digit_char((b % 16) as nat)]
}

/// The bytes of a hash as hexadecimal pairs separated by colons.
pub open spec fn colon_hex(bytes: Seq<u8>) -> Seq<char>
    decreases bytes.len(),
{
    if bytes.len() == 0 {
        seq![]
    } else if bytes.len() == 1 {
        hex_pair(bytes[0])
    } else {
        colon_hex(bytes.drop_last()) + seq![':'] + hex_pair(bytes.last())
    }
}

/// The text of a host key fingerprint: the hash as colon-separated
/// hexadecimal pairs, or `unknown` where the server gave none.
pub open spec fn fingerprint_text(hash: Option<Seq<u8>>) -> Seq<char> {
    match hash {
        Some(b) => colon_hex(b),
        None => "unknown"@,
    }
}

/// The text of a host key fingerprint.
pub fn format_fingerprint(hash: Option<&[u8]>) -> (r: String)
    ensures
        r@ == fingerprint_text(
            match hash {
                Some(b) => Some(b@),
                None => None,
            },
        ),
{
    match hash {
        None => owned("unknown"),
        Some(bytes) => {
            let mut out: Vec<char> = Vec::new();
            let mut i: usize = 0;
            while i < bytes.len()
                invariant
                    i <= bytes@.len(),
                    out@ == colon_hex(bytes@.take(i as int)),
                decreases bytes@.len() - i,
            {
                let b: u8 = bytes[i];
                assert(bytes@.take(i + 1).drop_last() =~= bytes@.take(i as int));
                if i > 0 {
                    out.push(':');
                }
                out.push(digit_to_char((b / 16) as u64));
                out.push(digit_to_char((b % 16) as u64));
                assert(out@ =~= colon_hex(bytes@.take(i + 1)));
                i += 1;
            }
            assert(bytes@.take(bytes@.len() as int) =~= bytes@);
            string_from_chars(out.as_slice())
        },
    }
}

/// A client of one SSH server, holding the session of type `S` once
/// connected.
pub struct SshClient<S> {
    pub session: Option<S>,
    pub host: String,
    pub port: u16,
    pub username: String,
    pub connected: bool,
}

impl<S> SshClient<S> {
    /// A client of `username` at `host:port`, not connected.
    pub fn new(host: &str, port: u16, username: &str) -> (r: Self)
        ensures
            r.session is None,
            r.host@ == host@,
            r.port == port,
            r.username@ == username@,
            !r.connected,
    {
        SshClient { session: None, host: owned(host), port, username: owned(username), connected: false }
    }

    /// The `host:port` address to connect to.
    pub fn address(&self) -> (r: String)
        ensures
            r@ == self.host@ + ":"@ + decimal(self.port as nat),
    {
        let mut r = concat2(self.host.as_str(), ":");
        r.append(decimal_string(self.port as u64).as_str());
        r
    }

    /// Takes the authenticated session: the client is connected.
    pub fn attach(&mut self, session: S)
        ensures
            final(self).session == Some(session),
            final(self).connected,
            final(self).host == old(self).host,
            final(self).port == old(self).port,
            final(self).username == old(self).username,
    {
        self.session = Some(session);
        self.connected = true;
    }

    /// Completes a password login: where the server accepted the user, the
    /// client takes the session and is connected; otherwise the error
    /// `Authentication failed`, the client unchanged.
    pub fn finish_password_auth(&mut self, session: S, authenticated: bool) -> (r: Result<()>)
        ensures
            authenticated ==> r is Ok && final(self).session == Some(session)
                && final(self).connected,
            !authenticated ==> (r matches Err(LagideError::Ssh(m)) && m@
                == "Authentication failed"@) && *final(self) == *old(self),
            final(self).host == old(self).host,
            final(self).port == old(self).port,
            final(self).username == old(self).username,
    {
        if !authenticated {
            return Err(LagideError::Ssh(owned("Authentication failed")));
        }
        self.attach(session);
        Ok(())
    }

    /// Completes a key login: where the server accepted the user, the client
    /// takes the session and is connected; otherwise the error
    /// `Key authentication failed`, the client unchanged.
    pub fn finish_key_auth(&mut self, session: S, authenticated: bool) -> (r: Result<()>)
        ensures
            authenticated ==> r is Ok && final(self).session == Some(session)
                && final(self).connected,
            !authenticated ==> (r matches Err(LagideError::Ssh(m)) && m@
                == "Key authentication failed"@) && *final(self) == *old(self),
            final(self).host == old(self).host,
            final(self).port == old(self).port,
            final(self).username == old(self).username,
    {
        if !authenticated {
            return Err(LagideError::Ssh(owned("Key authentication failed")));
        }
        self.attach(session);
        Ok(())
    }

    /// The session, or the error that says the client is not connected.
    pub fn session(&self) -> (r: Result<&S>)
        ensures
            match self.session {
                Some(s) => r matches Ok(t) && *t == s,
                None => r matches Err(LagideError::Ssh(m)) && m@ == "Not connected"@,
            },
    {
        match &self.session {
            Some(s) => Ok(s),
            None => Err(LagideError::Ssh(owned("Not connected"))),
        }
    }

    /// Gives up the session, which is returned to be closed: the client is
    /// no longer connected.
    pub fn disconnect(&mut self) -> (r: Option<S>)
        ensures
            r == old(self).session,
            final(self).session is None,
            !final(self).connected,
            final(self).host == old(self).host,
            final(self).port == old(self).port,
            final(self).username == old(self).username,
    {
        self.connected = false;
        self.session.take()
    }
}

} // verus!
