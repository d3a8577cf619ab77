//! Connection bookkeeping for the protocol client: destination and
//! credentials with their documented defaults, the connection lifecycle, and
//! the correlation-tag counter with the exact framing of each outbound line.
//!
//! The socket itself lives outside the library. Callers drive the transitions
//! here: validate and build the client with [`GridborgClient::new`], report a
//! successful connect with [`GridborgClient::note_connected`], frame a line
//! with [`GridborgClient::prepare_raw_command`], and record a completed write
//! with [`GridborgClient::note_sent`], so that a tag is handed out exactly
//! when its line was written.

use crate::addr::{is_ip_addr, is_valid_address};
use crate::commands::{command_line, Command};
use crate::wire::{dec_of, is_space, lemma_dec_of_val, lemma_digit_not_special, u64_to_string};
use vstd::prelude::*;

verus! {

/// Why a connection operation failed.
#[derive(Clone, Copy, Debug, PartialEq, Eq, Structural)]
pub enum ConnectionError {
    /// The server address is not a syntactically valid IP address.
    InvalidAddress,
    /// The transport could not reach or was refused by the server.
    ConnectFailed,
    /// The operation needs a connected client.
    NotConnected,
    /// The transport failed while writing a line.
    WriteFailed,
    /// The transport failed while reading lines.
    ReadFailed,
}

/// The wire line of one outbound command: the message, the correlation-tag
/// attribute, and the line terminator.
pub open spec fn framed(msg: Seq<char>, tag: u64) -> Seq<char> {
    msg + " COMMANDTAG="@ + dec_of(tag as nat) + "\n"@
}

/// Client-side state of one control connection: destination, credentials,
/// lifecycle flag and the correlation-tag counter. The counter starts at 0,
/// is reset by a fresh connect, and grows by exactly one per written command.
#[derive(Clone, Debug)]
pub struct GridborgClient {
    pub server: String,
    pub control_port: u16,
    pub transport_channel_port: u16,
    pub username: String,
    pub password: String,
    pub connected: bool,
    pub command_tag: u64,
}

impl GridborgClient {
    /// Builds a disconnected client. The server address must be a
    /// syntactically valid IPv4 or IPv6 address: anything else is rejected
    /// with `InvalidAddress`. Absent options fall back to the documented
    /// example defaults (ports 1234 and 1235, user `user1`, password `abc`);
    /// the credential defaults are example values, not production ones.
    pub fn new(
        server: String,
        control_port: Option<u16>,
        transport_channel_port: Option<u16>,
        username: Option<String>,
        password: Option<String>,
    ) -> (r: Result<GridborgClient, ConnectionError>)
        ensures
            ({
                if is_ip_addr(server@) {
                    &&& r matches Ok(c)
                    &&& c.server@ == server@
                    &&& c.control_port == (match control_port {
                        Some(p) => p,
                        None => 1234u16,
                    })
                    &&& c.transport_channel_port == (match transport_channel_port {
                        Some(p) => p,
                        None => 1235u16,
                    })
                    &&& c.username@ == (match username {
                        Some(u) => u@,
                        None => "user1"@,
                    })
                    &&& c.password@ == (match password {
                        Some(p) => p@,
                        None => "abc"@,
                    })
                    &&& !c.connected
                    &&& c.command_tag == 0
                } else {
                    r == Err::<GridborgClient, ConnectionError>(ConnectionError::InvalidAddress)
                }
            }),
    {
        if !is_valid_address(server.as_str()) {
            return Err(ConnectionError::InvalidAddress);
        }
        let control_port = match control_port {
            Some(p) => p,
            None => 1234,
        };
        let transport_channel_port = match transport_channel_port {
            Some(p) => p,
            None => 1235,
        };
        let username = match username {
            Some(u) => u,
            None => String::from_str("user1"),
        };
        let password = match password {
            Some(p) => p,
            None => String::from_str("abc"),
        };
        Ok(GridborgClient {
            server,
            control_port,
            transport_channel_port,
            username,
            password,
            connected: false,
            command_tag: 0,
        })
    }

    /// Records that the transport connected: the client is Connected and the
    /// correlation-tag counter starts fresh at 0.
    pub fn note_connected(&mut self)
        ensures
            final(self).connected,
            final(self).command_tag == 0,
            final(self).server@ == old(self).server@,
            final(self).control_port == old(self).control_port,
            final(self).transport_channel_port == old(self).transport_channel_port,
            final(self).username@ == old(self).username@,
            final(self).password@ == old(self).password@,
    {
        self.connected = true;
        self.command_tag = 0;
    }

    /// Leaves the Connected state. Disconnecting a client that is not
    /// connected is an error, not a no-op: it returns `NotConnected` and
    /// changes nothing.
    pub fn disconnect(&mut self) -> (r: Result<(), ConnectionError>)
        ensures
            ({
                if old(self).connected {
                    &&& r == Ok::<(), ConnectionError>(())
                    &&& !final(self).connected
                    &&& final(self).command_tag == old(self).command_tag
                    &&& final(self).server@ == old(self).server@
                    &&& final(self).control_port == old(self).control_port
                    &&& final(self).transport_channel_port == old(self).transport_channel_port
                    &&& final(self).username@ == old(self).username@
                    &&& final(self).password@ == old(self).password@
                } else {
                    &&& r == Err::<(), ConnectionError>(ConnectionError::NotConnected)
                    &&& *final(self) == *old(self)
                }
            }),
    {
        if self.connected {
            self.connected = false;
            Ok(())
        } else {
            Err(ConnectionError::NotConnected)
        }
    }

    /// Frames one raw command for the wire: appends the correlation-tag
    /// attribute for the current counter and the line terminator. Succeeds
    /// exactly when the client is connected; nothing is counted until the
    /// caller reports the write with `note_sent`.
    pub fn prepare_raw_command(&self, message: &str) -> (r: Result<String, ConnectionError>)
        ensures
            ({
                match r {
                    Ok(line) => self.connected && line@ == framed(message@, self.command_tag),
                    Err(e) => !self.connected && e == ConnectionError::NotConnected,
                }
            }),
    {
        if !self.connected {
            return Err(ConnectionError::NotConnected);
        }
        let mut line = String::from_str(message);
        line.append(" COMMANDTAG=");
        let t = u64_to_string(self.command_tag);
        line.append(t.as_str());
        line.append("\n");
        proof {
            assert(line@ == framed(message@, self.command_tag));
        }
        Ok(line)
    }

    /// Frames one typed command for the wire: its canonical encoding, the
    /// correlation-tag attribute for the current counter, and the line
    /// terminator. Succeeds exactly when the client is connected.
    pub fn prepare_command(&self, command: &Command) -> (r: Result<String, ConnectionError>)
        ensures
            ({
                match r {
                    Ok(line) => self.connected && line@ == framed(
                        command_line(*command),
                        self.command_tag,
                    ),
                    Err(e) => !self.connected && e == ConnectionError::NotConnected,
                }
            }),
    {
        let encoded = command.encode();
        self.prepare_raw_command(encoded.as_str())
    }

    /// Records one successfully written command: hands out the tag that was
    /// framed into the line and advances the counter by exactly one, so no
    /// tag is ever reused on this connection.
    pub fn note_sent(&mut self) -> (tag: u64)
        requires
            old(self).connected,
            old(self).command_tag < u64::MAX,
        ensures
            tag == old(self).command_tag,
            final(self).command_tag == old(self).command_tag + 1,
            final(self).connected,
            final(self).server@ == old(self).server@,
            final(self).control_port == old(self).control_port,
            final(self).transport_channel_port == old(self).transport_channel_port,
            final(self).username@ == old(self).username@,
            final(self).password@ == old(self).password@,
    {
        let tag = self.command_tag;
        self.command_tag = self.command_tag + 1;
        tag
    }
}

/// The tags handed out by `n` successive `note_sent` calls on a client whose
/// counter stands at `start`: each call returns the counter and advances it
/// by one.
pub open spec fn tags_handed(start: u64, n: nat) -> Seq<u64>
    decreases n,
{
    if n == 0 || start >= u64::MAX {
        seq![]
    } else {
        seq![start] + tags_handed((start + 1) as u64, (n - 1) as nat)
    }
}

/// Law: sending N commands sequentially on one fresh connection yields the
/// correlation tags 0, 1, ..., N-1 in exactly that order. The sequence
/// `tags_handed` is the trace of `note_sent`, whose contract returns the
/// counter and advances it by one; a fresh connection starts the counter
/// at 0.
pub proof fn lemma_tags_sequential(n: nat)
    requires
        n <= u64::MAX,
    ensures
        tags_handed(0, n).len() == n,
        forall|i: int| 0 <= i < n ==> tags_handed(0, n)[i] == i,
{
    lemma_tags_from(0, n);
}

/// The tag trace from any counter value counts up one by one.
pub proof fn lemma_tags_from(start: u64, n: nat)
    requires
        start + n <= u64::MAX,
    ensures
        tags_handed(start, n).len() == n,
        forall|i: int| 0 <= i < n ==> tags_handed(start, n)[i] == start + i,
    decreases n,
{
    if n > 0 {
        lemma_tags_from((start + 1) as u64, (n - 1) as nat);
        let t = tags_handed(start, n);
        let rest = tags_handed((start + 1) as u64, (n - 1) as nat);
        assert forall|i: int| 0 <= i < n implies t[i] == start + i by {
            if i > 0 {
                assert(t[i] == rest[i - 1]);
            }
        }
    }
}

/// Law: a framed command occupies exactly one intact wire line. As long as
/// the message itself holds no newline, the framed bytes end with the one
/// and only newline of the line, so writing them whole cannot split a
/// command across lines. Exclusion between concurrent writers is the
/// transport owner's duty; this pins down that each write is one full line.
pub proof fn lemma_framed_single_line(msg: Seq<char>, tag: u64)
    requires
        forall|i: int| 0 <= i < msg.len() ==> #[trigger] msg[i] != '\n',
    ensures
        framed(msg, tag).len() > 0,
        framed(msg, tag).last() == '\n',
        forall|i: int|
            0 <= i < framed(msg, tag).len() - 1 ==> #[trigger] framed(msg, tag)[i] != '\n',
{
    let key = " COMMANDTAG="@;
    let d = dec_of(tag as nat);
    let nl = "\n"@;
    let line = framed(msg, tag);
    reveal_strlit(" COMMANDTAG=");
    reveal_strlit("\n");
    lemma_dec_of_val(tag as nat);
    assert(nl.len() == 1);
    assert(line =~= msg + key + d + nl);
    assert(line.last() == '\n');
    assert forall|i: int| 0 <= i < line.len() - 1 implies #[trigger] line[i] != '\n' by {
        if i < msg.len() {
            assert(line[i] == msg[i]);
        } else if i < msg.len() + key.len() {
            let j = i - msg.len();
            assert(line[i] == key[j]);
            if j == 0 {
                assert(key[0] == ' ');
            } else if j == 1 {
                assert(key[1] == 'C');
            } else if j == 2 {
                assert(key[2] == 'O');
            } else if j == 3 {
                assert(key[3] == 'M');
            } else if j == 4 {
                assert(key[4] == 'M');
            } else if j == 5 {
                assert(key[5] == 'A');
            } else if j == 6 {
                assert(key[6] == 'N');
            } else if j == 7 {
                assert(key[7] == 'D');
            } else if j == 8 {
                assert(key[8] == 'T');
            } else if j == 9 {
                assert(key[9] == 'A');
            } else if j == 10 {
                assert(key[10] == 'G');
            } else {
                assert(key[11] == '=');
            }
        } else {
            let j = i - msg.len() - key.len();
            assert(line[i] == d[j]);
            lemma_digit_not_special(d[j]);
            assert(!is_space(d[j]));
        }
    }
}

} // verus!
