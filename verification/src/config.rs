//! The run configuration and its wire form.
//!
//! A search run is handed to the worker as one process argument holding a
//! JSON object. The encoder here is the wire format's authority: string
//! fields are escaped as JSON demands (quote, backslash, and control bytes;
//! other bytes pass through unchanged, so any UTF-8 text survives), numbers
//! are rendered in decimal, and the field order is fixed. All identifier
//! fields are opaque byte strings; no cross-field validation happens here —
//! the worker validates.

use vstd::prelude::*;

use crate::text::append_bytes;
use vstd::string::StrSliceExecFns;
use vstd::string::StringSliceAdditionalSpecFns;

verus! {

/// The immutable input of one search run.
#[derive(Debug, Clone, PartialEq, Eq)]
pub struct RunConfig {
    /// Authentication token.
    pub token: Vec<u8>,
    /// Server (guild) identifier.
    pub server_id: Vec<u8>,
    /// Role identifiers to search within.
    pub role_ids: Vec<Vec<u8>>,
    /// Target notification-channel identifier.
    pub target_channel_id: Vec<u8>,
    /// Test-message text.
    pub test_message: Vec<u8>,
    /// Timeout in seconds.
    pub timeout: u32,
    /// Webhook URL; empty when unused.
    pub webhook_url: Vec<u8>,
    /// Alternate send-channel identifier; empty when unused.
    pub send_channel_id: Vec<u8>,
    /// Whether the upstream proxy is enabled.
    pub proxy_enabled: bool,
    /// Upstream proxy host.
    pub proxy_host: Vec<u8>,
    /// Upstream proxy port.
    pub proxy_port: u16,
}

/// The default upstream proxy host.
pub fn default_proxy_host() -> (r: Vec<u8>)
    ensures
        r@ == "127.0.0.1".spec_bytes(),
{
    "127.0.0.1".as_bytes_vec()
}

/// The default upstream proxy port.
pub fn default_proxy_port() -> (r: u16)
    ensures
        r == 7897,
{
    7897
}

/// The lower-case hexadecimal digit of a value below sixteen.
pub open spec fn hex_digit(n: u8) -> u8 {
    if n < 10 {
        (48 + n) as u8
    } else {
        (87 + n) as u8
    }
}

/// The JSON escape of one byte of a string: quote and backslash get a
/// backslash escape, control bytes a `\u00..` escape, everything else
/// passes through.
pub open spec fn escape_byte(b: u8) -> Seq<u8> {
    if b == 34 {
        seq![92u8, 34u8]
    } else if b == 92 {
        seq![92u8, 92u8]
    } else if b < 32 {
        seq![92u8, 117u8, 48u8, 48u8, hex_digit(b / 16), hex_digit(b % 16)]
    } else {
        seq![b]
    }
}

/// The JSON escape of the bytes of `s` from index `i` on.
pub open spec fn escape_from(s: Seq<u8>, i: int) -> Seq<u8>
    decreases s.len() - i,
{
    if i < 0 || i >= s.len() {
        Seq::empty()
    } else {
        escape_byte(s[i]) + escape_from(s, i + 1)
    }
}

/// The JSON escape of a whole string.
pub open spec fn json_escaped(s: Seq<u8>) -> Seq<u8> {
    escape_from(s, 0)
}

/// `s` escaped and wrapped in quotes: a JSON string literal.
pub open spec fn quoted(s: Seq<u8>) -> Seq<u8> {
    seq![34u8] + json_escaped(s) + seq![34u8]
}

/// The decimal rendering of `n`, most significant digit first, no sign, no
/// leading zero except for zero itself.
pub open spec fn dec_rep(n: nat) -> Seq<u8>
    decreases n,
{
    if n < 10 {
        seq![(48 + n) as u8]
    } else {
        dec_rep(n / 10) + seq![(48 + n % 10) as u8]
    }
}

/// The JSON rendering of a boolean.
pub open spec fn bool_bytes(b: bool) -> Seq<u8> {
    if b {
        "true".spec_bytes()
    } else {
        "false".spec_bytes()
    }
}

/// The elements quoted and joined by commas, from index `i` on.
pub open spec fn quoted_join_from(elems: Seq<Seq<u8>>, i: int) -> Seq<u8>
    decreases elems.len() - i,
{
    if i < 0 || i >= elems.len() {
        Seq::empty()
    } else if i == elems.len() - 1 {
        quoted(elems[i])
    } else {
        quoted(elems[i]) + seq![44u8] + quoted_join_from(elems, i + 1)
    }
}

/// A JSON array of string literals.
pub open spec fn json_str_array(elems: Seq<Seq<u8>>) -> Seq<u8> {
    seq![91u8] + quoted_join_from(elems, 0) + seq![93u8]
}

/// The wire form of a run configuration: one JSON object with a fixed field
/// order, handed to the worker as a single process argument.
pub open spec fn config_wire(c: RunConfig) -> Seq<u8> {
    seq![123u8] + quoted("token".spec_bytes()) + seq![58u8] + quoted(c.token@) + seq![44u8]
        + quoted("serverId".spec_bytes()) + seq![58u8] + quoted(c.server_id@) + seq![44u8]
        + quoted("roleIds".spec_bytes()) + seq![58u8] + json_str_array(c.role_ids.deep_view())
        + seq![44u8] + quoted("targetChannelId".spec_bytes()) + seq![58u8] + quoted(
        c.target_channel_id@,
    ) + seq![44u8] + quoted("testMessage".spec_bytes()) + seq![58u8] + quoted(c.test_message@)
        + seq![44u8] + quoted("timeout".spec_bytes()) + seq![58u8] + dec_rep(c.timeout as nat)
        + seq![44u8] + quoted("webhookUrl".spec_bytes()) + seq![58u8] + quoted(c.webhook_url@)
        + seq![44u8] + quoted("sendChannelId".spec_bytes()) + seq![58u8] + quoted(
        c.send_channel_id@,
    ) + seq![44u8] + quoted("proxyEnabled".spec_bytes()) + seq![58u8] + bool_bytes(
        c.proxy_enabled,
    ) + seq![44u8] + quoted("proxyHost".spec_bytes()) + seq![58u8] + quoted(c.proxy_host@)
        + seq![44u8] + quoted("proxyPort".spec_bytes()) + seq![58u8] + dec_rep(
        c.proxy_port as nat,
    ) + seq![125u8]
}

/// Appends one byte, stated in concatenation form.
fn push_one(out: &mut Vec<u8>, b: u8)
    ensures
        final(out)@ == old(out)@ + seq![b],
{
    out.push(b);
    proof {
        assert(old(out)@.push(b) =~= old(out)@ + seq![b]);
    }
}

/// The lower-case hexadecimal digit of a value below sixteen.
fn hex_digit_byte(n: u8) -> (r: u8)
    requires
        n < 16,
    ensures
        r == hex_digit(n),
{
    if n < 10 {
        48 + n
    } else {
        87 + n
    }
}

/// Appends the JSON escape of `s`.
fn append_escaped(out: &mut Vec<u8>, s: &[u8])
    ensures
        final(out)@ == old(out)@ + json_escaped(s@),
{
    let mut i: usize = 0;
    proof {
        assert(out@ + escape_from(s@, 0) =~= old(out)@ + json_escaped(s@));
    }
    while i < s.len()
        invariant
            0 <= i <= s@.len(),
            out@ + escape_from(s@, i as int) == old(out)@ + json_escaped(s@),
        decreases s@.len() - i,
    {
        let ghost prev = out@;
        let b = s[i];
        if b == 34 {
            out.push(92);
            out.push(34);
        } else if b == 92 {
            out.push(92);
            out.push(92);
        } else if b < 32 {
            out.push(92);
            out.push(117);
            out.push(48);
            out.push(48);
            out.push(hex_digit_byte(b / 16));
            out.push(hex_digit_byte(b % 16));
        } else {
            out.push(b);
        }
        proof {
            assert(out@ =~= prev + escape_byte(s@[i as int]));
            assert(prev + escape_byte(s@[i as int]) + escape_from(s@, i + 1 as int) =~= prev
                + escape_from(s@, i as int));
        }
        i += 1;
    }
    proof {
        assert(out@ + escape_from(s@, s@.len() as int) =~= out@);
    }
}

/// Appends `s` as a JSON string literal.
fn append_quoted(out: &mut Vec<u8>, s: &[u8])
    ensures
        final(out)@ == old(out)@ + quoted(s@),
{
    push_one(out, 34);
    append_escaped(out, s);
    push_one(out, 34);
    proof {
        assert(old(out)@ + seq![34u8] + json_escaped(s@) + seq![34u8] =~= old(out)@ + quoted(
            s@,
        ));
    }
}

/// Appends the decimal rendering of `n`.
fn append_dec_u64(out: &mut Vec<u8>, n: u64)
    ensures
        final(out)@ == old(out)@ + dec_rep(n as nat),
    decreases n,
{
    if n < 10 {
        push_one(out, 48 + n as u8);
    } else {
        append_dec_u64(out, n / 10);
        push_one(out, 48 + (n % 10) as u8);
        proof {
            assert(old(out)@ + dec_rep((n / 10) as nat) + seq![(48 + (n as nat) % 10) as u8]
                =~= old(out)@ + dec_rep(n as nat));
        }
    }
}

/// Appends the JSON rendering of a boolean.
fn append_bool(out: &mut Vec<u8>, b: bool)
    ensures
        final(out)@ == old(out)@ + bool_bytes(b),
{
    if b {
        let lit = "true".as_bytes_vec();
        append_bytes(out, lit.as_slice());
    } else {
        let lit = "false".as_bytes_vec();
        append_bytes(out, lit.as_slice());
    }
}

/// Appends a JSON array of string literals.
fn append_str_array(out: &mut Vec<u8>, elems: &Vec<Vec<u8>>)
    ensures
        final(out)@ == old(out)@ + json_str_array(elems.deep_view()),
{
    let ghost dv = elems.deep_view();
    push_one(out, 91);
    let mut i: usize = 0;
    while i < elems.len()
        invariant
            0 <= i <= dv.len(),
            dv == elems.deep_view(),
            out@ + quoted_join_from(dv, i as int) == old(out)@ + seq![91u8] + quoted_join_from(
                dv,
                0,
            ),
        decreases dv.len() - i,
    {
        let ghost prev = out@;
        proof {
            assert(elems@[i as int]@ =~= dv[i as int]);
        }
        append_quoted(out, elems[i].as_slice());
        if i + 1 < elems.len() {
            push_one(out, 44);
            proof {
                assert(prev + quoted(dv[i as int]) + seq![44u8] + quoted_join_from(
                    dv,
                    i + 1 as int,
                ) =~= prev + quoted_join_from(dv, i as int));
            }
        } else {
            proof {
                assert(prev + quoted(dv[i as int]) + quoted_join_from(dv, i + 1 as int) =~= prev
                    + quoted_join_from(dv, i as int));
            }
        }
        i += 1;
    }
    push_one(out, 93);
    proof {
        assert(out@ =~= old(out)@ + json_str_array(dv));
    }
}

/// The wire form of `c`: the JSON object passed to the worker as its
/// `--config` argument.
pub fn config_to_wire(c: &RunConfig) -> (r: Vec<u8>)
    ensures
        r@ == config_wire(*c),
{
    let mut out: Vec<u8> = Vec::new();
    proof {
        assert(out@ =~= Seq::<u8>::empty());
    }
    push_one(&mut out, 123);
    proof {
        assert(Seq::<u8>::empty() + seq![123u8] =~= seq![123u8]);
    }
    let key = "token".as_bytes_vec();
    append_quoted(&mut out, key.as_slice());
    push_one(&mut out, 58);
    append_quoted(&mut out, c.token.as_slice());
    push_one(&mut out, 44);
    let key = "serverId".as_bytes_vec();
    append_quoted(&mut out, key.as_slice());
    push_one(&mut out, 58);
    append_quoted(&mut out, c.server_id.as_slice());
    push_one(&mut out, 44);
    let key = "roleIds".as_bytes_vec();
    append_quoted(&mut out, key.as_slice());
    push_one(&mut out, 58);
    append_str_array(&mut out, &c.role_ids);
    push_one(&mut out, 44);
    let key = "targetChannelId".as_bytes_vec();
    append_quoted(&mut out, key.as_slice());
    push_one(&mut out, 58);
    append_quoted(&mut out, c.target_channel_id.as_slice());
    push_one(&mut out, 44);
    let key = "testMessage".as_bytes_vec();
    append_quoted(&mut out, key.as_slice());
    push_one(&mut out, 58);
    append_quoted(&mut out, c.test_message.as_slice());
    push_one(&mut out, 44);
    let key = "timeout".as_bytes_vec();
    append_quoted(&mut out, key.as_slice());
    push_one(&mut out, 58);
    append_dec_u64(&mut out, c.timeout as u64);
    push_one(&mut out, 44);
    let key = "webhookUrl".as_bytes_vec();
    append_quoted(&mut out, key.as_slice());
    push_one(&mut out, 58);
    append_quoted(&mut out, c.webhook_url.as_slice());
    push_one(&mut out, 44);
    let key = "sendChannelId".as_bytes_vec();
    append_quoted(&mut out, key.as_slice());
    push_one(&mut out, 58);
    append_quoted(&mut out, c.send_channel_id.as_slice());
    push_one(&mut out, 44);
    let key = "proxyEnabled".as_bytes_vec();
    append_quoted(&mut out, key.as_slice());
    push_one(&mut out, 58);
    append_bool(&mut out, c.proxy_enabled);
    push_one(&mut out, 44);
    let key = "proxyHost".as_bytes_vec();
    append_quoted(&mut out, key.as_slice());
    push_one(&mut out, 58);
    append_quoted(&mut out, c.proxy_host.as_slice());
    push_one(&mut out, 44);
    let key = "proxyPort".as_bytes_vec();
    append_quoted(&mut out, key.as_slice());
    push_one(&mut out, 58);
    append_dec_u64(&mut out, c.proxy_port as u64);
    push_one(&mut out, 125);
    out
}

} // verus!
