//! Reading settings out of an environment file: the first line carrying a
//! given key prefix yields the text between the first and second `=` of
//! that line. The file's content comes in as text; reading it off flash is
//! the caller's step.

use vstd::prelude::*;
use crate::strings::{chars_to_string, dec_value, find_char, parse_u16, valid_u16_str,
    HeaplessString};

verus! {

/// The first position of `c` in `s`, or the length of `s` when `c` does not
/// occur.
pub open spec fn first_occ(s: Seq<char>, c: char) -> nat
    decreases s.len(),
{
    if s.len() == 0 {
        0
    } else if s[0] == c {
        0
    } else {
        1 + first_occ(s.drop_first(), c)
    }
}

/// A line with an optional carriage return stripped off its end, as the
/// standard line splitting strips it.
pub open spec fn strip_cr(line: Seq<char>) -> Seq<char> {
    if line.len() > 0 && line.last() == '\r' {
        line.drop_last()
    } else {
        line
    }
}

/// The second `=`-separated field of a line: the text between the first
/// `=` and the next `=` or the line's end; empty when the line has no `=`.
pub open spec fn second_field(line: Seq<char>) -> Seq<char> {
    if first_occ(line, '=') == line.len() {
        Seq::empty()
    } else {
        let rest = line.skip(first_occ(line, '=') + 1int);
        rest.take(first_occ(rest, '=') as int)
    }
}

/// The value a key has in an environment text: the second field of the
/// first line that starts with the key, or empty when no line does.
pub open spec fn env_lookup(s: Seq<char>, key: Seq<char>) -> Seq<char>
    decreases s.len(),
{
    if s.len() == 0 {
        Seq::empty()
    } else {
        let nl = first_occ(s, '\n');
        let line = strip_cr(s.take(nl as int));
        if key.is_prefix_of(line) {
            second_field(line)
        } else if nl >= s.len() {
            Seq::empty()
        } else {
            env_lookup(s.skip(nl + 1int), key)
        }
    }
}

/// A value as a fixed-capacity field takes it: whole if it fits, empty if
/// it does not.
pub open spec fn fitted(v: Seq<char>, n: int) -> Seq<char> {
    if v.len() <= n {
        v
    } else {
        Seq::empty()
    }
}

proof fn lemma_first_occ_at(t: Seq<char>, c: char, j: int)
    requires
        0 <= j <= t.len(),
        forall|k: int| 0 <= k < j ==> t[k] != c,
        j < t.len() ==> t[j] == c,
    ensures
        first_occ(t, c) == j,
    decreases j,
{
    if j == 0 {
    } else {
        assert(t[0] != c);
        lemma_first_occ_at(t.drop_first(), c, j - 1);
    }
}

/// The first position of `target` in `s` within `from..to`, or `to` when it
/// does not occur there.
fn find_char_before(s: &str, from: usize, to: usize, target: char) -> (r: usize)
    requires
        from <= to <= s@.len(),
    ensures
        from <= r <= to,
        forall|k: int| from <= k < r ==> s@[k] != target,
        r < to ==> s@[r as int] == target,
{
    let mut i: usize = from;
    while i < to
        invariant
            from <= i <= to <= s@.len(),
            forall|k: int| from <= k < i ==> s@[k] != target,
        decreases to - i,
    {
        if s.get_char(i) == target {
            return i;
        }
        i = i + 1;
    }
    to
}

/// Whether `key` is a prefix of the characters of `s` within `from..to`.
fn str_range_has_prefix(s: &str, from: usize, to: usize, key: &str) -> (r: bool)
    requires
        from <= to <= s@.len(),
    ensures
        r == key@.is_prefix_of(s@.subrange(from as int, to as int)),
{
    let ghost range = s@.subrange(from as int, to as int);
    let klen = key.unicode_len();
    if klen > to - from {
        assert(!key@.is_prefix_of(range));
        return false;
    }
    let mut i: usize = 0;
    while i < klen
        invariant
            klen == key@.len(),
            klen <= to - from,
            from <= to <= s@.len(),
            range == s@.subrange(from as int, to as int),
            i <= klen,
            forall|k: int| 0 <= k < i ==> key@[k] == s@[from + k],
        decreases klen - i,
    {
        if key.get_char(i) != s.get_char(from + i) {
            assert(range[i as int] == s@[from + i]);
            assert(!key@.is_prefix_of(range));
            return false;
        }
        i = i + 1;
    }
    proof {
        assert(key@ =~= range.take(klen as int));
    }
    true
}

/// Copies the characters of `s` within `from..to` into an owned string.
fn collect_range(s: &str, from: usize, to: usize) -> (r: String)
    requires
        from <= to <= s@.len(),
    ensures
        r@ == s@.subrange(from as int, to as int),
{
    let mut out: Vec<char> = Vec::new();
    let mut i: usize = from;
    while i < to
        invariant
            from <= i <= to <= s@.len(),
            out@ == s@.subrange(from as int, i as int),
        decreases to - i,
    {
        out.push(s.get_char(i));
        proof {
            assert(out@ =~= s@.subrange(from as int, i + 1));
        }
        i = i + 1;
    }
    chars_to_string(&out)
}

/// Finds the value a key has in an environment text, line by line.
#[verifier::rlimit(60)]
pub fn env_lookup_str(content: &str, key: &str) -> (r: String)
    ensures
        r@ == env_lookup(content@, key@),
{
    let n = content.unicode_len();
    let mut pos: usize = 0;
    proof {
        assert(content@.skip(0) =~= content@);
    }
    while pos < n
        invariant
            n == content@.len(),
            pos <= n,
            env_lookup(content@, key@) == env_lookup(content@.skip(pos as int), key@),
        decreases n - pos,
    {
        let ghost s = content@.skip(pos as int);
        let nl = find_char(content, pos, '\n');
        proof {
            assert forall|k: int| 0 <= k < nl - pos implies s[k] != '\n' by {
                assert(s[k] == content@[pos + k]);
            }
            if nl < n {
                assert(s[nl - pos] == content@[nl as int]);
            }
            lemma_first_occ_at(s, '\n', nl - pos);
        }
        let line_end = if nl > pos && content.get_char(nl - 1) == '\r' {
            nl - 1
        } else {
            nl
        };
        let ghost line = strip_cr(s.take((nl - pos) as int));
        proof {
            assert(s.take((nl - pos) as int) =~= content@.subrange(pos as int, nl as int));
            if nl > pos && content@[nl - 1] == '\r' {
                assert(line =~= content@.subrange(pos as int, line_end as int));
            } else {
                assert(line =~= content@.subrange(pos as int, line_end as int));
            }
        }
        if str_range_has_prefix(content, pos, line_end, key) {
            let e1 = find_char_before(content, pos, line_end, '=');
            proof {
                assert forall|k: int| 0 <= k < e1 - pos implies line[k] != '=' by {
                    assert(line[k] == content@[pos + k]);
                }
                if e1 < line_end {
                    assert(line[e1 - pos] == content@[e1 as int]);
                }
                lemma_first_occ_at(line, '=', e1 - pos);
            }
            if e1 == line_end {
                proof {
                    reveal_strlit("");
                }
                let r = String::new();
                return r;
            }
            let e2 = find_char_before(content, e1 + 1, line_end, '=');
            let ghost rest = line.skip((e1 - pos) + 1);
            proof {
                assert(rest =~= content@.subrange(e1 + 1, line_end as int));
                assert forall|k: int| 0 <= k < e2 - (e1 + 1) implies rest[k] != '=' by {
                    assert(rest[k] == content@[e1 + 1 + k]);
                }
                if e2 < line_end {
                    assert(rest[e2 - (e1 + 1)] == content@[e2 as int]);
                }
                lemma_first_occ_at(rest, '=', e2 - (e1 + 1));
                assert(rest.take((e2 - (e1 + 1)) as int) =~= content@.subrange(e1 + 1, e2 as int));
            }
            return collect_range(content, e1 + 1, e2);
        }
        if nl == n {
            let r = String::new();
            return r;
        }
        proof {
            assert(s.skip((nl - pos) + 1) =~= content@.skip(nl + 1));
        }
        pos = nl + 1;
    }
    proof {
        assert(content@.skip(pos as int) =~= Seq::<char>::empty());
    }
    String::new()
}

fn construct_field<const N: usize>(content: &str, key: &str) -> (r: HeaplessString<N>)
    ensures
        r@ == fitted(env_lookup(content@, key@), N as int),
        r.wf(),
{
    let value = env_lookup_str(content, key);
    let mut h = HeaplessString::<N>::new();
    let _ = h.push_str(value.as_str());
    h
}

/// The full set of stored credentials an environment file can carry: the
/// station settings and the tunnel peer settings. A value that does not fit
/// its field is left empty, as is a missing one.
pub struct Env {
    pub sta_ssid: HeaplessString<32>,
    pub sta_passwd: HeaplessString<64>,
    pub wg_addr: HeaplessString<16>,
    pub wg_port: HeaplessString<16>,
    pub wg_dns: HeaplessString<16>,
    pub wg_psk_client: HeaplessString<32>,
    pub wg_psk_pub_server: HeaplessString<32>,
}

impl Env {
    /// Reads every field out of the given environment text.
    pub fn new(content: &str) -> (r: Env)
        ensures
            r.sta_ssid@ == fitted(env_lookup(content@, "STA_SSID"@), 32),
            r.sta_passwd@ == fitted(env_lookup(content@, "STA_PASSWD"@), 64),
            r.wg_addr@ == fitted(env_lookup(content@, "WG_ADDR"@), 16),
            r.wg_port@ == fitted(env_lookup(content@, "WG_PORT"@), 16),
            r.wg_dns@ == fitted(env_lookup(content@, "WG_DNS"@), 16),
            r.wg_psk_client@ == fitted(env_lookup(content@, "WG_PSK_CLIENT"@), 32),
            r.wg_psk_pub_server@ == fitted(env_lookup(content@, "WG_PSK_PUB_SERVER"@), 32),
    {
        Env {
            sta_ssid: construct_field::<32>(content, "STA_SSID"),
            sta_passwd: construct_field::<64>(content, "STA_PASSWD"),
            wg_addr: construct_field::<16>(content, "WG_ADDR"),
            wg_port: construct_field::<16>(content, "WG_PORT"),
            wg_dns: construct_field::<16>(content, "WG_DNS"),
            wg_psk_client: construct_field::<32>(content, "WG_PSK_CLIENT"),
            wg_psk_pub_server: construct_field::<32>(content, "WG_PSK_PUB_SERVER"),
        }
    }
}

/// The reduced credential set of the plain station setup: SSID, password
/// and the management port.
pub struct EnvVars {
    pub ssid: HeaplessString<32>,
    pub password: HeaplessString<64>,
    pub _tcp_listening_port: u16,
}

impl EnvVars {
    /// Reads the station credentials out of the given environment text; a
    /// port that is not a number in range falls back to the default.
    pub fn new(content: &str) -> (r: EnvVars)
        ensures
            r.ssid@ == fitted(env_lookup(content@, "WIFI_SSID="@), 32),
            r.password@ == fitted(env_lookup(content@, "WIFI_PASSWORD="@), 64),
            ({
                let v = env_lookup(content@, "TCP_LISTENING_PORT="@);
                if valid_u16_str(v) {
                    r._tcp_listening_port == dec_value(v)
                } else {
                    r._tcp_listening_port == 5000
                }
            }),
    {
        let port_text = env_lookup_str(content, "TCP_LISTENING_PORT=");
        let _tcp_listening_port = match parse_u16(port_text.as_str()) {
            Some(p) => p,
            None => 5000,
        };
        EnvVars {
            ssid: construct_field::<32>(content, "WIFI_SSID="),
            password: construct_field::<64>(content, "WIFI_PASSWORD="),
            _tcp_listening_port,
        }
    }
}

} // verus!
