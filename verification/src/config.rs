//! The configuration for an SMTP server, parsed from an address
//! string of the shape `[user:password@]host[:port]`.

use vstd::prelude::*;
use vstd::string::StrSliceExecFns;

use crate::strutil::str_find;

verus! {

/// The configuration for a SMTP server.
///
/// This type can be parsed from a string.
#[derive(PartialEq, Eq, Debug)]
pub struct Config<T> {
    pub address: T,
    pub port: Option<u16>,
    pub username_password: Option<(String, String)>,
}

/// Model of a parsed [`Config`] over a string address.
#[verifier::ext_equal]
pub struct ConfigV {
    pub address: Seq<char>,
    pub port: Option<u16>,
    pub username_password: Option<(Seq<char>, Seq<char>)>,
}

impl View for Config<String> {
    type V = ConfigV;

    open spec fn view(&self) -> ConfigV {
        ConfigV {
            address: self.address@,
            port: self.port,
            username_password: self.username_password.deep_view(),
        }
    }
}

/// The position of the first occurrence of `c` in `s`, or `-1`.
pub open spec fn first_index(s: Seq<char>, c: char) -> int
    decreases s.len(),
{
    if s.len() == 0 {
        -1
    } else if s[0] == c {
        0
    } else {
        let r = first_index(s.drop_first(), c);
        if r < 0 {
            -1
        } else {
            r + 1
        }
    }
}

proof fn lemma_first_index_at(s: Seq<char>, c: char, i: int)
    requires
        0 <= i < s.len(),
        s[i] == c,
        forall|j: int| 0 <= j < i ==> s[j] != c,
    ensures
        first_index(s, c) == i,
    decreases s.len(),
{
    if i > 0 {
        assert(s.drop_first()[i - 1] == c);
        assert forall|j: int| 0 <= j < i - 1 implies s.drop_first()[j] != c by {
            assert(s.drop_first()[j] == s[j + 1]);
        }
        lemma_first_index_at(s.drop_first(), c, i - 1);
    }
}

proof fn lemma_first_index_none(s: Seq<char>, c: char)
    requires
        forall|j: int| 0 <= j < s.len() ==> s[j] != c,
    ensures
        first_index(s, c) == -1,
    decreases s.len(),
{
    if s.len() > 0 {
        assert forall|j: int| 0 <= j < s.drop_first().len() implies s.drop_first()[j] != c by {
            assert(s.drop_first()[j] == s[j + 1]);
        }
        lemma_first_index_none(s.drop_first(), c);
    }
}

/// All characters are decimal digits.
pub open spec fn all_digits(s: Seq<char>) -> bool {
    forall|i: int| 0 <= i < s.len() ==> '0' <= #[trigger] s[i] <= '9'
}

/// The decimal value of a digit string.
pub open spec fn dec_value(s: Seq<char>) -> int
    decreases s.len(),
{
    if s.len() == 0 {
        0
    } else {
        dec_value(s.drop_last()) * 10 + (s.last() as int - '0' as int)
    }
}

proof fn lemma_dec_value_nonneg(s: Seq<char>)
    requires
        all_digits(s),
    ensures
        dec_value(s) >= 0,
    decreases s.len(),
{
    if s.len() > 0 {
        assert(all_digits(s.drop_last()));
        lemma_dec_value_nonneg(s.drop_last());
    }
}

/// A digit string's value only grows as digits are appended.
proof fn lemma_dec_value_prefix(s: Seq<char>, m: int)
    requires
        all_digits(s),
        0 <= m <= s.len(),
    ensures
        dec_value(s.subrange(0, m)) <= dec_value(s),
    decreases s.len() - m,
{
    if m < s.len() {
        let t = s.subrange(0, m + 1);
        assert(t.drop_last() =~= s.subrange(0, m));
        assert(all_digits(t));
        lemma_dec_value_nonneg(t.drop_last());
        assert(dec_value(t) == dec_value(s.subrange(0, m)) * 10 + (s[m] as int - '0' as int));
        assert(dec_value(s.subrange(0, m)) <= dec_value(t));
        lemma_dec_value_prefix(s, m + 1);
    } else {
        assert(s.subrange(0, m) =~= s);
    }
}

/// What the standard `u16` parser accepts: an optional leading `+`,
/// then at least one digit, with the value within range.
pub open spec fn port_of(s: Seq<char>) -> Option<u16> {
    let t = if s.len() > 0 && s[0] == '+' {
        s.skip(1)
    } else {
        s
    };
    if t.len() > 0 && all_digits(t) && dec_value(t) <= 65535 {
        Some(dec_value(t) as u16)
    } else {
        None
    }
}

/// What [`Config::from_str`] returns for a bare `host[:port]` part.
pub open spec fn host_spec(
    host: Seq<char>,
    username_password: Option<(Seq<char>, Seq<char>)>,
) -> Result<ConfigV, Seq<char>> {
    let ci = first_index(host, ':');
    if ci >= 0 {
        let address = host.subrange(0, ci);
        match port_of(host.subrange(ci + 1, host.len() as int)) {
            Some(p) => Ok(ConfigV { address, port: Some(p), username_password }),
            None => Err("invalid port number"@),
        }
    } else {
        Ok(ConfigV { address: host, port: None, username_password })
    }
}

/// What [`Config::from_str`] returns: an optional `user:password@` in
/// front of `host[:port]`, split at the first separator each time.
pub open spec fn config_spec(s: Seq<char>) -> Result<ConfigV, Seq<char>> {
    let ai = first_index(s, '@');
    if ai >= 0 {
        let user = s.subrange(0, ai);
        let host = s.subrange(ai + 1, s.len() as int);
        let ci = first_index(user, ':');
        if ci >= 0 {
            let username = user.subrange(0, ci);
            let password = user.subrange(ci + 1, user.len() as int);
            host_spec(host, Some((username, password)))
        } else {
            Err("missing ':' in user"@)
        }
    } else {
        host_spec(s, None)
    }
}

/// Parses a port number as the standard `u16` parser would: an
/// optional leading `+`, then decimal digits within range.
fn parse_port(s: &str) -> (r: Option<u16>)
    ensures
        r == port_of(s@),
{
    let len = s.unicode_len();
    let start: usize = if len > 0 && s.get_char(0) == '+' {
        1
    } else {
        0
    };
    let ghost t = if s@.len() > 0 && s@[0] == '+' {
        s@.skip(1)
    } else {
        s@
    };
    assert(t.len() == len - start);
    assert(forall|j: int| 0 <= j < t.len() ==> t[j] == s@[start + j]);
    if start >= len {
        return None;
    }
    let mut value: u32 = 0;
    let mut k: usize = start;
    while k < len
        invariant
            start <= k <= len,
            len == s@.len(),
            start == 1 ==> s@.len() > 0 && s@[0] == '+',
            start == 0 ==> !(s@.len() > 0 && s@[0] == '+'),
            t == (if s@.len() > 0 && s@[0] == '+' {
                s@.skip(1)
            } else {
                s@
            }),
            t.len() == len - start,
            forall|j: int| 0 <= j < t.len() ==> t[j] == s@[start + j],
            all_digits(t.subrange(0, k - start)),
            value as int == dec_value(t.subrange(0, k - start)),
            value <= 65535,
        decreases len - k,
    {
        let c = s.get_char(k);
        if !('0' <= c && c <= '9') {
            assert(t[k - start] == c);
            assert(!all_digits(t));
            return None;
        }
        let d: u32 = (c as u32) - 48;
        let next: u32 = value * 10 + d;
        proof {
            let m = k - start;
            assert(t.subrange(0, m + 1).drop_last() =~= t.subrange(0, m as int));
            assert(t.subrange(0, m + 1).last() == t[m as int]);
            assert(t[m as int] == c);
            assert(dec_value(t.subrange(0, m + 1)) == next as int);
        }
        if next > 65535 {
            proof {
                let m = k - start;
                if all_digits(t) && dec_value(t) <= 65535 {
                    lemma_dec_value_prefix(t, m + 1);
                }
            }
            return None;
        }
        value = next;
        k += 1;
    }
    assert(t.subrange(0, t.len() as int) =~= t);
    assert(t.len() > 0);
    Some(value as u16)
}

/// Parses the `host[:port]` part, after any credentials were taken
/// off the front.
fn parse_host(host: &str, username_password: Option<(String, String)>) -> (r: Result<
    Config<String>,
    &'static str,
>)
    ensures
        match r {
            Ok(c) => {
                &&& host_spec(host@, username_password.deep_view()) is Ok
                &&& c@ == host_spec(host@, username_password.deep_view())->Ok_0
            },
            Err(e) => {
                &&& host_spec(host@, username_password.deep_view()) is Err
                &&& e@ == host_spec(host@, username_password.deep_view())->Err_0
            },
        },
{
    match str_find(host, ':') {
        Some(ci) => {
            proof {
                lemma_first_index_at(host@, ':', ci as int);
            }
            let host_len = host.unicode_len();
            let address = host.substring_char(0, ci).to_owned();
            let port_str = host.substring_char(ci + 1, host_len);
            match parse_port(port_str) {
                Some(p) => Ok(Config { address, port: Some(p), username_password }),
                None => Err("invalid port number"),
            }
        },
        None => {
            proof {
                lemma_first_index_none(host@, ':');
            }
            Ok(Config { address: host.to_owned(), port: None, username_password })
        },
    }
}

impl Config<String> {
    /// Parses an address string of the shape
    /// `[user:password@]host[:port]`, splitting at the first `@` and
    /// the first `:` of each part; exactly [`config_spec`] of the view.
    pub fn from_str(s: &str) -> (r: Result<Config<String>, &'static str>)
        ensures
            match r {
                Ok(c) => config_spec(s@) is Ok && c@ == config_spec(s@)->Ok_0,
                Err(e) => config_spec(s@) is Err && e@ == config_spec(s@)->Err_0,
            },
    {
        match str_find(s, '@') {
            Some(ai) => {
                proof {
                    lemma_first_index_at(s@, '@', ai as int);
                }
                let s_len = s.unicode_len();
                let user = s.substring_char(0, ai);
                let host = s.substring_char(ai + 1, s_len);
                match str_find(user, ':') {
                    Some(ci) => {
                        proof {
                            lemma_first_index_at(user@, ':', ci as int);
                        }
                        let username = user.substring_char(0, ci).to_owned();
                        let password = user.substring_char(ci + 1, user.unicode_len()).to_owned();
                        parse_host(host, Some((username, password)))
                    },
                    None => {
                        proof {
                            lemma_first_index_none(user@, ':');
                        }
                        Err("missing ':' in user")
                    },
                }
            },
            None => {
                proof {
                    lemma_first_index_none(s@, '@');
                }
                parse_host(s, None)
            },
        }
    }
}

} // verus!
