//! Settings read once at startup, with their defaults.

use vstd::prelude::*;
use crate::text::{chars_of, eq_ignore_ascii_case, same_text, same_text_ignore_ascii_case};

verus! {

/// Server settings.
#[derive(Debug, PartialEq, Eq)]
pub struct Config {
    pub database_url: String,
    pub jwt_secret: String,
    pub server_host: String,
    pub server_port: u16,
}

/// Why settings could not be formed.
#[derive(Debug, PartialEq, Eq)]
pub enum ConfigError {
    /// `SERVER_PORT` is not a decimal number in `0..=65535`.
    InvalidPort,
}

/// The value of a run of decimal digits.
pub open spec fn digits_value(s: Seq<char>) -> int
    decreases s.len(),
{
    if s.len() == 0 {
        0
    } else {
        digits_value(s.drop_last()) * 10 + (s.last() as int - '0' as int)
    }
}

pub open spec fn is_digit(c: char) -> bool {
    '0' <= c && c <= '9'
}

pub open spec fn all_digits(s: Seq<char>) -> bool {
    forall|i: int| 0 <= i < s.len() ==> is_digit(#[trigger] s[i])
}

/// The digits of a port number: the text without one leading `+`.
pub open spec fn port_digits(s: Seq<char>) -> Seq<char> {
    if s.len() > 0 && s[0] == '+' {
        s.drop_first()
    } else {
        s
    }
}

/// The port that a text denotes, as an unsigned 16-bit number is read from text.
pub open spec fn port_of(s: Seq<char>) -> Option<u16> {
    let d = port_digits(s);
    if d.len() > 0 && all_digits(d) && digits_value(d) <= 65535 {
        Some(digits_value(d) as u16)
    } else {
        None
    }
}

proof fn lemma_digits_value_grows(s: Seq<char>, k: int)
    requires
        0 <= k <= s.len(),
        all_digits(s),
    ensures
        0 <= digits_value(s.take(k)) <= digits_value(s),
    decreases s.len() - k,
{
    if k < s.len() {
        lemma_digits_value_grows(s, k + 1);
        assert(s.take(k + 1).drop_last() =~= s.take(k));
        assert(is_digit(s[k]));
    } else {
        assert(s.take(k) =~= s);
        lemma_digits_value_nonneg(s);
    }
}

proof fn lemma_digits_value_nonneg(s: Seq<char>)
    requires
        all_digits(s),
    ensures
        digits_value(s) >= 0,
    decreases s.len(),
{
    if s.len() > 0 {
        assert(all_digits(s.drop_last()));
        lemma_digits_value_nonneg(s.drop_last());
        assert(is_digit(s[s.len() - 1]));
    }
}

/// Reads a port number: decimal digits, optionally after one `+`.
pub fn parse_port(s: &str) -> (r: Option<u16>)
    ensures
        r == port_of(s@),
{
    let v = chars_of(s);
    let mut k: usize = 0;
    if v.len() > 0 && v[0] == '+' {
        k = 1;
    }
    let ghost d = port_digits(s@);
    assert(d =~= v@.subrange(k as int, v.len() as int));
    if k == v.len() {
        return None;
    }
    let start = k;
    let mut acc: u32 = 0;
    while k < v.len()
        invariant
            v@ == s@,
            d == port_digits(s@),
            d == v@.subrange(start as int, v.len() as int),
            start <= k <= v.len(),
            forall|m: int| start <= m < k ==> is_digit(#[trigger] v@[m]),
            acc as int == digits_value(d.take(k - start)),
            acc <= 65535,
        decreases v.len() - k,
    {
        let c = v[k];
        if !('0' <= c && c <= '9') {
            assert(d[k - start] == c);
            assert(!is_digit(d[k - start]));
            return None;
        }
        assert(d.take(k - start + 1).drop_last() =~= d.take(k - start));
        let next = acc * 10 + (c as u32 - '0' as u32);
        if next > 65535 {
            proof {
                let ghost j = k - start + 1;
                assert(d.take(j).last() == c);
                assert(digits_value(d.take(j)) == acc * 10 + (c as int - '0' as int));
                if all_digits(d) {
                    lemma_digits_value_grows(d, j);
                }
            }
            return None;
        }
        acc = next;
        k = k + 1;
    }
    assert(all_digits(d)) by {
        assert forall|i: int| 0 <= i < d.len() implies is_digit(#[trigger] d[i]) by {
            assert(d[i] == v@[start + i]);
        }
    }
    assert(d.take(d.len() as int) =~= d);
    Some(acc as u16)
}

/// Whether `REQUIRE_AUTH` turns the guard on: `true` in any ASCII case, or `1`.
/// An unset setting counts as `false`.
pub open spec fn auth_required_spec(setting: Option<Seq<char>>) -> bool {
    match setting {
        Some(v) => eq_ignore_ascii_case(v, "true"@) || v == "1"@,
        None => false,
    }
}

/// Whether `REQUIRE_AUTH` turns the guard on.
pub fn auth_required(setting: Option<&str>) -> (r: bool)
    ensures
        r == auth_required_spec(
            match setting {
                Some(v) => Some(v@),
                None => None,
            },
        ),
{
    match setting {
        Some(v) => same_text_ignore_ascii_case(v, "true") || same_text(v, "1"),
        None => {
            proof {
                reveal_strlit("false");
                reveal_strlit("true");
                reveal_strlit("1");
            }
            false
        },
    }
}

/// The secret that signs and checks access tokens: `JWT_SECRET`, else the default.
pub fn access_secret(jwt_secret: Option<String>) -> (r: String)
    ensures
        jwt_secret matches Some(s) ==> r@ == s@,
        jwt_secret is None ==> r@ == "your-secret-key"@,
{
    match jwt_secret {
        Some(s) => s,
        None => "your-secret-key".to_owned(),
    }
}

/// The secret that signs and checks refresh tokens: `JWT_REFRESH_SECRET`,
/// else `JWT_SECRET`, else the default.
pub fn refresh_secret(refresh: Option<String>, jwt_secret: Option<String>) -> (r: String)
    ensures
        refresh matches Some(s) ==> r@ == s@,
        refresh is None ==> (jwt_secret matches Some(s) ==> r@ == s@),
        refresh is None && jwt_secret is None ==> r@ == "your-secret-key"@,
{
    match refresh {
        Some(s) => s,
        None => access_secret(jwt_secret),
    }
}

/// The store that the standalone migration run targets: `DATABASE_URL`, else
/// a SQLite file one directory up.
pub fn migration_database_url(database_url: Option<String>) -> (r: String)
    ensures
        database_url matches Some(u) ==> r@ == u@,
        database_url is None ==> r@ == "sqlite:../wallet.db"@,
{
    match database_url {
        Some(u) => u,
        None => "sqlite:../wallet.db".to_owned(),
    }
}

impl Config {
    /// Settings from the values of `DATABASE_URL`, `JWT_SECRET`, `SERVER_HOST`
    /// and `SERVER_PORT`, each `None` when unset; unset ones take their defaults.
    pub fn from_env_values(
        database_url: Option<String>,
        jwt_secret: Option<String>,
        server_host: Option<String>,
        server_port: Option<String>,
    ) -> (r: Result<Config, ConfigError>)
        ensures
            match server_port {
                Some(p) => port_of(p@) is None <==> r is Err,
                None => r is Ok,
            },
            r matches Ok(c) ==> {
                &&& (database_url matches Some(u) ==> c.database_url@ == u@)
                &&& (database_url is None ==> c.database_url@ == "sqlite:./wallet.db"@)
                &&& (jwt_secret matches Some(s) ==> c.jwt_secret@ == s@)
                &&& (jwt_secret is None ==> c.jwt_secret@ == "your-secret-key"@)
                &&& (server_host matches Some(h) ==> c.server_host@ == h@)
                &&& (server_host is None ==> c.server_host@ == "127.0.0.1"@)
                &&& (server_port matches Some(p) ==> Some(c.server_port) == port_of(p@))
                &&& (server_port is None ==> c.server_port == 9999)
            },
    {
        let port = match server_port {
            Some(p) => parse_port(p.as_str()),
            None => {
                let d = "9999";
                let r = parse_port(d);
                proof {
                    reveal_strlit("9999");
                    let s4 = d@;
                    let s3 = s4.drop_last();
                    let s2 = s3.drop_last();
                    let s1 = s2.drop_last();
                    assert(s4 =~= seq!['9', '9', '9', '9']);
                    assert(s3 =~= seq!['9', '9', '9']);
                    assert(s2 =~= seq!['9', '9']);
                    assert(s1 =~= seq!['9']);
                    assert(s1.drop_last() =~= Seq::<char>::empty());
                    assert(digits_value(s1.drop_last()) == 0);
                    assert(digits_value(s1) == 9);
                    assert(digits_value(s2) == 99);
                    assert(digits_value(s3) == 999);
                    assert(digits_value(s4) == 9999);
                    assert(port_digits(s4) =~= s4);
                }
                r
            },
        };
        let server_port = match port {
            Some(p) => p,
            None => {
                return Err(ConfigError::InvalidPort);
            },
        };
        let database_url = match database_url {
            Some(u) => u,
            None => "sqlite:./wallet.db".to_owned(),
        };
        let server_host = match server_host {
            Some(h) => h,
            None => "127.0.0.1".to_owned(),
        };
        Ok(Config { database_url, jwt_secret: access_secret(jwt_secret), server_host, server_port })
    }
}

} // verus!
