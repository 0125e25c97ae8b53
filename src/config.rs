use vstd::prelude::*;

verus! {

/// Server settings.
#[derive(Debug)]
pub struct Config {
    pub port: u16,
    pub host: String,
    pub database_url: String,
}

/// Why the settings could not be read.
#[derive(Debug, PartialEq, Eq, Structural)]
pub enum ConfigError {
    /// `APP__PORT` is not a decimal number from 0 to 65535, with an optional `+`.
    InvalidPort,
}

pub fn default_port() -> (r: u16)
    ensures
        r == 3000,
{
    3000
}

pub fn default_host() -> (r: String)
    ensures
        r@ == "0.0.0.0"@,
{
    proof { reveal_strlit("0.0.0.0"); }
    "0.0.0.0".to_owned()
}

pub fn default_database_url() -> (r: String)
    ensures
        r@ == "sqlite:./dev.db"@,
{
    proof { reveal_strlit("sqlite:./dev.db"); }
    "sqlite:./dev.db".to_owned()
}

/// The value of the last variable named `key`, if any is set.
pub open spec fn env_value(vars: Seq<(String, String)>, key: Seq<char>) -> Option<Seq<char>>
    decreases vars.len(),
{
    if vars.len() == 0 {
        None
    } else if vars.last().0@ == key {
        Some(vars.last().1@)
    } else {
        env_value(vars.drop_last(), key)
    }
}

pub open spec fn is_digit(c: char) -> bool {
    '0' <= c && c <= '9'
}

/// The number that a string of decimal digits writes.
pub open spec fn digits_value(s: Seq<char>) -> nat
    decreases s.len(),
{
    if s.len() == 0 {
        0
    } else {
        (digits_value(s.drop_last()) * 10 + (s.last() as int - '0' as int)) as nat
    }
}

/// The port that a run of decimal digits writes, if it is at most 65535.
pub open spec fn digits_port(s: Seq<char>) -> Option<u16> {
    if s.len() > 0 && (forall|i: int| 0 <= i < s.len() ==> is_digit(#[trigger] s[i])) && digits_value(s) <= 65535 {
        Some(digits_value(s) as u16)
    } else {
        None
    }
}

/// The port that `s` writes: an optional `+`, then one or more decimal
/// digits, at most 65535.
pub open spec fn port_of(s: Seq<char>) -> Option<u16> {
    if s.len() > 0 && s[0] == '+' {
        digits_port(s.subrange(1, s.len() as int))
    } else {
        digits_port(s)
    }
}

/// The port that the variables set, if they set one.
pub open spec fn port_setting(vars: Seq<(String, String)>) -> Result<u16, ConfigError> {
    match env_value(vars, "APP__PORT"@) {
        None => Ok(3000),
        Some(v) => match port_of(v) {
            Some(p) => Ok(p),
            None => Err(ConfigError::InvalidPort),
        },
    }
}

/// A text setting: the variable's value, or the default.
pub open spec fn text_setting(vars: Seq<(String, String)>, key: Seq<char>, default: Seq<char>) -> Seq<char> {
    match env_value(vars, key) {
        Some(v) => v,
        None => default,
    }
}

/// Reads the port written in `s`.
pub fn parse_port(s: &str) -> (r: Option<u16>)
    ensures
        r == port_of(s@),
{
    let n = s.unicode_len();
    let start: usize = if n > 0 && s.get_char(0) == '+' { 1 } else { 0 };
    let ghost digits = s@.subrange(start as int, n as int);
    proof {
        if start == 0 {
            assert(digits =~= s@);
        }
        assert(port_of(s@) == digits_port(digits));
    }
    if n == start {
        return None;
    }
    let mut acc: u32 = 0;
    let mut i: usize = start;
    while i < n
        invariant
            n == s@.len(),
            start <= i <= n,
            digits == s@.subrange(start as int, n as int),
            port_of(s@) == digits_port(digits),
            forall|j: int| start <= j < i ==> is_digit(#[trigger] s@[j]),
            acc as nat == (if digits_value(s@.subrange(start as int, i as int)) > 65535 {
                65536
            } else {
                digits_value(s@.subrange(start as int, i as int))
            }),
        decreases n - i,
    {
        let c = s.get_char(i);
        if !('0' <= c && c <= '9') {
            proof {
                assert(digits[i - start] == c);
                assert(!is_digit(digits[i - start]));
            }
            return None;
        }
        let d = (c as u32) - ('0' as u32);
        proof {
            let t = s@.subrange(start as int, i + 1);
            assert(t.drop_last() =~= s@.subrange(start as int, i as int));
            assert(t.last() == c);
            let pv = digits_value(s@.subrange(start as int, i as int));
            assert(digits_value(t) == pv * 10 + d);
            assert(pv > 65535 ==> pv * 10 + d > 65535) by (nonlinear_arith)
                requires d >= 0;
        }
        let next = acc * 10 + d;
        acc = if next > 65535 { 65536 } else { next };
        i = i + 1;
    }
    proof {
        assert(s@.subrange(start as int, n as int) == digits);
        assert forall|j: int| 0 <= j < digits.len() implies is_digit(#[trigger] digits[j]) by {
            assert(digits[j] == s@[j + start]);
        }
    }
    if acc > 65535 {
        None
    } else {
        Some(acc as u16)
    }
}

/// The value of the last variable named `key`.
fn lookup_var<'a>(vars: &'a Vec<(String, String)>, key: &str) -> (r: Option<&'a String>)
    ensures
        r matches Some(v) ==> env_value(vars@, key@) == Some(v@),
        r is None ==> env_value(vars@, key@) is None,
{
    let wanted = key.to_owned();
    let mut i: usize = vars.len();
    proof {
        assert(vars@.take(i as int) =~= vars@);
    }
    while i > 0
        invariant
            0 <= i <= vars@.len(),
            env_value(vars@, key@) == env_value(vars@.take(i as int), key@),
            wanted@ == key@,
        decreases i,
    {
        proof {
            assert(vars@.take(i as int).drop_last() =~= vars@.take(i - 1));
        }
        if vars[i - 1].0 == wanted {
            return Some(&vars[i - 1].1);
        }
        i = i - 1;
    }
    None
}

fn text_or(vars: &Vec<(String, String)>, key: &str, default: String) -> (r: String)
    ensures
        r@ == text_setting(vars@, key@, default@),
{
    match lookup_var(vars, key) {
        Some(v) => v.clone(),
        None => default,
    }
}

impl Config {
    /// The settings that the variables `APP__PORT`, `APP__HOST` and
    /// `APP__DATABASE_URL` give, each falling back to its default when
    /// unset; the last of several variables of one name counts.
    pub fn load(vars: &Vec<(String, String)>) -> (r: Result<Config, ConfigError>)
        ensures
            r is Err <==> port_setting(vars@) is Err,
            r matches Err(e) ==> port_setting(vars@) == Err::<u16, ConfigError>(e),
            r matches Ok(c) ==> {
                &&& port_setting(vars@) == Ok::<u16, ConfigError>(c.port)
                &&& c.host@ == text_setting(vars@, "APP__HOST"@, "0.0.0.0"@)
                &&& c.database_url@ == text_setting(vars@, "APP__DATABASE_URL"@, "sqlite:./dev.db"@)
            },
    {
        proof {
            reveal_strlit("APP__PORT");
            reveal_strlit("APP__HOST");
            reveal_strlit("APP__DATABASE_URL");
        }
        let port = match lookup_var(vars, "APP__PORT") {
            None => default_port(),
            Some(v) => match parse_port(v.as_str()) {
                Some(p) => p,
                None => return Err(ConfigError::InvalidPort),
            },
        };
        let host = text_or(vars, "APP__HOST", default_host());
        let database_url = text_or(vars, "APP__DATABASE_URL", default_database_url());
        Ok(Config { port, host, database_url })
    }
}

} // verus!
