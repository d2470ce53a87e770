use vstd::prelude::*;
use crate::anime::digits_value;
use crate::presence::ImageKeys;
use crate::text::{chars_of, clone_opt, digit, is_digit};

verus! {

/// Settings read from the configuration file.
#[derive(Debug, Clone)]
pub struct Config {
    pub socket: Option<String>,
    pub client_id: Option<String>,
    pub large_image: Option<String>,
    pub small_image: Option<String>,
}

/// Why the settings cannot be used.
#[derive(Clone, Copy, Debug, PartialEq, Eq, Structural)]
pub enum ConfigError {
    /// No presence client identifier is set.
    MissingClientId,
    /// The presence client identifier is not a number.
    InvalidClientId,
}

/// The digits of an unsigned decimal number, after an optional `+`.
pub open spec fn unsigned_digits(s: Seq<char>) -> Seq<char> {
    if s.len() > 0 && s[0] == '+' {
        s.drop_first()
    } else {
        s
    }
}

/// `s` is an unsigned decimal number that fits a `u64`.
pub open spec fn is_u64_text(s: Seq<char>) -> bool {
    let d = unsigned_digits(s);
    &&& d.len() > 0
    &&& forall|k: int| 0 <= k < d.len() ==> is_digit(#[trigger] d[k])
    &&& digits_value(d) <= u64::MAX
}

pub open spec fn client_id_result(c: Option<String>) -> Result<u64, ConfigError> {
    match c {
        None => Err(ConfigError::MissingClientId),
        Some(s) => if is_u64_text(s@) {
            Ok(digits_value(unsigned_digits(s@)) as u64)
        } else {
            Err(ConfigError::InvalidClientId)
        },
    }
}

proof fn lemma_digits_step(d: Seq<char>, i: int)
    requires
        0 <= i < d.len(),
    ensures
        digits_value(d.take(i + 1)) == digits_value(d.take(i)) * 10 + ((d[i] as nat) - ('0' as nat)) as nat,
{
    assert(d.take(i + 1).drop_last() =~= d.take(i));
}

proof fn lemma_digits_grow(d: Seq<char>, i: int, j: int)
    requires
        0 <= i <= j <= d.len(),
        forall|k: int| 0 <= k < d.len() ==> is_digit(#[trigger] d[k]),
    ensures
        digits_value(d.take(i)) <= digits_value(d.take(j)),
    decreases j - i,
{
    if i < j {
        lemma_digits_grow(d, i, j - 1);
        lemma_digits_step(d, j - 1);
    }
}

/// Reads an unsigned decimal number that fits a `u64`.
pub fn parse_u64(s: &str) -> (r: Option<u64>)
    ensures
        r is Some <==> is_u64_text(s@),
        r is Some ==> r->0 == digits_value(unsigned_digits(s@)),
{
    let v = chars_of(s);
    let start: usize = if v.len() > 0 && v[0] == '+' {
        1
    } else {
        0
    };
    let ghost d = unsigned_digits(s@);
    assert(d =~= v@.skip(start as int));
    if start >= v.len() {
        return None;
    }
    let mut acc: u64 = 0;
    let mut i = start;
    while i < v.len()
        invariant
            start <= i <= v@.len(),
            v@ == s@,
            d == v@.skip(start as int),
            d == unsigned_digits(s@),
            d.len() > 0,
            forall|k: int| 0 <= k < i - start ==> is_digit(#[trigger] d[k]),
            acc == digits_value(d.take(i - start)),
        decreases v@.len() - i,
    {
        if !digit(v[i]) {
            assert(!is_digit(d[i - start]));
            assert(!is_u64_text(s@));
            return None;
        }
        let x = (v[i] as u32 - '0' as u32) as u64;
        proof {
            lemma_digits_step(d, i - start);
        }
        if acc > (u64::MAX - x) / 10 {
            proof {
                assert(acc * 10 + x > u64::MAX) by (nonlinear_arith)
                    requires
                        acc > (u64::MAX - x) / 10,
                        x < 10,
                ;
                if forall|k: int| 0 <= k < d.len() ==> is_digit(#[trigger] d[k]) {
                    lemma_digits_grow(d, i - start + 1, d.len() as int);
                    assert(d.take(d.len() as int) =~= d);
                }
                assert(!is_u64_text(s@));
            }
            return None;
        }
        assert(acc * 10 + x <= u64::MAX) by (nonlinear_arith)
            requires
                acc <= (u64::MAX - x) / 10,
                x < 10,
        ;
        acc = acc * 10 + x;
        i = i + 1;
    }
    assert(d.take(d.len() as int) =~= d);
    Some(acc)
}

impl Config {
    /// The player's socket path; a fixed path where none is set.
    pub fn socket_path(&self) -> (r: String)
        ensures
            r@ == (match self.socket {
                Some(p) => p@,
                None => "/tmp/mpvsocket"@,
            }),
    {
        match &self.socket {
            Some(p) => p.clone(),
            None => "/tmp/mpvsocket".to_string(),
        }
    }

    /// The presence client identifier, which must be set and be a number.
    pub fn client_id(&self) -> (r: Result<u64, ConfigError>)
        ensures
            r == client_id_result(self.client_id),
    {
        match &self.client_id {
            None => Err(ConfigError::MissingClientId),
            Some(c) => match parse_u64(c.as_str()) {
                Some(n) => Ok(n),
                None => Err(ConfigError::InvalidClientId),
            },
        }
    }

    /// The image keys that the presence shows.
    pub fn image_keys(&self) -> (r: ImageKeys)
        ensures
            r.large_image == self.large_image,
            r.small_image == self.small_image,
    {
        ImageKeys { large_image: clone_opt(&self.large_image), small_image: clone_opt(&self.small_image) }
    }
}

} // verus!
