//! Shared plumbing: decimal rendering and parsing of identifiers, request
//! parameter lists, rate-limit metadata, and the request/response envelopes
//! that the pagination engine and the endpoint builders speak of.

use vstd::prelude::*;
use vstd::string::*;
use crate::auth::Token;

verus! {

/// The decimal digit character for a value below ten.
pub open spec fn dec_digit(d: int) -> char {
    if d == 0 {
        '0'
    } else if d == 1 {
        '1'
    } else if d == 2 {
        '2'
    } else if d == 3 {
        '3'
    } else if d == 4 {
        '4'
    } else if d == 5 {
        '5'
    } else if d == 6 {
        '6'
    } else if d == 7 {
        '7'
    } else if d == 8 {
        '8'
    } else {
        '9'
    }
}

/// The decimal rendering of a natural number, most significant digit first.
pub open spec fn dec_rep(n: nat) -> Seq<char>
    decreases n,
{
    if n < 10 {
        seq![dec_digit(n as int)]
    } else {
        dec_rep(n / 10) + seq![dec_digit((n % 10) as int)]
    }
}

/// The decimal rendering of a signed number: a leading minus sign for a
/// negative value, then the digits of its magnitude.
pub open spec fn int_dec_rep(n: int) -> Seq<char> {
    if n < 0 {
        seq!['-'] + dec_rep((-n) as nat)
    } else {
        dec_rep(n as nat)
    }
}

/// Digits of a byte sequence read back to front, each below ten, rendered as
/// characters: the reversal of a least-significant-first digit accumulator.
spec fn rev_digit_chars(s: Seq<u8>) -> Seq<char>
    decreases s.len(),
{
    if s.len() == 0 {
        Seq::empty()
    } else {
        rev_digit_chars(s.drop_first()) + seq![dec_digit(s.first() as int)]
    }
}

proof fn lemma_rev_digit_chars_push(s: Seq<u8>, d: u8)
    ensures
        rev_digit_chars(s.push(d)) == seq![dec_digit(d as int)] + rev_digit_chars(s),
    decreases s.len(),
{
    if s.len() == 0 {
        assert(s.push(d).drop_first() =~= Seq::<u8>::empty());
        assert(s.push(d).first() == d);
        assert(rev_digit_chars(Seq::<u8>::empty()) == Seq::<char>::empty());
        assert(rev_digit_chars(s.push(d)) =~= seq![dec_digit(d as int)] + rev_digit_chars(s));
    } else {
        assert(s.push(d).drop_first() =~= s.drop_first().push(d));
        assert(s.push(d).first() == s.first());
        lemma_rev_digit_chars_push(s.drop_first(), d);
        assert(rev_digit_chars(s.push(d)) =~= seq![dec_digit(d as int)] + rev_digit_chars(s));
    }
}

/// A one-character string slice for a digit value.
fn digit_str(d: u8) -> (r: &'static str)
    requires
        d < 10,
    ensures
        r@ == seq![dec_digit(d as int)],
{
    proof {
        reveal_strlit("0");
        reveal_strlit("1");
        reveal_strlit("2");
        reveal_strlit("3");
        reveal_strlit("4");
        reveal_strlit("5");
        reveal_strlit("6");
        reveal_strlit("7");
        reveal_strlit("8");
        reveal_strlit("9");
    }
    match d {
        0 => "0",
        1 => "1",
        2 => "2",
        3 => "3",
        4 => "4",
        5 => "5",
        6 => "6",
        7 => "7",
        8 => "8",
        _ => "9",
    }
}

/// Renders an unsigned number in decimal.
#[verifier::rlimit(30)]
pub fn u64_to_dec_string(n: u64) -> (r: String)
    ensures
        r@ == dec_rep(n as nat),
{
    let mut digits: Vec<u8> = Vec::new();
    let d0: u8 = (n % 10) as u8;
    digits.push(d0);
    let mut m: u64 = n / 10;
    proof {
        lemma_rev_digit_chars_push(Seq::<u8>::empty(), d0);
        assert(rev_digit_chars(Seq::<u8>::empty()) == Seq::<char>::empty());
        if m == 0 {
            assert(dec_rep(n as nat) =~= rev_digit_chars(digits@));
        } else {
            assert(dec_rep(n as nat) == dec_rep(n as nat / 10) + seq![
                dec_digit((n as nat % 10) as int),
            ]);
            assert(dec_rep(n as nat) =~= dec_rep(m as nat) + rev_digit_chars(digits@));
        }
    }
    while m > 0
        invariant
            dec_rep(n as nat) == (if m == 0 {
                rev_digit_chars(digits@)
            } else {
                dec_rep(m as nat) + rev_digit_chars(digits@)
            }),
            forall|i: int| 0 <= i < digits@.len() ==> digits@[i] < 10,
        decreases m,
    {
        let d: u8 = (m % 10) as u8;
        let ghost old_digits = digits@;
        let ghost old_m = m as nat;
        digits.push(d);
        m = m / 10;
        proof {
            lemma_rev_digit_chars_push(old_digits, d);
            if old_m < 10 {
                assert(dec_rep(old_m) == seq![dec_digit(old_m as int)]);
                assert(rev_digit_chars(digits@) =~= dec_rep(old_m) + rev_digit_chars(old_digits));
            } else {
                assert(dec_rep(old_m) == dec_rep(old_m / 10) + seq![
                    dec_digit((old_m % 10) as int),
                ]);
                assert(dec_rep(m as nat) + rev_digit_chars(digits@) =~= dec_rep(old_m)
                    + rev_digit_chars(old_digits));
            }
        }
    }
    let mut s = String::new();
    proof {
        assert(digits@.skip(digits@.len() as int) =~= Seq::<u8>::empty());
        assert(rev_digit_chars(Seq::<u8>::empty()) == Seq::<char>::empty());
    }
    let mut i: usize = digits.len();
    while i > 0
        invariant
            i <= digits@.len(),
            forall|j: int| 0 <= j < digits@.len() ==> digits@[j] < 10,
            dec_rep(n as nat) == rev_digit_chars(digits@),
            s@ == rev_digit_chars(digits@.skip(i as int)),
        decreases i,
    {
        i = i - 1;
        let ghost before = digits@.skip(i as int + 1);
        let d = digits[i];
        s.append(digit_str(d));
        proof {
            assert(digits@.skip(i as int).drop_first() =~= before);
            assert(digits@.skip(i as int).first() == digits@[i as int]);
            assert(s@ =~= rev_digit_chars(digits@.skip(i as int)));
        }
    }
    proof {
        assert(digits@.skip(0) =~= digits@);
    }
    s
}

/// Renders a signed number in decimal, with a leading minus sign when
/// negative.
pub fn i64_to_dec_string(n: i64) -> (r: String)
    ensures
        r@ == int_dec_rep(n as int),
{
    if n >= 0 {
        u64_to_dec_string(n as u64)
    } else {
        let mag: u64 = if n == i64::MIN {
            9223372036854775808u64
        } else {
            (-n) as u64
        };
        let mut s = String::from_str("-");
        proof {
            reveal_strlit("-");
        }
        let rest = u64_to_dec_string(mag);
        s.append(rest.as_str());
        proof {
            assert(s@ =~= int_dec_rep(n as int));
        }
        s
    }
}

/// Renders a 32-bit count in decimal (page sizes and item counts).
pub fn i32_to_dec_string(n: i32) -> (r: String)
    ensures
        r@ == int_dec_rep(n as int),
{
    i64_to_dec_string(n as i64)
}

/// Whether a character is one of the ten decimal digits.
pub open spec fn is_dec_digit_char(c: char) -> bool {
    48 <= c as u32 <= 57
}

/// The numeric value of a decimal digit character.
pub open spec fn dec_char_value(c: char) -> int {
    c as u32 - 48
}

/// Whether every character of a sequence is a decimal digit.
pub open spec fn all_dec_digits(s: Seq<char>) -> bool {
    forall|i: int| 0 <= i < s.len() ==> is_dec_digit_char(s[i])
}

/// The value of a digit sequence read as a decimal number.
pub open spec fn str_dec_value(s: Seq<char>) -> nat
    decreases s.len(),
{
    if s.len() == 0 {
        0
    } else {
        str_dec_value(s.drop_last()) * 10 + (dec_char_value(s.last()) as nat)
    }
}

/// What parsing a string as an unsigned 64-bit decimal number gives: the
/// value when the string is a nonempty run of digits whose value fits, and
/// nothing otherwise.
pub open spec fn parse_dec_u64(s: Seq<char>) -> Option<u64> {
    if s.len() > 0 && all_dec_digits(s) && str_dec_value(s) <= u64::MAX {
        Some(str_dec_value(s) as u64)
    } else {
        None
    }
}

proof fn lemma_dec_value_prefix(s: Seq<char>, j: int)
    requires
        0 <= j <= s.len(),
    ensures
        str_dec_value(s.take(j)) <= str_dec_value(s),
    decreases s.len() - j,
{
    if j == s.len() {
        assert(s.take(j) =~= s);
    } else {
        assert(s.take(j + 1).drop_last() =~= s.take(j));
        assert(s.take(j + 1).last() == s[j]);
        let a = str_dec_value(s.take(j));
        assert(a <= a * 10) by (nonlinear_arith)
            requires
                a >= 0,
        ;
        lemma_dec_value_prefix(s, j + 1);
    }
}

proof fn lemma_dec_digit_char(d: int)
    requires
        0 <= d <= 9,
    ensures
        is_dec_digit_char(dec_digit(d)),
        dec_char_value(dec_digit(d)) == d,
{
}

proof fn lemma_dec_rep_digits(n: nat)
    ensures
        all_dec_digits(dec_rep(n)),
        str_dec_value(dec_rep(n)) == n,
    decreases n,
{
    if n < 10 {
        lemma_dec_digit_char(n as int);
        assert(str_dec_value(Seq::<char>::empty()) == 0);
        assert(dec_rep(n).drop_last() =~= Seq::<char>::empty());
        assert(dec_rep(n).last() == dec_digit(n as int));
    } else {
        lemma_dec_rep_digits(n / 10);
        lemma_dec_digit_char((n % 10) as int);
        let whole = dec_rep(n);
        assert(whole.drop_last() =~= dec_rep(n / 10));
        assert(whole.last() == dec_digit((n % 10) as int));
        assert forall|i: int| 0 <= i < whole.len() implies is_dec_digit_char(
            #[trigger] whole[i],
        ) by {
            if i < whole.len() - 1 {
                assert(whole[i] == dec_rep(n / 10)[i]);
            }
        }
        assert(str_dec_value(whole) == (n / 10) * 10 + (n % 10));
    }
}

/// Round trip of the identifier codec: a number rendered in decimal parses
/// back to itself.  The ids a request carries are therefore exactly the ids
/// that reading the answer's decimal keys gives back.
pub proof fn lemma_dec_rep_parses_back(n: u64)
    ensures
        parse_dec_u64(dec_rep(n as nat)) == Some(n),
{
    lemma_dec_rep_digits(n as nat);
}

/// Parses a string as an unsigned decimal number.  Succeeds exactly on a
/// nonempty all-digit string whose value fits in 64 bits.
pub fn parse_u64(s: &str) -> (r: Option<u64>)
    ensures
        r == parse_dec_u64(s@),
{
    let len = s.unicode_len();
    if len == 0 {
        return None;
    }
    let mut value: u64 = 0;
    let mut i: usize = 0;
    while i < len
        invariant
            0 <= i <= len,
            len == s@.len(),
            all_dec_digits(s@.take(i as int)),
            value == str_dec_value(s@.take(i as int)),
        decreases len - i,
    {
        let c = s.get_char(i);
        let cu = c as u32;
        if cu < 48 || cu > 57 {
            proof {
                assert(!is_dec_digit_char(s@[i as int]));
                assert(!all_dec_digits(s@));
            }
            return None;
        }
        let d = (cu - 48) as u64;
        proof {
            assert(s@.take(i as int + 1).drop_last() =~= s@.take(i as int));
            assert(s@.take(i as int + 1).last() == s@[i as int]);
        }
        if value > (u64::MAX - d) / 10 {
            proof {
                let v = value as int;
                let dd = d as int;
                let max = u64::MAX as int;
                assert(v * 10 + dd > max) by (nonlinear_arith)
                    requires
                        v > (max - dd) / 10,
                        0 <= dd <= 9,
                        max == 0xffff_ffff_ffff_ffff,
                ;
                lemma_dec_value_prefix(s@, i as int + 1);
            }
            return None;
        }
        value = value * 10 + d;
        i = i + 1;
    }
    proof {
        assert(s@.take(len as int) =~= s@);
    }
    Some(value)
}

/// Rate-limit information that the endpoint reports beside a response.
#[derive(Clone, Copy, Debug, PartialEq, Eq, Structural)]
pub struct RateLimit {
    /// The rate limit ceiling for the endpoint.
    pub limit: i32,
    /// The number of requests left in the current window.
    pub remaining: i32,
    /// When the current window resets, in seconds since the epoch.
    pub reset: i32,
}

/// A response from the endpoint: the payload, tagged with the rate-limit
/// state observed when it was fetched.
pub struct Response<T> {
    /// The rate-limit snapshot that came with this response.
    pub rate_limit_status: RateLimit,
    /// The decoded payload.
    pub response: T,
}

/// A single request parameter.
pub struct Param {
    pub name: String,
    pub value: String,
}

/// An ordered list of request parameters, viewed as a sequence of
/// name/value pairs.
pub struct ParamList {
    pub params: Vec<Param>,
}

impl View for ParamList {
    type V = Seq<(Seq<char>, Seq<char>)>;

    open spec fn view(&self) -> Self::V {
        self.params@.map_values(|p: Param| (p.name@, p.value@))
    }
}

impl Clone for ParamList {
    fn clone(&self) -> (r: Self)
        ensures
            r@ == self@,
    {
        let mut out: Vec<Param> = Vec::new();
        let mut i: usize = 0;
        while i < self.params.len()
            invariant
                0 <= i <= self.params@.len(),
                out@.len() == i,
                forall|j: int|
                    0 <= j < i ==> out@[j].name@ == self.params@[j].name@ && out@[j].value@
                        == self.params@[j].value@,
            decreases self.params@.len() - i,
        {
            let p = Param {
                name: self.params[i].name.clone(),
                value: self.params[i].value.clone(),
            };
            out.push(p);
            i = i + 1;
        }
        let r = ParamList { params: out };
        proof {
            assert(r@ =~= self@);
        }
        r
    }
}

impl ParamList {
    /// An empty parameter list.
    pub fn new() -> (r: ParamList)
        ensures
            r@ == Seq::<(Seq<char>, Seq<char>)>::empty(),
    {
        let r = ParamList { params: Vec::new() };
        proof {
            assert(r@ =~= Seq::<(Seq<char>, Seq<char>)>::empty());
        }
        r
    }

    /// Appends one parameter.
    pub fn add_param(self, name: &str, value: String) -> (r: ParamList)
        ensures
            r@ == self@.push((name@, value@)),
    {
        let ghost before = self@;
        let mut params = self.params;
        params.push(Param { name: name.to_owned(), value });
        let r = ParamList { params };
        proof {
            assert(r@ =~= before.push((name@, r.params@.last().value@)));
        }
        r
    }

    /// Appends one parameter when a value is present; otherwise leaves the
    /// list as it is.
    pub fn add_opt_param(self, name: &str, value: Option<String>) -> (r: ParamList)
        ensures
            match value {
                Some(v) => r@ == self@.push((name@, v@)),
                None => r@ == self@,
            },
    {
        match value {
            Some(v) => self.add_param(name, v),
            None => self,
        }
    }

    /// Appends the parameter that asks the endpoint for untruncated text.
    pub fn extended_tweets(self) -> (r: ParamList)
        ensures
            r@ == self@.push(("tweet_mode"@, "extended"@)),
    {
        self.add_param("tweet_mode", String::from_str("extended"))
    }

    /// Appends the parameter that names an account: by numeric id or by
    /// screen name.
    pub fn add_user_param(self, user: UserID) -> (r: ParamList)
        ensures
            match user {
                UserID::ID(id) => r@ == self@.push(("user_id"@, dec_rep(id as nat))),
                UserID::ScreenName(name) => r@ == self@.push(("screen_name"@, name@)),
            },
    {
        match user {
            UserID::ID(id) => self.add_param("user_id", u64_to_dec_string(id)),
            UserID::ScreenName(name) => self.add_param("screen_name", name),
        }
    }
}

/// An account reference: a numeric id or a screen name.
pub enum UserID {
    ID(u64),
    ScreenName(String),
}

/// The HTTP method of a request.
#[derive(Clone, Copy, Debug, PartialEq, Eq, Structural)]
pub enum Method {
    Get,
    Post,
}

/// A fully assembled request, ready for the transport collaborator: the
/// engine and the endpoint builders describe every fetch as one of these.
pub struct FetchRequest {
    pub method: Method,
    pub url: String,
    pub params: ParamList,
    pub token: Token,
}

/// Describes a GET request for the given target with the given parameters
/// and credentials.
pub fn get(url: String, token: &Token, params: ParamList) -> (r: FetchRequest)
    ensures
        r.method == Method::Get,
        r.url == url,
        r.params@ == params@,
        r.token == *token,
{
    FetchRequest { method: Method::Get, url, params, token: token.clone() }
}

/// Describes a POST request for the given target with the given parameters
/// and credentials.
pub fn post(url: String, token: &Token, params: ParamList) -> (r: FetchRequest)
    ensures
        r.method == Method::Post,
        r.url == url,
        r.params@ == params@,
        r.token == *token,
{
    FetchRequest { method: Method::Post, url, params, token: token.clone() }
}

/// What rendering a boolean for a request parameter gives.
pub open spec fn bool_rep(b: bool) -> Seq<char> {
    if b {
        "true"@
    } else {
        "false"@
    }
}

/// Renders a boolean as a request parameter value.
pub fn bool_to_string(b: bool) -> (r: String)
    ensures
        r@ == bool_rep(b),
{
    if b {
        String::from_str("true")
    } else {
        String::from_str("false")
    }
}

} // verus!
