//! Validation of the collector endpoint, written `host:port`: a
//! nonempty host, then a colon, then a decimal port.  A malformed
//! endpoint is the one configuration error that can stop the pipeline
//! from being assembled.

use vstd::prelude::*;
use vstd::string::StrSliceExecFns;
use vstd::string::StringExecFns;

verus! {

/// Is `c` a decimal digit?
pub open spec fn is_digit(c: char) -> bool {
    48 <= c as u32 <= 57
}

/// All characters of `s` are decimal digits.
pub open spec fn all_digits(s: Seq<char>) -> bool {
    forall|i: int| 0 <= i < s.len() ==> is_digit(#[trigger] s[i])
}

/// The number a digit sequence writes in decimal.
pub open spec fn digits_val(s: Seq<char>) -> int
    decreases s.len(),
{
    if s.len() == 0 {
        0
    } else {
        digits_val(s.drop_last()) * 10 + (s.last() as u32 - 48)
    }
}

/// Index of the last colon in `s`, or -1 if there is none.
pub open spec fn last_colon(s: Seq<char>) -> int
    decreases s.len(),
{
    if s.len() == 0 {
        -1
    } else if s.last() == ':' {
        s.len() - 1
    } else {
        last_colon(s.drop_last())
    }
}

/// A well-formed endpoint: a nonempty host, a colon, and one to five
/// decimal digits writing a port no greater than 65535.
pub open spec fn spec_valid_endpoint(s: Seq<char>) -> bool {
    let i = last_colon(s);
    &&& 1 <= i
    &&& i + 1 < s.len()
    &&& s.len() - (i + 1) <= 5
    &&& all_digits(s.skip(i + 1))
    &&& digits_val(s.skip(i + 1)) <= 65535
}

/// The host part of a well-formed endpoint.
pub open spec fn spec_endpoint_host(s: Seq<char>) -> Seq<char> {
    s.take(last_colon(s))
}

/// The port a well-formed endpoint names.
pub open spec fn spec_endpoint_port(s: Seq<char>) -> int {
    digits_val(s.skip(last_colon(s) + 1))
}

proof fn lemma_last_colon_at(s: Seq<char>, i: int)
    requires
        0 <= i < s.len(),
        s[i] == ':',
        forall|j: int| i < j < s.len() ==> s[j] != ':',
    ensures
        last_colon(s) == i,
    decreases s.len(),
{
    if i == s.len() - 1 {
    } else {
        assert(s[s.len() - 1] != ':');
        assert(s.drop_last()[i] == s[i]);
        assert forall|j: int| i < j < s.drop_last().len() implies s.drop_last()[j] != ':' by {
            assert(s.drop_last()[j] == s[j]);
        }
        lemma_last_colon_at(s.drop_last(), i);
    }
}

proof fn lemma_last_colon_none(s: Seq<char>)
    requires
        forall|j: int| 0 <= j < s.len() ==> s[j] != ':',
    ensures
        last_colon(s) == -1,
    decreases s.len(),
{
    if s.len() > 0 {
        assert(s[s.len() - 1] != ':');
        assert forall|j: int| 0 <= j < s.drop_last().len() implies s.drop_last()[j] != ':' by {
            assert(s.drop_last()[j] == s[j]);
        }
        lemma_last_colon_none(s.drop_last());
    }
}

proof fn lemma_digits_val_bounds(s: Seq<char>)
    requires
        all_digits(s),
    ensures
        0 <= digits_val(s),
        s.len() <= 1 ==> digits_val(s) <= 9,
        s.len() <= 2 ==> digits_val(s) <= 99,
        s.len() <= 3 ==> digits_val(s) <= 999,
        s.len() <= 4 ==> digits_val(s) <= 9999,
        s.len() <= 5 ==> digits_val(s) <= 99999,
    decreases s.len(),
{
    if s.len() > 0 {
        assert forall|i: int| 0 <= i < s.drop_last().len() implies is_digit(
            #[trigger] s.drop_last()[i],
        ) by {
            assert(s.drop_last()[i] == s[i]);
        }
        lemma_digits_val_bounds(s.drop_last());
        assert(is_digit(s[s.len() - 1]));
    }
}

/// A parsed and validated collector endpoint.
#[derive(Clone, Debug, PartialEq, Eq)]
pub struct Endpoint {
    pub host: String,
    pub port: u16,
}

/// Parse `host:port`.  Returns the host and port exactly when the
/// endpoint is well formed, and nothing otherwise.
pub fn parse_endpoint(s: &str) -> (r: Option<Endpoint>)
    ensures
        r is Some <==> spec_valid_endpoint(s@),
        r matches Some(e) ==> e.host@ == spec_endpoint_host(s@) && e.port as int
            == spec_endpoint_port(s@),
{
    let n = s.unicode_len();

    let mut j: usize = 0;
    let mut last: Option<usize> = Option::None;
    while j < n
        invariant
            j <= n,
            n == s@.len(),
            last matches Some(c) ==> c < j && s@[c as int] == ':' && (forall|k: int|
                c < k < j ==> s@[k] != ':'),
            last is None ==> forall|k: int| 0 <= k < j ==> s@[k] != ':',
        decreases n - j,
    {
        if s.get_char(j) == ':' {
            last = Option::Some(j);
        }
        j = j + 1;
    }

    let colon: usize = match last {
        Option::Some(c) => c,
        Option::None => {
            proof {
                lemma_last_colon_none(s@);
            }
            return Option::None;
        },
    };
    proof {
        lemma_last_colon_at(s@, colon as int);
    }
    if colon < 1 {
        return Option::None;
    }
    let digit_count = n - colon - 1;
    if digit_count == 0 || digit_count > 5 {
        return Option::None;
    }

    let ghost d = s@.skip(colon as int + 1);
    let mut k: usize = colon + 1;
    let mut val: u32 = 0;
    proof {
        assert(d.take(0) =~= Seq::<char>::empty());
    }
    while k < n
        invariant
            colon + 1 <= k <= n,
            n == s@.len(),
            1 <= colon,
            last_colon(s@) == colon as int,
            1 <= n - colon - 1 <= 5,
            d == s@.skip(colon as int + 1),
            d.len() == n - colon - 1,
            all_digits(d.take(k - colon - 1)),
            val as int == digits_val(d.take(k - colon - 1)),
        decreases n - k,
    {
        let ch = s.get_char(k);
        let code = ch as u32;
        proof {
            assert(d[k - colon - 1] == s@[k as int]);
        }
        if code < 48 || code > 57 {
            proof {
                assert(!is_digit(d[k - colon - 1]));
                assert(!all_digits(d));
            }
            return Option::None;
        }
        proof {
            lemma_digits_val_bounds(d.take(k - colon - 1));
            assert(d.take(k - colon - 1 + 1).drop_last() =~= d.take(k - colon - 1));
            assert(d.take(k - colon - 1 + 1).last() == d[k - colon - 1]);
            assert(all_digits(d.take(k - colon - 1 + 1)));
        }
        val = val * 10 + (code - 48);
        k = k + 1;
    }
    proof {
        assert(d.take(n - colon - 1) =~= d);
    }
    if val > 65535 {
        return Option::None;
    }

    let host_str = s.substring_char(0, colon);
    let host = String::from_str(host_str);
    let port: u16 = val as u16;
    Option::Some(Endpoint { host, port })
}

} // verus!
