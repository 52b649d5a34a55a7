use vstd::prelude::*;

verus! {

pub open spec fn digit_char(d: int) -> char {
    if d == 0 {
        '0'
    } else if d == 1 {
        '1'
    } else if d == 2 {
        '2'
    } else if d == 3 {
        '3'
    } else if d == 4 {
        '4'
    } else if d == 5 {
        '5'
    } else if d == 6 {
        '6'
    } else if d == 7 {
        '7'
    } else if d == 8 {
        '8'
    } else {
        '9'
    }
}

/// The decimal digits of `n`, without leading zeros.
pub open spec fn decimal(n: nat) -> Seq<char>
    decreases n,
{
    if n < 10 {
        seq![digit_char(n as int)]
    } else {
        decimal(n / 10) + seq![digit_char((n % 10) as int)]
    }
}

fn digit_text(d: u64) -> (r: &'static str)
    requires
        d < 10,
    ensures
        r@ == seq![digit_char(d as int)],
{
    if d == 0 {
        proof {
            reveal_strlit("0");
        }
        "0"
    } else if d == 1 {
        proof {
            reveal_strlit("1");
        }
        "1"
    } else if d == 2 {
        proof {
            reveal_strlit("2");
        }
        "2"
    } else if d == 3 {
        proof {
            reveal_strlit("3");
        }
        "3"
    } else if d == 4 {
        proof {
            reveal_strlit("4");
        }
        "4"
    } else if d == 5 {
        proof {
            reveal_strlit("5");
        }
        "5"
    } else if d == 6 {
        proof {
            reveal_strlit("6");
        }
        "6"
    } else if d == 7 {
        proof {
            reveal_strlit("7");
        }
        "7"
    } else if d == 8 {
        proof {
            reveal_strlit("8");
        }
        "8"
    } else {
        proof {
            reveal_strlit("9");
        }
        "9"
    }
}

/// Appends the decimal digits of `n`.
pub fn push_decimal(s: &mut String, n: u64)
    ensures
        final(s)@ == old(s)@ + decimal(n as nat),
    decreases n,
{
    if n >= 10 {
        push_decimal(s, n / 10);
    }
    s.append(digit_text(n % 10));
    assert(final(s)@ =~= old(s)@ + decimal(n as nat));
}

/// The separator before the parameter at position `i` of a query string.
pub open spec fn separator(i: int) -> Seq<char> {
    if i == 0 {
        "?"@
    } else {
        "&"@
    }
}

/// `base` followed by the query parameters `params`, in order: the first
/// after `?`, the others after `&`; `base` alone when there are none.
pub open spec fn with_params(base: Seq<char>, params: Seq<Seq<char>>) -> Seq<char>
    decreases params.len(),
{
    if params.len() == 0 {
        base
    } else {
        with_params(base, params.drop_last()) + separator(params.len() - 1) + params.last()
    }
}

/// Appends the parameter `key` + `value` to a URL that holds `base` and the
/// parameters `params`.
pub fn push_param(
    url: &mut String,
    key: &str,
    value: &str,
    count: usize,
    Ghost(base): Ghost<Seq<char>>,
    Ghost(params): Ghost<Seq<Seq<char>>>,
)
    requires
        old(url)@ == with_params(base, params),
        count == params.len(),
    ensures
        final(url)@ == with_params(base, params.push(key@ + value@)),
{
    if count == 0 {
        url.append("?");
    } else {
        url.append("&");
    }
    url.append(key);
    url.append(value);
    let ghost pushed = params.push(key@ + value@);
    assert(pushed.drop_last() =~= params);
    assert(final(url)@ =~= with_params(base, pushed));
}

} // verus!
