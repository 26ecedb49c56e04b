//! Text built from numbers and addresses: decimal numerals, ordinal numbers,
//! replacing a pattern in a string, and the address of the WebSocket server.

use vstd::prelude::*;

verus! {

/// The character of the decimal digit `d` (0 to 9).
pub open spec fn digit_char(d: int) -> char {
    if d == 0 {
        '0'
    } else if d == 1 {
        '1'
    } else if d == 2 {
        '2'
    } else if d == 3 {
        '3'
    } else if d == 4 {
        '4'
    } else if d == 5 {
        '5'
    } else if d == 6 {
        '6'
    } else if d == 7 {
        '7'
    } else if d == 8 {
        '8'
    } else {
        '9'
    }
}

/// The decimal numeral of `n`, without leading zeros (what `to_string` gives).
pub open spec fn decimal(n: nat) -> Seq<char>
    decreases n,
{
    if n < 10 {
        seq![digit_char(n as int)]
    } else {
        decimal(n / 10) + seq![digit_char((n % 10) as int)]
    }
}

/// The one-digit string of `d`.
fn digit_str(d: usize) -> (s: &'static str)
    requires
        d < 10,
    ensures
        s@ == seq![digit_char(d as int)],
{
    match d {
        0 => {
            proof {
                reveal_strlit("0");
            }
            "0"
        },
        1 => {
            proof {
                reveal_strlit("1");
            }
            "1"
        },
        2 => {
            proof {
                reveal_strlit("2");
            }
            "2"
        },
        3 => {
            proof {
                reveal_strlit("3");
            }
            "3"
        },
        4 => {
            proof {
                reveal_strlit("4");
            }
            "4"
        },
        5 => {
            proof {
                reveal_strlit("5");
            }
            "5"
        },
        6 => {
            proof {
                reveal_strlit("6");
            }
            "6"
        },
        7 => {
            proof {
                reveal_strlit("7");
            }
            "7"
        },
        8 => {
            proof {
                reveal_strlit("8");
            }
            "8"
        },
        _ => {
            proof {
                reveal_strlit("9");
            }
            "9"
        },
    }
}

/// The decimal numeral of `n`.
pub fn decimal_string(n: usize) -> (s: String)
    ensures
        s@ == decimal(n as nat),
    decreases n,
{
    if n < 10 {
        String::from_str(digit_str(n))
    } else {
        let mut s = decimal_string(n / 10);
        s.append(digit_str(n % 10));
        s
    }
}

/// The value of a decimal digit character.
pub open spec fn digit_value(c: char) -> int {
    c as int - '0' as int
}

/// The number that a string of decimal digits denotes.
pub open spec fn numeral_value(s: Seq<char>) -> int
    decreases s.len(),
{
    if s.len() == 0 {
        0
    } else {
        numeral_value(s.drop_last()) * 10 + digit_value(s.last())
    }
}

/// Each digit character has the value of its digit.
pub proof fn lemma_digit_value(d: int)
    requires
        0 <= d < 10,
    ensures
        digit_value(digit_char(d)) == d,
        '0' <= digit_char(d) <= '9',
{
}

/// The numeral of `n` is made of decimal digits, denotes `n`, and has no
/// leading zero (but for the numeral of 0 itself).
pub proof fn lemma_decimal_denotes(n: nat)
    ensures
        decimal(n).len() >= 1,
        forall|i: int| 0 <= i < decimal(n).len() ==> '0' <= #[trigger] decimal(n)[i] <= '9',
        numeral_value(decimal(n)) == n,
        n > 0 ==> decimal(n)[0] != '0',
    decreases n,
{
    if n < 10 {
        lemma_digit_value(n as int);
        assert(decimal(n).drop_last() =~= Seq::<char>::empty());
        assert(numeral_value(decimal(n)) == numeral_value(decimal(n).drop_last()) * 10 + digit_value(
            decimal(n).last(),
        ));
    } else {
        lemma_digit_value((n % 10) as int);
        lemma_decimal_denotes(n / 10);
        let d = decimal(n);
        assert(d.drop_last() =~= decimal(n / 10));
        assert(d.last() == digit_char((n % 10) as int));
        assert(d[0] == decimal(n / 10)[0]);
        assert(numeral_value(d) == numeral_value(d.drop_last()) * 10 + digit_value(d.last()));
        assert(numeral_value(d) == (n / 10) * 10 + n % 10);
        assert forall|i: int| 0 <= i < d.len() implies '0' <= #[trigger] d[i] <= '9' by {
            if i < d.len() - 1 {
                assert(d[i] == decimal(n / 10)[i]);
            }
        }
    }
}

/// Different numbers have different numerals.
pub proof fn lemma_decimal_injective(a: nat, b: nat)
    requires
        decimal(a) == decimal(b),
    ensures
        a == b,
    decreases a,
{
    lemma_decimal_len(a);
    lemma_decimal_len(b);
    if a >= 10 && b >= 10 {
        assert(decimal(a).drop_last() =~= decimal(a / 10));
        assert(decimal(b).drop_last() =~= decimal(b / 10));
        assert(decimal(a).last() == digit_char((a % 10) as int));
        assert(decimal(b).last() == digit_char((b % 10) as int));
        lemma_decimal_injective(a / 10, b / 10);
        assert(a % 10 == b % 10);
        assert(a == 10 * (a / 10) + a % 10);
        assert(b == 10 * (b / 10) + b % 10);
    } else {
        assert(a < 10 && b < 10);
        assert(decimal(a)[0] == digit_char(a as int));
        assert(decimal(b)[0] == digit_char(b as int));
        assert(digit_char(a as int) == digit_char(b as int));
    }
}

/// A numeral has one digit below 10 and more from 10 on.
pub proof fn lemma_decimal_len(n: nat)
    ensures
        decimal(n).len() >= 1,
        n >= 10 ==> decimal(n).len() >= 2,
    decreases n,
{
    if n >= 10 {
        lemma_decimal_len(n / 10);
    }
}

/// The English ordinal suffix of `n`: "st", "nd", "rd", or "th" (also for
/// the numbers that end in 11, 12 and 13).
pub open spec fn ordinal_suffix(n: nat) -> Seq<char> {
    if 11 <= n % 100 <= 13 {
        "th"@
    } else if n % 10 == 1 {
        "st"@
    } else if n % 10 == 2 {
        "nd"@
    } else if n % 10 == 3 {
        "rd"@
    } else {
        "th"@
    }
}

/// The ordinal number of `n`, as in "1st", "2nd", "3rd", "4th", "11th", "21st".
pub open spec fn ordinal(n: nat) -> Seq<char> {
    decimal(n) + ordinal_suffix(n)
}

/// The ordinal number of `n` (see `ordinal`).
pub fn ordinal_number(n: usize) -> (s: String)
    ensures
        s@ == ordinal(n as nat),
{
    let mut s = decimal_string(n);
    let m = n % 100;
    if 11 <= m && m <= 13 {
        s.append("th");
    } else if n % 10 == 1 {
        s.append("st");
    } else if n % 10 == 2 {
        s.append("nd");
    } else if n % 10 == 3 {
        s.append("rd");
    } else {
        s.append("th");
    }
    s
}

/// `s` with every occurrence of `pat` replaced by `rep`, the occurrences
/// found from left to right without overlap (as `str::replace` does for a
/// pattern that is not empty).
pub open spec fn replace_all(s: Seq<char>, pat: Seq<char>, rep: Seq<char>) -> Seq<char>
    decreases s.len(),
{
    if pat.len() == 0 || s.len() == 0 {
        s
    } else if pat.len() <= s.len() && s.take(pat.len() as int) == pat {
        rep + replace_all(s.skip(pat.len() as int), pat, rep)
    } else {
        seq![s[0]] + replace_all(s.skip(1), pat, rep)
    }
}

/// Whether `pat` occurs in `s` at the character position `i`.
fn occurs_at(s: &str, i: usize, pat: &str) -> (b: bool)
    requires
        i <= s@.len(),
    ensures
        b == (pat@.len() <= s@.len() - i && s@.skip(i as int).take(pat@.len() as int) == pat@),
{
    let s_len = s.unicode_len();
    let p_len = pat.unicode_len();
    if p_len > s_len - i {
        return false;
    }
    let mut j: usize = 0;
    while j < p_len
        invariant
            s_len == s@.len(),
            p_len == pat@.len(),
            i <= s_len,
            p_len <= s_len - i,
            j <= p_len,
            forall|k: int| 0 <= k < j ==> s@[i + k] == pat@[k],
        decreases p_len - j,
    {
        if s.get_char(i + j) != pat.get_char(j) {
            assert(s@.skip(i as int).take(p_len as int)[j as int] != pat@[j as int]);
            return false;
        }
        j += 1;
    }
    assert(s@.skip(i as int).take(p_len as int) =~= pat@);
    true
}

/// `s` with every occurrence of `pat` replaced by `rep` (see `replace_all`).
pub fn replace_str(s: &str, pat: &str, rep: &str) -> (r: String)
    requires
        pat@.len() > 0,
    ensures
        r@ == replace_all(s@, pat@, rep@),
{
    let s_len = s.unicode_len();
    let p_len = pat.unicode_len();
    let mut r = String::new();
    let mut i: usize = 0;
    assert(s@.skip(0) =~= s@);
    while i < s_len
        invariant
            s_len == s@.len(),
            p_len == pat@.len(),
            p_len > 0,
            i <= s_len,
            r@ + replace_all(s@.skip(i as int), pat@, rep@) == replace_all(s@, pat@, rep@),
        decreases s_len - i,
    {
        let ghost t = s@.skip(i as int);
        if occurs_at(s, i, pat) {
            assert(t.skip(p_len as int) =~= s@.skip(i + p_len));
            r.append(rep);
            i = i + p_len;
        } else {
            let c = s.substring_char(i, i + 1);
            assert(c@ =~= seq![t[0]]);
            assert(t.skip(1) =~= s@.skip(i + 1));
            r.append(c);
            i = i + 1;
        }
    }
    assert(s@.skip(i as int) =~= Seq::<char>::empty());
    r
}

/// The address of the WebSocket server for the page at `location_href` and
/// the client `client_ws_id`: the page's address with "http://" made
/// "ws://", then "mem5ws/" and the client's id.
pub open spec fn ws_url(location_href: Seq<char>, client_ws_id: nat) -> Seq<char> {
    replace_all(location_href, "http://"@, "ws://"@) + "mem5ws/"@ + decimal(client_ws_id)
}

/// The address of the WebSocket server (see `ws_url`).
pub fn ws_url_string(location_href: &str, client_ws_id: usize) -> (url: String)
    ensures
        url@ == ws_url(location_href@, client_ws_id as nat),
{
    proof {
        reveal_strlit("http://");
    }
    let mut url = replace_str(location_href, "http://", "ws://");
    url.append("mem5ws/");
    let id = decimal_string(client_ws_id);
    url.append(id.as_str());
    url
}

/// The ordinal of `n` is the numeral of `n` followed by two letters: "st"
/// exactly for the numbers that end in 1 but not in 11, "nd" for those that
/// end in 2 but not in 12, "rd" for those that end in 3 but not in 13, and
/// "th" for all others.
pub proof fn lemma_ordinal_suffix(n: nat)
    ensures
        ordinal(n).len() == decimal(n).len() + 2,
        ordinal(n).take(decimal(n).len() as int) == decimal(n),
        (ordinal(n).skip(decimal(n).len() as int) == "st"@) <==> (n % 10 == 1 && n % 100 != 11),
        (ordinal(n).skip(decimal(n).len() as int) == "nd"@) <==> (n % 10 == 2 && n % 100 != 12),
        (ordinal(n).skip(decimal(n).len() as int) == "rd"@) <==> (n % 10 == 3 && n % 100 != 13),
        (ordinal(n).skip(decimal(n).len() as int) == "th"@) <==> !((n % 10 == 1 && n % 100 != 11) || (
        n % 10 == 2 && n % 100 != 12) || (n % 10 == 3 && n % 100 != 13)),
{
    reveal_strlit("st");
    reveal_strlit("nd");
    reveal_strlit("rd");
    reveal_strlit("th");
    let o = ordinal(n);
    let k = decimal(n).len() as int;
    assert(o.take(k) =~= decimal(n));
    assert(o.skip(k) =~= ordinal_suffix(n));
    assert(n % 100 == 11 ==> n % 10 == 1);
    assert(n % 100 == 12 ==> n % 10 == 2);
    assert(n % 100 == 13 ==> n % 10 == 3);
    assert("st"@ != "nd"@ && "st"@ != "rd"@ && "st"@ != "th"@ && "nd"@ != "rd"@ && "nd"@
        != "th"@ && "rd"@ != "th"@) by {
        assert("st"@[0] != "nd"@[0] && "st"@[0] != "rd"@[0] && "nd"@[0] != "rd"@[0]);
        assert("st"@[1] != "th"@[1] && "nd"@[0] != "th"@[0] && "rd"@[0] != "th"@[0]);
    }
}

/// The address of the WebSocket server ends with "mem5ws/" and then the
/// client's id as a numeral; a page address that begins with "http://"
/// gives one that begins with "ws://".
pub proof fn lemma_ws_url_parts(location_href: Seq<char>, client_ws_id: nat)
    ensures
        ({
            let u = ws_url(location_href, client_ws_id);
            let k = u.len() - decimal(client_ws_id).len();
            &&& k >= 7
            &&& u.subrange(k - 7, k) == "mem5ws/"@
            &&& numeral_value(u.skip(k)) == client_ws_id
            &&& location_href.len() >= 7 && location_href.take(7) == "http://"@ ==> u.take(5)
                == "ws://"@
        }),
{
    reveal_strlit("mem5ws/");
    reveal_strlit("http://");
    reveal_strlit("ws://");
    let r = replace_all(location_href, "http://"@, "ws://"@);
    let u = ws_url(location_href, client_ws_id);
    let k = u.len() - decimal(client_ws_id).len();
    assert(u.skip(k) =~= decimal(client_ws_id));
    assert(u.subrange(k - 7, k) =~= "mem5ws/"@);
    lemma_decimal_denotes(client_ws_id);
    if location_href.len() >= 7 && location_href.take(7) == "http://"@ {
        assert(location_href.take("http://"@.len() as int) == "http://"@);
        assert(r == "ws://"@ + replace_all(location_href.skip(7), "http://"@, "ws://"@));
        assert(u.take(5) =~= "ws://"@);
    }
}

/// The server tells clients apart by their address: from one page, two
/// clients with different ids connect to different addresses.
pub proof fn lemma_ws_url_identifies_client(location_href: Seq<char>, a: nat, b: nat)
    requires
        ws_url(location_href, a) == ws_url(location_href, b),
    ensures
        a == b,
{
    let prefix = replace_all(location_href, "http://"@, "ws://"@) + "mem5ws/"@;
    assert((prefix + decimal(a)).skip(prefix.len() as int) =~= decimal(a));
    assert((prefix + decimal(b)).skip(prefix.len() as int) =~= decimal(b));
    lemma_decimal_injective(a, b);
}

} // verus!
