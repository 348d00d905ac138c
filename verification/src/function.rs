use vstd::prelude::*;
use vstd::string::StringExecFns;

verus! {

/// The character of a decimal digit.
pub open spec fn digit_char(d: nat) -> char {
    if d == 0 { '0' }
    else if d == 1 { '1' }
    else if d == 2 { '2' }
    else if d == 3 { '3' }
    else if d == 4 { '4' }
    else if d == 5 { '5' }
    else if d == 6 { '6' }
    else if d == 7 { '7' }
    else if d == 8 { '8' }
    else { '9' }
}

/// The decimal notation of a number, without leading zeros.
pub open spec fn decimal(n: nat) -> Seq<char>
    decreases n,
{
    if n < 10 {
        seq![digit_char(n)]
    } else {
        decimal(n / 10).push(digit_char(n % 10))
    }
}

/// The URL at which the function service listening on `port` of the local host is invoked.
pub open spec fn invoke_url_text(port: u16) -> Seq<char> {
    "http://127.0.0.1:"@ + decimal(port as nat) + "/invoke"@
}

fn digit_text(d: u16) -> (s: &'static str)
    requires
        d < 10,
    ensures
        s@ == seq![digit_char(d as nat)],
{
    if d == 0 { proof { reveal_strlit("0"); } "0" }
    else if d == 1 { proof { reveal_strlit("1"); } "1" }
    else if d == 2 { proof { reveal_strlit("2"); } "2" }
    else if d == 3 { proof { reveal_strlit("3"); } "3" }
    else if d == 4 { proof { reveal_strlit("4"); } "4" }
    else if d == 5 { proof { reveal_strlit("5"); } "5" }
    else if d == 6 { proof { reveal_strlit("6"); } "6" }
    else if d == 7 { proof { reveal_strlit("7"); } "7" }
    else if d == 8 { proof { reveal_strlit("8"); } "8" }
    else { proof { reveal_strlit("9"); } "9" }
}

/// The decimal notation of `n`.
pub fn decimal_string(n: u16) -> (s: String)
    ensures
        s@ == decimal(n as nat),
    decreases n,
{
    if n < 10 {
        String::from_str(digit_text(n))
    } else {
        let mut s = decimal_string(n / 10);
        s.append(digit_text(n % 10));
        s
    }
}

/// The URL at which the function service listening on `target_port` of the local host
/// is invoked.
pub fn invoke_url(target_port: u16) -> (url: String)
    ensures
        url@ == invoke_url_text(target_port),
{
    String::from_str("http://127.0.0.1:")
        .concat(decimal_string(target_port).as_str())
        .concat("/invoke")
}

/// Each character is an ASCII decimal digit, `'0'` to `'9'`.
pub open spec fn ascii_digits(s: Seq<char>) -> bool {
    forall|i: int| 0 <= i < s.len() ==> 48 <= #[trigger] (s[i] as int) <= 57
}

/// The number that a text of ASCII decimal digits reads as, most significant digit first:
/// each digit counts its ASCII code less that of `'0'`, times its place value.
pub open spec fn read_decimal(s: Seq<char>) -> int
    decreases s.len(),
{
    if s.len() == 0 {
        0
    } else {
        read_decimal(s.drop_last()) * 10 + (s.last() as int - 48)
    }
}

/// The decimal notation of a number is a nonempty text of ASCII digits, without a
/// leading zero unless the number is zero, that reads back as the number.
pub proof fn lemma_decimal_reads_back(n: nat)
    ensures
        decimal(n).len() >= 1,
        n >= 10 ==> decimal(n).len() >= 2,
        ascii_digits(decimal(n)),
        read_decimal(decimal(n)) == n,
        decimal(n).len() > 1 ==> decimal(n)[0] != '0',
    decreases n,
{
    let s = decimal(n);
    if n < 10 {
        assert(s[0] as int == 48 + n);
        assert(s.drop_last() =~= Seq::<char>::empty());
        assert(read_decimal(s) == read_decimal(s.drop_last()) * 10 + (s.last() as int - 48));
    } else {
        let q = n / 10;
        let d = n % 10;
        lemma_decimal_reads_back(q);
        let prev = decimal(q);
        assert(s == prev.push(digit_char(d)));
        assert(digit_char(d) as int == 48 + d);
        assert(s.drop_last() =~= prev);
        assert(s.last() == digit_char(d));
        assert(n == q * 10 + d);
        assert(read_decimal(s) == read_decimal(prev) * 10 + (s.last() as int - 48));
        assert(ascii_digits(s)) by {
            assert forall|i: int| 0 <= i < s.len() implies 48 <= #[trigger] (s[i] as int) <= 57 by {
                if i < prev.len() {
                    assert(s[i] == prev[i]);
                }
            }
        }
        assert(s[0] == prev[0]);
        if q < 10 {
            assert(prev[0] == digit_char(q));
            assert(1 <= q);
        }
    }
}

/// The URL of the function served on `port` is `http://127.0.0.1:`, then the port in
/// ASCII decimal digits that read back as `port`, then `/invoke`.
pub proof fn lemma_invoke_url_names_port(port: u16)
    ensures
        invoke_url_text(port).len() > 24,
        invoke_url_text(port).subrange(0, 17) == "http://127.0.0.1:"@,
        invoke_url_text(port).subrange(invoke_url_text(port).len() - 7, invoke_url_text(port).len() as int)
            == "/invoke"@,
        ascii_digits(invoke_url_text(port).subrange(17, invoke_url_text(port).len() - 7)),
        read_decimal(invoke_url_text(port).subrange(17, invoke_url_text(port).len() - 7)) == port,
{
    reveal_strlit("http://127.0.0.1:");
    reveal_strlit("/invoke");
    lemma_decimal_reads_back(port as nat);
    let t = invoke_url_text(port);
    let d = decimal(port as nat);
    assert(t.subrange(0, 17) =~= "http://127.0.0.1:"@);
    assert(t.subrange(t.len() - 7, t.len() as int) =~= "/invoke"@);
    assert(t.subrange(17, t.len() - 7) =~= d);
}

} // verus!
