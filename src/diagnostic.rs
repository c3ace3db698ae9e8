use vstd::prelude::*;
use vstd::string::StringExecFns;

verus! {

/// A message that the driver's validation layer reports: its severity and
/// category as text, an optional message-id name, the message-id number,
/// and the optional message text.
pub struct DiagnosticRecord {
    pub severity: String,
    pub category: String,
    pub message_id_name: Option<String>,
    pub message_id_number: i32,
    pub message: Option<String>,
}

/// The text of an optional field; an absent field reads as empty.
pub open spec fn text_or_empty(s: Option<String>) -> Seq<char> {
    match s {
        Some(t) => t@,
        None => Seq::empty(),
    }
}

pub open spec fn digit_char(d: nat) -> char {
    if d == 0 { '0' }
    else if d == 1 { '1' }
    else if d == 2 { '2' }
    else if d == 3 { '3' }
    else if d == 4 { '4' }
    else if d == 5 { '5' }
    else if d == 6 { '6' }
    else if d == 7 { '7' }
    else if d == 8 { '8' }
    else { '9' }
}

/// Decimal digits of `n`, most significant first, without leading zeros.
pub open spec fn digits(n: nat) -> Seq<char>
    decreases n,
{
    if n < 10 {
        seq![digit_char(n)]
    } else {
        digits(n / 10).push(digit_char(n % 10))
    }
}

/// Decimal notation of `n`, with a leading `-` when it is negative.
pub open spec fn decimal(n: int) -> Seq<char> {
    if n < 0 {
        seq!['-'] + digits((-n) as nat)
    } else {
        digits(n as nat)
    }
}

/// The line printed for a diagnostic record.
pub open spec fn diagnostic_text(rec: DiagnosticRecord) -> Seq<char> {
    rec.severity@ + ":\n"@ + rec.category@ + " ["@ + text_or_empty(rec.message_id_name) + " ("@
        + decimal(rec.message_id_number as int) + ")] : "@ + text_or_empty(rec.message) + "\n"@
}

fn digit_text(d: u32) -> (r: &'static str)
    requires
        d < 10,
    ensures
        r@ == seq![digit_char(d as nat)],
{
    proof {
        reveal_strlit("0");
        reveal_strlit("1");
        reveal_strlit("2");
        reveal_strlit("3");
        reveal_strlit("4");
        reveal_strlit("5");
        reveal_strlit("6");
        reveal_strlit("7");
        reveal_strlit("8");
        reveal_strlit("9");
    }
    if d == 0 { "0" }
    else if d == 1 { "1" }
    else if d == 2 { "2" }
    else if d == 3 { "3" }
    else if d == 4 { "4" }
    else if d == 5 { "5" }
    else if d == 6 { "6" }
    else if d == 7 { "7" }
    else if d == 8 { "8" }
    else { "9" }
}

fn append_digits(s: &mut String, n: u32)
    ensures
        final(s)@ == old(s)@ + digits(n as nat),
    decreases n,
{
    if n >= 10 {
        append_digits(s, n / 10);
    }
    s.append(digit_text(n % 10));
    proof {
        if n < 10 {
            assert(old(s)@ + digits(n as nat) =~= old(s)@ + seq![digit_char(n as nat)]);
        } else {
            assert(old(s)@ + digits(n as nat) =~= old(s)@ + digits((n / 10) as nat) + seq![digit_char((n % 10) as nat)]);
        }
    }
}

/// Decimal notation of `n`.
pub fn decimal_text(n: i32) -> (r: String)
    ensures
        r@ == decimal(n as int),
{
    let mut s = String::new();
    if n < 0 {
        s.append("-");
        let m: u32 = (0i64 - n as i64) as u32;
        append_digits(&mut s, m);
        proof {
            reveal_strlit("-");
        }
    } else {
        append_digits(&mut s, n as u32);
    }
    s
}

/// The text reported for a diagnostic record, in the form
/// `severity:\ncategory [id-name (id-number)] : message\n`; absent fields
/// read as empty text.
pub fn diagnostic_line(rec: &DiagnosticRecord) -> (r: String)
    ensures
        r@ == diagnostic_text(*rec),
{
    let mut s = rec.severity.clone();
    s.append(":\n");
    s.append(rec.category.as_str());
    s.append(" [");
    match &rec.message_id_name {
        Some(t) => s.append(t.as_str()),
        None => {},
    }
    s.append(" (");
    let id = decimal_text(rec.message_id_number);
    s.append(id.as_str());
    s.append(")] : ");
    match &rec.message {
        Some(t) => s.append(t.as_str()),
        None => {},
    }
    s.append("\n");
    proof {
        assert(s@ =~= diagnostic_text(*rec));
    }
    s
}

} // verus!
