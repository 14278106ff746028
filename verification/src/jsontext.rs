use vstd::prelude::*;
use crate::model::{Destination, PaymentRequest, RemittanceInformation};

verus! {

/// The character for a single decimal digit.
pub open spec fn dec_digit_char(d: nat) -> char {
    if d == 0 {
        '0'
    } else if d == 1 {
        '1'
    } else if d == 2 {
        '2'
    } else if d == 3 {
        '3'
    } else if d == 4 {
        '4'
    } else if d == 5 {
        '5'
    } else if d == 6 {
        '6'
    } else if d == 7 {
        '7'
    } else if d == 8 {
        '8'
    } else {
        '9'
    }
}

/// The decimal rendering of a natural number, without sign or padding.
pub open spec fn dec_digits(n: nat) -> Seq<char>
    decreases n,
{
    if n < 10 {
        seq![dec_digit_char(n)]
    } else {
        dec_digits(n / 10) + seq![dec_digit_char(n % 10)]
    }
}

/// The character for a single hexadecimal digit, lower case.
pub open spec fn hex_digit_char(d: nat) -> char {
    if d < 10 {
        dec_digit_char(d)
    } else if d == 10 {
        'a'
    } else if d == 11 {
        'b'
    } else if d == 12 {
        'c'
    } else if d == 13 {
        'd'
    } else if d == 14 {
        'e'
    } else {
        'f'
    }
}

/// How one character is written inside a JSON string literal: quote and
/// backslash get a backslash escape, control characters a `\u00XX` escape,
/// everything else stands for itself.
pub open spec fn json_escape_char(c: char) -> Seq<char> {
    if c == '"' {
        seq!['\\', '"']
    } else if c == '\\' {
        seq!['\\', '\\']
    } else if (c as nat) < 32 {
        seq!['\\', 'u', '0', '0', hex_digit_char((c as nat) / 16), hex_digit_char((c as nat) % 16)]
    } else {
        seq![c]
    }
}

/// The body of a JSON string literal: each character escaped in order.
pub open spec fn json_escape(s: Seq<char>) -> Seq<char>
    decreases s.len(),
{
    if s.len() == 0 {
        Seq::empty()
    } else {
        json_escape(s.drop_last()) + json_escape_char(s.last())
    }
}

/// A complete JSON string literal: quotes around the escaped body.
pub open spec fn json_quoted(s: Seq<char>) -> Seq<char> {
    seq!['"'] + json_escape(s) + seq!['"']
}

/// The JSON for an optional payment id: `null` when absent, a string
/// literal when present.
pub open spec fn json_of_id(id: Option<String>) -> Seq<char> {
    match id {
        Option::None => "null"@,
        Option::Some(s) => json_quoted(s@),
    }
}

/// The JSON object for remittance information, with the provider's field
/// name `type`.
pub open spec fn json_of_remittance(r: RemittanceInformation) -> Seq<char> {
    "{\"type\":"@ + json_quoted(r.type_field@) + ",\"value\":"@ + json_quoted(r.value@) + "}"@
}

/// The JSON object for one destination, with the provider's field name
/// `type`.
pub open spec fn json_of_destination(d: Destination) -> Seq<char> {
    "{\"accountNumber\":"@ + json_quoted(d.account_number@) + ",\"type\":"@ + json_quoted(
        d.type_field@,
    ) + "}"@
}

/// The comma-separated JSON objects for a destination list, in order.
pub open spec fn json_of_destinations(ds: Seq<Destination>) -> Seq<char>
    decreases ds.len(),
{
    if ds.len() == 0 {
        Seq::empty()
    } else if ds.len() == 1 {
        json_of_destination(ds[0])
    } else {
        json_of_destinations(ds.drop_last()) + ","@ + json_of_destination(ds.last())
    }
}

/// The JSON object the gateway sends for a payment request: the fields in
/// declaration order, camel-cased as the provider expects them.
pub open spec fn json_of_payment(p: PaymentRequest) -> Seq<char> {
    "{\"id\":"@ + json_of_id(p.id) + ",\"amount\":"@ + dec_digits(p.amount as nat)
        + ",\"currency\":"@ + json_quoted(p.currency@) + ",\"market\":"@ + json_quoted(p.market@)
        + ",\"sourceMessage\":"@ + json_quoted(p.source_message@) + ",\"recipientName\":"@
        + json_quoted(p.recipient_name@) + ",\"remittanceInformation\":"@ + json_of_remittance(
        p.remittance_information,
    ) + ",\"destinations\":["@ + json_of_destinations(p.destinations@) + "]}"@
}

/// Any two outgoing payment bodies for the same market, currency and
/// amount serialise to the same document: what the gateway submits is a
/// function of the caller's three inputs alone.
pub proof fn lemma_outgoing_document_determined(
    p1: PaymentRequest,
    p2: PaymentRequest,
    market: Seq<char>,
    currency: Seq<char>,
    amount: u32,
)
    requires
        crate::model::outgoing_matches(p1, market, currency, amount),
        crate::model::outgoing_matches(p2, market, currency, amount),
    ensures
        json_of_payment(p1) == json_of_payment(p2),
{
    assert(json_of_remittance(p1.remittance_information) == json_of_remittance(
        p2.remittance_information,
    ));
    assert(json_of_destination(p1.destinations@[0]) == json_of_destination(p2.destinations@[0]));
    assert(json_of_destinations(p1.destinations@) == json_of_destinations(p2.destinations@));
}

/// Relies on `String::push`, which appends the given character at the end.
#[verifier::external_body]
fn push_char(out: &mut String, c: char)
    ensures
        final(out)@ == old(out)@ + seq![c],
{
    out.push(c);
}

/// A one-character string slice for a decimal digit.
fn dec_digit_str(d: u32) -> (r: &'static str)
    requires
        d < 10,
    ensures
        r@ == seq![dec_digit_char(d as nat)],
{
    match d {
        0 => {
            proof {
                reveal_strlit("0");
                assert("0"@ =~= seq![dec_digit_char(0)]);
            }
            "0"
        },
        1 => {
            proof {
                reveal_strlit("1");
                assert("1"@ =~= seq![dec_digit_char(1)]);
            }
            "1"
        },
        2 => {
            proof {
                reveal_strlit("2");
                assert("2"@ =~= seq![dec_digit_char(2)]);
            }
            "2"
        },
        3 => {
            proof {
                reveal_strlit("3");
                assert("3"@ =~= seq![dec_digit_char(3)]);
            }
            "3"
        },
        4 => {
            proof {
                reveal_strlit("4");
                assert("4"@ =~= seq![dec_digit_char(4)]);
            }
            "4"
        },
        5 => {
            proof {
                reveal_strlit("5");
                assert("5"@ =~= seq![dec_digit_char(5)]);
            }
            "5"
        },
        6 => {
            proof {
                reveal_strlit("6");
                assert("6"@ =~= seq![dec_digit_char(6)]);
            }
            "6"
        },
        7 => {
            proof {
                reveal_strlit("7");
                assert("7"@ =~= seq![dec_digit_char(7)]);
            }
            "7"
        },
        8 => {
            proof {
                reveal_strlit("8");
                assert("8"@ =~= seq![dec_digit_char(8)]);
            }
            "8"
        },
        _ => {
            proof {
                reveal_strlit("9");
                assert("9"@ =~= seq![dec_digit_char(9)]);
            }
            "9"
        },
    }
}

/// A one-character string slice for a hexadecimal digit, lower case.
fn hex_digit_str(d: u32) -> (r: &'static str)
    requires
        d < 16,
    ensures
        r@ == seq![hex_digit_char(d as nat)],
{
    if d < 10 {
        dec_digit_str(d)
    } else {
        match d {
            10 => {
                proof {
                    reveal_strlit("a");
                    assert("a"@ =~= seq![hex_digit_char(10)]);
                }
                "a"
            },
            11 => {
                proof {
                    reveal_strlit("b");
                    assert("b"@ =~= seq![hex_digit_char(11)]);
                }
                "b"
            },
            12 => {
                proof {
                    reveal_strlit("c");
                    assert("c"@ =~= seq![hex_digit_char(12)]);
                }
                "c"
            },
            13 => {
                proof {
                    reveal_strlit("d");
                    assert("d"@ =~= seq![hex_digit_char(13)]);
                }
                "d"
            },
            14 => {
                proof {
                    reveal_strlit("e");
                    assert("e"@ =~= seq![hex_digit_char(14)]);
                }
                "e"
            },
            _ => {
                proof {
                    reveal_strlit("f");
                    assert("f"@ =~= seq![hex_digit_char(15)]);
                }
                "f"
            },
        }
    }
}

/// Appends the decimal rendering of `n`.
pub fn push_decimal(out: &mut String, n: u32)
    ensures
        final(out)@ == old(out)@ + dec_digits(n as nat),
    decreases n,
{
    if n >= 10 {
        push_decimal(out, n / 10);
    }
    let d: u32 = n % 10;
    out.append(dec_digit_str(d));
    proof {
        if n >= 10 {
            assert(old(out)@ + dec_digits((n / 10) as nat) + seq![dec_digit_char((n % 10) as nat)]
                =~= old(out)@ + dec_digits(n as nat));
        }
    }
}

/// Appends the escape of one character.
fn push_escaped_char(out: &mut String, c: char)
    ensures
        final(out)@ == old(out)@ + json_escape_char(c),
{
    if c == '"' {
        proof {
            reveal_strlit("\\\"");
            assert("\\\""@ =~= seq!['\\', '"']);
        }
        out.append("\\\"");
    } else if c == '\\' {
        proof {
            reveal_strlit("\\\\");
            assert("\\\\"@ =~= seq!['\\', '\\']);
        }
        out.append("\\\\");
    } else if (c as u32) < 32 {
        proof {
            reveal_strlit("\\u00");
            assert("\\u00"@ =~= seq!['\\', 'u', '0', '0']);
        }
        out.append("\\u00");
        let hi: u32 = (c as u32) / 16;
        let lo: u32 = (c as u32) % 16;
        out.append(hex_digit_str(hi));
        out.append(hex_digit_str(lo));
        proof {
            assert(out@ =~= old(out)@ + json_escape_char(c));
        }
    } else {
        push_char(out, c);
    }
}

/// Appends a complete JSON string literal for `s`.
pub fn push_json_string(out: &mut String, s: &str)
    ensures
        final(out)@ == old(out)@ + json_quoted(s@),
{
    proof {
        reveal_strlit("\"");
        assert("\""@ =~= seq!['"']);
    }
    out.append("\"");
    let n: usize = s.unicode_len();
    let mut i: usize = 0;
    while i < n
        invariant
            n == s@.len(),
            i <= n,
            out@ == old(out)@ + seq!['"'] + json_escape(s@.take(i as int)),
        decreases n - i,
    {
        let c = s.get_char(i);
        push_escaped_char(out, c);
        proof {
            assert(s@.take(i as int + 1).drop_last() =~= s@.take(i as int));
            assert(s@.take(i as int + 1).last() == s@[i as int]);
            assert(out@ =~= old(out)@ + seq!['"'] + json_escape(s@.take(i as int + 1)));
        }
        i = i + 1;
    }
    out.append("\"");
    proof {
        assert(s@.take(n as int) =~= s@);
        assert(out@ =~= old(out)@ + json_quoted(s@));
    }
}

/// Renders the payment request as the JSON document the gateway sends.
pub fn payment_to_json(p: &PaymentRequest) -> (r: String)
    ensures
        r@ == json_of_payment(*p),
{
    let mut out = String::new();
    out.append("{\"id\":");
    match &p.id {
        Option::None => {
            proof {
                reveal_strlit("null");
            }
            out.append("null");
        },
        Option::Some(s) => {
            push_json_string(&mut out, s.as_str());
        },
    }
    proof {
        assert(out@ =~= "{\"id\":"@ + json_of_id(p.id));
    }
    out.append(",\"amount\":");
    push_decimal(&mut out, p.amount);
    out.append(",\"currency\":");
    push_json_string(&mut out, p.currency.as_str());
    out.append(",\"market\":");
    push_json_string(&mut out, p.market.as_str());
    out.append(",\"sourceMessage\":");
    push_json_string(&mut out, p.source_message.as_str());
    out.append(",\"recipientName\":");
    push_json_string(&mut out, p.recipient_name.as_str());
    out.append(",\"remittanceInformation\":");
    push_remittance(&mut out, &p.remittance_information);
    out.append(",\"destinations\":[");
    let ghost mid: Seq<char> = out@;
    let n: usize = p.destinations.len();
    let mut i: usize = 0;
    while i < n
        invariant
            n == p.destinations@.len(),
            i <= n,
            out@ == mid + json_of_destinations(p.destinations@.take(i as int)),
        decreases n - i,
    {
        if i > 0 {
            proof {
                reveal_strlit(",");
                assert(","@ =~= seq![',']);
            }
            out.append(",");
        }
        push_destination(&mut out, &p.destinations[i]);
        proof {
            let ds = p.destinations@;
            assert(ds.take(i as int + 1).drop_last() =~= ds.take(i as int));
            assert(ds.take(i as int + 1).last() == ds[i as int]);
            if i == 0 {
                assert(ds.take(1).len() == 1);
            }
            assert(out@ =~= mid + json_of_destinations(ds.take(i as int + 1)));
        }
        i = i + 1;
    }
    out.append("]}");
    proof {
        assert(p.destinations@.take(n as int) =~= p.destinations@);
        assert(out@ =~= json_of_payment(*p));
    }
    out
}

/// Appends the remittance-information object.
fn push_remittance(out: &mut String, r: &RemittanceInformation)
    ensures
        final(out)@ == old(out)@ + json_of_remittance(*r),
{
    out.append("{\"type\":");
    push_json_string(out, r.type_field.as_str());
    out.append(",\"value\":");
    push_json_string(out, r.value.as_str());
    out.append("}");
    proof {
        assert(out@ =~= old(out)@ + json_of_remittance(*r));
    }
}

/// Appends one destination object.
fn push_destination(out: &mut String, d: &Destination)
    ensures
        final(out)@ == old(out)@ + json_of_destination(*d),
{
    out.append("{\"accountNumber\":");
    push_json_string(out, d.account_number.as_str());
    out.append(",\"type\":");
    push_json_string(out, d.type_field.as_str());
    out.append("}");
    proof {
        assert(out@ =~= old(out)@ + json_of_destination(*d));
    }
}

} // verus!
