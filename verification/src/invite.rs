//! Invitation codes: twelve letters and digits drawn from a fresh identifier.
use vstd::prelude::*;
use vstd::string::StrSliceExecFns;

verus! {

/// Whether a character is an ASCII letter or digit.
pub open spec fn is_code_char(c: char) -> bool {
    ('0' <= c && c <= '9') || ('a' <= c && c <= 'z') || ('A' <= c && c <= 'Z')
}

/// A lower-case ASCII letter as its capital; any other character as it is.
pub open spec fn capital(c: char) -> char {
    if 'a' <= c && c <= 'z' {
        ((c as u8 - 32) as u8) as char
    } else {
        c
    }
}

/// The test that picks the letters and digits out of a text.
pub open spec fn keeps() -> spec_fn(char) -> bool {
    |c: char| is_code_char(c)
}

/// The letters and digits of a text, in order.
pub open spec fn code_chars(text: Seq<char>) -> Seq<char> {
    text.filter(keeps())
}

/// The first `n` elements of a sequence, or all of it if it is shorter.
pub open spec fn first(s: Seq<char>, n: nat) -> Seq<char> {
    if s.len() <= n {
        s
    } else {
        s.take(n as int)
    }
}

/// The invitation code drawn from a text: its first twelve ASCII letters
/// and digits, in capitals.
pub open spec fn invite_code_of(text: Seq<char>) -> Seq<char> {
    first(code_chars(text), 12).map_values(|c: char| capital(c))
}

/// Whether a character is an ASCII letter or digit.
pub fn code_char(c: char) -> (keep: bool)
    ensures
        keep == is_code_char(c),
{
    ('0' <= c && c <= '9') || ('a' <= c && c <= 'z') || ('A' <= c && c <= 'Z')
}

/// A lower-case ASCII letter as its capital; any other character as it is.
pub fn to_capital(c: char) -> (up: char)
    ensures
        up == capital(c),
{
    if 'a' <= c && c <= 'z' {
        ((c as u8) - 32) as char
    } else {
        c
    }
}

/// Calls `String::push`, which appends the character to the end of the
/// text.
#[verifier::external_body]
fn push_char(text: &mut String, c: char)
    ensures
        final(text)@ == old(text)@.push(c),
{
    text.push(c);
}

/// Draws the invitation code from a text: its first twelve ASCII letters
/// and digits, in capitals.
pub fn invite_code_from(text: &str) -> (code: String)
    ensures
        code@ == invite_code_of(text@),
{
    let n = text.unicode_len();
    let mut code = String::new();
    let mut taken: usize = 0;
    let mut i: usize = 0;
    while i < n
        invariant
            n == text@.len(),
            i <= n,
            taken <= 12,
            taken == first(code_chars(text@.take(i as int)), 12).len(),
            code@ == invite_code_of(text@.take(i as int)),
        decreases n - i,
    {
        let c = text.get_char(i);
        proof {
            let before = text@.take(i as int);
            let after = text@.take(i + 1);
            assert(after.drop_last() =~= before);
            assert(after.last() == c);
            reveal(Seq::filter);
            assert(code_chars(after) == if is_code_char(c) {
                code_chars(before).push(c)
            } else {
                code_chars(before)
            });
        }
        if taken < 12 && code_char(c) {
            push_char(&mut code, to_capital(c));
            taken += 1;
            proof {
                let before = code_chars(text@.take(i as int));
                assert(first(before.push(c), 12) =~= first(before, 12).push(c));
                assert(invite_code_of(text@.take(i + 1)) =~= invite_code_of(text@.take(i as int)).push(
                    capital(c),
                ));
            }
        } else {
            proof {
                let before = code_chars(text@.take(i as int));
                if is_code_char(c) {
                    assert(first(before.push(c), 12) =~= first(before, 12));
                }
            }
        }
        i += 1;
    }
    proof {
        assert(text@.take(n as int) =~= text@);
    }
    code
}

/// Whether a character is a lower-case hexadecimal digit.
pub open spec fn is_lower_hex(c: char) -> bool {
    ('0' <= c && c <= '9') || ('a' <= c && c <= 'f')
}

/// Whether a character is an upper-case hexadecimal digit.
pub open spec fn is_upper_hex(c: char) -> bool {
    ('0' <= c && c <= '9') || ('A' <= c && c <= 'F')
}

/// The hyphenated form of an identifier: thirty-two lower-case hexadecimal
/// digits in groups of 8, 4, 4, 4 and 12, with a hyphen between groups.
pub open spec fn is_hyphenated(text: Seq<char>) -> bool {
    &&& text.len() == 36
    &&& forall|i: int|
        0 <= i < 36 ==> if i == 8 || i == 13 || i == 18 || i == 23 {
            #[trigger] text[i] == '-'
        } else {
            is_lower_hex(text[i])
        }
}

/// Calls `uuid::Uuid::now_v7` and writes the identifier out with
/// `to_string`, which gives its hyphenated lower-case form. Which
/// identifier comes depends on the clock and on chance, so only the form is
/// claimed. The call needs a clock that is not set before 1970.
#[verifier::external_body]
fn fresh_identifier() -> (text: String)
    ensures
        is_hyphenated(text@),
{
    uuid::Uuid::now_v7().to_string()
}

/// The code drawn from a hyphenated identifier is its first twelve digits,
/// in capitals: twelve upper-case hexadecimal digits.
pub proof fn code_of_identifier(text: Seq<char>)
    requires
        is_hyphenated(text),
    ensures
        invite_code_of(text).len() == 12,
        forall|i: int| 0 <= i < 12 ==> is_upper_hex(#[trigger] invite_code_of(text)[i]),
        forall|i: int| 0 <= i < 8 ==> invite_code_of(text)[i] == capital(text[i]),
        forall|i: int| 8 <= i < 12 ==> invite_code_of(text)[i] == capital(text[i + 1]),
{
    let keep = keeps();
    let head = text.take(8);
    let mid = text.subrange(9, 13);
    let rest = text.skip(13);
    let hy = seq!['-'];
    assert(text =~= head + hy + mid + rest);
    assert forall|i: int| 0 <= i < head.len() implies keep(#[trigger] head[i]) by {
        assert(is_lower_hex(text[i]));
    }
    assert forall|i: int| 0 <= i < mid.len() implies keep(#[trigger] mid[i]) by {
        assert(is_lower_hex(text[i + 9]));
    }
    kept_whole(head);
    kept_whole(mid);
    assert(code_chars(hy) =~= Seq::<char>::empty()) by {
        reveal(Seq::filter);
        assert(hy.drop_last() =~= Seq::<char>::empty());
        assert(!is_code_char(hy.last()));
    }
    Seq::filter_distributes_over_add(head, hy, keep);
    Seq::filter_distributes_over_add(head + hy, mid, keep);
    Seq::filter_distributes_over_add(head + hy + mid, rest, keep);
    let front = head + mid;
    assert(code_chars(text) =~= front + code_chars(rest));
    assert(first(code_chars(text), 12) =~= front);
    assert forall|i: int| 0 <= i < 12 implies is_upper_hex(#[trigger] invite_code_of(text)[i]) by {
        let c = front[i];
        if i < 8 {
            assert(c == text[i]);
        } else {
            assert(c == text[i + 1]);
        }
        assert(is_lower_hex(c));
        capital_of_hex(c);
    }
}

/// A sequence of letters and digits is kept whole.
proof fn kept_whole(s: Seq<char>)
    requires
        forall|i: int| 0 <= i < s.len() ==> is_code_char(#[trigger] s[i]),
    ensures
        code_chars(s) == s,
    decreases s.len(),
{
    reveal(Seq::filter);
    if s.len() > 0 {
        kept_whole(s.drop_last());
        assert(is_code_char(s.last()));
        assert(s.drop_last().push(s.last()) =~= s);
    }
}

/// The capital of a lower-case hexadecimal digit is an upper-case one.
proof fn capital_of_hex(c: char)
    requires
        is_lower_hex(c),
    ensures
        is_upper_hex(capital(c)),
{
    if 'a' <= c && c <= 'f' {
        let b = c as u8;
        assert(97 <= b <= 102);
        assert(((b - 32) as u8) as char == capital(c));
        assert('A' as u8 == 65 && 'F' as u8 == 70);
    }
}

/// A fresh invitation code: twelve upper-case hexadecimal digits, the
/// first twelve of a fresh time-ordered identifier.
pub fn generate_invite_code() -> (code: String)
    ensures
        code@.len() == 12,
        forall|i: int| 0 <= i < 12 ==> is_upper_hex(#[trigger] code@[i]),
{
    let identifier = fresh_identifier();
    proof {
        code_of_identifier(identifier@);
    }
    invite_code_from(identifier.as_str())
}

} // verus!
