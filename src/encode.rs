use vstd::prelude::*;
use vstd::string::*;
use vstd::utf8::is_ascii_chars;

use crate::error::Error;

verus! {

broadcast use vstd::string::group_string_axioms;

/// An ASCII letter or digit: the characters that a bus path segment keeps.
pub open spec fn is_alnum(c: char) -> bool {
    ('0' <= c && c <= '9') || ('a' <= c && c <= 'z') || ('A' <= c && c <= 'Z')
}

/// The lowercase hexadecimal digit of `d` (below 16).
pub open spec fn hex_digit(d: u32) -> char {
    if d < 10 {
        ((d + 48) as u32) as char
    } else {
        ((d + 87) as u32) as char
    }
}

/// What one character of the unit name becomes in the path segment.
pub open spec fn escape_char(c: char) -> Seq<char> {
    if is_alnum(c) {
        seq![c]
    } else {
        seq!['_', hex_digit((c as u32) / 16), hex_digit((c as u32) % 16)]
    }
}

/// Each character escaped in turn.
pub open spec fn escape(s: Seq<char>) -> Seq<char>
    decreases s.len(),
{
    if s.len() == 0 {
        Seq::empty()
    } else {
        escape(s.drop_last()) + escape_char(s.last())
    }
}

/// The unit name of a service: its name followed by `.service`.
pub open spec fn unit_name(service: Seq<char>) -> Seq<char> {
    service + ".service"@
}

/// The object path segment of a service's unit.
pub open spec fn segment(service: Seq<char>) -> Seq<char> {
    escape(unit_name(service))
}

/// The full object path of a service's unit.
pub open spec fn unit_path_of(service: Seq<char>) -> Seq<char> {
    "/org/freedesktop/systemd1/unit/"@ + segment(service)
}

/// Appends the escaped form of the ASCII text `s` to `out`.
fn escape_into(s: &str, out: &mut String)
    requires
        is_ascii_chars(s@),
    ensures
        final(out)@ == old(out)@ + escape(s@),
{
    proof {
        reveal_strlit("0123456789abcdef");
    }
    let hex = "0123456789abcdef";
    assert(hex@ =~= seq!['0', '1', '2', '3', '4', '5', '6', '7', '8', '9', 'a', 'b', 'c', 'd', 'e', 'f']);
    assert(is_ascii_chars(hex@));
    let n = s.unicode_len();
    let mut i: usize = 0;
    while i < n
        invariant
            is_ascii_chars(s@),
            n == s@.len(),
            i <= n,
            hex@ == seq!['0', '1', '2', '3', '4', '5', '6', '7', '8', '9', 'a', 'b', 'c', 'd', 'e', 'f'],
            is_ascii_chars(hex@),
            out@ == old(out)@ + escape(s@.subrange(0, i as int)),
        decreases n - i,
    {
        let c = s.get_ascii(i);
        let piece = s.substring_ascii(i, i + 1);
        let ghost ch = s@[i as int];
        assert('\0' <= ch <= '\u{7f}');
        assert(ch as u32 == c as u32);
        let ghost before = out@;
        // the ASCII codes of 0-9, a-z and A-Z
        if (48 <= c && c <= 57) || (97 <= c && c <= 122) || (65 <= c && c <= 90) {
            out.append(piece);
            assert(is_alnum(ch));
            assert(piece@ =~= escape_char(ch));
        } else {
            let hi = (c / 16) as usize;
            let lo = (c % 16) as usize;
            let high = hex.substring_ascii(hi, hi + 1);
            let low = hex.substring_ascii(lo, lo + 1);
            proof {
                reveal_strlit("_");
            }
            assert("_"@ =~= seq!['_']);
            assert(high@ =~= seq![hex@[hi as int]]);
            assert(low@ =~= seq![hex@[lo as int]]);
            out.append("_");
            out.append(high);
            out.append(low);
            assert(!is_alnum(ch));
            assert(hex@[hi as int] == hex_digit((ch as u32) / 16));
            assert(hex@[lo as int] == hex_digit((ch as u32) % 16));
            assert(out@ =~= before + escape_char(ch));
        }
        proof {
            let pre = s@.subrange(0, i as int);
            let next = s@.subrange(0, i + 1);
            assert(next.drop_last() =~= pre);
            assert(next.last() == ch);
            assert(out@ =~= old(out)@ + escape(next));
        }
        i = i + 1;
    }
    assert(s@.subrange(0, n as int) =~= s@);
}

/// The object path segment of `service`'s unit: `service` followed by
/// `.service`, with every character that is not an ASCII letter or digit
/// written as `_` and its two lowercase hexadecimal digits.
///
/// Fails with `Error::NotAscii`, and encodes nothing, when the name holds a
/// character outside ASCII.
pub fn encode(service: &str) -> (r: Result<String, Error>)
    ensures
        is_ascii_chars(service@) ==> (r matches Ok(seg) && seg@ == segment(service@)),
        !is_ascii_chars(service@) ==> r == Err::<String, Error>(Error::NotAscii),
{
    if !service.is_ascii() {
        return Err(Error::NotAscii);
    }
    proof {
        reveal_strlit(".service");
    }
    let mut out = String::new();
    escape_into(service, &mut out);
    escape_into(".service", &mut out);
    proof {
        lemma_escape_concat(service@, ".service"@);
    }
    Ok(out)
}

/// The bus object path of `service`'s unit, under
/// `/org/freedesktop/systemd1/unit/`. Fails as `encode` does.
pub fn unit_path(service: &str) -> (r: Result<String, Error>)
    ensures
        is_ascii_chars(service@) ==> (r matches Ok(p) && p@ == unit_path_of(service@)),
        !is_ascii_chars(service@) ==> r == Err::<String, Error>(Error::NotAscii),
{
    match encode(service) {
        Ok(seg) => {
            let path = String::from_str("/org/freedesktop/systemd1/unit/").concat(seg.as_str());
            Ok(path)
        },
        Err(e) => Err(e),
    }
}

/// Escaping a concatenation escapes each part.
pub proof fn lemma_escape_concat(a: Seq<char>, b: Seq<char>)
    ensures
        escape(a + b) == escape(a) + escape(b),
    decreases b.len(),
{
    if b.len() == 0 {
        assert(a + b =~= a);
        assert(escape(a) + escape(b) =~= escape(a));
    } else {
        lemma_escape_concat(a, b.drop_last());
        assert((a + b).drop_last() =~= a + b.drop_last());
        assert((a + b).last() == b.last());
        assert(escape(a) + escape(b.drop_last()) + escape_char(b.last())
            =~= escape(a) + (escape(b.drop_last()) + escape_char(b.last())));
    }
}

} // verus!
