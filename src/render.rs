use vstd::prelude::*;
use vstd::string::*;

use crate::encode::is_alnum;

verus! {

broadcast use vstd::string::group_string_axioms;

/// A character that may continue a placeholder's name.
pub open spec fn is_ident(c: char) -> bool {
    is_alnum(c) || c == '_'
}

/// The placeholder that stands for the service name.
pub open spec fn service_placeholder() -> Seq<char> {
    seq!['$', 's', 'e', 'r', 'v', 'i', 'c', 'e']
}

/// `t` starts with `$service`, and the placeholder's name ends there
/// (`$services` is another placeholder).
pub open spec fn placeholder_at(t: Seq<char>) -> bool {
    &&& t.len() >= 8
    &&& t.subrange(0, 8) == service_placeholder()
    &&& (t.len() == 8 || !is_ident(t[8]))
}

/// `template` with each `$service` placeholder replaced by `service`; every
/// other character is kept as it is.
pub open spec fn render(template: Seq<char>, service: Seq<char>) -> Seq<char>
    decreases template.len(),
{
    if template.len() == 0 {
        Seq::empty()
    } else if placeholder_at(template) {
        service + render(template.skip(8), service)
    } else {
        seq![template[0]] + render(template.skip(1), service)
    }
}

fn is_ident_char(c: char) -> (r: bool)
    ensures
        r == is_ident(c),
{
    ('0' <= c && c <= '9') || ('a' <= c && c <= 'z') || ('A' <= c && c <= 'Z') || c == '_'
}

/// Whether the `$service` placeholder starts at character `i` of `t`.
fn placeholder_starts(t: &str, n: usize, i: usize) -> (r: bool)
    requires
        n == t@.len(),
        i < n,
    ensures
        r == placeholder_at(t@.skip(i as int)),
{
    let word = "$service";
    proof {
        reveal_strlit("$service");
    }
    assert(word@ =~= service_placeholder());
    if n - i < 8 {
        return false;
    }
    let mut k: usize = 0;
    while k < 8
        invariant
            n == t@.len(),
            i + 8 <= n,
            k <= 8,
            word@ == service_placeholder(),
            forall|j: int| 0 <= j < k ==> t@[i + j] == service_placeholder()[j],
        decreases 8 - k,
    {
        if t.get_char(i + k) != word.get_char(k) {
            assert(t@.skip(i as int).subrange(0, 8)[k as int] != service_placeholder()[k as int]);
            return false;
        }
        k = k + 1;
    }
    assert(t@.skip(i as int).subrange(0, 8) =~= service_placeholder());
    if i + 8 == n {
        true
    } else {
        !is_ident_char(t.get_char(i + 8))
    }
}

/// Fills `template` with the service name: each `$service` placeholder is
/// replaced by `service`, every other character is kept.
pub fn render_template(template: &str, service: &str) -> (r: String)
    ensures
        r@ == render(template@, service@),
{
    let n = template.unicode_len();
    let mut out = String::new();
    let mut i: usize = 0;
    assert(template@.skip(0) =~= template@);
    while i < n
        invariant
            n == template@.len(),
            i <= n,
            out@ + render(template@.skip(i as int), service@) == render(template@, service@),
        decreases n - i,
    {
        let ghost rest = template@.skip(i as int);
        if placeholder_starts(template, n, i) {
            out.append(service);
            assert(rest.skip(8) =~= template@.skip(i + 8));
            assert(out@ + render(template@.skip(i + 8), service@) =~= render(template@, service@));
            i = i + 8;
        } else {
            let c = template.substring_char(i, i + 1);
            out.append(c);
            assert(rest.skip(1) =~= template@.skip(i + 1));
            assert(c@ =~= seq![rest[0]]);
            assert(out@ + render(template@.skip(i + 1), service@) =~= render(template@, service@));
            i = i + 1;
        }
    }
    assert(template@.skip(n as int) =~= Seq::<char>::empty());
    assert(out@ + render(Seq::<char>::empty(), service@) =~= out@);
    out
}

} // verus!
