//! Name templates: literal text with the placeholders `{name}` and
//! `{pagan_name}`, filled in one pass from left to right.
//!
//! What is inserted for a placeholder is never scanned again, and anything that
//! is not a whole placeholder (an unmatched brace, an unknown word in braces)
//! stays as it is written.

use vstd::prelude::*;
use vstd::string::*;

verus! {

/// The placeholder for the canonical name of a day: `{name}`.
pub open spec fn name_placeholder() -> Seq<char> {
    seq!['{', 'n', 'a', 'm', 'e', '}']
}

/// The placeholder for the traditional name of a day: `{pagan_name}`.
pub open spec fn pagan_name_placeholder() -> Seq<char> {
    seq!['{', 'p', 'a', 'g', 'a', 'n', '_', 'n', 'a', 'm', 'e', '}']
}

/// `pattern` stands in `text` at position `at`.
pub open spec fn occurs_at(text: Seq<char>, at: int, pattern: Seq<char>) -> bool {
    &&& 0 <= at
    &&& at + pattern.len() <= text.len()
    &&& text.subrange(at, at + pattern.len()) == pattern
}

/// The template from position `at` on, with its placeholders filled.
///
/// `{name}` is a placeholder only where a canonical name is given; without one
/// it is literal text.
pub open spec fn substitute_from(
    template: Seq<char>,
    at: int,
    name: Option<Seq<char>>,
    pagan_name: Seq<char>,
) -> Seq<char>
    decreases template.len() - at,
{
    if at < 0 || at >= template.len() {
        Seq::empty()
    } else if name is Some && occurs_at(template, at, name_placeholder()) {
        name.unwrap() + substitute_from(template, at + 6, name, pagan_name)
    } else if occurs_at(template, at, pagan_name_placeholder()) {
        pagan_name + substitute_from(template, at + 12, name, pagan_name)
    } else {
        seq![template[at]] + substitute_from(template, at + 1, name, pagan_name)
    }
}

/// The whole template with its placeholders filled.
pub open spec fn substitute(
    template: Seq<char>,
    name: Option<Seq<char>>,
    pagan_name: Seq<char>,
) -> Seq<char> {
    substitute_from(template, 0, name, pagan_name)
}

/// The characters of an optional string slice.
pub open spec fn optional_text(text: Option<&str>) -> Option<Seq<char>> {
    match text {
        Some(t) => Some(t@),
        None => None,
    }
}

/// Tells whether `pattern` stands in `text` at position `at`; `len` is the
/// number of characters of `text`.
fn occurs_at_exec(text: &str, len: usize, at: usize, pattern: &str) -> (found: bool)
    requires
        len == text@.len(),
        at <= len,
    ensures
        found == occurs_at(text@, at as int, pattern@),
{
    let n: usize = pattern.unicode_len();
    if n > len - at {
        return false;
    }
    let mut k: usize = 0;
    while k < n
        invariant
            k <= n,
            n == pattern@.len(),
            at + n <= len,
            len == text@.len(),
            forall|j: int| 0 <= j < k ==> text@[at + j] == pattern@[j],
        decreases n - k,
    {
        if text.get_char(at + k) != pattern.get_char(k) {
            assert(text@.subrange(at as int, at + n)[k as int] != pattern@[k as int]);
            return false;
        }
        k += 1;
    }
    assert(text@.subrange(at as int, at + n) =~= pattern@);
    true
}

/// Fills the placeholders of `template`: `{name}` with `name`, where one is
/// given, and `{pagan_name}` with `pagan_name`.
pub fn render_template(template: &str, name: Option<&str>, pagan_name: &str) -> (text: String)
    ensures
        text@ == substitute(template@, optional_text(name), pagan_name@),
{
    let ghost t = template@;
    let ghost nm = optional_text(name);
    let ghost pg = pagan_name@;
    let len: usize = template.unicode_len();
    let mut out = String::new();
    let mut i: usize = 0;
    proof {
        reveal_strlit("{name}");
        reveal_strlit("{pagan_name}");
        assert("{name}"@ =~= name_placeholder());
        assert("{pagan_name}"@ =~= pagan_name_placeholder());
        assert(out@ + substitute_from(t, 0, nm, pg) =~= substitute_from(t, 0, nm, pg));
    }
    while i < len
        invariant
            i <= len,
            len == t.len(),
            t == template@,
            nm == optional_text(name),
            pg == pagan_name@,
            "{name}"@ == name_placeholder(),
            "{pagan_name}"@ == pagan_name_placeholder(),
            out@ + substitute_from(t, i as int, nm, pg) == substitute_from(t, 0, nm, pg),
        decreases len - i,
    {
        let ghost before = out@;
        let with_name: bool = match name {
            Some(n) => {
                if occurs_at_exec(template, len, i, "{name}") {
                    out.append(n);
                    proof {
                        assert((before + n@) + substitute_from(t, i + 6, nm, pg)
                            =~= before + (n@ + substitute_from(t, i + 6, nm, pg)));
                    }
                    i += 6;
                    true
                } else {
                    false
                }
            },
            None => false,
        };
        if !with_name {
            if occurs_at_exec(template, len, i, "{pagan_name}") {
                out.append(pagan_name);
                proof {
                    assert((before + pg) + substitute_from(t, i + 12, nm, pg)
                        =~= before + (pg + substitute_from(t, i + 12, nm, pg)));
                }
                i += 12;
            } else {
                let one = template.substring_char(i, i + 1);
                out.append(one);
                proof {
                    assert(one@ =~= seq![t[i as int]]);
                    assert((before + one@) + substitute_from(t, i + 1, nm, pg)
                        =~= before + (one@ + substitute_from(t, i + 1, nm, pg)));
                }
                i += 1;
            }
        }
    }
    proof {
        assert(out@ + substitute_from(t, i as int, nm, pg) =~= out@);
    }
    out
}

/// Without a placeholder in it, the template from `at` on is what is written
/// there.
proof fn lemma_literal_tail(
    template: Seq<char>,
    at: int,
    name: Option<Seq<char>>,
    pagan_name: Seq<char>,
)
    requires
        0 <= at <= template.len(),
        name is Some ==> forall|i: int| !occurs_at(template, i, name_placeholder()),
        forall|i: int| !occurs_at(template, i, pagan_name_placeholder()),
    ensures
        substitute_from(template, at, name, pagan_name) == template.subrange(
            at,
            template.len() as int,
        ),
    decreases template.len() - at,
{
    if at < template.len() {
        lemma_literal_tail(template, at + 1, name, pagan_name);
        assert(seq![template[at]] + template.subrange(at + 1, template.len() as int)
            =~= template.subrange(at, template.len() as int));
    } else {
        assert(template.subrange(at, template.len() as int) =~= Seq::<char>::empty());
    }
}

/// A template in which no placeholder stands comes out unchanged, whatever the
/// names are. Where no canonical name is given, `{name}` is no placeholder.
pub proof fn lemma_literal_template_unchanged(
    template: Seq<char>,
    name: Option<Seq<char>>,
    pagan_name: Seq<char>,
)
    requires
        name is Some ==> forall|i: int| !occurs_at(template, i, name_placeholder()),
        forall|i: int| !occurs_at(template, i, pagan_name_placeholder()),
    ensures
        substitute(template, name, pagan_name) == template,
{
    lemma_literal_tail(template, 0, name, pagan_name);
    assert(template.subrange(0, template.len() as int) =~= template);
}

/// The template `{pagan_name}` comes out as the traditional name alone,
/// whatever the canonical name is.
pub proof fn lemma_pagan_name_template(name: Option<Seq<char>>, pagan_name: Seq<char>)
    ensures
        substitute(pagan_name_placeholder(), name, pagan_name) == pagan_name,
{
    let t = pagan_name_placeholder();
    assert(t.len() == 12);
    assert(name_placeholder().len() == 6);
    assert(t.subrange(0, 6)[1] == 'p');
    assert(name_placeholder()[1] == 'n');
    assert(!occurs_at(t, 0, name_placeholder()));
    assert(t.subrange(0, 12) =~= t);
    assert(occurs_at(t, 0, pagan_name_placeholder()));
    assert(substitute_from(t, 12, name, pagan_name) =~= Seq::<char>::empty());
    assert(pagan_name + Seq::<char>::empty() =~= pagan_name);
}

/// What is inserted is not scanned again: where the template is a single
/// placeholder, the result is the inserted name even if that name itself holds
/// a placeholder.
pub proof fn lemma_name_template(name: Seq<char>, pagan_name: Seq<char>)
    ensures
        substitute(name_placeholder(), Some(name), pagan_name) == name,
{
    let t = name_placeholder();
    assert(t.len() == 6);
    assert(t.subrange(0, 6) =~= t);
    assert(occurs_at(t, 0, name_placeholder()));
    assert(substitute_from(t, 6, Some(name), pagan_name) =~= Seq::<char>::empty());
    assert(name + Seq::<char>::empty() =~= name);
}

} // verus!
