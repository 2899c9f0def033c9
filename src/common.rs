use vstd::prelude::*;
use vstd::std_specs::iter::IteratorSpec;

verus! {

/// The characters `char::to_uppercase` yields for `c`.
pub uninterp spec fn upper_of(c: char) -> Seq<char>;

/// Relies on `char::to_uppercase`: the uppercase mapping of `c`, which
/// depends on `c` alone.
#[verifier::external_body]
fn uppercase(c: char) -> (r: Vec<char>)
    ensures
        r@ == upper_of(c),
{
    c.to_uppercase().collect()
}

/// Relies on `String::push`, which appends one char.
#[verifier::external_body]
fn push_char(s: &mut String, c: char)
    ensures
        final(s)@ == old(s)@.push(c),
{
    s.push(c)
}

/// The camel-case spelling of `s`: underscores are dropped and each
/// character that follows one (or the first, when `upper` holds) is
/// uppercased.
pub open spec fn camel_of(s: Seq<char>, upper: bool) -> Seq<char>
    decreases s.len(),
{
    if s.len() == 0 {
        Seq::empty()
    } else if s[0] == '_' {
        camel_of(s.drop_first(), true)
    } else {
        (if upper {
            upper_of(s[0])
        } else {
            seq![s[0]]
        }) + camel_of(s.drop_first(), false)
    }
}

/// Convert `snake_case` to camel case, with the first letter uppercased
/// when `first_letter_uppercase` holds.
pub fn to_camel_case(snake_case: &str, first_letter_uppercase: bool) -> (r: String)
    ensures
        r@ == camel_of(snake_case@, first_letter_uppercase),
{
    let mut ret = String::new();
    let mut last_is_underscore = first_letter_uppercase;
    let mut chars = snake_case.chars();
    let ghost whole = snake_case@;
    let ghost mut consumed: int = 0;
    loop
        invariant
            chars.obeys_prophetic_iter_laws(),
            whole == snake_case@,
            0 <= consumed <= whole.len(),
            chars.remaining().len() == whole.len() - consumed,
            ret@ + camel_of(chars.remaining(), last_is_underscore) == camel_of(
                whole,
                first_letter_uppercase,
            ),
        decreases whole.len() - consumed,
    {
        let ghost rest = chars.remaining();
        match chars.next() {
            None => {
                assert(rest.len() == 0);
                assert(camel_of(rest, last_is_underscore) =~= Seq::<char>::empty());
                assert(ret@ + camel_of(rest, last_is_underscore) =~= ret@);
                return ret;
            },
            Some(ch) => {
                let ghost before = ret@;
                if ch == '_' {
                    last_is_underscore = true;
                } else {
                    if last_is_underscore {
                        let up = uppercase(ch);
                        let mut k: usize = 0;
                        while k < up.len()
                            invariant
                                k <= up@.len(),
                                ret@ == before + up@.subrange(0, k as int),
                            decreases up@.len() - k,
                        {
                            push_char(&mut ret, up[k]);
                            k = k + 1;
                            assert(ret@ =~= before + up@.subrange(0, k as int));
                        }
                        assert(up@.subrange(0, up@.len() as int) =~= up@);
                    } else {
                        push_char(&mut ret, ch);
                    }
                    last_is_underscore = false;
                }
                proof {
                    consumed = consumed + 1;
                    assert(rest[0] == ch);
                    assert(rest.drop_first() == chars.remaining());
                    if ch != '_' {
                        let piece = ret@.subrange(before.len() as int, ret@.len() as int);
                        assert(ret@ =~= before + piece);
                        vstd::seq_lib::lemma_concat_associative(
                            before,
                            piece,
                            camel_of(chars.remaining(), false),
                        );
                    }
                }
            },
        }
    }
}

} // verus!
