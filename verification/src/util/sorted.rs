use vstd::prelude::*;

use crate::util::text::chars_of;

verus! {

broadcast use vstd::seq_lib::group_seq_properties;

/// Text order as `String`'s ordering gives it: character by character by
/// code point, a proper prefix coming first.
pub open spec fn spec_text_lt(a: Seq<char>, b: Seq<char>) -> bool
    decreases a.len(),
{
    if a.len() == 0 {
        b.len() > 0
    } else if b.len() == 0 {
        false
    } else if a[0] != b[0] {
        (a[0] as u32) < (b[0] as u32)
    } else {
        spec_text_lt(a.drop_first(), b.drop_first())
    }
}

pub proof fn lemma_text_lt_irreflexive(a: Seq<char>)
    ensures
        !spec_text_lt(a, a),
    decreases a.len(),
{
    if a.len() > 0 {
        lemma_text_lt_irreflexive(a.drop_first());
    }
}

pub proof fn lemma_text_lt_total(a: Seq<char>, b: Seq<char>)
    ensures
        a == b || spec_text_lt(a, b) || spec_text_lt(b, a),
        !(spec_text_lt(a, b) && spec_text_lt(b, a)),
    decreases a.len(),
{
    if a.len() > 0 && b.len() > 0 {
        if a[0] == b[0] {
            lemma_text_lt_total(a.drop_first(), b.drop_first());
            if a.drop_first() == b.drop_first() {
                assert(a =~= seq![a[0]] + a.drop_first());
                assert(b =~= seq![b[0]] + b.drop_first());
            }
        } else {
            assert((a[0] as u32) != (b[0] as u32)) by {
                vstd::utf8::char_u32_cast(a[0], a[0] as u32);
                vstd::utf8::char_u32_cast(b[0], b[0] as u32);
            }
        }
    } else if a.len() == 0 && b.len() == 0 {
        assert(a =~= b);
    }
}

pub proof fn lemma_text_lt_transitive(a: Seq<char>, b: Seq<char>, c: Seq<char>)
    requires
        spec_text_lt(a, b),
        spec_text_lt(b, c),
    ensures
        spec_text_lt(a, c),
    decreases a.len(),
{
    if a.len() > 0 && b.len() > 0 && c.len() > 0 {
        if a[0] == b[0] && b[0] == c[0] {
            lemma_text_lt_transitive(a.drop_first(), b.drop_first(), c.drop_first());
        }
    }
}

/// The texts are in strictly increasing order (so none occurs twice).
pub open spec fn spec_strictly_sorted(s: Seq<Seq<char>>) -> bool {
    forall|i: int, j: int| 0 <= i < j < s.len() ==> spec_text_lt(#[trigger] s[i], #[trigger] s[j])
}

pub open spec fn strings_view(v: Seq<String>) -> Seq<Seq<char>> {
    v.map_values(|s: String| s@)
}

/// Whether `a` comes before `b`, and whether they are equal.
fn text_compare(a: &Vec<char>, b: &Vec<char>) -> (r: (bool, bool))
    ensures
        r.0 == spec_text_lt(a@, b@),
        r.1 == (a@ == b@),
{
    let mut i: usize = 0;
    assert(a@.subrange(0, a@.len() as int) =~= a@);
    assert(b@.subrange(0, b@.len() as int) =~= b@);
    assert(a@.subrange(0, 0) =~= b@.subrange(0, 0));
    while i < a.len() && i < b.len()
        invariant
            i <= a@.len(),
            i <= b@.len(),
            a@.subrange(0, i as int) == b@.subrange(0, i as int),
            spec_text_lt(a@, b@) == spec_text_lt(a@.subrange(i as int, a@.len() as int), b@.subrange(i as int, b@.len() as int)),
        decreases a@.len() - i,
    {
        if a[i] != b[i] {
            proof {
                assert(a@.subrange(i as int, a@.len() as int)[0] == a@[i as int]);
                assert(b@.subrange(i as int, b@.len() as int)[0] == b@[i as int]);
                if a@ == b@ {
                    assert(a@[i as int] == b@[i as int]);
                }
            }
            return ((a[i] as u32) < (b[i] as u32), false);
        }
        proof {
            assert(a@.subrange(i as int, a@.len() as int).drop_first() =~= a@.subrange(i + 1, a@.len() as int));
            assert(b@.subrange(i as int, b@.len() as int).drop_first() =~= b@.subrange(i + 1, b@.len() as int));
            assert(a@.subrange(0, i + 1) =~= a@.subrange(0, i as int).push(a@[i as int]));
            assert(b@.subrange(0, i + 1) =~= b@.subrange(0, i as int).push(b@[i as int]));
        }
        i = i + 1;
    }
    proof {
        if a@.len() == b@.len() {
            assert(a@ =~= a@.subrange(0, i as int));
            assert(b@ =~= b@.subrange(0, i as int));
        } else if i == a@.len() {
            assert(a@.subrange(i as int, a@.len() as int).len() == 0);
        } else {
            assert(b@.subrange(i as int, b@.len() as int).len() == 0);
        }
    }
    (a.len() == i && b.len() > i, a.len() == b.len())
}

/// The distinct texts of `items`, in increasing order.
pub fn sorted_unique(items: Vec<String>) -> (r: Vec<String>)
    ensures
        spec_strictly_sorted(strings_view(r@)),
        forall|t: Seq<char>| strings_view(r@).contains(t) <==> strings_view(items@).contains(t),
{
    let mut result: Vec<String> = Vec::new();
    let mut keys: Vec<Vec<char>> = Vec::new();
    let mut k: usize = 0;
    while k < items.len()
        invariant
            k <= items@.len(),
            keys@.len() == result@.len(),
            forall|i: int| 0 <= i < keys@.len() ==> #[trigger] keys@[i]@ == result@[i]@,
            spec_strictly_sorted(strings_view(result@)),
            forall|t: Seq<char>| strings_view(result@).contains(t) <==> strings_view(items@.subrange(0, k as int)).contains(t),
        decreases items@.len() - k,
    {
        let item = &items[k];
        let key = chars_of(item.as_str());
        let ghost rv = strings_view(result@);
        let mut pos: usize = 0;
        let mut found = false;
        while pos < keys.len()
            invariant_except_break
                !found,
            invariant
                pos <= keys@.len(),
                keys@.len() == result@.len(),
                forall|i: int| 0 <= i < keys@.len() ==> #[trigger] keys@[i]@ == result@[i]@,
                rv == strings_view(result@),
                key@ == item@,
                forall|i: int| 0 <= i < pos ==> spec_text_lt(#[trigger] rv[i], key@),
            ensures
                found ==> pos < rv.len() && rv[pos as int] == key@,
                !found && pos < rv.len() ==> spec_text_lt(key@, rv[pos as int]),
            decreases keys@.len() - pos,
        {
            let (lt, eq) = text_compare(&keys[pos], &key);
            proof {
                assert(keys@[pos as int]@ == rv[pos as int]);
            }
            if eq {
                found = true;
                break;
            }
            if !lt {
                proof {
                    lemma_text_lt_total(rv[pos as int], key@);
                }
                break;
            }
            pos = pos + 1;
        }
        let ghost old_items_view = strings_view(items@.subrange(0, k as int));
        proof {
            assert(strings_view(items@.subrange(0, k + 1)) =~= old_items_view.push(item@));
        }
        if !found {
            let copy = crate::util::text::str_to_string(item.as_str());
            result.insert(pos, copy);
            keys.insert(pos, key);
            proof {
                let nv = strings_view(result@);
                assert(nv =~= rv.insert(pos as int, item@));
                assert forall|i: int, j: int| 0 <= i < j < nv.len() implies spec_text_lt(#[trigger] nv[i], #[trigger] nv[j]) by {
                    if j < pos {
                        assert(nv[i] == rv[i] && nv[j] == rv[j]);
                        assert(spec_text_lt(rv[i], rv[j]));
                    } else if j == pos {
                        assert(nv[i] == rv[i] && nv[j] == key@);
                        assert(spec_text_lt(rv[i], key@));
                    } else if i < pos {
                        assert(nv[i] == rv[i] && nv[j] == rv[j - 1]);
                        assert(spec_text_lt(rv[i], rv[j - 1]));
                    } else if i == pos {
                        assert(nv[i] == key@ && nv[j] == rv[j - 1]);
                        assert(spec_text_lt(key@, rv[pos as int]));
                        if j - 1 > pos {
                            assert(spec_text_lt(rv[pos as int], rv[j - 1]));
                            lemma_text_lt_transitive(key@, rv[pos as int], rv[j - 1]);
                        }
                    } else {
                        assert(nv[i] == rv[i - 1] && nv[j] == rv[j - 1]);
                        assert(spec_text_lt(rv[i - 1], rv[j - 1]));
                    }
                }
                assert forall|i: int| 0 <= i < keys@.len() implies #[trigger] keys@[i]@ == result@[i]@ by {
                    if i < pos {
                    } else if i == pos {
                    } else {
                    }
                }
                assert forall|t: Seq<char>| nv.contains(t) <==> strings_view(items@.subrange(0, k + 1)).contains(t) by {
                    if nv.contains(t) {
                        let q = choose|q: int| 0 <= q < nv.len() && nv[q] == t;
                        if q < pos {
                            assert(rv[q] == t);
                            assert(rv.contains(t));
                        } else if q > pos {
                            assert(rv[q - 1] == t);
                            assert(rv.contains(t));
                        }
                    }
                    if strings_view(items@.subrange(0, k + 1)).contains(t) {
                        if t == item@ {
                            assert(nv[pos as int] == t);
                        } else {
                            assert(old_items_view.contains(t));
                            assert(rv.contains(t));
                            let q = choose|q: int| 0 <= q < rv.len() && rv[q] == t;
                            if q < pos {
                                assert(nv[q] == t);
                            } else {
                                assert(nv[q + 1] == t);
                            }
                        }
                    }
                }
            }
        } else {
            proof {
                assert(rv[pos as int] == item@);
            }
        }
        k = k + 1;
    }
    proof {
        assert(items@.subrange(0, items@.len() as int) =~= items@);
    }
    result
}

} // verus!
