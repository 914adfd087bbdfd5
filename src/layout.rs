use vstd::prelude::*;
use vstd::string::*;

verus! {

/// Position of the first `+` in an entry, or its length where it has none.
pub open spec fn plus_index(s: Seq<char>) -> nat
    decreases s.len(),
{
    if s.len() == 0 {
        0
    } else if s[0] == '+' {
        0
    } else {
        1 + plus_index(s.drop_first())
    }
}

/// The layout code of an input-source entry `code` or `code+variant`.
pub open spec fn layout_part(s: Seq<char>) -> Seq<char> {
    s.subrange(0, plus_index(s) as int)
}

/// The variant of an input-source entry, empty where it names none.
pub open spec fn variant_part(s: Seq<char>) -> Seq<char> {
    if plus_index(s) < s.len() {
        s.subrange(plus_index(s) as int + 1, s.len() as int)
    } else {
        Seq::empty()
    }
}

/// Parts joined with commas, in order.
pub open spec fn comma_joined(parts: Seq<Seq<char>>) -> Seq<char>
    decreases parts.len(),
{
    if parts.len() == 0 {
        Seq::empty()
    } else if parts.len() == 1 {
        parts[0]
    } else {
        comma_joined(parts.drop_last()) + seq![','] + parts.last()
    }
}

/// The layout codes of a source list, in order.
pub open spec fn layouts_of(sources: Seq<Seq<char>>) -> Seq<Seq<char>> {
    sources.map_values(|s: Seq<char>| layout_part(s))
}

/// The variants of a source list, in order, empty where an entry names none.
pub open spec fn variants_of(sources: Seq<Seq<char>>) -> Seq<Seq<char>> {
    sources.map_values(|s: Seq<char>| variant_part(s))
}

/// The character views of a list of strings.
pub open spec fn texts(v: Seq<String>) -> Seq<Seq<char>> {
    v.map_values(|s: String| s@)
}

proof fn lemma_plus_index(s: Seq<char>, i: int)
    requires
        0 <= i <= s.len(),
        forall|j: int| 0 <= j < i ==> s[j] != '+',
        i == s.len() || s[i] == '+',
    ensures
        plus_index(s) == i,
    decreases s.len(),
{
    if s.len() > 0 && s[0] != '+' {
        assert forall|j: int| 0 <= j < i - 1 implies s.drop_first()[j] != '+' by {
            assert(s.drop_first()[j] == s[j + 1]);
        }
        if i < s.len() {
            assert(s.drop_first()[i - 1] == s[i]);
        }
        lemma_plus_index(s.drop_first(), i - 1);
    }
}

/// Splits an input-source entry into its layout code and its variant.
pub fn split_layout(entry: &str) -> (r: (String, String))
    ensures
        r.0@ == layout_part(entry@),
        r.1@ == variant_part(entry@),
{
    let n = entry.unicode_len();
    let mut i: usize = 0;
    while i < n && entry.get_char(i) != '+'
        invariant
            n == entry@.len(),
            i <= n,
            forall|j: int| 0 <= j < i ==> entry@[j] != '+',
        decreases n - i,
    {
        i = i + 1;
    }
    proof {
        lemma_plus_index(entry@, i as int);
    }
    let layout = String::from_str(entry.substring_char(0, i));
    let variant = if i < n {
        String::from_str(entry.substring_char(i + 1, n))
    } else {
        String::new()
    };
    proof {
        if i >= n {
            assert(variant@ =~= Seq::<char>::empty());
        }
    }
    (layout, variant)
}

/// The layout list and the variant list of the keyboard, each joined with
/// commas in source order; `None` for an empty source list.
pub open spec fn aggregate_spec(sources: Seq<Seq<char>>) -> Option<(Seq<char>, Seq<char>)> {
    if sources.len() == 0 {
        None
    } else {
        Some((comma_joined(layouts_of(sources)), comma_joined(variants_of(sources))))
    }
}

/// Aggregates input-source entries into the keyboard's layout list and
/// variant list.
pub fn aggregate_layouts(sources: &Vec<String>) -> (r: Option<(String, String)>)
    ensures
        r is None <==> aggregate_spec(texts(sources@)) is None,
        r matches Some(p) ==> aggregate_spec(texts(sources@)) == Some((p.0@, p.1@)),
{
    let n = sources.len();
    if n == 0 {
        return None;
    }
    let ghost src = texts(sources@);
    let (mut layouts, mut variants) = split_layout(sources[0].as_str());
    proof {
        assert(src.subrange(0, 1) =~= seq![src[0]]);
        assert(layouts_of(src.subrange(0, 1)) =~= seq![layout_part(src[0])]);
        assert(variants_of(src.subrange(0, 1)) =~= seq![variant_part(src[0])]);
    }
    let mut i: usize = 1;
    while i < n
        invariant
            n == sources@.len(),
            src == texts(sources@),
            1 <= i <= n,
            layouts@ == comma_joined(layouts_of(src.subrange(0, i as int))),
            variants@ == comma_joined(variants_of(src.subrange(0, i as int))),
        decreases n - i,
    {
        let (l, v) = split_layout(sources[i].as_str());
        proof {
            let pre = src.subrange(0, i as int);
            let next = src.subrange(0, i + 1);
            assert(next.drop_last() =~= pre);
            assert(layouts_of(next).drop_last() =~= layouts_of(pre));
            assert(variants_of(next).drop_last() =~= variants_of(pre));
            assert(src[i as int] == sources@[i as int]@);
        }
        layouts.append(",");
        layouts.append(l.as_str());
        variants.append(",");
        variants.append(v.as_str());
        proof {
            reveal_strlit(",");
            let next = src.subrange(0, i + 1);
            assert(layouts@ =~= comma_joined(layouts_of(next)));
            assert(variants@ =~= comma_joined(variants_of(next)));
        }
        i = i + 1;
    }
    proof {
        assert(src.subrange(0, n as int) =~= src);
    }
    Some((layouts, variants))
}

} // verus!
