use vstd::prelude::*;

verus! {

/// The parts joined by `d`, in order: `p0 d p1 d ... d pn`; empty for no part.
pub open spec fn joined(parts: Seq<Seq<char>>, d: Seq<char>) -> Seq<char>
    decreases parts.len(),
{
    if parts.len() == 0 {
        Seq::empty()
    } else if parts.len() == 1 {
        parts[0]
    } else {
        joined(parts.drop_last(), d) + d + parts.last()
    }
}

/// The parts that are not the empty string, in their order.
pub open spec fn non_empty(parts: Seq<Seq<char>>) -> Seq<Seq<char>> {
    parts.filter(|p: Seq<char>| p.len() > 0)
}

/// The views of a sequence of string slices.
pub open spec fn views(words: Seq<&str>) -> Seq<Seq<char>> {
    words.map_values(|w: &str| w@)
}

/// The name built of an adjective, a noun and a token: the non-empty ones,
/// in that order, joined by the delimiter.
pub open spec fn name_of(
    adjective: Seq<char>,
    noun: Seq<char>,
    token: Seq<char>,
    delimiter: Seq<char>,
) -> Seq<char> {
    joined(non_empty(seq![adjective, noun, token]), delimiter)
}

proof fn lemma_joined_push(parts: Seq<Seq<char>>, p: Seq<char>, d: Seq<char>)
    ensures
        joined(parts.push(p), d) == if parts.len() == 0 {
            p
        } else {
            joined(parts, d) + d + p
        },
{
    assert(parts.push(p).drop_last() =~= parts);
}

proof fn lemma_non_empty_take(parts: Seq<Seq<char>>, i: int)
    requires
        0 <= i < parts.len(),
    ensures
        non_empty(parts.take(i + 1)) == if parts[i].len() > 0 {
            non_empty(parts.take(i)).push(parts[i])
        } else {
            non_empty(parts.take(i))
        },
{
    reveal(Seq::filter);
    assert(parts.take(i + 1).drop_last() =~= parts.take(i));
    assert(parts.take(i + 1).last() == parts[i]);
}

/// Joins the non-empty parts with `delimiter`; the empty parts are left out,
/// and no part leaves the result empty.
pub fn join_non_empty(parts: &[&str], delimiter: &str) -> (r: String)
    ensures
        r@ == joined(non_empty(views(parts@)), delimiter@),
{
    let ghost vs = views(parts@);
    let mut out = String::new();
    let mut any = false;
    let mut i: usize = 0;
    while i < parts.len()
        invariant
            i <= parts.len(),
            vs == views(parts@),
            out@ == joined(non_empty(vs.take(i as int)), delimiter@),
            any == (non_empty(vs.take(i as int)).len() > 0),
        decreases parts.len() - i,
    {
        let p: &str = parts[i];
        proof {
            lemma_non_empty_take(vs, i as int);
            lemma_joined_push(non_empty(vs.take(i as int)), vs[i as int], delimiter@);
        }
        if !p.is_empty() {
            if any {
                out.append(delimiter);
            }
            out.append(p);
            any = true;
        }
        i = i + 1;
    }
    assert(vs.take(parts.len() as int) =~= vs);
    out
}

/// With all three parts non-empty, the name is `adjective d noun d token`.
pub proof fn lemma_name_of_three(adjective: Seq<char>, noun: Seq<char>, token: Seq<char>, d: Seq<char>)
    requires
        adjective.len() > 0,
        noun.len() > 0,
        token.len() > 0,
    ensures
        name_of(adjective, noun, token, d) == adjective + d + noun + d + token,
{
    let parts = seq![adjective, noun, token];
    lemma_non_empty_take(parts, 0);
    lemma_non_empty_take(parts, 1);
    lemma_non_empty_take(parts, 2);
    reveal(Seq::filter);
    assert(parts.take(0).filter(|p: Seq<char>| p.len() > 0) =~= Seq::empty());
    assert(parts.take(3) =~= parts);
    let kept = non_empty(parts);
    assert(kept =~= seq![adjective, noun, token]);
    assert(kept.drop_last() =~= seq![adjective, noun]);
    assert(kept.drop_last().drop_last() =~= seq![adjective]);
    assert(joined(seq![adjective], d) == adjective);
    assert(joined(seq![adjective, noun], d) == adjective + d + noun);
    assert(joined(kept, d) =~= adjective + d + noun + d + token);
}

/// With an empty token and a non-empty adjective and noun, the name is
/// `adjective d noun`.
pub proof fn lemma_name_of_two(adjective: Seq<char>, noun: Seq<char>, d: Seq<char>)
    requires
        adjective.len() > 0,
        noun.len() > 0,
    ensures
        name_of(adjective, noun, Seq::empty(), d) == adjective + d + noun,
{
    let parts = seq![adjective, noun, Seq::<char>::empty()];
    lemma_non_empty_take(parts, 0);
    lemma_non_empty_take(parts, 1);
    lemma_non_empty_take(parts, 2);
    reveal(Seq::filter);
    assert(parts.take(0).filter(|p: Seq<char>| p.len() > 0) =~= Seq::empty());
    assert(parts.take(3) =~= parts);
    let kept = non_empty(parts);
    assert(kept =~= seq![adjective, noun]);
    assert(kept.drop_last() =~= seq![adjective]);
    assert(joined(seq![adjective], d) == adjective);
    assert(joined(kept, d) =~= adjective + d + noun);
}

/// With all three parts empty, the name is empty.
pub proof fn lemma_name_of_none(d: Seq<char>)
    ensures
        name_of(Seq::empty(), Seq::empty(), Seq::empty(), d) == Seq::<char>::empty(),
{
    let e = Seq::<char>::empty();
    let parts = seq![e, e, e];
    lemma_non_empty_take(parts, 0);
    lemma_non_empty_take(parts, 1);
    lemma_non_empty_take(parts, 2);
    reveal(Seq::filter);
    assert(parts.take(0).filter(|p: Seq<char>| p.len() > 0) =~= Seq::empty());
    assert(parts.take(3) =~= parts);
    assert(non_empty(parts) =~= Seq::empty());
}

} // verus!
