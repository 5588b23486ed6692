//! Translation of inline Discord mentions `<@id>` into the names of the users
//! they refer to. The scan finds the ids to look up, in order; the names that
//! the lookups return are then put in place of the tokens.
use vstd::prelude::*;
use crate::text::views;
use vstd::string::*;

verus! {

pub open spec fn is_digit(c: char) -> bool {
    '0' <= c && c <= '9'
}

pub open spec fn digit_value(c: char) -> nat {
    (c as u32 - '0' as u32) as nat
}

/// The number that a run of decimal digits denotes.
pub open spec fn digits_value(d: Seq<char>) -> nat
    decreases d.len(),
{
    if d.len() == 0 {
        0
    } else {
        digits_value(d.drop_last()) * 10 + digit_value(d.last())
    }
}

/// The number of consecutive digits of `s` from index `i` on.
pub open spec fn digit_run(s: Seq<char>, i: int) -> nat
    decreases s.len() - i,
{
    if 0 <= i < s.len() && is_digit(s[i]) {
        1 + digit_run(s, i + 1)
    } else {
        0
    }
}

/// A mention token starts at `i`: `<@`, one or more digits whose value fits
/// in a `u64`, and `>`.
pub open spec fn token_at(s: Seq<char>, i: int) -> bool {
    let run = digit_run(s, i + 2);
    &&& 0 <= i
    &&& i + 2 + run < s.len()
    &&& s[i] == '<'
    &&& s[i + 1] == '@'
    &&& run > 0
    &&& s[i + 2 + run] == '>'
    &&& digits_value(s.subrange(i + 2, i + 2 + run)) <= u64::MAX
}

/// The index just past the token that starts at `i`.
pub open spec fn token_end(s: Seq<char>, i: int) -> int {
    i + 3 + digit_run(s, i + 2)
}

/// The user id that the token at `i` carries.
pub open spec fn token_id(s: Seq<char>, i: int) -> u64 {
    digits_value(s.subrange(i + 2, i + 2 + digit_run(s, i + 2))) as u64
}

/// The ids of the tokens of `s` from index `i` on, scanning left to right.
pub open spec fn mention_ids_from(s: Seq<char>, i: int) -> Seq<u64>
    decreases s.len() - i,
{
    if i < 0 || i >= s.len() {
        Seq::empty()
    } else if token_at(s, i) {
        seq![token_id(s, i)] + mention_ids_from(s, token_end(s, i))
    } else {
        mention_ids_from(s, i + 1)
    }
}

/// `s` from index `i` on, each token replaced by the next of `names` and a colon.
pub open spec fn rendered_from(s: Seq<char>, i: int, names: Seq<Seq<char>>) -> Seq<char>
    decreases s.len() - i,
{
    if i < 0 || i >= s.len() {
        Seq::empty()
    } else if token_at(s, i) {
        names[0] + seq![':'] + rendered_from(s, token_end(s, i), names.drop_first())
    } else {
        seq![s[i]] + rendered_from(s, i + 1, names)
    }
}

/// The ids of the mention tokens of `s`, in the order they occur.
pub open spec fn mention_ids(s: Seq<char>) -> Seq<u64> {
    mention_ids_from(s, 0)
}

/// `s` with its `k`-th mention token replaced by `names[k]` followed by `:`.
pub open spec fn rendered(s: Seq<char>, names: Seq<Seq<char>>) -> Seq<char> {
    rendered_from(s, 0, names)
}

proof fn lemma_digit_run(s: Seq<char>, a: int, j: int)
    requires
        0 <= a <= j <= s.len(),
        forall|k: int| a <= k < j ==> is_digit(s[k]),
        j == s.len() || !is_digit(s[j]),
    ensures
        digit_run(s, a) == j - a,
    decreases j - a,
{
    if a < j {
        lemma_digit_run(s, a + 1, j);
    }
}

fn digit_of(c: char) -> (r: u64)
    requires
        is_digit(c),
    ensures
        r == digit_value(c),
{
    (c as u32 - '0' as u32) as u64
}

/// Reads the token at `i`, if there is one: its id and the index past it.
fn token_at_exec(s: &str, n: usize, i: usize) -> (r: Option<(u64, usize)>)
    requires
        n == s@.len(),
        i < n,
    ensures
        r is Some <==> token_at(s@, i as int),
        r matches Some((id, end)) ==> id == token_id(s@, i as int) && end == token_end(s@, i as int),
{
    if n - i < 3 || s.get_char(i) != '<' || s.get_char(i + 1) != '@' {
        return None;
    }
    let start: usize = i + 2;
    let mut j: usize = start;
    let mut val: u64 = 0;
    let mut big = false;
    while j < n && '0' <= s.get_char(j) && s.get_char(j) <= '9'
        invariant
            n == s@.len(),
            start == i + 2,
            start <= j <= n,
            forall|k: int| start <= k < j ==> is_digit(s@[k]),
            !big ==> val == digits_value(s@.subrange(start as int, j as int)),
            big ==> digits_value(s@.subrange(start as int, j as int)) > u64::MAX,
        decreases n - j,
    {
        let c = s.get_char(j);
        let d = digit_of(c);
        assert(s@.subrange(start as int, j + 1).drop_last() =~= s@.subrange(start as int, j as int));
        if !big {
            match val.checked_mul(10) {
                Some(v) => match v.checked_add(d) {
                    Some(w) => {
                        val = w;
                    },
                    None => {
                        big = true;
                    },
                },
                None => {
                    big = true;
                },
            }
        }
        j = j + 1;
    }
    proof {
        lemma_digit_run(s@, start as int, j as int);
    }
    if j == start || j >= n || s.get_char(j) != '>' || big {
        return None;
    }
    Some((val, j + 1))
}

/// The ids of the mention tokens of `body`, in the order they occur: the
/// lookups that translating it needs.
pub fn mention_ids_in(body: &str) -> (r: Vec<u64>)
    ensures
        r@ == mention_ids(body@),
{
    let n = body.unicode_len();
    let mut ids: Vec<u64> = Vec::new();
    let mut i: usize = 0;
    while i < n
        invariant
            n == body@.len(),
            i <= n,
            ids@ + mention_ids_from(body@, i as int) == mention_ids(body@),
        decreases n - i,
    {
        match token_at_exec(body, n, i) {
            Some((id, end)) => {
                let ghost before = ids@;
                ids.push(id);
                assert(ids@ + mention_ids_from(body@, end as int) =~= before + (seq![id]
                    + mention_ids_from(body@, end as int)));
                i = end;
            },
            None => {
                i = i + 1;
            },
        }
    }
    assert(ids@ + mention_ids_from(body@, i as int) =~= ids@);
    ids
}

/// The runs of text around the mention tokens of `s` from index `i` on: one
/// before each token, and one after the last.
pub open spec fn gaps_from(s: Seq<char>, i: int) -> Seq<Seq<char>>
    decreases s.len() - i,
{
    if i < 0 || i >= s.len() {
        seq![Seq::empty()]
    } else if token_at(s, i) {
        seq![Seq::empty()] + gaps_from(s, token_end(s, i))
    } else {
        let g = gaps_from(s, i + 1);
        g.update(0, seq![s[i]] + g[0])
    }
}

/// The mention tokens of `s` from index `i` on, as they are written.
pub open spec fn tokens_from(s: Seq<char>, i: int) -> Seq<Seq<char>>
    decreases s.len() - i,
{
    if i < 0 || i >= s.len() {
        Seq::empty()
    } else if token_at(s, i) {
        seq![s.subrange(i, token_end(s, i))] + tokens_from(s, token_end(s, i))
    } else {
        tokens_from(s, i + 1)
    }
}

/// `gaps[0] + parts[0] + gaps[1] + parts[1] + ... + gaps[n]`.
pub open spec fn woven(gaps: Seq<Seq<char>>, parts: Seq<Seq<char>>) -> Seq<char>
    decreases parts.len(),
{
    if parts.len() == 0 {
        gaps[0]
    } else {
        gaps[0] + parts[0] + woven(gaps.drop_first(), parts.drop_first())
    }
}

/// Each name followed by a colon.
pub open spec fn tagged(names: Seq<Seq<char>>) -> Seq<Seq<char>> {
    names.map_values(|n: Seq<char>| n + seq![':'])
}

proof fn lemma_woven_prepend(g: Seq<Seq<char>>, parts: Seq<Seq<char>>, p: Seq<char>)
    requires
        g.len() > 0,
    ensures
        woven(g.update(0, p + g[0]), parts) == p + woven(g, parts),
{
    let h = g.update(0, p + g[0]);
    if parts.len() > 0 {
        assert(h.drop_first() =~= g.drop_first());
        assert(woven(h, parts) =~= p + woven(g, parts));
    }
}

proof fn lemma_rendered_woven(s: Seq<char>, i: int, names: Seq<Seq<char>>)
    requires
        0 <= i <= s.len(),
        names.len() == mention_ids_from(s, i).len(),
    ensures
        gaps_from(s, i).len() == mention_ids_from(s, i).len() + 1,
        tokens_from(s, i).len() == mention_ids_from(s, i).len(),
        rendered_from(s, i, names) == woven(gaps_from(s, i), tagged(names)),
        s.subrange(i, s.len() as int) == woven(gaps_from(s, i), tokens_from(s, i)),
    decreases s.len() - i,
{
    if i >= s.len() {
        assert(s.subrange(i, s.len() as int) =~= Seq::<char>::empty());
    } else if token_at(s, i) {
        let e = token_end(s, i);
        lemma_rendered_woven(s, e, names.drop_first());
        let g = gaps_from(s, i);
        assert(g.drop_first() =~= gaps_from(s, e));
        assert(tagged(names).drop_first() =~= tagged(names.drop_first()));
        assert(tokens_from(s, i).drop_first() =~= tokens_from(s, e));
        assert(rendered_from(s, i, names) =~= woven(g, tagged(names)));
        assert(s.subrange(i, s.len() as int) =~= s.subrange(i, e) + s.subrange(e, s.len() as int));
        assert(s.subrange(i, s.len() as int) =~= woven(g, tokens_from(s, i)));
    } else {
        lemma_rendered_woven(s, i + 1, names);
        let g = gaps_from(s, i + 1);
        lemma_woven_prepend(g, tagged(names), seq![s[i]]);
        lemma_woven_prepend(g, tokens_from(s, i + 1), seq![s[i]]);
        assert(s.subrange(i, s.len() as int) =~= seq![s[i]] + s.subrange(i + 1, s.len() as int));
    }
}

/// Translating a message replaces its `n` mention tokens, left to right, by
/// the `n` names followed by a colon, whatever order the lookups finished in:
/// the runs of text around the tokens are the same in the message and in the
/// translation.
pub proof fn translation_keeps_order(s: Seq<char>, names: Seq<Seq<char>>)
    requires
        names.len() == mention_ids(s).len(),
    ensures
        gaps_from(s, 0).len() == names.len() + 1,
        tokens_from(s, 0).len() == names.len(),
        s == woven(gaps_from(s, 0), tokens_from(s, 0)),
        rendered(s, names) == woven(gaps_from(s, 0), tagged(names)),
{
    lemma_rendered_woven(s, 0, names);
    assert(s.subrange(0, s.len() as int) =~= s);
}

/// The names that the lookups returned, where every lookup returned one.
pub open spec fn all_resolved(names: Seq<Option<String>>) -> bool {
    forall|k: int| 0 <= k < names.len() ==> names[k] is Some
}

/// The views of the names that the lookups returned.
pub open spec fn resolved_views(names: Seq<Option<String>>) -> Seq<Seq<char>> {
    names.map_values(|o: Option<String>| o->0@)
}

/// Replaces each mention token of `body`, in order, by the matching entry of
/// `names` followed by a colon; the text around the tokens is kept as it is.
pub fn translate_mentions(body: &str, names: &Vec<String>) -> (r: String)
    requires
        names@.len() == mention_ids(body@).len(),
    ensures
        r@ == rendered(body@, views(names@)),
{
    let n = body.unicode_len();
    let ghost all = views(names@);
    let mut out = String::new();
    let mut i: usize = 0;
    let mut k: usize = 0;
    let count = names.len();
    proof {
        reveal_strlit(":");
        assert(all.skip(0) =~= all);
        assert(out@ + rendered_from(body@, 0, all) =~= rendered(body@, all));
    }
    while i < n
        invariant
            n == body@.len(),
            i <= n,
            k <= names@.len(),
            count == names@.len(),
            all == views(names@),
            names@.len() - k == mention_ids_from(body@, i as int).len(),
            out@ + rendered_from(body@, i as int, all.skip(k as int)) == rendered(body@, all),
            ":"@ == seq![':'],
        decreases n - i,
    {
        let ghost before = out@;
        match token_at_exec(body, n, i) {
            Some((_id, end)) => {
                assert(mention_ids_from(body@, i as int) =~= seq![token_id(body@, i as int)]
                    + mention_ids_from(body@, end as int));
                assert(k < names@.len());
                out.append(names[k].as_str());
                out.append(":");
                assert(all.skip(k as int).drop_first() =~= all.skip(k + 1));
                assert(all.skip(k as int)[0] == names@[k as int]@);
                assert(out@ + rendered_from(body@, end as int, all.skip(k + 1)) =~= before + (
                names@[k as int]@ + seq![':'] + rendered_from(body@, end as int, all.skip(k + 1))));
                i = end;
                k = k + 1;
            },
            None => {
                out.append(body.substring_char(i, i + 1));
                assert(body@.subrange(i as int, i + 1) =~= seq![body@[i as int]]);
                assert(out@ + rendered_from(body@, i + 1, all.skip(k as int)) =~= before + (seq![
                body@[i as int]] + rendered_from(body@, i + 1, all.skip(k as int))));
                i = i + 1;
            },
        }
    }
    assert(out@ + rendered_from(body@, i as int, all.skip(k as int)) =~= out@);
    out
}

/// The text sent for `body` once the lookups answered with `names`: the
/// translated body where every lookup answered, else the body as it came.
pub open spec fn translation_of(body: Seq<char>, names: Seq<Option<String>>) -> Seq<char> {
    if names.len() == mention_ids(body).len() && all_resolved(names) {
        rendered(body, resolved_views(names))
    } else {
        body
    }
}

/// Puts the looked-up names in place of the mention tokens of `body`. Where
/// the lookups did not all answer, the body is kept as it came: a message is
/// never lost because a mention could not be translated.
pub fn finish_translation(body: &String, names: Vec<Option<String>>) -> (r: String)
    ensures
        r@ == translation_of(body@, names@),
{
    let ids = mention_ids_in(body.as_str());
    if names.len() != ids.len() {
        return body.clone();
    }
    let mut found: Vec<String> = Vec::new();
    let ghost given = names@;
    let mut k: usize = 0;
    while k < names.len()
        invariant
            names@.len() == given.len(),
            k <= names@.len(),
            found@.len() == k,
            forall|j: int| 0 <= j < k ==> given[j] is Some && found@[j]@ == given[j]->0@,
            names@ == given,
        decreases names@.len() - k,
    {
        match &names[k] {
            Some(name) => {
                found.push(name.clone());
            },
            None => {
                return body.clone();
            },
        }
        k = k + 1;
    }
    assert(views(found@) =~= resolved_views(given));
    translate_mentions(body.as_str(), &found)
}

} // verus!
