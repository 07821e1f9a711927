use vstd::prelude::*;
use vstd::string::*;

verus! {

/// The ASCII digit for `d`, which is below ten.
pub open spec fn digit_char(d: nat) -> char {
    if d == 0 { '0' }
    else if d == 1 { '1' }
    else if d == 2 { '2' }
    else if d == 3 { '3' }
    else if d == 4 { '4' }
    else if d == 5 { '5' }
    else if d == 6 { '6' }
    else if d == 7 { '7' }
    else if d == 8 { '8' }
    else { '9' }
}

/// `n` written in decimal, most significant digit first, without leading zeros.
pub open spec fn decimal(n: nat) -> Seq<char>
    decreases n,
{
    if n < 10 {
        seq![digit_char(n)]
    } else {
        decimal(n / 10).push(digit_char(n % 10))
    }
}

/// The parts joined with `sep` between each two neighbours: nothing for no
/// parts, no separator before the first part nor after the last.
pub open spec fn join_with(parts: Seq<Seq<char>>, sep: char) -> Seq<char>
    decreases parts.len(),
{
    if parts.len() == 0 {
        Seq::empty()
    } else if parts.len() == 1 {
        parts[0]
    } else {
        join_with(parts.drop_last(), sep) + seq![sep] + parts.last()
    }
}

/// The views of a slice of strings.
pub open spec fn views_of(values: Seq<&str>) -> Seq<Seq<char>> {
    values.map_values(|s: &str| s@)
}

/// The decimal renderings of a sequence of numbers.
pub open spec fn decimals_of(ids: Seq<usize>) -> Seq<Seq<char>> {
    ids.map_values(|n: usize| decimal(n as nat))
}

fn digit_str(d: usize) -> (r: &'static str)
    requires
        d < 10,
    ensures
        r@ == seq![digit_char(d as nat)],
{
    proof {
        reveal_strlit("0");
        reveal_strlit("1");
        reveal_strlit("2");
        reveal_strlit("3");
        reveal_strlit("4");
        reveal_strlit("5");
        reveal_strlit("6");
        reveal_strlit("7");
        reveal_strlit("8");
        reveal_strlit("9");
    }
    let r = match d {
        0 => "0",
        1 => "1",
        2 => "2",
        3 => "3",
        4 => "4",
        5 => "5",
        6 => "6",
        7 => "7",
        8 => "8",
        _ => "9",
    };
    assert(r@ =~= seq![digit_char(d as nat)]);
    r
}

/// Renders `n` as a decimal string.
pub fn decimal_string(n: usize) -> (r: String)
    ensures
        r@ == decimal(n as nat),
    decreases n,
{
    if n < 10 {
        String::from_str(digit_str(n))
    } else {
        let mut s = decimal_string(n / 10);
        s.append(digit_str(n % 10));
        s
    }
}

proof fn lemma_join_step(parts: Seq<Seq<char>>, i: int, sep: char)
    requires
        0 < i < parts.len(),
    ensures
        join_with(parts.subrange(0, i + 1), sep) == join_with(parts.subrange(0, i), sep) + seq![sep]
            + parts[i],
{
    assert(parts.subrange(0, i + 1).drop_last() =~= parts.subrange(0, i));
}

/// Joins the strings with `,`, keeping their order; no strings give an empty string.
pub fn comma_delimited(values: &[&str]) -> (r: String)
    ensures
        r@ == join_with(views_of(values@), ','),
{
    let ghost parts = views_of(values@);
    let mut r = String::new();
    let mut i: usize = 0;
    while i < values.len()
        invariant
            i <= values.len(),
            parts == views_of(values@),
            r@ == join_with(parts.subrange(0, i as int), ','),
        decreases values.len() - i,
    {
        proof {
            if i > 0 {
                lemma_join_step(parts, i as int, ',');
            } else {
                assert(parts.subrange(0, 1) =~= seq![parts[0]]);
            }
        }
        if i > 0 {
            r.append(",");
        }
        r.append(values[i]);
        proof {
            reveal_strlit(",");
            assert(r@ =~= join_with(parts.subrange(0, i + 1), ','));
        }
        i = i + 1;
    }
    assert(parts.subrange(0, values.len() as int) =~= parts);
    r
}

/// Joins the decimal renderings of the numbers with `,`, keeping their order;
/// no numbers give an empty string.
pub fn comma_delimited_ids(ids: &[usize]) -> (r: String)
    ensures
        r@ == join_with(decimals_of(ids@), ','),
{
    let ghost parts = decimals_of(ids@);
    let mut r = String::new();
    let mut i: usize = 0;
    while i < ids.len()
        invariant
            i <= ids.len(),
            parts == decimals_of(ids@),
            r@ == join_with(parts.subrange(0, i as int), ','),
        decreases ids.len() - i,
    {
        proof {
            if i > 0 {
                lemma_join_step(parts, i as int, ',');
            } else {
                assert(parts.subrange(0, 1) =~= seq![parts[0]]);
            }
        }
        if i > 0 {
            r.append(",");
        }
        let d = decimal_string(ids[i]);
        r.append(d.as_str());
        proof {
            reveal_strlit(",");
            assert(r@ =~= join_with(parts.subrange(0, i + 1), ','));
        }
        i = i + 1;
    }
    assert(parts.subrange(0, ids.len() as int) =~= parts);
    r
}

} // verus!

verus! {

/// The views of a sequence of owned strings.
pub open spec fn string_views(parts: Seq<String>) -> Seq<Seq<char>> {
    parts.map_values(|s: String| s@)
}

/// Joins the strings with the one-character separator `sep`, keeping their order.
pub fn join_strings(parts: &Vec<String>, sep: &str) -> (r: String)
    requires
        sep@.len() == 1,
    ensures
        r@ == join_with(string_views(parts@), sep@[0]),
{
    let ghost views = string_views(parts@);
    let ghost c = sep@[0];
    let mut r = String::new();
    let mut i: usize = 0;
    while i < parts.len()
        invariant
            i <= parts.len(),
            sep@ == seq![c],
            views == string_views(parts@),
            r@ == join_with(views.subrange(0, i as int), c),
        decreases parts.len() - i,
    {
        proof {
            if i > 0 {
                lemma_join_step(views, i as int, c);
            } else {
                assert(views.subrange(0, 1) =~= seq![views[0]]);
            }
        }
        if i > 0 {
            r.append(sep);
        }
        r.append(parts[i].as_str());
        assert(r@ =~= join_with(views.subrange(0, i + 1), c));
        i = i + 1;
    }
    assert(views.subrange(0, parts.len() as int) =~= views);
    r
}

} // verus!

verus! {

/// Every part is non-empty and free of `sep`.
pub open spec fn clean_parts(parts: Seq<Seq<char>>, sep: char) -> bool {
    forall|i: int| 0 <= i < parts.len() ==> #[trigger] parts[i].len() > 0 && !parts[i].contains(sep)
}

proof fn lemma_join_shape(parts: Seq<Seq<char>>, sep: char)
    requires
        parts.len() >= 1,
        clean_parts(parts, sep),
    ensures
        ({
            let j = join_with(parts, sep);
            let l = parts.last();
            &&& j.len() >= l.len()
            &&& j.subrange(j.len() - l.len(), j.len() as int) == l
            &&& parts.len() == 1 ==> j == l
            &&& parts.len() >= 2 ==> j.len() >= l.len() + 1 && j[j.len() - l.len() - 1] == sep
                && j.subrange(0, j.len() - l.len() - 1) == join_with(parts.drop_last(), sep)
        }),
{
    let j = join_with(parts, sep);
    let l = parts.last();
    if parts.len() >= 2 {
        let a = join_with(parts.drop_last(), sep);
        assert(j == a + seq![sep] + l);
        assert(j.subrange(j.len() - l.len(), j.len() as int) =~= l);
        assert(j.subrange(0, j.len() - l.len() - 1) =~= a);
    } else {
        assert(j.subrange(j.len() - l.len(), j.len() as int) =~= l);
    }
}

/// A text joined from non-empty, `sep`-free parts determines its parts: no
/// other such list joins to the same text.
pub proof fn lemma_join_injective(p1: Seq<Seq<char>>, p2: Seq<Seq<char>>, sep: char)
    requires
        clean_parts(p1, sep),
        clean_parts(p2, sep),
        join_with(p1, sep) == join_with(p2, sep),
    ensures
        p1 == p2,
    decreases p1.len() + p2.len(),
{
    let j = join_with(p1, sep);
    if p1.len() == 0 || p2.len() == 0 {
        if p1.len() > 0 {
            lemma_join_shape(p1, sep);
            assert(p1.last().len() > 0);
        } else if p2.len() > 0 {
            lemma_join_shape(p2, sep);
            assert(p2.last().len() > 0);
        }
        assert(p1 =~= p2);
    } else {
        lemma_join_shape(p1, sep);
        lemma_join_shape(p2, sep);
        let l1 = p1.last();
        let l2 = p2.last();
        assert(l1.len() > 0 && !l1.contains(sep));
        assert(l2.len() > 0 && !l2.contains(sep));
        if l1.len() < l2.len() {
            if p1.len() == 1 {
                assert(false);
            } else {
                let k = l2.len() - l1.len() - 1;
                let tail = j.subrange(j.len() - l2.len(), j.len() as int);
                assert(tail[k] == j[j.len() - l1.len() - 1]);
                assert(l2[k] == sep);
                assert(l2.contains(sep));
            }
        } else if l2.len() < l1.len() {
            if p2.len() == 1 {
                assert(false);
            } else {
                let k = l1.len() - l2.len() - 1;
                let tail = j.subrange(j.len() - l1.len(), j.len() as int);
                assert(tail[k] == j[j.len() - l2.len() - 1]);
                assert(l1[k] == sep);
                assert(l1.contains(sep));
            }
        }
        assert(l1 == l2);
        if p1.len() == 1 && p2.len() >= 2 {
            let k = j.len() - l2.len() - 1;
            assert(l1[k] == sep);
            assert(l1.contains(sep));
        } else if p2.len() == 1 && p1.len() >= 2 {
            let k = j.len() - l1.len() - 1;
            assert(l2[k] == sep);
            assert(l2.contains(sep));
        } else if p1.len() >= 2 {
            let d1 = p1.drop_last();
            let d2 = p2.drop_last();
            assert(clean_parts(d1, sep)) by {
                assert forall|i: int| 0 <= i < d1.len() implies #[trigger] d1[i].len() > 0
                    && !d1[i].contains(sep) by {
                    assert(d1[i] == p1[i]);
                }
            }
            assert(clean_parts(d2, sep)) by {
                assert forall|i: int| 0 <= i < d2.len() implies #[trigger] d2[i].len() > 0
                    && !d2[i].contains(sep) by {
                    assert(d2[i] == p2[i]);
                }
            }
            lemma_join_injective(d1, d2, sep);
            assert(p1.len() == p2.len());
            assert forall|i: int| 0 <= i < p1.len() implies p1[i] == p2[i] by {
                if i < d1.len() {
                    assert(p1[i] == d1[i]);
                    assert(p2[i] == d2[i]);
                }
            }
            assert(p1 =~= p2);
        } else {
            assert(p1 =~= p2);
        }
    }
}

} // verus!
