//! One-line rendering of a standardized address.

use vstd::prelude::*;
use vstd::string::*;

use crate::address::{AddressModel, StandardizedAddress};

verus! {

/// The parts joined with `sep` between each two neighbours.
pub open spec fn join(parts: Seq<Seq<char>>, sep: Seq<char>) -> Seq<char>
    decreases parts.len(),
{
    if parts.len() == 0 {
        seq![]
    } else if parts.len() == 1 {
        parts[0]
    } else {
        join(parts.drop_last(), sep) + sep + parts.last()
    }
}

/// `acc`, extended by the component's text where the component is present.
pub open spec fn push_present(acc: Seq<Seq<char>>, c: Option<Seq<char>>) -> Seq<Seq<char>> {
    match c {
        Some(t) => acc.push(t),
        None => acc,
    }
}

/// The present components of the street line, in order: house number,
/// pre-direction, name, suffix type, suffix direction.
pub open spec fn street_words(a: AddressModel) -> Seq<Seq<char>> {
    push_present(
        push_present(
            push_present(push_present(push_present(seq![], a.house_num), a.predir), a.name),
            a.suftype,
        ),
        a.sufdir,
    )
}

/// The present components of the locality line, in order: city, state,
/// postcode.
pub open spec fn locality_words(a: AddressModel) -> Seq<Seq<char>> {
    push_present(push_present(push_present(seq![], a.city), a.state), a.postcode)
}

/// The parts of the rendering: the street line where it has a word, the
/// unit where present, the locality line where it has a word.
pub open spec fn text_parts(a: AddressModel) -> Seq<Seq<char>> {
    let street = street_words(a);
    let locality = locality_words(a);
    let p1 = if street.len() > 0 {
        seq![join(street, " "@)]
    } else {
        seq![]
    };
    let p2 = push_present(p1, a.unit);
    if locality.len() > 0 {
        p2.push(join(locality, " "@))
    } else {
        p2
    }
}

/// The one-line rendering of an address: its parts separated by ", ".
pub open spec fn address_text(a: AddressModel) -> Seq<char> {
    join(text_parts(a), ", "@)
}

/// The texts of a sequence of strings.
pub open spec fn texts(v: Seq<String>) -> Seq<Seq<char>> {
    v.map_values(|s: String| s@)
}

/// Pushes a copy of the component's text, where it is present.
fn push_component(parts: &mut Vec<String>, c: &Option<String>)
    ensures
        texts(final(parts)@) == push_present(texts(old(parts)@), c.deep_view()),
{
    match c {
        Some(t) => {
            parts.push(t.clone());
            assert(texts(parts@) =~= texts(old(parts)@).push(t@));
        },
        None => {},
    }
}

/// The strings joined with `sep`.
fn join_strings(parts: &Vec<String>, sep: &str) -> (res: String)
    ensures
        res@ == join(texts(parts@), sep@),
{
    let ghost all = texts(parts@);
    let mut res = String::new();
    let n = parts.len();
    let mut i: usize = 0;
    while i < n
        invariant
            n == parts@.len(),
            all == texts(parts@),
            i <= n,
            res@ == join(all.take(i as int), sep@),
        decreases n - i,
    {
        assert(all.take(i + 1).drop_last() =~= all.take(i as int));
        if i > 0 {
            res.append(sep);
        } else {
            assert(res@ =~= seq![]);
        }
        res.append(parts[i].as_str());
        i = i + 1;
        assert(res@ =~= join(all.take(i as int), sep@));
    }
    assert(all.take(n as int) =~= all);
    res
}

/// Single-line render of an address: house number, pre-direction, name,
/// suffix type and suffix direction joined by spaces; then
/// the unit; then city, state and postcode joined by spaces; the lines
/// that hold something joined by ", ".
pub fn as_text(a: &StandardizedAddress) -> (res: String)
    ensures
        res@ == address_text(a@),
{
    let mut street: Vec<String> = Vec::new();
    assert(texts(street@) =~= seq![]);
    push_component(&mut street, &a.house_num);
    push_component(&mut street, &a.predir);
    push_component(&mut street, &a.name);
    push_component(&mut street, &a.suftype);
    push_component(&mut street, &a.sufdir);
    let mut locality: Vec<String> = Vec::new();
    assert(texts(locality@) =~= seq![]);
    push_component(&mut locality, &a.city);
    push_component(&mut locality, &a.state);
    push_component(&mut locality, &a.postcode);
    let mut parts: Vec<String> = Vec::new();
    assert(texts(parts@) =~= seq![]);
    if street.len() > 0 {
        let line = join_strings(&street, " ");
        parts.push(line);
        assert(texts(parts@) =~= seq![join(street_words(a@), " "@)]);
    }
    push_component(&mut parts, &a.unit);
    if locality.len() > 0 {
        let line = join_strings(&locality, " ");
        let ghost before = texts(parts@);
        parts.push(line);
        assert(texts(parts@) =~= before.push(join(locality_words(a@), " "@)));
    }
    join_strings(&parts, ", ")
}

/// The text of a component as a list of at most one word.
pub open spec fn word_of(c: Option<Seq<char>>) -> Seq<Seq<char>> {
    match c {
        Some(t) => seq![t],
        None => seq![],
    }
}

/// A line made of words: one part where there is a word, none otherwise.
pub open spec fn line_of(words: Seq<Seq<char>>) -> Seq<Seq<char>> {
    if words.len() > 0 {
        seq![join(words, " "@)]
    } else {
        seq![]
    }
}

proof fn lemma_push_present(acc: Seq<Seq<char>>, c: Option<Seq<char>>)
    ensures
        push_present(acc, c) == acc + word_of(c),
{
    assert(push_present(acc, c) =~= acc + word_of(c));
}

/// The street line holds the house number, pre-direction, name, suffix type
/// and suffix direction that are present, in that order, each one's
/// presence decided by that component alone.
pub proof fn lemma_street_words_concat(a: AddressModel)
    ensures
        street_words(a) == word_of(a.house_num) + word_of(a.predir) + word_of(a.name) + word_of(
            a.suftype,
        ) + word_of(a.sufdir),
{
    let s0 = Seq::<Seq<char>>::empty();
    lemma_push_present(s0, a.house_num);
    let s1 = push_present(s0, a.house_num);
    lemma_push_present(s1, a.predir);
    let s2 = push_present(s1, a.predir);
    lemma_push_present(s2, a.name);
    let s3 = push_present(s2, a.name);
    lemma_push_present(s3, a.suftype);
    let s4 = push_present(s3, a.suftype);
    lemma_push_present(s4, a.sufdir);
    assert(s0 + word_of(a.house_num) =~= word_of(a.house_num));
    assert(street_words(a) =~= word_of(a.house_num) + word_of(a.predir) + word_of(a.name)
        + word_of(a.suftype) + word_of(a.sufdir));
}

/// The locality line holds the city, state and postcode that are present,
/// in that order, each one's presence decided by that component alone.
pub proof fn lemma_locality_words_concat(a: AddressModel)
    ensures
        locality_words(a) == word_of(a.city) + word_of(a.state) + word_of(a.postcode),
{
    let s0 = Seq::<Seq<char>>::empty();
    lemma_push_present(s0, a.city);
    let s1 = push_present(s0, a.city);
    lemma_push_present(s1, a.state);
    let s2 = push_present(s1, a.state);
    lemma_push_present(s2, a.postcode);
    assert(s0 + word_of(a.city) =~= word_of(a.city));
    assert(locality_words(a) =~= word_of(a.city) + word_of(a.state) + word_of(a.postcode));
}

/// The parts of the rendering are the street line, the unit and the
/// locality line, each where it holds something, in that order.
pub proof fn lemma_text_parts_concat(a: AddressModel)
    ensures
        text_parts(a) == line_of(street_words(a)) + word_of(a.unit) + line_of(locality_words(a)),
{
    lemma_push_present(line_of(street_words(a)), a.unit);
    assert(text_parts(a) =~= line_of(street_words(a)) + word_of(a.unit) + line_of(
        locality_words(a),
    ));
}

/// A single part joins to itself; a further part is added after the
/// separator.
pub proof fn lemma_join_steps(parts: Seq<Seq<char>>, x: Seq<char>, sep: Seq<char>)
    ensures
        join(seq![x], sep) == x,
        join(Seq::<Seq<char>>::empty(), sep) == Seq::<char>::empty(),
        parts.len() > 0 ==> join(parts.push(x), sep) == join(parts, sep) + sep + x,
{
    assert(parts.push(x).drop_last() =~= parts);
}

/// A joined text starts with its first part.
pub proof fn lemma_join_starts_with_first(parts: Seq<Seq<char>>, sep: Seq<char>)
    requires
        parts.len() > 0,
    ensures
        join(parts, sep).len() >= parts[0].len(),
        join(parts, sep).subrange(0, parts[0].len() as int) == parts[0],
    decreases parts.len(),
{
    if parts.len() > 1 {
        let pre = parts.drop_last();
        lemma_join_starts_with_first(pre, sep);
        assert(pre[0] == parts[0]);
        let j = join(parts, sep);
        assert(j == join(pre, sep) + sep + parts.last());
        assert(j.subrange(0, parts[0].len() as int) =~= join(pre, sep).subrange(
            0,
            parts[0].len() as int,
        ));
    } else {
        assert(parts[0].subrange(0, parts[0].len() as int) =~= parts[0]);
    }
}

/// With a name and a suffix type and no house number, pre-direction or
/// suffix direction, the rendering starts with the name, a space and the
/// suffix type, whatever the other components hold.
pub proof fn lemma_text_starts_with_name_and_suffix_type(a: AddressModel, n: Seq<char>, t: Seq<char>)
    requires
        a.house_num is None,
        a.predir is None,
        a.name == Some(n),
        a.suftype == Some(t),
        a.sufdir is None,
    ensures
        ({
            let line = n + " "@ + t;
            &&& address_text(a).len() >= line.len()
            &&& address_text(a).subrange(0, line.len() as int) == line
        }),
{
    lemma_street_words_concat(a);
    assert(street_words(a) =~= seq![n, t]);
    assert(street_words(a).drop_last() =~= seq![n]);
    assert(join(street_words(a), " "@) == join(seq![n], " "@) + " "@ + t);
    let parts = text_parts(a);
    assert(parts[0] == join(street_words(a), " "@));
    lemma_join_starts_with_first(parts, ", "@);
}

/// The rendering reads only the house number, pre-direction, name, suffix
/// type, suffix direction, unit, city, state and postcode: two
/// addresses that agree on these render alike.
pub proof fn lemma_text_reads_rendered_components(a: AddressModel, b: AddressModel)
    requires
        a.house_num == b.house_num,
        a.predir == b.predir,
        a.name == b.name,
        a.suftype == b.suftype,
        a.sufdir == b.sufdir,
        a.unit == b.unit,
        a.city == b.city,
        a.state == b.state,
        a.postcode == b.postcode,
    ensures
        address_text(a) == address_text(b),
{
}

/// An address with none of the rendered components renders as the empty
/// text.
pub proof fn lemma_text_of_nothing(a: AddressModel)
    requires
        a.house_num is None,
        a.predir is None,
        a.name is None,
        a.suftype is None,
        a.sufdir is None,
        a.unit is None,
        a.city is None,
        a.state is None,
        a.postcode is None,
    ensures
        address_text(a) == Seq::<char>::empty(),
{
    assert(text_parts(a) =~= Seq::<Seq<char>>::empty());
}

/// An address whose only rendered component is the unit renders as the
/// unit alone.
pub proof fn lemma_text_of_unit_alone(a: AddressModel, u: Seq<char>)
    requires
        a.house_num is None,
        a.predir is None,
        a.name is None,
        a.suftype is None,
        a.sufdir is None,
        a.unit == Some(u),
        a.city is None,
        a.state is None,
        a.postcode is None,
    ensures
        address_text(a) == u,
{
    assert(text_parts(a) =~= seq![u]);
}

/// With a street line, a unit and a locality line, the rendering is the
/// three joined by ", ", each line's words joined by " ".
pub proof fn lemma_text_of_full_address(a: AddressModel, u: Seq<char>)
    requires
        street_words(a).len() > 0,
        a.unit == Some(u),
        locality_words(a).len() > 0,
    ensures
        address_text(a) == join(street_words(a), " "@) + ", "@ + u + ", "@ + join(
            locality_words(a),
            " "@,
        ),
{
    let parts = text_parts(a);
    assert(parts =~= seq![join(street_words(a), " "@), u, join(locality_words(a), " "@)]);
    assert(parts.drop_last() =~= seq![join(street_words(a), " "@), u]);
    assert(parts.drop_last().drop_last() =~= seq![join(street_words(a), " "@)]);
    assert(join(parts.drop_last().drop_last(), ", "@) == join(street_words(a), " "@));
    assert(join(parts.drop_last(), ", "@) == join(street_words(a), " "@) + ", "@ + u);
    assert(join(parts, ", "@) =~= join(street_words(a), " "@) + ", "@ + u + ", "@ + join(
        locality_words(a),
        " "@,
    ));
}

} // verus!
