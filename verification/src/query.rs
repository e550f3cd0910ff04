//! The structure of a query string: pairs joined by `&`, each a name and a value joined by `=`.
use vstd::prelude::*;
use vstd::utf8::encode_utf8;

#[allow(unused_imports)]
use crate::percent::{percent_encoded_text_has_no_delimiter, query_value};

verus! {

/// The part of `text` before the first `mark`, or all of it.
pub open spec fn before(text: Seq<char>, mark: char) -> Seq<char>
    decreases text.len(),
{
    if text.len() == 0 || text[0] == mark {
        seq![]
    } else {
        seq![text[0]] + before(text.skip(1), mark)
    }
}

/// The part of `text` after the first `mark`, or nothing.
pub open spec fn after(text: Seq<char>, mark: char) -> Seq<char>
    decreases text.len(),
{
    if text.len() == 0 {
        seq![]
    } else if text[0] == mark {
        text.skip(1)
    } else {
        after(text.skip(1), mark)
    }
}

/// The names and values of a query, in order, as they are written. Empty parts are passed over,
/// and a part without `=` is a name with an empty value.
pub open spec fn query_parts(query: Seq<char>) -> Seq<(Seq<char>, Seq<char>)>
    decreases query.len(),
{
    if query.len() == 0 {
        seq![]
    } else {
        proof {
            after_is_shorter(query, '&');
        }
        let part = before(query, '&');
        let rest = query_parts(after(query, '&'));
        if part.len() == 0 {
            rest
        } else {
            seq![(before(part, '='), after(part, '='))] + rest
        }
    }
}

/// The query in which names and values are written, each of them percent-encoded.
pub open spec fn written_query(pairs: Seq<(Seq<char>, Seq<char>)>) -> Seq<char>
    decreases pairs.len(),
{
    if pairs.len() == 0 {
        seq![]
    } else {
        let pair = query_value(pairs[0].0) + seq!['='] + query_value(pairs[0].1);
        if pairs.len() == 1 {
            pair
        } else {
            pair + seq!['&'] + written_query(pairs.skip(1))
        }
    }
}

/// Says that `mark` does not occur in `text`.
pub open spec fn free_of(text: Seq<char>, mark: char) -> bool {
    forall|i: int| 0 <= i < text.len() ==> #[trigger] text[i] != mark
}

/// What follows a mark is shorter than the whole.
pub proof fn after_is_shorter(text: Seq<char>, mark: char)
    requires
        text.len() > 0,
    ensures
        after(text, mark).len() < text.len(),
    decreases text.len(),
{
    reveal_with_fuel(after, 2);
    if text[0] != mark && text.len() > 1 {
        after_is_shorter(text.skip(1), mark);
    }
}

/// A text is cut at its first mark.
proof fn cut_at_mark(left: Seq<char>, mark: char, right: Seq<char>)
    requires
        free_of(left, mark),
    ensures
        before(left + seq![mark] + right, mark) == left,
        after(left + seq![mark] + right, mark) == right,
    decreases left.len(),
{
    let text = left + seq![mark] + right;
    if left.len() == 0 {
        assert(text.skip(1) =~= right);
        assert(left =~= seq![]);
    } else {
        let tail = left.skip(1);
        assert forall|i: int| 0 <= i < tail.len() implies #[trigger] tail[i] != mark by {
            assert(tail[i] == left[i + 1]);
        }
        cut_at_mark(tail, mark, right);
        assert(text.skip(1) =~= tail + seq![mark] + right);
        assert(text[0] == left[0]);
        assert(left =~= seq![left[0]] + tail);
    }
}

/// A text without the mark is not cut.
proof fn uncut_without_mark(text: Seq<char>, mark: char)
    requires
        free_of(text, mark),
    ensures
        before(text, mark) == text,
        after(text, mark) == Seq::<char>::empty(),
    decreases text.len(),
{
    if text.len() == 0 {
        assert(text =~= seq![]);
    } else {
        let tail = text.skip(1);
        assert forall|i: int| 0 <= i < tail.len() implies #[trigger] tail[i] != mark by {
            assert(tail[i] == text[i + 1]);
        }
        uncut_without_mark(tail, mark);
        assert(text =~= seq![text[0]] + tail);
    }
}

/// A query of one pair is read as that pair.
proof fn query_of_one_pair(name: Seq<char>, value: Seq<char>)
    requires
        free_of(name, '&'),
        free_of(name, '='),
        free_of(value, '&'),
    ensures
        query_parts(name + seq!['='] + value) == seq![(name, value)],
{
    let query = name + seq!['='] + value;
    assert forall|i: int| 0 <= i < query.len() implies #[trigger] query[i] != '&' by {
        if i < name.len() {
            assert(query[i] == name[i]);
        } else if i > name.len() {
            assert(query[i] == value[i - name.len() - 1]);
        }
    }
    uncut_without_mark(query, '&');
    cut_at_mark(name, '=', value);
    assert(query_parts(Seq::<char>::empty()) =~= seq![]);
    assert(seq![(name, value)] + query_parts(Seq::<char>::empty()) =~= seq![(name, value)]);
}

/// A query that starts with a pair is read as that pair and then the rest.
proof fn query_of_pair_and_rest(name: Seq<char>, value: Seq<char>, rest: Seq<char>)
    requires
        free_of(name, '&'),
        free_of(name, '='),
        free_of(value, '&'),
    ensures
        query_parts(name + seq!['='] + value + seq!['&'] + rest) == seq![(name, value)]
            + query_parts(rest),
{
    let part = name + seq!['='] + value;
    let query = part + seq!['&'] + rest;
    assert forall|i: int| 0 <= i < part.len() implies #[trigger] part[i] != '&' by {
        if i < name.len() {
            assert(part[i] == name[i]);
        } else if i > name.len() {
            assert(part[i] == value[i - name.len() - 1]);
        }
    }
    cut_at_mark(part, '&', rest);
    cut_at_mark(name, '=', value);
}

/// Names and values, each as it stands in a query.
pub open spec fn written_pairs(pairs: Seq<(Seq<char>, Seq<char>)>) -> Seq<(Seq<char>, Seq<char>)> {
    pairs.map_values(|p: (Seq<char>, Seq<char>)| (query_value(p.0), query_value(p.1)))
}

/// A query splits into exactly the names and values with which it was written, whatever characters
/// they hold.
pub proof fn written_query_is_read_back(pairs: Seq<(Seq<char>, Seq<char>)>)
    ensures
        query_parts(written_query(pairs)) == written_pairs(pairs),
    decreases pairs.len(),
{
    if pairs.len() == 0 {
        assert(written_pairs(pairs) =~= seq![]);
    } else {
        let name = query_value(pairs[0].0);
        let value = query_value(pairs[0].1);
        query_value_is_free_of_marks(pairs[0].0);
        query_value_is_free_of_marks(pairs[0].1);
        if pairs.len() == 1 {
            query_of_one_pair(name, value);
        } else {
            let rest = pairs.skip(1);
            written_query_is_read_back(rest);
            query_of_pair_and_rest(name, value, written_query(rest));
            assert(written_pairs(rest) =~= written_pairs(pairs).skip(1));
        }
        assert(written_pairs(pairs) =~= seq![(name, value)] + written_pairs(pairs.skip(1)));
    }
}

/// A query value holds none of the marks that structure a URL.
proof fn query_value_is_free_of_marks(value: Seq<char>)
    ensures
        free_of(query_value(value), '&'),
        free_of(query_value(value), '='),
        free_of(query_value(value), '?'),
        free_of(query_value(value), '#'),
{
    let text = query_value(value);
    assert forall|i: int| 0 <= i < text.len() implies text[i] != '&' && text[i] != '=' && text[i]
        != '?' && text[i] != '#' by {
        percent_encoded_text_has_no_delimiter(encode_utf8(value), i);
    }
}

} // verus!
