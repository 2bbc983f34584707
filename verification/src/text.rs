//! Texts: comparing them, splitting one at a separator and joining a list.

use vstd::prelude::*;
use vstd::string::*;

verus! {

/// The tokens of `s` between its separators, read char by char: a separator
/// closes the current token and opens an empty one, any other char is added
/// to the current token. There is always one token more than separators.
pub open spec fn split(s: Seq<char>, separator: char) -> Seq<Seq<char>>
    decreases s.len(),
{
    if s.len() == 0 {
        seq![Seq::<char>::empty()]
    } else {
        let before = split(s.drop_last(), separator);
        if s.last() == separator {
            before.push(Seq::<char>::empty())
        } else {
            before.drop_last().push(before.last().push(s.last()))
        }
    }
}

/// The texts of `list` in order, with `separator` between each two.
pub open spec fn join(list: Seq<Seq<char>>, separator: Seq<char>) -> Seq<char>
    decreases list.len(),
{
    if list.len() == 0 {
        Seq::empty()
    } else if list.len() == 1 {
        list[0]
    } else {
        join(list.drop_last(), separator) + separator + list.last()
    }
}

/// Splitting gives at least one token, and no token holds the separator.
pub proof fn lemma_split_tokens(s: Seq<char>, separator: char)
    ensures
        split(s, separator).len() >= 1,
        forall|i: int, j: int|
            0 <= i < split(s, separator).len() && 0 <= j < split(s, separator)[i].len() ==> (
            #[trigger] split(s, separator)[i][j]) != separator,
    decreases s.len(),
{
    if s.len() > 0 {
        lemma_split_tokens(s.drop_last(), separator);
    }
}

/// Joining the tokens of a text with the separator gives the text back.
pub proof fn lemma_split_join(s: Seq<char>, separator: char)
    ensures
        join(split(s, separator), seq![separator]) == s,
    decreases s.len(),
{
    if s.len() == 0 {
        assert(join(split(s, separator), seq![separator]) =~= s);
    } else {
        let before = split(s.drop_last(), separator);
        lemma_split_tokens(s.drop_last(), separator);
        lemma_split_join(s.drop_last(), separator);
        let all = split(s, separator);
        assert(s =~= s.drop_last().push(s.last()));
        if s.last() == separator {
            assert(all.drop_last() =~= before);
            assert(join(all, seq![separator]) =~= s.drop_last() + seq![separator]
                + Seq::<char>::empty());
            assert(join(all, seq![separator]) =~= s);
        } else {
            let head = before.drop_last();
            let token = before.last();
            assert(before =~= head.push(token));
            assert(all.drop_last() =~= head);
            if head.len() == 0 {
                assert(join(before, seq![separator]) == token);
                assert(join(all, seq![separator]) =~= s);
            } else {
                assert(join(before, seq![separator]) == join(head, seq![separator])
                    + seq![separator] + token);
                assert(join(all, seq![separator]) =~= (join(head, seq![separator])
                    + seq![separator] + token).push(s.last()));
                assert(join(all, seq![separator]) =~= s);
            }
        }
    }
}

/// Whether two strings hold the same text.
pub fn same_text(a: &str, b: &str) -> (same: bool)
    ensures
        same == (a@ == b@),
{
    a.to_owned() == b.to_owned()
}

/// Splits `s` at each occurrence of `separator`.
pub fn split_at_char(s: &str, separator: char) -> (tokens: Vec<String>)
    ensures
        tokens.deep_view() == split(s@, separator),
{
    let n = s.unicode_len();
    let mut tokens: Vec<String> = Vec::new();
    let mut start: usize = 0;
    let mut i: usize = 0;
    assert(s@.take(0) =~= Seq::<char>::empty());
    assert(s@.subrange(0, 0) =~= Seq::<char>::empty());
    assert(tokens.deep_view().push(s@.subrange(0, 0)) =~= split(s@.take(0), separator));
    while i < n
        invariant
            n == s@.len(),
            start <= i <= n,
            split(s@.take(i as int), separator) == tokens.deep_view().push(
                s@.subrange(start as int, i as int),
            ),
        decreases n - i,
    {
        let c = s.get_char(i);
        let ghost before = split(s@.take(i as int), separator);
        let ghost done = tokens.deep_view();
        proof {
            assert(s@.take(i + 1).drop_last() =~= s@.take(i as int));
            assert(s@.take(i + 1).last() == s@[i as int]);
        }
        if c == separator {
            let token = s.substring_char(start, i).to_owned();
            tokens.push(token);
            start = i + 1;
            proof {
                assert(tokens.deep_view() =~= before);
                assert(s@.subrange(start as int, i + 1) =~= Seq::<char>::empty());
            }
        } else {
            proof {
                assert(before.drop_last() =~= done);
                assert(before.last().push(c) =~= s@.subrange(start as int, i + 1));
            }
        }
        i += 1;
    }
    let token = s.substring_char(start, n).to_owned();
    proof {
        assert(s@.take(n as int) =~= s@);
        assert(tokens.deep_view().push(token@) =~= split(s@, separator));
    }
    let ghost done = tokens.deep_view();
    tokens.push(token);
    assert(tokens.deep_view() =~= done.push(token@));
    tokens
}

/// Joins the texts of `list`, with `separator` between each two.
pub fn join_texts(list: &Vec<String>, separator: &str) -> (text: String)
    ensures
        text@ == join(list.deep_view(), separator@),
{
    let ghost all = list.deep_view();
    let mut text = String::new();
    let mut i: usize = 0;
    assert(all.take(0) =~= Seq::<Seq<char>>::empty());
    while i < list.len()
        invariant
            i <= list.len(),
            all == list.deep_view(),
            text@ == join(all.take(i as int), separator@),
        decreases list.len() - i,
    {
        proof {
            assert(all.take(i + 1).drop_last() =~= all.take(i as int));
            assert(all.take(i + 1).last() == list[i as int]@);
            if i == 0 {
                assert(text@ =~= Seq::<char>::empty());
                assert(Seq::<char>::empty() + list[0]@ =~= list[0]@);
            }
        }
        if i > 0 {
            text.append(separator);
        }
        text.append(list[i].as_str());
        i += 1;
    }
    assert(all.take(i as int) =~= all);
    text
}

} // verus!
