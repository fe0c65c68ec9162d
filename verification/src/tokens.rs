//! Splitting a command line on ASCII whitespace.
//!
//! A configured command line is a raw string; the gateway splits it into
//! a program name and literal argument tokens. The split is specified by
//! a left-to-right accumulator over the characters, and the executable
//! splitter is proved to produce exactly that sequence of tokens.

use vstd::prelude::*;
use vstd::string::StrSliceExecFns;
use vstd::string::StringExecFns;

verus! {

/// ASCII whitespace, as `char::is_ascii_whitespace` defines it.
pub open spec fn is_cmd_ws(c: char) -> bool {
    c == ' ' || c == '\t' || c == '\n' || c == '\u{000c}' || c == '\r'
}

/// One left-to-right pass over `s` from position `i`: `cur` holds the
/// characters of the token being read, `acc` the tokens already read.
pub open spec fn split_acc(s: Seq<char>, i: int, cur: Seq<char>, acc: Seq<Seq<char>>) -> Seq<
    Seq<char>,
>
    decreases s.len() - i,
{
    if i < 0 || i >= s.len() {
        if cur.len() > 0 {
            acc.push(cur)
        } else {
            acc
        }
    } else if is_cmd_ws(s[i]) {
        if cur.len() > 0 {
            split_acc(s, i + 1, Seq::empty(), acc.push(cur))
        } else {
            split_acc(s, i + 1, Seq::empty(), acc)
        }
    } else {
        split_acc(s, i + 1, cur.push(s[i]), acc)
    }
}

/// The maximal whitespace-free tokens of `s`, in order.
pub open spec fn split_ws(s: Seq<char>) -> Seq<Seq<char>> {
    split_acc(s, 0, Seq::empty(), Seq::empty())
}

/// A well-formed token: nonempty and free of whitespace.
pub open spec fn token_wf(t: Seq<char>) -> bool {
    t.len() > 0 && forall|k: int| 0 <= k < t.len() ==> !is_cmd_ws(#[trigger] t[k])
}

proof fn lemma_split_acc_tokens_wf(s: Seq<char>, i: int, cur: Seq<char>, acc: Seq<Seq<char>>)
    requires
        forall|k: int| 0 <= k < cur.len() ==> !is_cmd_ws(#[trigger] cur[k]),
        forall|j: int| 0 <= j < acc.len() ==> token_wf(#[trigger] acc[j]),
    ensures
        forall|j: int|
            0 <= j < split_acc(s, i, cur, acc).len() ==> token_wf(
                #[trigger] split_acc(s, i, cur, acc)[j],
            ),
    decreases s.len() - i,
{
    if cur.len() > 0 {
        assert forall|j: int| 0 <= j < acc.push(cur).len() implies token_wf(
            #[trigger] acc.push(cur)[j],
        ) by {
            if j < acc.len() {
                assert(acc.push(cur)[j] == acc[j]);
            } else {
                assert(acc.push(cur)[j] == cur);
            }
        }
    }
    if i < 0 || i >= s.len() {
        if cur.len() > 0 {
            assert(split_acc(s, i, cur, acc) == acc.push(cur));
        } else {
            assert(split_acc(s, i, cur, acc) == acc);
        }
    } else if is_cmd_ws(s[i]) {
        if cur.len() > 0 {
            lemma_split_acc_tokens_wf(s, i + 1, Seq::empty(), acc.push(cur));
            assert(split_acc(s, i, cur, acc) == split_acc(s, i + 1, Seq::empty(), acc.push(cur)));
        } else {
            lemma_split_acc_tokens_wf(s, i + 1, Seq::empty(), acc);
            assert(split_acc(s, i, cur, acc) == split_acc(s, i + 1, Seq::empty(), acc));
        }
    } else {
        assert forall|k: int| 0 <= k < cur.push(s[i]).len() implies !is_cmd_ws(
            #[trigger] cur.push(s[i])[k],
        ) by {
            if k < cur.len() {
                assert(cur.push(s[i])[k] == cur[k]);
            } else {
                assert(cur.push(s[i])[k] == s[i]);
            }
        }
        lemma_split_acc_tokens_wf(s, i + 1, cur.push(s[i]), acc);
        assert(split_acc(s, i, cur, acc) == split_acc(s, i + 1, cur.push(s[i]), acc));
    }
}

/// Law: splitting never fabricates or pads a token. Every token of a
/// split command line is a nonempty, whitespace-free word; in
/// particular the resolved program name and every literal argument of
/// an execution plan are such words.
pub proof fn lemma_split_tokens_wf(s: Seq<char>)
    ensures
        forall|j: int| 0 <= j < split_ws(s).len() ==> token_wf(#[trigger] split_ws(s)[j]),
{
    lemma_split_acc_tokens_wf(s, 0, Seq::empty(), Seq::empty());
}

/// Split `s` on ASCII whitespace into its tokens.
pub fn split_whitespace_tokens(s: &str) -> (toks: Vec<String>)
    ensures
        toks.deep_view() == split_ws(s@),
{
    let n: usize = s.unicode_len();
    let mut toks: Vec<String> = Vec::new();
    let mut i: usize = 0;
    let mut start: Option<usize> = None;
    proof {
        assert(toks.deep_view() =~= Seq::<Seq<char>>::empty());
    }
    while i < n
        invariant
            n == s@.len(),
            0 <= i <= n,
            match start {
                Some(st) => st < i && split_acc(
                    s@,
                    i as int,
                    s@.subrange(st as int, i as int),
                    toks.deep_view(),
                ) == split_ws(s@),
                None => split_acc(s@, i as int, Seq::<char>::empty(), toks.deep_view())
                    == split_ws(s@),
            },
        decreases n - i,
    {
        let c = s.get_char(i);
        if c == ' ' || c == '\t' || c == '\n' || c == '\u{000c}' || c == '\r' {
            if let Some(st) = start {
                let ghost old_toks = toks.deep_view();
                let ghost cur = s@.subrange(st as int, i as int);
                let tok = s.substring_char(st, i);
                toks.push(String::from_str(tok));
                proof {
                    assert(toks.deep_view() =~= old_toks.push(cur));
                }
                start = None;
            }
        } else {
            if start.is_none() {
                start = Some(i);
                proof {
                    assert(s@.subrange(i as int, i + 1) =~= Seq::<char>::empty().push(s@[i as int]));
                }
            } else {
                proof {
                    let st = start->0;
                    assert(s@.subrange(st as int, i + 1) =~= s@.subrange(st as int, i as int).push(
                        s@[i as int],
                    ));
                }
            }
        }
        i = i + 1;
    }
    if let Some(st) = start {
        let ghost old_toks = toks.deep_view();
        let ghost cur = s@.subrange(st as int, n as int);
        let tok = s.substring_char(st, n);
        toks.push(String::from_str(tok));
        proof {
            assert(toks.deep_view() =~= old_toks.push(cur));
        }
    }
    toks
}

} // verus!
