//! Text shapes the playlist machinery reads: quoted grouping markers (one
//! queue entry that expands in-line to several ordered entries) and the
//! semicolon-delimited supported-extension list the decoding library reports
//! once at startup.

use vstd::prelude::*;

verus! {

/// Relies on std's `String::push`: appends the given character to the end
/// of the string.
pub assume_specification[ String::push ](s: &mut String, ch: char)
    ensures
        final(s)@ == old(s)@.push(ch),
;

/// The quote parser, one character at a time from the front of `s`.
/// `capture` says whether a quoted word is open, `escaped` whether the next
/// character is taken literally, `buf` holds the characters gathered since
/// the word opened, and `acc` the words already closed. A closing quote
/// commits `buf`; an opening quote discards whatever gathered between
/// words; a backslash escapes the character after it.
pub open spec fn quoted_from(
    s: Seq<char>,
    capture: bool,
    escaped: bool,
    buf: Seq<char>,
    acc: Seq<Seq<char>>,
) -> Seq<Seq<char>>
    decreases s.len(),
{
    if s.len() == 0 {
        acc
    } else {
        let ch = s[0];
        let rest = s.skip(1);
        if escaped {
            quoted_from(rest, capture, false, buf.push(ch), acc)
        } else if ch == '"' {
            if capture {
                quoted_from(rest, false, false, buf, acc.push(buf))
            } else {
                quoted_from(rest, true, false, Seq::empty(), acc)
            }
        } else if ch == '\\' {
            quoted_from(rest, capture, true, buf, acc)
        } else {
            quoted_from(rest, capture, false, buf.push(ch), acc)
        }
    }
}

/// The words of `s` that stand between double quotes, in order; a backslash
/// escapes the character after it, so a quote can appear inside a word.
pub open spec fn quoted_spec(s: Seq<char>) -> Seq<Seq<char>> {
    quoted_from(s, false, false, Seq::empty(), Seq::empty())
}

/// Extracts the quoted words of `tgt`, in order. Characters outside quotes
/// are dead space; `\` escapes the character after it, which lets a word
/// contain a literal quote.
pub fn quoted(tgt: &str) -> (res: Vec<String>)
    ensures
        res.deep_view() == quoted_spec(tgt@),
{
    let n = tgt.unicode_len();
    let mut res: Vec<String> = Vec::new();
    let mut capture = false;
    let mut escaped = false;
    let mut buf = String::new();
    let mut i: usize = 0;
    proof {
        assert(tgt@.skip(0) =~= tgt@);
        assert(res.deep_view() =~= Seq::<Seq<char>>::empty());
    }
    while i < n
        invariant
            i <= n,
            n == tgt@.len(),
            quoted_spec(tgt@) == quoted_from(
                tgt@.skip(i as int),
                capture,
                escaped,
                buf@,
                res.deep_view(),
            ),
        decreases n - i,
    {
        let ch = tgt.get_char(i);
        proof {
            assert(tgt@.skip(i as int)[0] == tgt@[i as int]);
            assert(tgt@.skip(i as int).skip(1) =~= tgt@.skip(i + 1));
        }
        let ghost prev_dv = res.deep_view();
        if escaped {
            buf.push(ch);
            escaped = false;
        } else if ch == '"' {
            if capture {
                res.push(buf.clone());
                proof {
                    assert(res.deep_view() =~= prev_dv.push(buf@));
                }
            } else {
                buf = String::new();
            }
            capture = !capture;
        } else if ch == '\\' {
            escaped = true;
        } else {
            buf.push(ch);
        }
        i = i + 1;
    }
    proof {
        assert(tgt@.skip(n as int) =~= Seq::<char>::empty());
    }
    res
}

/// The splitter behind `split_extensions`: `cur` is the piece being
/// gathered, `acc` the pieces already cut. Every separator cuts, so empty
/// pieces survive, and the final piece is committed at the end of input.
pub open spec fn split_from(
    s: Seq<char>,
    sep: char,
    cur: Seq<char>,
    acc: Seq<Seq<char>>,
) -> Seq<Seq<char>>
    decreases s.len(),
{
    if s.len() == 0 {
        acc.push(cur)
    } else if s[0] == sep {
        split_from(s.skip(1), sep, Seq::empty(), acc.push(cur))
    } else {
        split_from(s.skip(1), sep, cur.push(s[0]), acc)
    }
}

/// The pieces of `s` between occurrences of `sep`, in order: one piece more
/// than there are separators, empty pieces kept.
pub open spec fn split_spec(s: Seq<char>, sep: char) -> Seq<Seq<char>> {
    split_from(s, sep, Seq::empty(), Seq::empty())
}

/// Cuts the semicolon-delimited supported-extension list into its entries,
/// in order.
pub fn split_extensions(list: &str) -> (res: Vec<String>)
    ensures
        res.deep_view() == split_spec(list@, ';'),
{
    let n = list.unicode_len();
    let mut res: Vec<String> = Vec::new();
    let mut cur = String::new();
    let mut i: usize = 0;
    proof {
        assert(list@.skip(0) =~= list@);
        assert(res.deep_view() =~= Seq::<Seq<char>>::empty());
    }
    while i < n
        invariant
            i <= n,
            n == list@.len(),
            split_spec(list@, ';') == split_from(
                list@.skip(i as int),
                ';',
                cur@,
                res.deep_view(),
            ),
        decreases n - i,
    {
        let ch = list.get_char(i);
        proof {
            assert(list@.skip(i as int)[0] == list@[i as int]);
            assert(list@.skip(i as int).skip(1) =~= list@.skip(i + 1));
        }
        let ghost prev_dv = res.deep_view();
        if ch == ';' {
            res.push(cur);
            proof {
                assert(res.deep_view() =~= prev_dv.push(res@[res@.len() - 1]@));
            }
            cur = String::new();
        } else {
            cur.push(ch);
        }
        i = i + 1;
    }
    proof {
        assert(list@.skip(n as int) =~= Seq::<char>::empty());
    }
    let ghost prev_dv = res.deep_view();
    res.push(cur);
    proof {
        assert(res.deep_view() =~= prev_dv.push(res@[res@.len() - 1]@));
    }
    res
}

} // verus!
