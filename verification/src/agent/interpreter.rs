use vstd::prelude::*;
use crate::agent::action::{Action, action_of};
use crate::text::{
    find, find_from_exec, lemma_find, lemma_find_from_skip, lemma_find_is, lines, occurs_at, occurs_at_exec,
    skip_ws_backward, skip_ws_forward, starts_with, strip_cr, to_chars, trim, trim_start,
};

verus! {

/// A model reply, split into its thought and its action.
pub struct ParsedResponse {
    pub thought: String,
    pub action: Action,
}

/// The first of `ls` that begins with `prefix` once its leading whitespace is
/// left out.
pub open spec fn first_line_with_prefix(ls: Seq<Seq<char>>, prefix: Seq<char>) -> Option<
    Seq<char>,
>
    decreases ls.len(),
{
    if ls.len() == 0 {
        None
    } else if starts_with(trim_start(ls[0]), prefix) {
        Some(ls[0])
    } else {
        first_line_with_prefix(ls.drop_first(), prefix)
    }
}

/// What follows `prefix` on the first line of `text` that begins with it
/// (leading whitespace aside), trimmed; empty when no line does.
pub open spec fn extracted(prefix: Seq<char>, text: Seq<char>) -> Seq<char> {
    match first_line_with_prefix(lines(text), prefix) {
        Some(l) => trim(trim_start(l).skip(prefix.len() as int)),
        None => seq![],
    }
}

proof fn lemma_first_line_cons(l: Seq<char>, rest: Seq<Seq<char>>, prefix: Seq<char>)
    ensures
        first_line_with_prefix(seq![l] + rest, prefix) == if starts_with(trim_start(l), prefix) {
            Some(l)
        } else {
            first_line_with_prefix(rest, prefix)
        },
{
    assert((seq![l] + rest).drop_first() =~= rest);
    assert((seq![l] + rest)[0] == l);
}

proof fn lemma_starts_with_window(v: Seq<char>, p: Seq<char>, lo: int, e: int)
    requires
        0 <= lo <= e <= v.len(),
    ensures
        starts_with(v.subrange(lo, e), p) <==> (lo + p.len() <= e && occurs_at(v, p, lo)),
{
    if lo + p.len() <= e {
        assert(v.subrange(lo, e).take(p.len() as int) =~= v.subrange(lo, lo + p.len()));
    }
}

/// What follows `prefix` on the first line of `text` that begins with it,
/// trimmed; empty when no line does.
pub fn extract(prefix: &str, text: &str) -> (r: String)
    ensures
        r@ == extracted(prefix@, text@),
{
    let v = to_chars(text);
    let p = to_chars(prefix);
    let nl: Vec<char> = vec!['\n'];
    let n = v.len();
    let mut pos: usize = 0;
    proof {
        assert(text@.skip(0) =~= text@);
    }
    while pos < n
        invariant
            v@ == text@,
            p@ == prefix@,
            nl@ == seq!['\n'],
            n == v@.len(),
            pos <= n,
            first_line_with_prefix(lines(text@), prefix@) == first_line_with_prefix(
                lines(text@.skip(pos as int)),
                prefix@,
            ),
        decreases n - pos,
    {
        let ghost w = text@.skip(pos as int);
        proof {
            lemma_find_from_skip(text@, seq!['\n'], pos as nat);
        }
        let found = find_from_exec(&v, &nl, pos);
        let line_end: usize;
        let next: usize;
        match found {
            Some(k) => {
                assert(occurs_at(text@, seq!['\n'], k as int)) by {
                    crate::text::lemma_find_from(text@, seq!['\n'], pos as nat);
                }
                let ghost i = k - pos;
                assert(find(w, seq!['\n']) == Some(i as nat));
                assert(i < w.len());
                assert(lines(w) == seq![strip_cr(w.take(i))] + lines(w.skip(i + 1)));
                assert(w.take(i) =~= text@.subrange(pos as int, k as int));
                assert(w.skip(i + 1) =~= text@.skip(k + 1));
                if k > pos && v[k - 1] == '\r' {
                    line_end = k - 1;
                    assert(strip_cr(w.take(i)) =~= text@.subrange(pos as int, line_end as int));
                } else {
                    line_end = k;
                    assert(strip_cr(w.take(i)) =~= text@.subrange(pos as int, line_end as int));
                }
                next = k + 1;
                proof {
                    lemma_first_line_cons(
                        text@.subrange(pos as int, line_end as int),
                        lines(text@.skip(next as int)),
                        prefix@,
                    );
                }
            },
            None => {
                assert(find(w, seq!['\n']) is None);
                assert(w.len() > 0);
                assert(lines(w) == seq![w]);
                assert(w =~= text@.subrange(pos as int, n as int));
                line_end = n;
                next = n;
                assert(lines(text@.skip(next as int)) =~= Seq::<Seq<char>>::empty()) by {
                    assert(text@.skip(next as int) =~= Seq::<char>::empty());
                }
                proof {
                    lemma_first_line_cons(
                        text@.subrange(pos as int, line_end as int),
                        lines(text@.skip(next as int)),
                        prefix@,
                    );
                    assert(seq![w] =~= seq![w] + Seq::<Seq<char>>::empty());
                }
            },
        }
        let lo = skip_ws_forward(&v, pos, line_end);
        proof {
            lemma_starts_with_window(text@, prefix@, lo as int, line_end as int);
        }
        if lo <= line_end && p.len() <= line_end - lo && occurs_at_exec(&v, &p, lo) {
            let a = skip_ws_forward(&v, lo + p.len(), line_end);
            let b = skip_ws_backward(&v, a, line_end);
            proof {
                assert(text@.subrange(lo as int, line_end as int).skip(prefix@.len() as int)
                    =~= text@.subrange(lo + prefix@.len(), line_end as int));
            }
            return String::from_str(text.substring_char(a, b));
        }
        pos = next;
    }
    proof {
        assert(text@.skip(pos as int) =~= Seq::<char>::empty());
    }
    String::new()
}

/// The lines of a text with no line break in it are that text alone.
proof fn lemma_single_line(l: Seq<char>)
    requires
        l.len() > 0,
        forall|i: int| 0 <= i < l.len() ==> l[i] != '\n',
    ensures
        lines(l) == seq![l],
{
    assert forall|j: int| !occurs_at(l, seq!['\n'], j) by {
        if occurs_at(l, seq!['\n'], j) {
            assert(l.subrange(j, j + 1)[0] == '\n');
        }
    }
    lemma_find(l, seq!['\n']);
}

/// A reply written as a `Thought:` line and an `Action:` line is read back as
/// that thought and that action, trimmed.
pub proof fn law_response_round_trip(t: Seq<char>, a: Seq<char>)
    requires
        forall|i: int| 0 <= i < t.len() ==> t[i] != '\n' && t[i] != '\r',
        forall|i: int| 0 <= i < a.len() ==> a[i] != '\n',
    ensures
        extracted("Thought:"@, "Thought:"@ + t + "\n"@ + "Action:"@ + a) == trim(t),
        extracted("Action:"@, "Thought:"@ + t + "\n"@ + "Action:"@ + a) == trim(a),
        action_of(extracted("Action:"@, "Thought:"@ + t + "\n"@ + "Action:"@ + a)) == action_of(
            trim(a),
        ),
{
    reveal_strlit("Thought:");
    reveal_strlit("Action:");
    reveal_strlit("\n");
    let l1 = "Thought:"@ + t;
    let l2 = "Action:"@ + a;
    let s = "Thought:"@ + t + "\n"@ + "Action:"@ + a;
    assert(s =~= l1 + seq!['\n'] + l2);
    let k = l1.len();
    assert(s.subrange(k as int, k + 1int) =~= seq!['\n']);
    assert forall|j: int| 0 <= j < k implies !occurs_at(s, seq!['\n'], j) by {
        if occurs_at(s, seq!['\n'], j) {
            assert(s.subrange(j, j + 1)[0] == '\n');
            assert(s[j] == l1[j]);
        }
    }
    lemma_find_is(s, seq!['\n'], k);
    assert(s.take(k as int) =~= l1);
    assert(s.skip(k + 1int) =~= l2);
    assert(strip_cr(l1) == l1);
    lemma_single_line(l2);
    assert(lines(s) =~= seq![l1, l2]);
    assert(trim_start(l1) == l1);
    assert(trim_start(l2) == l2);
    assert(l1.take(8) =~= "Thought:"@);
    assert(starts_with(l1, "Thought:"@));
    assert(l1.skip(8) =~= t);
    assert(l2.take(7) =~= "Action:"@);
    assert(starts_with(l2, "Action:"@));
    assert(l2.skip(7) =~= a);
    assert(!starts_with(l1, "Action:"@)) by {
        assert(l1[0] != "Action:"@[0]);
        if starts_with(l1, "Action:"@) {
            assert(l1.take(7)[0] == l1[0]);
        }
    }
    assert(seq![l1, l2].drop_first() =~= seq![l2]);
    assert(seq![l1, l2][0] == l1);
    assert(seq![l2][0] == l2);
    assert(first_line_with_prefix(seq![l1, l2], "Action:"@) == first_line_with_prefix(
        seq![l2],
        "Action:"@,
    ));
    assert(first_line_with_prefix(seq![l2], "Action:"@) == Some(l2));
    assert(first_line_with_prefix(seq![l1, l2], "Thought:"@) == Some(l1));
}

/// Splits a model reply into the text after `Thought:` and the action after
/// `Action:`.
pub fn parse_response(response: &str) -> (r: ParsedResponse)
    ensures
        r.thought@ == extracted("Thought:"@, response@),
        r.action@ == action_of(extracted("Action:"@, response@)),
{
    let thought = extract("Thought:", response);
    let action_raw = extract("Action:", response);
    let action = Action::from_str(action_raw.as_str());
    ParsedResponse { thought, action }
}

} // verus!
