use vstd::prelude::*;
use crate::text::{
    lemma_occurs_skip, occurs_at, occurs_at_exec, skip_char_backward, skip_char_forward, starts_with,
    to_chars, trim_end_char, trim_start_char, trim_start_pattern,
};

verus! {

/// What an action is, as plain values.
pub enum ActionView {
    Code(Seq<char>),
    Tool(Seq<char>, Seq<char>),
    Unknown,
}

/// An action that the model asks for.
pub enum Action {
    Code(String),
    Tool(String, String),
    Unknown,
}

impl View for Action {
    type V = ActionView;

    open spec fn view(&self) -> ActionView {
        match self {
            Action::Code(c) => ActionView::Code(c@),
            Action::Tool(t, i) => ActionView::Tool(t@, i@),
            Action::Unknown => ActionView::Unknown,
        }
    }
}

/// The code inside `code(...)`: every leading `code(` and every trailing `)`
/// removed, then every leading and trailing `"`.
pub open spec fn code_payload(s: Seq<char>) -> Seq<char> {
    trim_end_char(
        trim_start_char(trim_end_char(trim_start_pattern(s, "code("@), ')'), '"'),
        '"',
    )
}

/// The action that the text `s` names: `code(...)` is code, anything else unknown.
pub open spec fn action_of(s: Seq<char>) -> ActionView {
    if starts_with(s, "code("@) {
        ActionView::Code(code_payload(s))
    } else {
        ActionView::Unknown
    }
}

proof fn lemma_starts_with_occurs(s: Seq<char>, p: Seq<char>, lo: int)
    requires
        0 <= lo <= s.len(),
    ensures
        starts_with(s.skip(lo), p) <==> occurs_at(s, p, lo),
{
    lemma_occurs_skip(s, p, lo, 0);
    if p.len() <= s.len() - lo {
        assert(s.skip(lo).take(p.len() as int) =~= s.skip(lo).subrange(0, p.len() as int));
    }
}

proof fn lemma_trim_pattern_step(s: Seq<char>, p: Seq<char>, lo: int)
    requires
        0 <= lo <= s.len(),
        p.len() > 0,
        occurs_at(s, p, lo),
    ensures
        trim_start_pattern(s.skip(lo), p) == trim_start_pattern(s.skip(lo + p.len()), p),
{
    lemma_starts_with_occurs(s, p, lo);
    assert(s.skip(lo).skip(p.len() as int) =~= s.skip(lo + p.len()));
}

/// Code written as `code(<code>)` is read back as that code, when the code
/// does not itself begin with `code(`, end with `)`, or begin or end with `"`.
pub proof fn law_code_action_round_trip(c: Seq<char>)
    requires
        !starts_with(c, "code("@),
        c.len() > 0 ==> c[0] != '"' && c.last() != '"' && c.last() != ')',
    ensures
        action_of("code("@ + c + ")"@) == ActionView::Code(c),
{
    reveal_strlit("code(");
    reveal_strlit(")");
    let p = "code("@;
    let s = p + c + ")"@;
    assert(s.take(5) =~= p);
    assert(starts_with(s, p));
    let rest = c + ")"@;
    assert(s.skip(5) =~= rest);
    assert(!starts_with(rest, p)) by {
        if starts_with(rest, p) {
            if c.len() >= 5 {
                assert(c.take(5) =~= rest.take(5));
            } else {
                assert(rest[c.len() as int] == ')');
                assert(rest.take(5)[c.len() as int] == p[c.len() as int]);
            }
        }
    }
    assert(trim_start_pattern(rest, p) == rest);
    assert(trim_start_pattern(s, p) == trim_start_pattern(s.skip(5), p));
    assert(trim_start_pattern(s, p) == rest);
    assert(rest.drop_last() =~= c);
    assert(rest.last() == ')');
    assert(trim_end_char(c, ')') == c);
    assert(trim_end_char(rest, ')') == trim_end_char(rest.drop_last(), ')'));
    assert(trim_end_char(rest, ')') == c);
    assert(trim_start_char(c, '"') == c);
    assert(trim_end_char(c, '"') == c);
}

impl Action {
    /// Reads an action from text such as `code("print(1)")`.
    pub fn from_str(s: &str) -> (r: Action)
        ensures
            r@ == action_of(s@),
    {
        proof {
            reveal_strlit("code(");
        }
        let v = to_chars(s);
        let pat = to_chars("code(");
        let n = v.len();
        proof {
            lemma_starts_with_occurs(s@, pat@, 0);
            assert(s@.skip(0) =~= s@);
        }
        if !occurs_at_exec(&v, &pat, 0) {
            return Action::Unknown;
        }
        let mut lo: usize = 0;
        while lo <= n && occurs_at_exec(&v, &pat, lo)
            invariant
                n == s@.len(),
                v@ == s@,
                pat@ == "code("@,
                lo <= n,
                trim_start_pattern(s@, pat@) == trim_start_pattern(s@.skip(lo as int), pat@),
            decreases n - lo,
        {
            proof {
                reveal_strlit("code(");
                lemma_trim_pattern_step(s@, pat@, lo as int);
            }
            lo = lo + 5;
        }
        proof {
            lemma_starts_with_occurs(s@, pat@, lo as int);
            assert(s@.skip(lo as int) =~= s@.subrange(lo as int, n as int));
        }
        let hi = skip_char_backward(&v, ')', lo, n);
        let a = skip_char_forward(&v, '"', lo, hi);
        let b = skip_char_backward(&v, '"', a, hi);
        Action::Code(String::from_str(s.substring_char(a, b)))
    }
}

} // verus!
