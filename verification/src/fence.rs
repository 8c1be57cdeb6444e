use vstd::prelude::*;
use crate::text::{
    is_ws, trim_end, trim_start, find, find_exec, lemma_find_is, lemma_rfind, lemma_rfind_is,
    occurs_at, rfind, rfind_exec, skip_ws_backward, skip_ws_forward, to_chars, trim,
};

verus! {

/// Why no fenced JSON block could be cut out of a text.
pub enum FenceError {
    /// No "```json" in the text.
    MissingOpening,
    /// No closing "```" in the text.
    MissingClosing,
}

/// The JSON block of `text`: what lies between its first "```json" and its last
/// "```", trimmed.
pub open spec fn fenced_json(text: Seq<char>) -> Result<Seq<char>, FenceError> {
    match find(text, "```json"@) {
        None => Err(FenceError::MissingOpening),
        Some(p) => match rfind(text, "```"@) {
            None => Err(FenceError::MissingClosing),
            Some(e) => Ok(trim(text.subrange(p + 7int, e as int))),
        },
    }
}

/// Whether the last "```" of `text` does not begin before the end of its first
/// "```json" (else cutting out the block would slice backwards).
pub open spec fn fences_ordered(text: Seq<char>) -> bool {
    match (find(text, "```json"@), rfind(text, "```"@)) {
        (Some(p), Some(e)) => p + 7 <= e,
        _ => true,
    }
}

/// A text between two line breaks, starting and ending with no whitespace, is
/// what trimming gives back.
proof fn lemma_trim_wrapped(j: Seq<char>)
    requires
        j.len() >= 2,
        !is_ws(j[0]),
        !is_ws(j.last()),
    ensures
        trim(seq!['\n'] + j + seq!['\n']) == j,
{
    let w = seq!['\n'] + j + seq!['\n'];
    assert(w.drop_first() =~= j + seq!['\n']);
    assert(trim_start(j + seq!['\n']) == j + seq!['\n']);
    assert((j + seq!['\n']).drop_last() =~= j);
    assert(trim_end(j) == j);
}

/// A reply that writes `json` in a block after `lead`: the lead, "```json" and
/// a line break, the JSON text, then a line break and "```".
pub open spec fn fenced_reply(lead: Seq<char>, json: Seq<char>) -> Seq<char> {
    lead + "```json\n"@ + json + "\n```"@
}

/// A reply whose lead holds no backtick has its block where its own fences put
/// it: the first "```json" ends the lead, the last "```" closes the reply, and
/// the block is the JSON text when that begins with `{` and ends with `}`.
pub proof fn lemma_fenced_reply(lead: Seq<char>, json: Seq<char>)
    requires
        forall|k: int| 0 <= k < lead.len() ==> lead[k] != '`',
    ensures
        find(fenced_reply(lead, json), "```json"@) == Some(lead.len()),
        rfind(fenced_reply(lead, json), "```"@) == Some(lead.len() + json.len() + 9),
        fences_ordered(fenced_reply(lead, json)),
        fenced_json(fenced_reply(lead, json)) is Ok,
        json.len() >= 2 && json[0] == '{' && json.last() == '}' ==> fenced_json(
            fenced_reply(lead, json),
        ) == Ok::<Seq<char>, FenceError>(json),
{
    reveal_strlit("```json\n");
    reveal_strlit("\n```");
    reveal_strlit("```json");
    reveal_strlit("```");
    let t = fenced_reply(lead, json);
    let n: int = lead.len() as int;
    let e: int = n + json.len() + 9;
    assert(t.len() == e + 3);
    assert(t.subrange(n, n + 7) =~= "```json"@);
    assert(occurs_at(t, "```json"@, n));
    assert forall|k: int| 0 <= k < n implies !occurs_at(t, "```json"@, k) by {
        if occurs_at(t, "```json"@, k) {
            assert(t.subrange(k, k + 7)[0] == '`');
            assert(t[k] == lead[k]);
        }
    }
    lemma_find_is(t, "```json"@, n as nat);
    assert(t.subrange(e, e + 3) =~= "```"@);
    lemma_rfind_is(t, "```"@, e as nat);
    assert(t.subrange(n + 7, e) =~= seq!['\n'] + json + seq!['\n']);
    if json.len() >= 2 && json[0] == '{' && json.last() == '}' {
        lemma_trim_wrapped(json);
    }
}

/// Cuts the JSON block out of `text`.
pub fn fenced_json_exec(text: &str) -> (r: Result<String, FenceError>)
    requires
        fences_ordered(text@),
    ensures
        match r {
            Ok(s) => fenced_json(text@) == Ok::<Seq<char>, FenceError>(s@),
            Err(e) => fenced_json(text@) == Err::<Seq<char>, FenceError>(e),
        },
{
    proof {
        reveal_strlit("```json");
        reveal_strlit("```");
        lemma_rfind(text@, "```"@);
    }
    let v = to_chars(text);
    let open = to_chars("```json");
    let close = to_chars("```");
    match find_exec(&v, &open) {
        None => Err(FenceError::MissingOpening),
        Some(p) => match rfind_exec(&v, &close) {
            None => Err(FenceError::MissingClosing),
            Some(e) => {
                let a = skip_ws_forward(&v, p + 7, e);
                let b = skip_ws_backward(&v, a, e);
                Ok(String::from_str(text.substring_char(a, b)))
            },
        },
    }
}

} // verus!
