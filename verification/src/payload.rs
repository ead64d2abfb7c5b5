//! The payload template and its three tokens.

use vstd::prelude::*;
use crate::text::{chars_of, decimal, decimal_digits};

verus! {

/// The token `$PORT`.
pub open spec fn port_token() -> Seq<char> {
    seq!['$', 'P', 'O', 'R', 'T']
}

/// The token `$SECRET`.
pub open spec fn secret_token() -> Seq<char> {
    seq!['$', 'S', 'E', 'C', 'R', 'E', 'T']
}

/// The token `$REPLACE`.
pub open spec fn replace_token() -> Seq<char> {
    seq!['$', 'R', 'E', 'P', 'L', 'A', 'C', 'E']
}

/// The tokens are the strings they are named after.
pub proof fn tokens_are_literals()
    ensures
        port_token() == "$PORT"@,
        secret_token() == "$SECRET"@,
        replace_token() == "$REPLACE"@,
{
    reveal_strlit("$PORT");
    reveal_strlit("$SECRET");
    reveal_strlit("$REPLACE");
    assert(port_token() =~= "$PORT"@);
    assert(secret_token() =~= "$SECRET"@);
    assert(replace_token() =~= "$REPLACE"@);
}

/// How a flag is written into the payload.
pub open spec fn flag_text(flag: bool) -> Seq<char> {
    if flag {
        "true"@
    } else {
        "false"@
    }
}

/// The template with its tokens replaced, read from left to right: where a
/// token starts, its value stands in the result and reading goes on behind
/// the token; any other character is kept.
pub open spec fn rendered(
    template: Seq<char>,
    port: Seq<char>,
    secret: Seq<char>,
    replace: Seq<char>,
) -> Seq<char>
    decreases template.len(),
{
    if template.len() == 0 {
        Seq::empty()
    } else if replace_token().is_prefix_of(template) {
        replace + rendered(template.skip(8), port, secret, replace)
    } else if secret_token().is_prefix_of(template) {
        secret + rendered(template.skip(7), port, secret, replace)
    } else if port_token().is_prefix_of(template) {
        port + rendered(template.skip(5), port, secret, replace)
    } else {
        seq![template[0]] + rendered(template.skip(1), port, secret, replace)
    }
}

/// Whether `token` stands in `text` at position `at`.
fn has_token_at(text: &Vec<char>, at: usize, token: &Vec<char>) -> (r: bool)
    requires
        at <= text.len(),
    ensures
        r == token@.is_prefix_of(text@.skip(at as int)),
{
    let ghost rest = text@.skip(at as int);
    if token.len() > text.len() - at {
        return false;
    }
    let mut i: usize = 0;
    while i < token.len()
        invariant
            i <= token.len(),
            at + token.len() <= text.len(),
            rest == text@.skip(at as int),
            forall|j: int| 0 <= j < i ==> rest[j] == token@[j],
        decreases token.len() - i,
    {
        if text[at + i] != token[i] {
            assert(rest.subrange(0, token@.len() as int)[i as int] != token@[i as int]);
            return false;
        }
        i = i + 1;
    }
    assert(token@ =~= rest.subrange(0, token@.len() as int));
    true
}

/// Fills the payload template in: every `$PORT` becomes the port in
/// decimal, every `$SECRET` the secret as it is, every `$REPLACE` the flag
/// as `true` or `false`.
pub fn make_payload(template: &str, port: u16, replace: bool, secret: String) -> (r: String)
    ensures
        r@ == rendered(template@, decimal_digits(port as nat), secret@, flag_text(replace)),
{
    let text = chars_of(template);
    let port_text = decimal(port as u64);
    let replace_text = if replace {
        "true"
    } else {
        "false"
    };
    let port_tok = chars_of("$PORT");
    let secret_tok = chars_of("$SECRET");
    let replace_tok = chars_of("$REPLACE");
    proof {
        tokens_are_literals();
    }
    let ghost p = port_text@;
    let ghost s = secret@;
    let ghost f = flag_text(replace);
    let mut out = String::new();
    let mut i: usize = 0;
    assert(text@.skip(0) =~= text@);
    while i < text.len()
        invariant
            i <= text.len(),
            text@ == template@,
            p == port_text@,
            s == secret@,
            f == replace_text@,
            port_tok@ == port_token(),
            secret_tok@ == secret_token(),
            replace_tok@ == replace_token(),
            out@ + rendered(text@.skip(i as int), p, s, f) == rendered(text@, p, s, f),
        decreases text.len() - i,
    {
        let ghost rest = text@.skip(i as int);
        let ghost before = out@;
        if has_token_at(&text, i, &replace_tok) {
            out.append(replace_text);
            assert(rest.skip(8) =~= text@.skip(i + 8));
            assert(out@ + rendered(rest.skip(8), p, s, f) =~= before + rendered(rest, p, s, f));
            i = i + 8;
        } else if has_token_at(&text, i, &secret_tok) {
            out.append(secret.as_str());
            assert(rest.skip(7) =~= text@.skip(i + 7));
            assert(out@ + rendered(rest.skip(7), p, s, f) =~= before + rendered(rest, p, s, f));
            i = i + 7;
        } else if has_token_at(&text, i, &port_tok) {
            out.append(port_text.as_str());
            assert(rest.skip(5) =~= text@.skip(i + 5));
            assert(out@ + rendered(rest.skip(5), p, s, f) =~= before + rendered(rest, p, s, f));
            i = i + 5;
        } else {
            out.push(text[i]);
            assert(rest.skip(1) =~= text@.skip(i + 1));
            assert(out@ + rendered(rest.skip(1), p, s, f) =~= before + rendered(rest, p, s, f));
            i = i + 1;
        }
    }
    assert(out@ =~= out@ + rendered(text@.skip(i as int), p, s, f));
    out
}

} // verus!
