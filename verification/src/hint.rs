//! Detects a common mistake in timestamp specifications: one of the special
//! tokens `now`, `today`, `yesterday`, `tomorrow` written with an offset
//! attached directly (as in `now-1h`), where the systemd.time grammar wants a
//! space after the token. When the shape is detected, a corrective message is
//! produced that suggests the rewrite with exactly one space inserted.

use vstd::prelude::*;

verus! {

/// A sign character that may follow a special token in the mistaken shape.
pub open spec fn is_sign(c: char) -> bool {
    c == '+' || c == '-'
}

/// `s` starts with the token `tok` immediately followed by `+` or `-`.
pub open spec fn token_joined_at(s: Seq<char>, tok: Seq<char>) -> bool {
    &&& s.len() > tok.len()
    &&& s.subrange(0, tok.len() as int) == tok
    &&& is_sign(s[tok.len() as int])
}

/// The input has the mistaken shape: a special token joined to a sign.
pub open spec fn hint_applies(s: Seq<char>) -> bool {
    ||| token_joined_at(s, "now"@)
    ||| token_joined_at(s, "today"@)
    ||| token_joined_at(s, "yesterday"@)
    ||| token_joined_at(s, "tomorrow"@)
}

/// The special token that the input starts with, or the empty sequence when
/// the hint does not apply.
pub open spec fn matched_token(s: Seq<char>) -> Seq<char> {
    if token_joined_at(s, "now"@) {
        "now"@
    } else if token_joined_at(s, "today"@) {
        "today"@
    } else if token_joined_at(s, "yesterday"@) {
        "yesterday"@
    } else if token_joined_at(s, "tomorrow"@) {
        "tomorrow"@
    } else {
        Seq::<char>::empty()
    }
}

/// The suggested rewrite: the token, exactly one space, and the remainder of
/// the input (sign included) unchanged.
pub open spec fn suggested_rewrite(s: Seq<char>) -> Seq<char> {
    matched_token(s) + seq![' '] + s.subrange(matched_token(s).len() as int, s.len() as int)
}

/// Whether `input` starts with `tok` immediately followed by `+` or `-`.
fn token_joined(input: &str, tok: &str) -> (r: bool)
    ensures
        r == token_joined_at(input@, tok@),
{
    let n = tok.unicode_len();
    let m = input.unicode_len();
    if m <= n {
        return false;
    }
    let mut i: usize = 0;
    while i < n
        invariant
            n == tok@.len(),
            m == input@.len(),
            n < m,
            i <= n,
            forall|j: int| 0 <= j < i ==> input@[j] == tok@[j],
        decreases n - i,
    {
        if input.get_char(i) != tok.get_char(i) {
            proof {
                assert(input@.subrange(0, n as int)[i as int] == input@[i as int]);
            }
            return false;
        }
        i += 1;
    }
    proof {
        assert(input@.subrange(0, n as int) =~= tok@);
    }
    let c = input.get_char(n);
    c == '+' || c == '-'
}

/// The detected token and the suggested rewrite for an input of the mistaken
/// shape.
#[derive(Debug)]
pub struct HintMatch {
    pub token: String,
    pub suggestion: String,
}

/// Builds the `HintMatch` for an input known to start with `tok` joined to a
/// sign.
fn make_hint(input: &str, tok: &str) -> (h: HintMatch)
    requires
        token_joined_at(input@, tok@),
        matched_token(input@) == tok@,
    ensures
        h.token@ == matched_token(input@),
        h.suggestion@ == suggested_rewrite(input@),
{
    let n = tok.unicode_len();
    let m = input.unicode_len();
    let rest = input.substring_char(n, m);
    let mut suggestion = String::from_str(tok);
    suggestion.append(" ");
    suggestion.append(rest);
    proof {
        reveal_strlit(" ");
        assert(" "@ =~= seq![' ']);
        assert(suggestion@ =~= suggested_rewrite(input@));
    }
    HintMatch { token: String::from_str(tok), suggestion }
}

/// The full diagnostic message for an input of the mistaken shape: it quotes
/// the original input, names the detected token, shows the suggested rewrite,
/// and links the systemd.time reference document.
pub open spec fn hint_message_text(s: Seq<char>) -> Seq<char> {
    "\nYou wrote `"@ + s + "` which uses a special token (`"@ + matched_token(s)
        + "`) with an attached offset.\nAccording to the systemd.time specification, a space is required after `"@
        + matched_token(s) + "`.\n\n    Try writing: `"@ + suggested_rewrite(s)
        + "`\n\nFor more details, see "@ + crate::url_text() + ".\n"@
}

/// Inspects a failing input for the mistaken shape. Returns the detected
/// token and the suggested rewrite exactly when the input starts with one of
/// the four special tokens joined directly to `+` or `-`.
pub fn detect_hint(input: &str) -> (r: Option<HintMatch>)
    ensures
        r is Some <==> hint_applies(input@),
        r matches Some(h) ==> h.token@ == matched_token(input@) && h.suggestion@
            == suggested_rewrite(input@),
{
    if token_joined(input, "now") {
        Some(make_hint(input, "now"))
    } else if token_joined(input, "today") {
        Some(make_hint(input, "today"))
    } else if token_joined(input, "yesterday") {
        Some(make_hint(input, "yesterday"))
    } else if token_joined(input, "tomorrow") {
        Some(make_hint(input, "tomorrow"))
    } else {
        None
    }
}

/// Produces the diagnostic message for a failing input, exactly when the
/// input has the mistaken joined-token shape; otherwise nothing is emitted.
pub fn hint_message(input: &str) -> (r: Option<String>)
    ensures
        r is Some <==> hint_applies(input@),
        r matches Some(m) ==> m@ == hint_message_text(input@),
{
    match detect_hint(input) {
        None => None,
        Some(h) => {
            let mut m = String::from_str("\nYou wrote `");
            m.append(input);
            m.append("` which uses a special token (`");
            m.append(h.token.as_str());
            m.append(
                "`) with an attached offset.\nAccording to the systemd.time specification, a space is required after `",
            );
            m.append(h.token.as_str());
            m.append("`.\n\n    Try writing: `");
            m.append(h.suggestion.as_str());
            m.append("`\n\nFor more details, see ");
            m.append(crate::systemd_time_url());
            m.append(".\n");
            proof {
                assert(m@ =~= hint_message_text(input@));
            }
            Some(m)
        },
    }
}

/// The middle of a three-part concatenation stands in it as a subrange.
proof fn lemma_concat_extract(a: Seq<char>, b: Seq<char>, c: Seq<char>)
    ensures
        (a + b + c).subrange(a.len() as int, (a.len() + b.len()) as int) == b,
{
    assert((a + b + c).subrange(a.len() as int, (a.len() + b.len()) as int) =~= b);
}

/// For every input of the mistaken shape, the diagnostic message is
/// non-empty, contains the original input, and contains the suggested
/// rewrite, which inserts exactly one space after the detected token and
/// keeps the remainder of the input unchanged.
pub proof fn lemma_hint_message_mentions(s: Seq<char>)
    requires
        hint_applies(s),
    ensures
        hint_message_text(s).len() > 0,
        exists|i: int|
            0 <= i && i + s.len() <= hint_message_text(s).len()
                && #[trigger] hint_message_text(s).subrange(i, i + s.len()) == s,
        exists|i: int|
            0 <= i && i + suggested_rewrite(s).len() <= hint_message_text(s).len()
                && #[trigger] hint_message_text(s).subrange(i, i + suggested_rewrite(s).len())
                == suggested_rewrite(s),
        suggested_rewrite(s) == matched_token(s) + seq![' '] + s.subrange(
            matched_token(s).len() as int,
            s.len() as int,
        ),
        suggested_rewrite(s)[matched_token(s).len() as int] == ' ',
{
    let p1 = "\nYou wrote `"@;
    let p2 = "` which uses a special token (`"@;
    let p3 =
        "`) with an attached offset.\nAccording to the systemd.time specification, a space is required after `"@;
    let p4 = "`.\n\n    Try writing: `"@;
    let p5 = "`\n\nFor more details, see "@;
    let p6 = ".\n"@;
    let tok = matched_token(s);
    let sug = suggested_rewrite(s);
    let msg = hint_message_text(s);
    let tail1 = p2 + tok + p3 + tok + p4 + sug + p5 + crate::url_text() + p6;
    assert(msg =~= p1 + s + tail1);
    lemma_concat_extract(p1, s, tail1);
    assert(msg.subrange(p1.len() as int, (p1.len() + s.len()) as int) == s);
    let head2 = p1 + s + p2 + tok + p3 + tok + p4;
    let tail2 = p5 + crate::url_text() + p6;
    assert(msg =~= head2 + sug + tail2);
    lemma_concat_extract(head2, sug, tail2);
    assert((head2 + sug + tail2).subrange(head2.len() as int, (head2.len() + sug.len()) as int) == sug);
    assert(msg.subrange(head2.len() as int, (head2.len() + sug.len()) as int) == sug);
    assert(sug[tok.len() as int] == ' ');
}

} // verus!

