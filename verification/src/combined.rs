//! The combined token that travels to the user: an identifier, a colon and
//! an opaque secret. Refresh tokens, email-verification tokens and
//! password-reset tokens all have this form.

use vstd::prelude::*;
use crate::ids::{hyphenated, lemma_hyphenated_has_no_colon, uuid_parse, Uuid};
use crate::text::chars_of;

verus! {

/// No colon stands in `text`.
pub open spec fn colon_free(text: Seq<char>) -> bool {
    forall|i: int| 0 <= i < text.len() ==> text[i] != ':'
}

/// The two parts of a text that holds exactly one colon.
pub open spec fn split_once_only(text: Seq<char>) -> Option<(Seq<char>, Seq<char>)> {
    if exists|k: int| is_only_colon(text, k) {
        let k = choose|k: int| is_only_colon(text, k);
        Some((text.subrange(0, k), text.subrange(k + 1, text.len() as int)))
    } else {
        None
    }
}

/// Position `k` of `text` holds a colon, and no other position does.
pub open spec fn is_only_colon(text: Seq<char>, k: int) -> bool {
    &&& 0 <= k < text.len()
    &&& forall|i: int| 0 <= i < text.len() ==> (text[i] == ':' <==> i == k)
}

/// The identifier and the secret of a combined token: `None` unless the
/// text is two colon-separated parts of which the first reads as an
/// identifier.
pub open spec fn parse_combined(text: Seq<char>) -> Option<(u128, Seq<char>)> {
    match split_once_only(text) {
        Some((head, secret)) => match uuid_parse(head) {
            Some(id) => Some((id, secret)),
            None => None,
        },
        None => None,
    }
}

/// The identifier that a combined token names; zero where it names none.
pub open spec fn named_id(text: Seq<char>) -> u128 {
    match parse_combined(text) {
        Some((id, _)) => id,
        None => 0,
    }
}

/// The combined token of an identifier and a secret.
pub open spec fn combined_text(id: u128, secret: Seq<char>) -> Seq<char> {
    hyphenated(id) + seq![':'] + secret
}

/// Two positions that both are the only colon are the same position.
pub proof fn lemma_only_colon_unique(text: Seq<char>, k: int, j: int)
    requires
        is_only_colon(text, k),
        is_only_colon(text, j),
    ensures
        k == j,
{
    assert(text[k] == ':');
}

/// Splits `text` at its colon where it holds exactly one.
pub fn split_combined(text: &str) -> (r: Option<(String, String)>)
    ensures
        match r {
            Some((head, secret)) => split_once_only(text@) == Some((head@, secret@)),
            None => split_once_only(text@) is None,
        },
{
    let chars = chars_of(text);
    let n = chars.len();
    let mut first: usize = 0;
    while first < n && chars[first] != ':'
        invariant
            first <= n,
            n == chars@.len(),
            forall|i: int| 0 <= i < first ==> chars@[i] != ':',
        decreases n - first,
    {
        first += 1;
    }
    if first == n {
        assert forall|k: int| !is_only_colon(text@, k) by {
            if is_only_colon(text@, k) {
                assert(text@[k] == ':');
            }
        }
        return None;
    }
    let mut next: usize = first + 1;
    while next < n && chars[next] != ':'
        invariant
            first < next <= n,
            n == chars@.len(),
            forall|i: int| first < i < next ==> chars@[i] != ':',
        decreases n - next,
    {
        next += 1;
    }
    if next < n {
        assert forall|k: int| !is_only_colon(text@, k) by {
            if is_only_colon(text@, k) {
                assert(text@[first as int] == ':');
                assert(text@[next as int] == ':');
            }
        }
        return None;
    }
    assert(is_only_colon(text@, first as int));
    proof {
        let k = choose|k: int| is_only_colon(text@, k);
        lemma_only_colon_unique(text@, k, first as int);
    }
    let head = text.substring_char(0, first);
    let secret = text.substring_char(first + 1, n);
    Some((String::from_str(head), String::from_str(secret)))
}

/// Reads a combined token.
pub fn parse_combined_token(text: &str) -> (r: Option<(Uuid, String)>)
    ensures
        match r {
            Some((id, secret)) => parse_combined(text@) == Some((id.value, secret@)),
            None => parse_combined(text@) is None,
        },
{
    match split_combined(text) {
        Some((head, secret)) => match Uuid::parse_str(head.as_str()) {
            Some(id) => Some((id, secret)),
            None => None,
        },
        None => None,
    }
}

/// Writes a combined token.
pub fn format_combined_token(id: Uuid, secret: &str) -> (text: String)
    ensures
        text@ == combined_text(id.value, secret@),
        colon_free(secret@) ==> parse_combined(text@) == Some((id.value, secret@)),
{
    let mut text = id.to_string();
    text.append(":");
    text.append(secret);
    proof {
        reveal_strlit(":");
        assert(":"@ =~= seq![':']);
        if colon_free(secret@) {
            lemma_combined_round_trip(id.value, secret@);
        }
    }
    text
}

/// A combined token reads back as the identifier and the secret that it was
/// written from, provided that the secret holds no colon.
pub proof fn lemma_combined_round_trip(id: u128, secret: Seq<char>)
    requires
        colon_free(secret),
    ensures
        split_once_only(combined_text(id, secret)) == Some((hyphenated(id), secret)),
        uuid_parse(hyphenated(id)) == Some(id) ==> parse_combined(combined_text(id, secret))
            == Some((id, secret)),
{
    let text = combined_text(id, secret);
    lemma_hyphenated_has_no_colon(id);
    assert(text.len() == 37 + secret.len());
    assert(text[36] == ':');
    assert forall|i: int| 0 <= i < text.len() implies (text[i] == ':' <==> i == 36) by {
        if i < 36 {
            assert(text[i] == hyphenated(id)[i]);
        } else if i > 36 {
            assert(text[i] == secret[i - 37]);
        }
    }
    assert(is_only_colon(text, 36));
    let k = choose|k: int| is_only_colon(text, k);
    lemma_only_colon_unique(text, k, 36);
    assert(text.subrange(0, 36) =~= hyphenated(id));
    assert(text.subrange(37, text.len() as int) =~= secret);
}

} // verus!
