use vstd::prelude::*;
use vstd::string::StringExecFns;

verus! {

/// Zero-width markup of the renderer: a caret, one or more word characters,
/// and optionally a parenthesised list of word characters, `#` and `+`.
pub const MARKUP_PATTERN: &'static str = "\\^\\w+(\\([#\\w+]*\\))?";

/// What remains of `text` once every match of the regular expression
/// `pattern` has been removed.
pub uninterp spec fn regex_removed(pattern: Seq<char>, text: Seq<char>) -> Seq<char>;

/// Relies on regex::Regex::new, which refuses only an invalid or oversized
/// pattern (the markup pattern is neither), and on Regex::replace_all, which
/// here replaces every match in `text` by nothing: the text can only shrink,
/// and stays as it is when nothing of it was removed.
#[verifier::external_body]
fn remove_matches(pattern: &str, text: &str) -> (r: Option<String>)
    ensures
        pattern@ == MARKUP_PATTERN@ ==> r is Some,
        r matches Some(s) ==> s@ == regex_removed(pattern@, text@),
        r matches Some(s) ==> s@.len() < text@.len() || s@ == text@,
{
    match regex::Regex::new(pattern) {
        Ok(re) => Some(re.replace_all(text, "").into_owned()),
        Err(_) => None,
    }
}

/// `text` after `n` rounds of removing the markup.
pub open spec fn strip_rounds(text: Seq<char>, n: nat) -> Seq<char>
    decreases n,
{
    if n == 0 {
        text
    } else {
        regex_removed(MARKUP_PATTERN@, strip_rounds(text, (n - 1) as nat))
    }
}

/// `text` without its markup, which takes no room on the bar. Removing a
/// markup can join two pieces into a new one, so removal is repeated; as every
/// round that changes the text shortens it, as many rounds as the text has
/// characters reach the end.
pub open spec fn markup_stripped(text: Seq<char>) -> Seq<char> {
    strip_rounds(text, text.len())
}

/// Whether `text` holds no markup left to remove.
pub open spec fn markup_free(text: Seq<char>) -> bool {
    regex_removed(MARKUP_PATTERN@, text) == text
}

proof fn lemma_rounds_settle(text: Seq<char>, k: nat, j: nat)
    requires
        k <= j,
        markup_free(strip_rounds(text, k)),
    ensures
        strip_rounds(text, j) == strip_rounds(text, k),
    decreases j - k,
{
    if k < j {
        lemma_rounds_settle(text, k, (j - 1) as nat);
    }
}

/// Removes the markup from `text`, round after round, until none is left.
pub fn strip_markup(text: &str) -> (r: String)
    ensures
        r@ == markup_stripped(text@),
        markup_free(r@),
{
    let mut cur = String::from_str(text);
    let ghost mut k: nat = 0;
    loop
        invariant
            cur@ == strip_rounds(text@, k),
            cur@.len() + k <= text@.len(),
        ensures
            cur@ == strip_rounds(text@, k),
            k <= text@.len(),
            markup_free(cur@),
        decreases cur@.len(),
    {
        let next = remove_matches(MARKUP_PATTERN, cur.as_str()).unwrap();
        if next == cur {
            break;
        }
        cur = next;
        proof {
            k = k + 1;
        }
    }
    proof {
        lemma_rounds_settle(text@, k, text@.len());
    }
    cur
}

} // verus!
