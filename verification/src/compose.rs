//! Notification composition: a commit count and a calendar key become the
//! tiered message text, under the fixed subject line.
use crate::digits::{dec_str, u32_to_string};
use vstd::prelude::*;
use vstd::string::*;

verus! {

/// The fixed subject line of every notification.
pub open spec fn spec_subject() -> Seq<char> {
    "Commit Check"@
}

/// The message for a day without commits.
pub open spec fn spec_zero_message() -> Seq<char> {
    "You haven't made a commit yet today - make sure to have a commit in!"@
}

/// The message for exactly one commit.
pub open spec fn spec_single_message(key: Seq<char>) -> Seq<char> {
    "Nice job on the commit you made on "@ + key
}

/// The message for more than one commit.
pub open spec fn spec_multi_message(count: nat, key: Seq<char>) -> Seq<char> {
    "Nice job! You made "@ + dec_str(count) + " commits on "@ + key
}

/// The tiered message: wording varies by count bracket (zero, one, more).
pub open spec fn spec_tiered_message(count: nat, key: Seq<char>) -> Seq<char> {
    if count == 0 {
        spec_zero_message()
    } else if count == 1 {
        spec_single_message(key)
    } else {
        spec_multi_message(count, key)
    }
}

/// The message carrying a tooltip's literal text under the fixed label.
pub open spec fn spec_tooltip_message(text: Seq<char>) -> Seq<char> {
    "Commit Checker: "@ + text
}

/// A plain not-found wording naming a date. The pipeline itself never uses it:
/// absence degrades to the zero-tier message instead.
pub open spec fn spec_error_message(key: Seq<char>) -> Seq<char> {
    "No commits found on "@ + key
}

/// The notification pushed to the messaging topic.
#[derive(Debug)]
pub struct Notification {
    pub subject: String,
    pub message: String,
}

/// Composes the tiered notification for a count on a date.
pub fn compose(count: u32, key: &str) -> (n: Notification)
    ensures
        n.subject@ == spec_subject(),
        n.message@ == spec_tiered_message(count as nat, key@),
{
    let message = if count == 0 {
        "You haven't made a commit yet today - make sure to have a commit in!".to_owned()
    } else if count == 1 {
        let m = "Nice job on the commit you made on ".to_owned().concat(key);
        proof {
            assert(m@ =~= spec_single_message(key@));
        }
        m
    } else {
        let m = "Nice job! You made ".to_owned().concat(u32_to_string(count).as_str()).concat(
            " commits on ",
        ).concat(key);
        proof {
            assert(m@ =~= spec_multi_message(count as nat, key@));
        }
        m
    };
    Notification { subject: "Commit Check".to_owned(), message }
}

/// Composes the literal-text notification for a captured tooltip text.
pub fn compose_tooltip(text: &str) -> (n: Notification)
    ensures
        n.subject@ == spec_subject(),
        n.message@ == spec_tooltip_message(text@),
{
    let message = "Commit Checker: ".to_owned().concat(text);
    proof {
        assert(message@ =~= spec_tooltip_message(text@));
    }
    Notification { subject: "Commit Check".to_owned(), message }
}

/// Renders the plain not-found message for a date, for callers that report a
/// missing marker outright instead of composing a notification.
pub fn format_error_message(date: &String) -> (r: String)
    ensures
        r@ == spec_error_message(date@),
{
    let r = "No commits found on ".to_owned().concat(date.as_str());
    proof {
        assert(r@ =~= spec_error_message(date@));
    }
    r
}

/// The tier boundaries: zero commits give the no-commit message, one commit
/// the singular wording, two commits the plural wording with the count.
pub proof fn lemma_tiering_boundaries(key: Seq<char>)
    ensures
        spec_tiered_message(0, key) == spec_zero_message(),
        spec_tiered_message(1, key) == "Nice job on the commit you made on "@ + key,
        spec_tiered_message(2, key) == "Nice job! You made 2 commits on "@ + key,
{
    reveal_strlit("Nice job! You made ");
    reveal_strlit(" commits on ");
    reveal_strlit("2");
    reveal_strlit("Nice job! You made 2 commits on ");
    assert(dec_str(2) =~= seq!['2']);
    assert(spec_tiered_message(2, key) =~= "Nice job! You made 2 commits on "@ + key);
}

/// Every message the composer can produce is non-empty.
pub proof fn lemma_message_nonempty(count: nat, text: Seq<char>, key: Seq<char>)
    ensures
        spec_tiered_message(count, key).len() > 0,
        spec_tooltip_message(text).len() > 0,
        spec_error_message(key).len() > 0,
{
    reveal_strlit("You haven't made a commit yet today - make sure to have a commit in!");
    reveal_strlit("Nice job on the commit you made on ");
    reveal_strlit("Nice job! You made ");
    reveal_strlit("Commit Checker: ");
    reveal_strlit("No commits found on ");
}

/// Composing is deterministic: two notifications composed from the same count
/// and key are identical in subject and message.
pub proof fn lemma_compose_deterministic(
    a: Notification,
    b: Notification,
    count: u32,
    key: Seq<char>,
)
    requires
        a.subject@ == spec_subject(),
        a.message@ == spec_tiered_message(count as nat, key),
        b.subject@ == spec_subject(),
        b.message@ == spec_tiered_message(count as nat, key),
    ensures
        a.subject@ == b.subject@,
        a.message@ == b.message@,
{
}

} // verus!
