//! Ref Resolver: turns the outcome of a head-reference lookup into the short
//! display string of the prompt, distinguishing branches from detached
//! commits.

use vstd::prelude::*;
use vstd::string::StringExecFns;

verus! {

/// The outcome of looking a reference up, reduced to what the resolver reads:
/// whether the lookup succeeded, whether the reference is a branch and under
/// which short name, and, for a detached reference, whether its target could
/// be peeled to a commit with an abbreviated id.
#[derive(Debug)]
pub enum HeadLookup {
    /// The lookup failed: unborn head or unreadable reference.
    Missing,
    /// The reference is a branch; its short name may itself be unavailable.
    Branch { shorthand: Option<String> },
    /// The reference is not a branch; `short_id` holds the abbreviated commit
    /// id when the target could be peeled to a commit, and nothing otherwise.
    Detached { short_id: Option<String> },
}

/// What the resolver displays for a lookup outcome: the branch short name,
/// a parenthesized abbreviated commit id for a detached reference, the
/// literal `HEAD` when a detached reference cannot be peeled, and the empty
/// string when the lookup itself failed.
pub open spec fn head_display(l: HeadLookup) -> Seq<char> {
    match l {
        HeadLookup::Missing => Seq::<char>::empty(),
        HeadLookup::Branch { shorthand } => match shorthand {
            Option::Some(name) => name@,
            Option::None => Seq::<char>::empty(),
        },
        HeadLookup::Detached { short_id } => match short_id {
            Option::Some(id) => "("@ + id@ + "...)"@,
            Option::None => "HEAD"@,
        },
    }
}

/// Renders a head-lookup outcome as its display string.
pub fn format_head(l: &HeadLookup) -> (r: String)
    ensures
        r@ == head_display(*l),
{
    match l {
        HeadLookup::Missing => String::new(),
        HeadLookup::Branch { shorthand } => match shorthand {
            Option::Some(name) => name.clone(),
            Option::None => String::new(),
        },
        HeadLookup::Detached { short_id } => match short_id {
            Option::Some(id) => {
                let mut r = String::from_str("(");
                r.append(id.as_str());
                r.append("...)");
                r
            },
            Option::None => String::from_str("HEAD"),
        },
    }
}

/// A detached head whose target cannot be peeled to a commit displays exactly
/// the non-empty literal `HEAD`, never the empty string.
pub proof fn lemma_unpeelable_detached_head_display(l: HeadLookup)
    requires
        l matches HeadLookup::Detached { short_id } && short_id is None,
    ensures
        head_display(l) == "HEAD"@,
        head_display(l).len() == 4,
{
    reveal_strlit("HEAD");
}

} // verus!
