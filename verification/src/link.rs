//! Derives a GuardDuty documentation link from a finding type string.
//!
//! A finding type such as `"UnauthorizedAccess:EC2/SSHBruteForce"` names its
//! category between the first `:` and the first `/` after it. The resolver
//! lower-cases the whole string, extracts that category token, and maps it
//! through a closed table to a documentation group. An unknown category, or a
//! string without the `:`/`/` shape, resolves to the empty string: the table
//! fails closed on purpose, so that a new finding category yields no link
//! rather than a broken one.

use vstd::prelude::*;

verus! {

use vstd::string::StrSliceExecFns;
use vstd::string::StringExecFns;

/// What `str::to_lowercase` returns: a function of the characters alone.
pub uninterp spec fn lower_of(s: Seq<char>) -> Seq<char>;

/// Relies on `str::to_lowercase`: the result depends on the characters of the
/// input alone, so the same finding type always lower-cases the same way.
#[verifier::external_body]
fn lowercase(s: &str) -> (r: String)
    ensures
        r@ == lower_of(s@),
{
    s.to_lowercase()
}

/// The first position at or after `i` where `c` occurs in `s`.
pub open spec fn find_from(s: Seq<char>, c: char, i: int) -> Option<int>
    decreases s.len() - i,
{
    if i < 0 || i >= s.len() {
        None
    } else if s[i] == c {
        Some(i)
    } else {
        find_from(s, c, i + 1)
    }
}

/// The positions of the delimiters around the category token: the first `:`
/// in `s`, and the first `/` after it.
pub open spec fn category_span(s: Seq<char>) -> Option<(int, int)> {
    match find_from(s, ':', 0) {
        Option::None => Option::None,
        Option::Some(i) => match find_from(s, '/', i + 1) {
            Option::None => Option::None,
            Option::Some(j) => Option::Some((i, j)),
        },
    }
}

/// The category token of a lower-cased finding type: the characters strictly
/// between the first `:` and the first `/` after it, if both exist.
pub open spec fn category_of(s: Seq<char>) -> Option<Seq<char>> {
    match category_span(s) {
        Option::None => Option::None,
        Option::Some((i, j)) => Option::Some(s.subrange(i + 1, j)),
    }
}

/// The closed category table. Only these four categories resolve; anything
/// else fails closed.
pub open spec fn group_of(cat: Seq<char>) -> Option<Seq<char>> {
    if cat == "iamuser"@ {
        Option::Some("iam"@)
    } else if cat == "ec2"@ {
        Option::Some("ec2"@)
    } else if cat == "s3"@ {
        Option::Some("s3"@)
    } else if cat == "kubernetes"@ {
        Option::Some("kubernetes"@)
    } else {
        Option::None
    }
}

/// The root under which each documentation group page lives.
pub open spec fn base_url() -> Seq<char> {
    "https://docs.aws.amazon.com/guardduty/latest/ug/guardduty_finding-types-"@
}

/// The anchor fragment: the lower-cased finding type with the `:category/`
/// segment (positions `i` through `j`) rewritten to `-group-`.
pub open spec fn anchor_of(s: Seq<char>, i: int, j: int, group: Seq<char>) -> Seq<char> {
    s.subrange(0, i) + "-"@ + group + "-"@ + s.subrange(j + 1, s.len() as int)
}

/// The link a lower-cased finding type resolves to: the group's page plus the
/// anchor, or empty where the string has no category token or the token is
/// outside the table.
pub open spec fn resolved_link(low: Seq<char>) -> Seq<char> {
    match category_span(low) {
        Option::None => Seq::empty(),
        Option::Some((i, j)) => match group_of(low.subrange(i + 1, j)) {
            Option::None => Seq::empty(),
            Option::Some(g) => base_url() + g + ".html#"@ + anchor_of(low, i, j, g),
        },
    }
}

/// The link for a finding type as it arrives: resolution always works on the
/// lower-cased form.
pub open spec fn link_for(finding_type: Seq<char>) -> Seq<char> {
    resolved_link(lower_of(finding_type))
}

/// A category token that is not in the closed table, or a string without the
/// `:`/`/` shape at all, resolves to the empty link: the table fails closed.
pub proof fn lemma_unknown_category_fails_closed(low: Seq<char>)
    requires
        match category_of(low) {
            Option::Some(cat) => group_of(cat) is None,
            Option::None => true,
        },
    ensures
        resolved_link(low) =~= Seq::<char>::empty(),
{
}

/// Where `find_from` finds an occurrence, that occurrence lies at or after
/// the starting point, holds the character looked for, and is the first to
/// do so.
pub proof fn lemma_find_from_some(s: Seq<char>, c: char, i: int, k: int)
    requires
        find_from(s, c, i) == Option::Some(k),
    ensures
        i <= k < s.len(),
        s[k] == c,
        forall|m: int| i <= m < k ==> s[m] != c,
    decreases s.len() - i,
{
    if i < 0 || i >= s.len() {
    } else if s[i] == c {
    } else {
        lemma_find_from_some(s, c, i + 1, k);
    }
}

/// Finds the first occurrence of `c` in `s` at or after `from`.
fn find_char(s: &str, c: char, from: usize) -> (r: Option<usize>)
    ensures
        match r {
            Option::Some(k) => find_from(s@, c, from as int) == Option::Some(k as int) && k
                < s@.len(),
            Option::None => find_from(s@, c, from as int) is None,
        },
{
    let len = s.unicode_len();
    let mut k = from;
    while k < len
        invariant
            from <= k,
            len == s@.len(),
            find_from(s@, c, from as int) == find_from(s@, c, k as int),
        decreases len - k,
    {
        let ch = s.get_char(k);
        if ch == c {
            return Option::Some(k);
        }
        k = k + 1;
        proof {
            assert(find_from(s@, c, (k - 1) as int) == find_from(s@, c, k as int));
        }
    }
    Option::None
}

/// Whether two strings hold the same characters.
fn str_eq(a: &str, b: &str) -> (r: bool)
    ensures
        r == (a@ == b@),
{
    let na = a.unicode_len();
    let nb = b.unicode_len();
    if na != nb {
        proof {
            assert(a@ != b@);
        }
        return false;
    }
    let mut k: usize = 0;
    while k < na
        invariant
            k <= na,
            na == a@.len(),
            nb == b@.len(),
            na == nb,
            forall|m: int| 0 <= m < k ==> a@[m] == b@[m],
        decreases na - k,
    {
        if a.get_char(k) != b.get_char(k) {
            return false;
        }
        k = k + 1;
    }
    proof {
        assert(a@ =~= b@);
    }
    true
}

/// Resolves a finding type to its documentation link, or to the empty string
/// where the category token is missing or unknown.
pub fn finding_link(finding_type: &str) -> (r: String)
    ensures
        r@ == link_for(finding_type@),
{
    let low = lowercase(finding_type);
    let low_str = low.as_str();
    let len = low_str.unicode_len();

    let i = match find_char(low_str, ':', 0) {
        Option::Some(i) => i,
        Option::None => {
            return String::new();
        },
    };
    let j = match find_char(low_str, '/', i + 1) {
        Option::Some(j) => j,
        Option::None => {
            return String::new();
        },
    };

    proof {
        lemma_find_from_some(low@, ':', 0, i as int);
        lemma_find_from_some(low@, '/', i + 1, j as int);
    }
    let cat = low_str.substring_char(i + 1, j);
    let group: &'static str = if str_eq(cat, "iamuser") {
        "iam"
    } else if str_eq(cat, "ec2") {
        "ec2"
    } else if str_eq(cat, "s3") {
        "s3"
    } else if str_eq(cat, "kubernetes") {
        "kubernetes"
    } else {
        return String::new();
    };

    let prefix = low_str.substring_char(0, i);
    let suffix = low_str.substring_char(j + 1, len);

    let mut url = String::from_str(
        "https://docs.aws.amazon.com/guardduty/latest/ug/guardduty_finding-types-",
    );
    url.append(group);
    url.append(".html#");
    url.append(prefix);
    url.append("-");
    url.append(group);
    url.append("-");
    url.append(suffix);
    proof {
        assert(url@ =~= link_for(finding_type@));
    }
    url
}

} // verus!
