use vstd::prelude::*;
use regex::Regex;

verus! {

#[verifier::external_type_specification]
#[verifier::external_body]
pub struct ExRegex(Regex);

/// `s` occurs as a contiguous run of characters in `t`.
pub open spec fn is_substring(s: Seq<char>, t: Seq<char>) -> bool {
    exists|i: int, j: int| 0 <= i <= j <= t.len() && t.subrange(i, j) == s
}

/// The capture groups of the leftmost match of `re` in `body`, each as the
/// text it matched, or `None` when `re` does not match.
pub uninterp spec fn captures_of(re: Regex, body: Seq<char>) -> Option<Seq<Option<Seq<char>>>>;

/// The text of each group that took part in a match.
pub open spec fn group_texts(groups: Seq<Option<String>>) -> Seq<Option<Seq<char>>> {
    groups.map_values(
        |o: Option<String>|
            match o {
                Some(s) => Some(s@),
                None => None,
            },
    )
}

/// Whether `re` matches `body` with a group (or the whole match) that is
/// exactly `pattern`.
pub open spec fn spec_has_match(re: Regex, body: Seq<char>, pattern: Seq<char>) -> bool {
    match captures_of(re, body) {
        None => false,
        Some(g) => exists|i: int| 0 <= i < g.len() && g[i] == Some(pattern),
    }
}

/// Relies on regex::Regex::captures, with Captures::iter and Match::as_str:
/// the groups of the leftmost match, in order; group 0 (the whole match)
/// always takes part, and every group that takes part is a piece of `body`.
#[verifier::external_body]
fn capture_groups(re: &Regex, body: &str) -> (r: Option<Vec<Option<String>>>)
    ensures
        r is Some == captures_of(*re, body@) is Some,
        r matches Some(groups) ==> group_texts(groups@) == captures_of(*re, body@)->Some_0,
        r matches Some(groups) ==> groups.len() > 0 && groups[0] is Some,
        r matches Some(groups) ==> forall|i: int|
            0 <= i < groups.len() && groups[i] is Some ==> is_substring(
                (#[trigger] groups[i])->Some_0@,
                body@,
            ),
{
    re.captures(body).map(|caps| caps.iter().map(|m| m.map(|m| m.as_str().to_string())).collect())
}

/// Some group of `groups` holds exactly `pattern`.
pub open spec fn group_holds(groups: Seq<Option<String>>, pattern: Seq<char>) -> bool {
    exists|i: int|
        0 <= i < groups.len() && (#[trigger] groups[i]) is Some && groups[i]->Some_0@ == pattern
}

/// Whether one of the capture groups `groups` equals `pattern`.
pub fn groups_match(groups: &Vec<Option<String>>, pattern: &str) -> (r: bool)
    ensures
        r == group_holds(groups@, pattern@),
{
    let wanted = String::from_str(pattern);
    let mut i: usize = 0;
    while i < groups.len()
        invariant
            i <= groups.len(),
            wanted@ == pattern@,
            forall|j: int|
                0 <= j < i ==> !((#[trigger] groups@[j]) is Some && groups@[j]->Some_0@ == pattern@),
        decreases groups.len() - i,
    {
        match &groups[i] {
            Some(g) => {
                if g.eq(&wanted) {
                    return true;
                }
            },
            None => {},
        }
        i = i + 1;
    }
    false
}

/// Whether `re` matches `body` with a capture group (or the whole match)
/// equal to `pattern`. A `true` answer means `pattern` occurs in `body`.
pub fn has_match(re: &Regex, body: &str, pattern: &str) -> (r: bool)
    ensures
        r == spec_has_match(*re, body@, pattern@),
        r ==> is_substring(pattern@, body@),
{
    match capture_groups(re, body) {
        Some(groups) => {
            let found = groups_match(&groups, pattern);
            proof {
                let g = captures_of(*re, body@)->Some_0;
                if found {
                    let i = choose|i: int|
                        0 <= i < groups.len() && (#[trigger] groups@[i]) is Some
                            && groups@[i]->Some_0@ == pattern@;
                    assert(group_texts(groups@)[i] == Some(pattern@));
                }
                if spec_has_match(*re, body@, pattern@) {
                    let i = choose|i: int| 0 <= i < g.len() && g[i] == Some(pattern@);
                    assert(group_texts(groups@)[i] == Some(pattern@));
                    assert(groups@[i] is Some && groups@[i]->Some_0@ == pattern@);
                }
            }
            found
        },
        None => false,
    }
}

/// Membership test on a list of owned strings by a borrowed one.
pub trait FriendlyContains<T> {
    spec fn spec_friendly_contains(&self, value: Seq<char>) -> bool;

    fn friendly_contains(&self, value: &str) -> (r: bool)
        ensures
            r == self.spec_friendly_contains(value@),
    ;
}

impl FriendlyContains<String> for Vec<String> {
    open spec fn spec_friendly_contains(&self, value: Seq<char>) -> bool {
        exists|i: int| 0 <= i < self.len() && (#[trigger] self@[i])@ == value
    }

    fn friendly_contains(&self, value: &str) -> (r: bool) {
        let wanted = String::from_str(value);
        let mut i: usize = 0;
        while i < self.len()
            invariant
                i <= self.len(),
                wanted@ == value@,
                forall|j: int| 0 <= j < i ==> (#[trigger] self@[j])@ != value@,
            decreases self.len() - i,
        {
            if self[i].eq(&wanted) {
                return true;
            }
            i = i + 1;
        }
        false
    }
}

} // verus!
