//! Renaming of vendor C identifiers.
//!
//! Three rules are tried in order and the first that applies decides: one
//! exact name, then names of anonymous nested types, then plainly prefixed
//! names. A name that no rule applies to keeps its spelling.

use vstd::prelude::*;
use vstd::string::*;
use crate::text::{chars_of, occurs_at, same_text};

verus! {

/// An ASCII lowercase letter.
pub open spec fn is_lowercase(c: char) -> bool {
    'a' <= c && c <= 'z'
}

/// An ASCII decimal digit.
pub open spec fn is_digit(c: char) -> bool {
    '0' <= c && c <= '9'
}

/// No character of `s` is an ASCII lowercase letter.
pub open spec fn free_of_lowercase(s: Seq<char>) -> bool {
    forall|i: int| 0 <= i < s.len() ==> !is_lowercase(#[trigger] s[i])
}

/// The shorter vendor prefix, `hi`.
pub open spec fn short_prefix() -> Seq<char> {
    seq!['h', 'i']
}

/// The longer vendor prefix, `hifb`.
pub open spec fn long_prefix() -> Seq<char> {
    seq!['h', 'i', 'f', 'b']
}

/// What stands between the name of an enclosing type and the ordinal of an
/// anonymous type nested in it: `__bindgen_ty_`.
pub open spec fn nested_marker() -> Seq<char> {
    seq!['_', '_', 'b', 'i', 'n', 'd', 'g', 'e', 'n', '_', 't', 'y', '_']
}

/// The one name that is renamed by table.
pub open spec fn exact_name() -> Seq<char> {
    "hifbDYNAMIC_RANGE_E"@
}

/// What the name renamed by table becomes.
pub open spec fn exact_replacement() -> Seq<char> {
    "HIFB_DYNAMIC_RANGE_E"@
}

/// `name` is `prefix` followed by at least one character, none of them lowercase.
pub open spec fn strips(name: Seq<char>, prefix: Seq<char>) -> bool {
    &&& prefix.len() < name.len()
    &&& name.subrange(0, prefix.len() as int) == prefix
    &&& free_of_lowercase(name.skip(prefix.len() as int))
}

/// The remainder of a plainly prefixed name, if `name` is one. At most one of
/// the two prefixes can be stripped, see `lemma_one_prefix`.
pub open spec fn plain_rest(name: Seq<char>) -> Option<Seq<char>> {
    if strips(name, short_prefix()) {
        Some(name.skip(2))
    } else if strips(name, long_prefix()) {
        Some(name.skip(4))
    } else {
        None
    }
}

/// `name` ends in the nested-type marker and one digit.
pub open spec fn ends_nested(name: Seq<char>) -> bool {
    let n = name.len() as int;
    n >= 14 && name.subrange(n - 14, n - 1) == nested_marker() && is_digit(name[n - 1])
}

/// Remainder and ordinal of the name of an anonymous nested type, if `name` is one:
/// a plainly prefixed name, the marker, one digit.
pub open spec fn nested_rest(name: Seq<char>) -> Option<(Seq<char>, char)> {
    if ends_nested(name) {
        match plain_rest(name.take(name.len() - 14)) {
            Some(rest) => Some((rest, name.last())),
            None => None,
        }
    } else {
        None
    }
}

/// A way of renaming. The rules are tried in the order of `rule_order`, and
/// the first that applies to a name decides.
#[derive(Clone, Copy, Debug, PartialEq, Eq, Structural)]
pub enum RenameRule {
    /// The one name that is renamed by table.
    ExactName,
    /// A vendor prefix, a remainder without lowercase letters, the
    /// nested-type marker and a digit: becomes the remainder, `_U` and the digit.
    NestedType,
    /// A vendor prefix and a remainder without lowercase letters: becomes the remainder.
    PlainPrefix,
}

/// What a rule makes of `name`, or `None` where it does not apply.
pub open spec fn apply_rule(rule: RenameRule, name: Seq<char>) -> Option<Seq<char>> {
    match rule {
        RenameRule::ExactName => if name == exact_name() {
            Some(exact_replacement())
        } else {
            None
        },
        RenameRule::NestedType => match nested_rest(name) {
            Some((rest, ordinal)) => Some(rest + seq!['_', 'U', ordinal]),
            None => None,
        },
        RenameRule::PlainPrefix => plain_rest(name),
    }
}

/// The rules in the order in which they are tried: the exact name first,
/// then the more specific of the two patterns.
pub open spec fn rule_order() -> Seq<RenameRule> {
    seq![RenameRule::ExactName, RenameRule::NestedType, RenameRule::PlainPrefix]
}

/// What the first of `rules` that applies makes of `name`.
pub open spec fn first_match(rules: Seq<RenameRule>, name: Seq<char>) -> Option<Seq<char>>
    decreases rules.len(),
{
    if rules.len() == 0 {
        None
    } else {
        match apply_rule(rules[0], name) {
            Some(renamed) => Some(renamed),
            None => first_match(rules.skip(1), name),
        }
    }
}

/// The new spelling of `name`, or `None` where it keeps its own.
pub open spec fn normalize_spec(name: Seq<char>) -> Option<Seq<char>> {
    if name == exact_name() {
        Some(exact_replacement())
    } else {
        match nested_rest(name) {
            Some((rest, ordinal)) => Some(rest + seq!['_', 'U', ordinal]),
            None => plain_rest(name),
        }
    }
}

/// A name is renamed by the first rule of `rule_order` that applies to it,
/// and keeps its spelling where none does.
pub proof fn law_first_rule_decides(name: Seq<char>)
    ensures
        normalize_spec(name) == first_match(rule_order(), name),
{
    reveal_with_fuel(first_match, 4);
    let rules = rule_order();
    assert(rules.skip(1)[0] == RenameRule::NestedType);
    assert(rules.skip(1).skip(1)[0] == RenameRule::PlainPrefix);
    assert(rules.skip(1).skip(1).skip(1).len() == 0);
}

/// At most one of the two prefixes can be stripped from a name: after `hi`
/// the longer prefix goes on with a lowercase letter.
pub proof fn lemma_one_prefix(name: Seq<char>)
    ensures
        !(strips(name, short_prefix()) && strips(name, long_prefix())),
{
    if strips(name, short_prefix()) && strips(name, long_prefix()) {
        assert(name.subrange(0, 4)[2] == 'f');
        assert(name.skip(2)[0] == name[2]);
        assert(is_lowercase(name.skip(2)[0]));
    }
}

/// The rule for nested types and the rule for plain names never both apply,
/// so the order of these two decides nothing: the marker holds lowercase letters.
pub proof fn law_structural_rules_disjoint(name: Seq<char>)
    ensures
        nested_rest(name) is Some ==> plain_rest(name) is None,
{
    if nested_rest(name) is Some {
        let n = name.len() as int;
        assert(name.take(n - 14).len() == n - 14);
        assert(n - 14 >= 3);
        assert(name.subrange(n - 14, n - 1)[2] == 'b');
        assert(name[n - 12] == 'b');
        assert(name.skip(2)[n - 14] == name[n - 12]);
        assert(is_lowercase(name.skip(2)[n - 14]));
        assert(name.skip(4)[n - 16] == name[n - 12]);
        assert(is_lowercase(name.skip(4)[n - 16]));
    }
}

/// A vendor prefix, a remainder without lowercase letters, the nested-type
/// marker and a digit: the name becomes the remainder, `_U` and the digit.
/// With the digit `1` it ends in `_U1`.
pub proof fn law_nested_renamed(prefix: Seq<char>, rest: Seq<char>, ordinal: char)
    requires
        prefix == short_prefix() || prefix == long_prefix(),
        rest.len() > 0,
        free_of_lowercase(rest),
        is_digit(ordinal),
    ensures
        normalize_spec(prefix + rest + nested_marker() + seq![ordinal]) == Some(
            rest + seq!['_', 'U', ordinal],
        ),
{
    let head = prefix + rest;
    let name = head + nested_marker() + seq![ordinal];
    let n = name.len() as int;
    assert(name.last() == ordinal);
    assert(name.subrange(n - 14, n - 1) =~= nested_marker());
    assert(name.take(n - 14) =~= head);
    assert(head.subrange(0, prefix.len() as int) =~= prefix);
    assert(head.skip(prefix.len() as int) =~= rest);
    lemma_one_prefix(head);
    assert(plain_rest(head) == Some(rest));
    assert(name != exact_name()) by {
        reveal_strlit("hifbDYNAMIC_RANGE_E");
        if name == exact_name() {
            assert(name[n - 1] == 'E');
        }
    }
}

/// A vendor prefix and a remainder without lowercase letters: the name
/// becomes the remainder, unless it is the one name renamed by table.
pub proof fn law_plain_renamed(prefix: Seq<char>, rest: Seq<char>)
    requires
        prefix == short_prefix() || prefix == long_prefix(),
        rest.len() > 0,
        free_of_lowercase(rest),
        prefix + rest != exact_name(),
    ensures
        normalize_spec(prefix + rest) == Some(rest),
{
    let name = prefix + rest;
    assert(name.subrange(0, prefix.len() as int) =~= prefix);
    assert(name.skip(prefix.len() as int) =~= rest);
    lemma_one_prefix(name);
    assert(plain_rest(name) == Some(rest));
    law_structural_rules_disjoint(name);
}

/// A name with a lowercase letter behind its prefix keeps its spelling,
/// unless it ends as the name of a nested type does. The letter stands at
/// index `at`: behind `hifb`, or behind `hi` in a name that does not go on
/// with `fb`.
pub proof fn law_mixed_case_kept(name: Seq<char>, at: int)
    requires
        2 <= at < name.len(),
        is_lowercase(name[at]),
        at >= 4 || !(name.len() >= 4 && name.subrange(0, 4) == long_prefix()),
        !ends_nested(name),
    ensures
        normalize_spec(name) is None,
{
    assert(name.skip(2)[at - 2] == name[at]);
    if at >= 4 {
        assert(name.skip(4)[at - 4] == name[at]);
    }
    assert(plain_rest(name) is None);
    assert(name != exact_name()) by {
        reveal_strlit("hifbDYNAMIC_RANGE_E");
        if name == exact_name() {
            assert(name.subrange(0, 4) =~= long_prefix());
            assert(!is_lowercase(name[4]) && !is_lowercase(name[5]) && !is_lowercase(name[6]));
            assert(!is_lowercase(name[7]) && !is_lowercase(name[8]) && !is_lowercase(name[9]));
            assert(!is_lowercase(name[10]) && !is_lowercase(name[11]) && !is_lowercase(
                name[12],
            ));
            assert(!is_lowercase(name[13]) && !is_lowercase(name[14]) && !is_lowercase(
                name[15],
            ));
            assert(!is_lowercase(name[16]) && !is_lowercase(name[17]) && !is_lowercase(
                name[18],
            ));
        }
    }
}

/// Whatever a name is renamed to is not empty and holds no lowercase letter.
pub proof fn law_renamed_free_of_lowercase(name: Seq<char>)
    ensures
        normalize_spec(name) matches Some(renamed) ==> renamed.len() > 0 && free_of_lowercase(
            renamed,
        ),
{
    if name == exact_name() {
        reveal_strlit("HIFB_DYNAMIC_RANGE_E");
    } else if let Some((rest, ordinal)) = nested_rest(name) {
        let renamed = rest + seq!['_', 'U', ordinal];
        assert forall|i: int| 0 <= i < renamed.len() implies !is_lowercase(
            #[trigger] renamed[i],
        ) by {
            if i < rest.len() {
                assert(renamed[i] == rest[i]);
            }
        }
    }
}

/// Whether no character of `chars` from `from` up to `to` is a lowercase letter.
fn lowercase_free(chars: &Vec<char>, from: usize, to: usize) -> (r: bool)
    requires
        from <= to <= chars.len(),
    ensures
        r == free_of_lowercase(chars@.subrange(from as int, to as int)),
{
    let mut i: usize = from;
    while i < to
        invariant
            from <= i <= to,
            to <= chars.len(),
            forall|j: int| from <= j < i ==> !is_lowercase(#[trigger] chars[j]),
        decreases to - i,
    {
        let c: char = chars[i];
        if 'a' <= c && c <= 'z' {
            assert(is_lowercase(chars@.subrange(from as int, to as int)[i - from]));
            return false;
        }
        i += 1;
    }
    assert forall|j: int| 0 <= j < to - from implies !is_lowercase(
        #[trigger] chars@.subrange(from as int, to as int)[j],
    ) by {
        assert(!is_lowercase(chars[from + j]));
    }
    true
}

/// Whether the first `end` characters of `chars` are `prefix` and a
/// remainder that is not empty and free of lowercase letters.
fn strips_at(chars: &Vec<char>, end: usize, prefix: &Vec<char>) -> (r: bool)
    requires
        end <= chars.len(),
    ensures
        r == strips(chars@.take(end as int), prefix@),
{
    let p: usize = prefix.len();
    if p >= end {
        return false;
    }
    let ghost name = chars@.take(end as int);
    assert(name.subrange(0, p as int) =~= chars@.subrange(0, 0 + p));
    assert(name.skip(p as int) =~= chars@.subrange(p as int, end as int));
    occurs_at(chars, 0, prefix) && lowercase_free(chars, p, end)
}

/// Where the remainder starts, if the first `end` characters of `chars` are a
/// plainly prefixed name.
fn plain_start(chars: &Vec<char>, end: usize) -> (r: Option<usize>)
    requires
        end <= chars.len(),
    ensures
        match plain_rest(chars@.take(end as int)) {
            Some(rest) => r is Some && r.unwrap() <= end && rest == chars@.subrange(
                r.unwrap() as int,
                end as int,
            ),
            None => r is None,
        },
{
    let short: Vec<char> = vec!['h', 'i'];
    let long: Vec<char> = vec!['h', 'i', 'f', 'b'];
    assert(short@ =~= short_prefix());
    assert(long@ =~= long_prefix());
    let ghost name = chars@.take(end as int);
    if strips_at(chars, end, &short) {
        assert(name.skip(2) =~= chars@.subrange(2, end as int));
        Some(2)
    } else if strips_at(chars, end, &long) {
        assert(name.skip(4) =~= chars@.subrange(4, end as int));
        Some(4)
    } else {
        None
    }
}

impl RenameRule {
    /// Applies this rule alone: `Some` with the new spelling, or `None`
    /// where the rule does not apply to the name.
    pub fn apply(self, original_name: &str) -> (r: Option<String>)
        ensures
            r is Some <==> apply_rule(self, original_name@) is Some,
            r is Some ==> r.unwrap()@ == apply_rule(self, original_name@).unwrap(),
    {
        match self {
            RenameRule::ExactName => {
                if same_text(original_name, "hifbDYNAMIC_RANGE_E") {
                    Some(String::from_str("HIFB_DYNAMIC_RANGE_E"))
                } else {
                    None
                }
            },
            RenameRule::NestedType => {
                let chars: Vec<char> = chars_of(original_name);
                let n: usize = chars.len();
                if n < 14 {
                    return None;
                }
                let marker: Vec<char> = vec![
                    '_',
                    '_',
                    'b',
                    'i',
                    'n',
                    'd',
                    'g',
                    'e',
                    'n',
                    '_',
                    't',
                    'y',
                    '_',
                ];
                assert(marker@ =~= nested_marker());
                let last: char = chars[n - 1];
                if !(occurs_at(&chars, n - 14, &marker) && '0' <= last && last <= '9') {
                    return None;
                }
                match plain_start(&chars, n - 14) {
                    Some(start) => {
                        let mut renamed: String = String::from_str(
                            original_name.substring_char(start, n - 14),
                        );
                        renamed.append("_U");
                        renamed.append(original_name.substring_char(n - 1, n));
                        proof {
                            reveal_strlit("_U");
                            assert("_U"@ + chars@.subrange(n - 1, n as int) =~= seq![
                                '_',
                                'U',
                                last,
                            ]);
                            assert(renamed@ =~= chars@.subrange(start as int, n - 14) + seq![
                                '_',
                                'U',
                                last,
                            ]);
                        }
                        Some(renamed)
                    },
                    None => None,
                }
            },
            RenameRule::PlainPrefix => {
                let chars: Vec<char> = chars_of(original_name);
                let n: usize = chars.len();
                assert(chars@.take(n as int) =~= chars@);
                match plain_start(&chars, n) {
                    Some(start) => Some(
                        String::from_str(original_name.substring_char(start, n)),
                    ),
                    None => None,
                }
            },
        }
    }
}

/// Renames a vendor identifier: `Some` with the new spelling, or `None` where
/// the name keeps its own. Total on every string.
pub fn normalize(original_name: &str) -> (r: Option<String>)
    ensures
        r is Some <==> normalize_spec(original_name@) is Some,
        r is Some ==> r.unwrap()@ == normalize_spec(original_name@).unwrap(),
{
    if let Some(renamed) = RenameRule::ExactName.apply(original_name) {
        return Some(renamed);
    }
    if let Some(renamed) = RenameRule::NestedType.apply(original_name) {
        return Some(renamed);
    }
    RenameRule::PlainPrefix.apply(original_name)
}

} // verus!
