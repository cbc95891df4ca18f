//! Classification of the foreground window by its class name.

use crate::text::{chars_of, contains_text, find_from, lemma_first_occurrence};
use vstd::prelude::*;

verus! {

/// The kinds of foreground window in which a selection can be resolved: a
/// file manager window, the desktop, and an open or save dialog. A window of
/// no such kind is unrecognized, which is written `None`.
#[derive(Clone, Copy, Debug, PartialEq, Eq, Structural)]
pub enum FwWindowType {
    Explorer,
    Desktop,
    Dialog,
}

/// The classification rules in their order of priority: a class name that
/// holds the pattern is of the kind beside it.
pub open spec fn class_rules() -> Seq<(&'static str, FwWindowType)> {
    seq![
        ("CabinetWClass", FwWindowType::Explorer),
        ("Progman", FwWindowType::Desktop),
        ("WorkerW", FwWindowType::Desktop),
        ("#32770", FwWindowType::Dialog),
    ]
}

/// The kind of the first of `rules` whose pattern occurs in `class_name`.
pub open spec fn first_rule(rules: Seq<(&'static str, FwWindowType)>, class_name: Seq<char>)
    -> Option<FwWindowType>
    decreases rules.len(),
{
    if rules.len() == 0 {
        None
    } else if contains_text(class_name, rules[0].0@) {
        Some(rules[0].1)
    } else {
        first_rule(rules.drop_first(), class_name)
    }
}

/// The kind of a foreground window whose class name is `class_name`.
/// `has_def_view` tells whether the window has a shell view among its
/// children: a window that only carries the desktop's class name is not the
/// desktop without one.
pub open spec fn focused_type_of(class_name: Seq<char>, has_def_view: bool) -> Option<
    FwWindowType,
> {
    match first_rule(class_rules(), class_name) {
        Some(FwWindowType::Desktop) => if has_def_view {
            Some(FwWindowType::Desktop)
        } else {
            None
        },
        other => other,
    }
}

/// The kind of the first of `rules` whose pattern occurs in `class_name`.
pub fn apply_rules(rules: &Vec<(&'static str, FwWindowType)>, class_name: &str) -> (kind: Option<
    FwWindowType,
>)
    ensures
        kind == first_rule(rules@, class_name@),
{
    let name = chars_of(class_name);
    let mut i: usize = 0;
    assert(rules@.skip(0) == rules@);
    while i < rules.len()
        invariant
            i <= rules.len(),
            name@ == class_name@,
            first_rule(rules@, class_name@) == first_rule(rules@.skip(i as int), class_name@),
        decreases rules.len() - i,
    {
        let rule = rules[i];
        let pattern = chars_of(rule.0);
        let found = find_from(&name, &pattern, 0);
        proof {
            lemma_first_occurrence(name@, pattern@, 0);
            assert(rules@.skip(i as int).drop_first() == rules@.skip(i + 1));
        }
        if found.is_some() {
            return Some(rule.1);
        }
        i = i + 1;
    }
    None
}

/// Classifies the foreground window.
pub fn classify_window(class_name: &str, has_def_view: bool) -> (kind: Option<FwWindowType>)
    ensures
        kind == focused_type_of(class_name@, has_def_view),
{
    let rules: Vec<(&'static str, FwWindowType)> = vec![
        ("CabinetWClass", FwWindowType::Explorer),
        ("Progman", FwWindowType::Desktop),
        ("WorkerW", FwWindowType::Desktop),
        ("#32770", FwWindowType::Dialog),
    ];
    match apply_rules(&rules, class_name) {
        Some(FwWindowType::Desktop) => if has_def_view {
            Some(FwWindowType::Desktop)
        } else {
            None
        },
        other => other,
    }
}

} // verus!
