//! The field validator: runs a rule set over a login payload and reports,
//! for each field that breaks a rule, the first rule that it breaks.

use crate::payload::{Field, LoginPayload, PayloadModel};
use crate::rules::{distinct_fields, Check, FieldRules, FieldRulesModel, Rule, RuleSet, RuleModel};
use vstd::prelude::*;

verus! {

/// Whether a value breaks a check. Absence breaks `Required` and nothing
/// else; a value that is present breaks `MinLength` when it is too short.
pub open spec fn violated(check: Check, value: Option<Seq<char>>) -> bool {
    match check {
        Check::Required => value is None,
        Check::MinLength(min) => value matches Some(text) && text.len() < min,
    }
}

/// Calls `validator::ValidateRequired::validate_required` on an optional
/// string. Trusted: the answer is whether the value is present.
#[verifier::external_body]
fn is_present(value: &Option<String>) -> (ok: bool)
    ensures
        ok == (value is Some),
{
    validator::ValidateRequired::validate_required(value)
}

/// Calls `validator::ValidateLength::validate_length` on an optional string
/// with a lower bound alone. Trusted: an absent value passes, and a present
/// one passes when its number of characters is at least the bound.
#[verifier::external_body]
fn is_long_enough(value: &Option<String>, min: u64) -> (ok: bool)
    ensures
        ok == match value {
            Some(text) => text@.len() >= min,
            None => true,
        },
{
    validator::ValidateLength::validate_length(value, Some(min), None, None)
}

/// Runs one check on one value.
pub fn passes(check: Check, value: &Option<String>) -> (ok: bool)
    ensures
        ok == !violated(check, value.deep_view()),
{
    match check {
        Check::Required => is_present(value),
        Check::MinLength(min) => is_long_enough(value, min),
    }
}

/// The position of the first rule at or after `start` that the value breaks.
pub open spec fn first_violated_from(
    rules: Seq<RuleModel>,
    value: Option<Seq<char>>,
    start: int,
) -> Option<int>
    decreases rules.len() - start,
{
    if start < 0 || start >= rules.len() {
        None
    } else if violated(rules[start].check, value) {
        Some(start)
    } else {
        first_violated_from(rules, value, start + 1)
    }
}

/// The position of the first rule that the value breaks, in declaration
/// order.
pub open spec fn first_violated(rules: Seq<RuleModel>, value: Option<Seq<char>>) -> Option<int> {
    first_violated_from(rules, value, 0)
}

/// `first_violated_from` finds the least position at or after `start` whose
/// rule is broken, and finds none exactly when there is none.
pub proof fn lemma_first_violated_from(rules: Seq<RuleModel>, value: Option<Seq<char>>, start: int)
    requires
        0 <= start,
    ensures
        match first_violated_from(rules, value, start) {
            Some(i) => {
                &&& start <= i < rules.len()
                &&& violated(rules[i].check, value)
                &&& forall|j: int| start <= j < i ==> !violated(#[trigger] rules[j].check, value)
            },
            None => forall|j: int|
                start <= j < rules.len() ==> !violated(#[trigger] rules[j].check, value),
        },
    decreases rules.len() - start,
{
    if start < rules.len() && !violated(rules[start].check, value) {
        lemma_first_violated_from(rules, value, start + 1);
    }
}

/// The first broken rule is broken, no rule before it is, and there is none
/// exactly when the value breaks no rule at all.
pub proof fn lemma_first_violated(rules: Seq<RuleModel>, value: Option<Seq<char>>)
    ensures
        match first_violated(rules, value) {
            Some(i) => {
                &&& 0 <= i < rules.len()
                &&& violated(rules[i].check, value)
                &&& forall|j: int| 0 <= j < i ==> !violated(#[trigger] rules[j].check, value)
            },
            None => forall|j: int|
                0 <= j < rules.len() ==> !violated(#[trigger] rules[j].check, value),
        },
{
    lemma_first_violated_from(rules, value, 0);
}

/// Finds the first rule that a value breaks: the rule at the position
/// returned is broken and none before it is; `None` is returned exactly when
/// the value breaks no rule.
pub fn first_violation(rules: &Vec<Rule>, value: &Option<String>) -> (found: Option<usize>)
    ensures
        match found {
            Some(i) => {
                &&& i < rules.len()
                &&& first_violated(rules.deep_view(), value.deep_view()) == Some(i as int)
                &&& violated(rules[i as int].check, value.deep_view())
                &&& forall|j: int|
                    0 <= j < i ==> !violated((#[trigger] rules[j]).check, value.deep_view())
            },
            None => {
                &&& first_violated(rules.deep_view(), value.deep_view()) is None
                &&& forall|j: int|
                    0 <= j < rules.len() ==> !violated(
                        (#[trigger] rules[j]).check,
                        value.deep_view(),
                    )
            },
        },
{
    let mut i: usize = 0;
    while i < rules.len()
        invariant
            i <= rules.len(),
            first_violated(rules.deep_view(), value.deep_view()) == first_violated_from(
                rules.deep_view(),
                value.deep_view(),
                i as int,
            ),
        decreases rules.len() - i,
    {
        if !passes(rules[i].check, value) {
            proof {
                lemma_first_violated_in(rules, value);
            }
            return Some(i);
        }
        i += 1;
    }
    proof {
        lemma_first_violated_in(rules, value);
    }
    None
}

/// What `lemma_first_violated` says, of rules as they are held.
proof fn lemma_first_violated_in(rules: &Vec<Rule>, value: &Option<String>)
    ensures
        match first_violated(rules.deep_view(), value.deep_view()) {
            Some(i) => {
                &&& 0 <= i < rules.len()
                &&& violated(rules[i].check, value.deep_view())
                &&& forall|j: int|
                    0 <= j < i ==> !violated((#[trigger] rules[j]).check, value.deep_view())
            },
            None => forall|j: int|
                0 <= j < rules.len() ==> !violated((#[trigger] rules[j]).check, value.deep_view()),
        },
{
    lemma_first_violated(rules.deep_view(), value.deep_view());
    assert forall|j: int| 0 <= j < rules.len() implies (#[trigger] rules[j]).check
        == rules.deep_view()[j].check by {}
}

/// One broken rule: the field, the check that it broke, and the message of
/// that rule.
#[derive(Clone, Debug, PartialEq, Eq)]
pub struct Violation {
    pub field: Field,
    pub check: Check,
    pub message: Option<String>,
}

/// The model of a violation.
pub struct ViolationModel {
    pub field: Field,
    pub check: Check,
    pub message: Option<Seq<char>>,
}

impl View for Violation {
    type V = ViolationModel;

    open spec fn view(&self) -> ViolationModel {
        ViolationModel { field: self.field, check: self.check, message: self.message.deep_view() }
    }
}

impl DeepView for Violation {
    type V = ViolationModel;

    open spec fn deep_view(&self) -> ViolationModel {
        self@
    }
}

/// What one field reports: its first broken rule, or nothing where it breaks
/// none.
pub open spec fn violation_of(payload: PayloadModel, bound: FieldRulesModel) -> Option<
    ViolationModel,
> {
    match first_violated(bound.rules, payload.value(bound.field)) {
        Some(i) => Some(
            ViolationModel {
                field: bound.field,
                check: bound.rules[i].check,
                message: bound.rules[i].message,
            },
        ),
        None => None,
    }
}

/// Whether a violation of the field is among those reported.
pub open spec fn reports(found: Seq<ViolationModel>, field: Field) -> bool {
    exists|i: int| 0 <= i < found.len() && (#[trigger] found[i]).field == field
}

/// What a rule set reports of a payload: for each field that breaks a rule,
/// its first broken rule, in declaration order. Where a field is declared
/// more than once, the rules of its later declarations count as declared
/// after those of the earlier ones, so that a field is never reported twice.
pub open spec fn violations(payload: PayloadModel, rules: Seq<FieldRulesModel>) -> Seq<
    ViolationModel,
>
    decreases rules.len(),
{
    if rules.len() == 0 {
        Seq::empty()
    } else {
        let before = violations(payload, rules.drop_last());
        match violation_of(payload, rules.last()) {
            Some(violation) => if reports(before, violation.field) {
                before
            } else {
                before.push(violation)
            },
            None => before,
        }
    }
}

/// Checks one field against the rules bound to it.
pub fn check_field(payload: &LoginPayload, bound: &FieldRules) -> (found: Option<Violation>)
    ensures
        found.deep_view() == violation_of(payload@, bound@),
{
    let value = payload.value(bound.field);
    match first_violation(&bound.rules, value) {
        Some(i) => {
            let rule = &bound.rules[i];
            let message = match &rule.message {
                Some(text) => Some(text.clone()),
                None => None,
            };
            Some(Violation { field: bound.field, check: rule.check, message })
        },
        None => None,
    }
}

/// Whether a violation of the field is among those found so far.
pub fn is_reported(found: &Vec<Violation>, field: Field) -> (known: bool)
    ensures
        known == reports(found.deep_view(), field),
{
    let mut i: usize = 0;
    while i < found.len()
        invariant
            i <= found.len(),
            forall|j: int| 0 <= j < i ==> (#[trigger] found.deep_view()[j]).field != field,
        decreases found.len() - i,
    {
        if found[i].field == field {
            assert(found.deep_view()[i as int].field == field);
            return true;
        }
        i += 1;
    }
    false
}

/// A payload is valid when no field breaks any of the rules bound to it.
pub open spec fn valid(payload: PayloadModel, rules: Seq<FieldRulesModel>) -> bool {
    forall|k: int, j: int|
        0 <= k < rules.len() && 0 <= j < rules[k].rules.len() ==> !violated(
            (#[trigger] rules[k].rules[j]).check,
            payload.value(rules[k].field),
        )
}

/// Validates a payload against a rule set. It reports, in declaration order,
/// the first broken rule of each field that breaks one, and no field twice.
/// The result is empty exactly when the payload is valid; the call never
/// fails.
pub fn validate(payload: &LoginPayload, rules: &RuleSet) -> (found: Vec<Violation>)
    ensures
        found.deep_view() == violations(payload@, rules@),
        found.len() == 0 <==> valid(payload@, rules@),
        found.len() <= rules.fields.len(),
        forall|i: int, j: int|
            0 <= i < j < found.len() ==> (#[trigger] found[i]).field != (#[trigger] found[j]).field,
{
    let mut found: Vec<Violation> = Vec::new();
    let mut i: usize = 0;
    while i < rules.fields.len()
        invariant
            i <= rules.fields.len(),
            found.deep_view() == violations(payload@, rules@.take(i as int)),
        decreases rules.fields.len() - i,
    {
        assert(rules@.take(i + 1).drop_last() == rules@.take(i as int));
        assert(rules@.take(i + 1).last() == rules.fields[i as int]@);
        match check_field(payload, &rules.fields[i]) {
            Some(violation) => {
                if !is_reported(&found, violation.field) {
                    let ghost before = found.deep_view();
                    found.push(violation);
                    assert(found.deep_view() =~= before.push(violation@));
                }
            },
            None => {},
        }
        i += 1;
    }
    proof {
        assert(rules@.take(i as int) == rules@);
        lemma_valid_iff_no_rule_broken(payload@, rules@);
        lemma_violations_in_declaration_order(payload@, rules@);
        assert forall|a: int, b: int| 0 <= a < b < found.len() implies (#[trigger] found[a]).field
            != (#[trigger] found[b]).field by {
            assert(found[a].field == found.deep_view()[a].field);
            assert(found[b].field == found.deep_view()[b].field);
        }
    }
    found
}

/// The position in the rule set of the declaration that reports the
/// violation at position `i`.
pub open spec fn origin(payload: PayloadModel, rules: Seq<FieldRulesModel>, i: int) -> int
    decreases rules.len(),
{
    if rules.len() == 0 {
        0
    } else if violations(payload, rules).len() > violations(payload, rules.drop_last()).len() && i
        == violations(payload, rules.drop_last()).len() {
        rules.len() - 1
    } else {
        origin(payload, rules.drop_last(), i)
    }
}

/// The violations are the reports of the fields that break a rule, each
/// field once and in declaration order. `origin` maps the positions of the
/// violations, in rising order, to the declarations that report them; no two
/// violations are of the same field; the declaration that reports a field
/// is the first of that field in which a rule is broken; and every field
/// that breaks a rule is reported.
pub proof fn lemma_violations_in_declaration_order(
    payload: PayloadModel,
    rules: Seq<FieldRulesModel>,
)
    ensures
        violations(payload, rules).len() <= rules.len(),
        forall|i: int|
            0 <= i < violations(payload, rules).len() ==> {
                &&& 0 <= #[trigger] origin(payload, rules, i) < rules.len()
                &&& violation_of(payload, rules[origin(payload, rules, i)]) == Some(
                    violations(payload, rules)[i],
                )
            },
        forall|i: int, j: int|
            0 <= i < j < violations(payload, rules).len() ==> #[trigger] origin(payload, rules, i)
                < #[trigger] origin(payload, rules, j),
        forall|i: int, j: int|
            0 <= i < j < violations(payload, rules).len() ==> (#[trigger] violations(
                payload,
                rules,
            )[i]).field != (#[trigger] violations(payload, rules)[j]).field,
        forall|i: int, k: int|
            0 <= i < violations(payload, rules).len() && 0 <= k < origin(payload, rules, i)
                && (#[trigger] rules[k]).field == (#[trigger] violations(payload, rules)[i]).field
                ==> violation_of(payload, rules[k]) is None,
        forall|k: int|
            0 <= k < rules.len() && violation_of(payload, #[trigger] rules[k]) is Some ==> reports(
                violations(payload, rules),
                rules[k].field,
            ),
    decreases rules.len(),
{
    if rules.len() > 0 {
        let head = rules.drop_last();
        let before = violations(payload, head);
        let found = violations(payload, rules);
        let last = rules.len() - 1;
        lemma_violations_in_declaration_order(payload, head);
        lemma_first_violated(rules[last].rules, payload.value(rules[last].field));
        assert forall|k: int| 0 <= k < last implies #[trigger] rules[k] == head[k] by {}
        assert forall|i: int| 0 <= i < before.len() implies #[trigger] origin(payload, rules, i)
            == origin(payload, head, i) && found[i] == before[i] by {}
        if found.len() > before.len() {
            let violation = violation_of(payload, rules[last])->0;
            assert(found == before.push(violation));
            assert(origin(payload, rules, before.len() as int) == last);
            assert(!reports(before, violation.field));
            assert forall|i: int, k: int|
                0 <= i < found.len() && 0 <= k < origin(payload, rules, i) && (
                #[trigger] rules[k]).field == (#[trigger] found[i]).field implies violation_of(
                payload,
                rules[k],
            ) is None by {
                if i == before.len() {
                    assert(rules[k] == head[k]);
                    if violation_of(payload, head[k]) is Some {
                        assert(reports(before, head[k].field));
                    }
                } else {
                    assert(rules[k] == head[k]);
                    assert(found[i] == before[i]);
                }
            }
            assert forall|k: int|
                0 <= k < rules.len() && violation_of(payload, #[trigger] rules[k])
                    is Some implies reports(found, rules[k].field) by {
                if k < last {
                    assert(rules[k] == head[k]);
                    let i = choose|i: int|
                        0 <= i < before.len() && (#[trigger] before[i]).field == head[k].field;
                    assert(found[i].field == rules[k].field);
                } else {
                    assert(found[before.len() as int].field == rules[k].field);
                }
            }
        } else {
            assert(found == before);
            assert forall|i: int, k: int|
                0 <= i < found.len() && 0 <= k < origin(payload, rules, i) && (
                #[trigger] rules[k]).field == (#[trigger] found[i]).field implies violation_of(
                payload,
                rules[k],
            ) is None by {
                assert(rules[k] == head[k]);
            }
            assert forall|k: int|
                0 <= k < rules.len() && violation_of(payload, #[trigger] rules[k])
                    is Some implies reports(found, rules[k].field) by {
                if k < last {
                    assert(rules[k] == head[k]);
                }
            }
        }
    }
}

/// In a rule set that declares no field twice, every declaration in which a
/// rule is broken reports its own violation.
pub proof fn lemma_declared_once(payload: PayloadModel, rules: Seq<FieldRulesModel>, k: int)
    requires
        distinct_fields(rules),
        0 <= k < rules.len(),
        violation_of(payload, rules[k]) is Some,
    ensures
        violations(payload, rules).contains(violation_of(payload, rules[k])->0),
        exists|i: int|
            0 <= i < violations(payload, rules).len() && #[trigger] origin(payload, rules, i) == k,
{
    lemma_violations_in_declaration_order(payload, rules);
    let found = violations(payload, rules);
    let i = choose|i: int| 0 <= i < found.len() && (#[trigger] found[i]).field == rules[k].field;
    let o = origin(payload, rules, i);
    assert(rules[o].field == found[i].field);
    assert(o == k);
    assert(found[i] == violation_of(payload, rules[k])->0);
}

/// A payload is valid, that is, nothing is reported of it, exactly when no
/// field breaks any of its rules.
pub proof fn lemma_valid_iff_no_rule_broken(payload: PayloadModel, rules: Seq<FieldRulesModel>)
    ensures
        violations(payload, rules).len() == 0 <==> valid(payload, rules),
{
    lemma_violations_in_declaration_order(payload, rules);
    assert forall|k: int| 0 <= k < rules.len() implies (violation_of(payload, #[trigger] rules[k])
        is None <==> forall|j: int|
        0 <= j < rules[k].rules.len() ==> !violated(
            (#[trigger] rules[k].rules[j]).check,
            payload.value(rules[k].field),
        )) by {
        lemma_first_violated(rules[k].rules, payload.value(rules[k].field));
    }
    if violations(payload, rules).len() > 0 {
        let k = origin(payload, rules, 0);
        assert(violation_of(payload, rules[k]) is Some);
    }
}

/// Validating again reports the same: what is reported depends on what the
/// payload and the rules hold, and on nothing else. Whatever two runs on the
/// same contents return, they return the same violations in the same order.
pub proof fn lemma_validation_repeatable(
    payload: LoginPayload,
    again: LoginPayload,
    rules: RuleSet,
    rules_again: RuleSet,
    first: Vec<Violation>,
    second: Vec<Violation>,
)
    requires
        payload@ == again@,
        rules@ == rules_again@,
        first.deep_view() == violations(payload@, rules@),
        second.deep_view() == violations(again@, rules_again@),
    ensures
        first.deep_view() == second.deep_view(),
{
}

} // verus!
