use onlyweb::payload::{Field, LoginPayload};
use onlyweb::rules::{login_rules, rule, Check, FieldRules, Rule, RuleSet};
use onlyweb::validation::{
    check_field, first_violation, is_reported, passes, validate, Violation,
};

fn payload(username: Option<&str>, password: Option<&str>) -> LoginPayload {
    LoginPayload {
        username: username.map(|text| text.to_string()),
        password: password.map(|text| text.to_string()),
    }
}

fn text(value: &str) -> Option<String> {
    Some(value.to_string())
}

const USERNAME_REQUIRED: &str = "Логин не может быть пустым";
const USERNAME_LENGTH: &str = "Логин недостаточной длины (не может быть меньше 1 символов)";
const PASSWORD_REQUIRED: &str = "Пароль не может быть пустым";
const PASSWORD_LENGTH: &str = "Пароль недостаточной длины (не может быть меньше 10 символов)";

#[test]
fn field_names() {
    assert_eq!(Field::Username.name(), "username");
    assert_eq!(Field::Password.name(), "password");
}

#[test]
fn payload_value_by_field() {
    let body = payload(Some("alice"), None);
    assert_eq!(body.value(Field::Username), &text("alice"));
    assert_eq!(body.value(Field::Password), &None);
}

#[test]
fn required_fails_on_absence_only() {
    assert!(!passes(Check::Required, &None));
    assert!(passes(Check::Required, &text("")));
    assert!(passes(Check::Required, &text("x")));
}

#[test]
fn min_length_passes_on_absence() {
    assert!(passes(Check::MinLength(10), &None));
    assert!(passes(Check::MinLength(0), &None));
}

#[test]
fn min_length_is_strict_below_the_bound() {
    assert!(!passes(Check::MinLength(10), &text("123456789")));
    assert!(passes(Check::MinLength(10), &text("1234567890")));
    assert!(passes(Check::MinLength(10), &text("12345678901")));
    assert!(!passes(Check::MinLength(1), &text("")));
    assert!(passes(Check::MinLength(0), &text("")));
}

#[test]
fn min_length_counts_characters_not_bytes() {
    // nine characters in eighteen bytes
    assert!(!passes(Check::MinLength(10), &text("ппппппппп")));
    // ten characters in twenty bytes
    assert!(passes(Check::MinLength(10), &text("пппппппппп")));
    // one character in four bytes
    assert!(passes(Check::MinLength(1), &text("🦀")));
    assert!(!passes(Check::MinLength(2), &text("🦀")));
}

#[test]
fn min_length_with_the_largest_bound() {
    assert!(!passes(Check::MinLength(u64::MAX), &text("short")));
    assert!(passes(Check::MinLength(u64::MAX), &None));
}

#[test]
fn first_violation_takes_declaration_order() {
    let rules = vec![rule(Check::Required, "required"), rule(Check::MinLength(3), "length")];
    assert_eq!(first_violation(&rules, &None), Some(0));
    assert_eq!(first_violation(&rules, &text("ab")), Some(1));
    assert_eq!(first_violation(&rules, &text("abc")), None);
    let reversed = vec![rule(Check::MinLength(3), "length"), rule(Check::Required, "required")];
    assert_eq!(first_violation(&reversed, &None), Some(1));
    assert_eq!(first_violation(&reversed, &text("ab")), Some(0));
}

#[test]
fn first_violation_of_no_rules() {
    let rules: Vec<Rule> = Vec::new();
    assert_eq!(first_violation(&rules, &None), None);
    assert_eq!(first_violation(&rules, &text("")), None);
}

#[test]
fn first_violation_among_several_length_rules() {
    let rules = vec![
        rule(Check::MinLength(2), "two"),
        rule(Check::MinLength(5), "five"),
        rule(Check::MinLength(3), "three"),
    ];
    assert_eq!(first_violation(&rules, &text("a")), Some(0));
    assert_eq!(first_violation(&rules, &text("abcd")), Some(1));
    assert_eq!(first_violation(&rules, &text("abcde")), None);
}

#[test]
fn check_field_reports_the_rule_and_its_message() {
    let bound = FieldRules {
        field: Field::Password,
        rules: vec![rule(Check::Required, "required"), rule(Check::MinLength(10), "length")],
    };
    assert_eq!(
        check_field(&payload(None, None), &bound),
        Some(Violation {
            field: Field::Password,
            check: Check::Required,
            message: text("required")
        })
    );
    assert_eq!(
        check_field(&payload(None, Some("short")), &bound),
        Some(Violation {
            field: Field::Password,
            check: Check::MinLength(10),
            message: text("length")
        })
    );
    assert_eq!(check_field(&payload(None, Some("longenoughpassword")), &bound), None);
}

#[test]
fn check_field_keeps_a_missing_message_missing() {
    let bound = FieldRules {
        field: Field::Username,
        rules: vec![Rule { check: Check::Required, message: None }],
    };
    assert_eq!(
        check_field(&payload(None, None), &bound),
        Some(Violation { field: Field::Username, check: Check::Required, message: None })
    );
}

#[test]
fn login_rules_are_as_declared() {
    let rules = login_rules();
    assert_eq!(
        rules,
        RuleSet {
            fields: vec![
                FieldRules {
                    field: Field::Username,
                    rules: vec![
                        Rule { check: Check::Required, message: text(USERNAME_REQUIRED) },
                        Rule { check: Check::MinLength(1), message: text(USERNAME_LENGTH) },
                    ],
                },
                FieldRules {
                    field: Field::Password,
                    rules: vec![
                        Rule { check: Check::Required, message: text(PASSWORD_REQUIRED) },
                        Rule { check: Check::MinLength(10), message: text(PASSWORD_LENGTH) },
                    ],
                },
            ],
        }
    );
}

#[test]
fn valid_payload_has_no_violations() {
    let found = validate(&payload(Some("alice"), Some("longenoughpassword")), &login_rules());
    assert!(found.is_empty());
}

#[test]
fn both_fields_missing_gives_two_violations_in_order() {
    let found = validate(&payload(None, None), &login_rules());
    assert_eq!(
        found,
        vec![
            Violation {
                field: Field::Username,
                check: Check::Required,
                message: text(USERNAME_REQUIRED)
            },
            Violation {
                field: Field::Password,
                check: Check::Required,
                message: text(PASSWORD_REQUIRED)
            },
        ]
    );
}

#[test]
fn missing_username_alone() {
    let found = validate(&payload(None, Some("longenoughpassword")), &login_rules());
    assert_eq!(
        found,
        vec![Violation {
            field: Field::Username,
            check: Check::Required,
            message: text(USERNAME_REQUIRED)
        }]
    );
}

#[test]
fn missing_password_alone() {
    let found = validate(&payload(Some("alice"), None), &login_rules());
    assert_eq!(
        found,
        vec![Violation {
            field: Field::Password,
            check: Check::Required,
            message: text(PASSWORD_REQUIRED)
        }]
    );
}

#[test]
fn short_password_is_reported_once() {
    let found = validate(&payload(Some("a"), Some("short")), &login_rules());
    assert_eq!(
        found,
        vec![Violation {
            field: Field::Password,
            check: Check::MinLength(10),
            message: text(PASSWORD_LENGTH)
        }]
    );
}

#[test]
fn password_of_nine_and_of_ten_characters() {
    let nine = validate(&payload(Some("a"), Some("123456789")), &login_rules());
    assert_eq!(nine.len(), 1);
    assert_eq!(nine[0].field, Field::Password);
    let ten = validate(&payload(Some("a"), Some("1234567890")), &login_rules());
    assert!(ten.is_empty());
}

#[test]
fn empty_username_is_present_but_too_short() {
    let found = validate(&payload(Some(""), Some("longenoughpassword")), &login_rules());
    assert_eq!(
        found,
        vec![Violation {
            field: Field::Username,
            check: Check::MinLength(1),
            message: text(USERNAME_LENGTH)
        }]
    );
}

#[test]
fn empty_password_is_present_but_too_short() {
    let found = validate(&payload(Some("alice"), Some("")), &login_rules());
    assert_eq!(
        found,
        vec![Violation {
            field: Field::Password,
            check: Check::MinLength(10),
            message: text(PASSWORD_LENGTH)
        }]
    );
}

#[test]
fn validating_twice_gives_the_same() {
    let rules = login_rules();
    for body in [
        payload(None, None),
        payload(Some(""), Some("short")),
        payload(Some("alice"), None),
        payload(Some("alice"), Some("longenoughpassword")),
    ] {
        let first = validate(&body, &rules);
        let second = validate(&body, &rules);
        assert_eq!(first, second);
        let third = validate(&body.clone(), &login_rules());
        assert_eq!(first, third);
    }
}

#[test]
fn validation_leaves_payload_and_rules_as_they_were() {
    let rules = login_rules();
    let body = payload(None, Some("short"));
    let kept = body.clone();
    validate(&body, &rules);
    assert_eq!(body, kept);
    assert_eq!(rules, login_rules());
}

#[test]
fn violations_follow_the_order_of_the_rule_set() {
    let rules = RuleSet {
        fields: vec![
            FieldRules { field: Field::Password, rules: vec![rule(Check::Required, "p")] },
            FieldRules { field: Field::Username, rules: vec![rule(Check::Required, "u")] },
        ],
    };
    let found = validate(&payload(None, None), &rules);
    assert_eq!(found.len(), 2);
    assert_eq!(found[0].field, Field::Password);
    assert_eq!(found[1].field, Field::Username);
}

#[test]
fn empty_rule_set_accepts_everything() {
    let rules = RuleSet { fields: Vec::new() };
    assert!(validate(&payload(None, None), &rules).is_empty());
}

#[test]
fn field_without_rules_is_never_reported() {
    let rules = RuleSet {
        fields: vec![
            FieldRules { field: Field::Username, rules: Vec::new() },
            FieldRules { field: Field::Password, rules: vec![rule(Check::Required, "p")] },
        ],
    };
    let found = validate(&payload(None, None), &rules);
    assert_eq!(found.len(), 1);
    assert_eq!(found[0].field, Field::Password);
}

#[test]
fn field_declared_twice_is_reported_once() {
    let rules = RuleSet {
        fields: vec![
            FieldRules { field: Field::Username, rules: vec![rule(Check::MinLength(5), "five")] },
            FieldRules { field: Field::Password, rules: vec![rule(Check::Required, "password")] },
            FieldRules { field: Field::Username, rules: vec![rule(Check::MinLength(3), "three")] },
        ],
    };
    // both declarations of the username are broken: the first one reports
    let found = validate(&payload(Some("ab"), None), &rules);
    assert_eq!(found.len(), 2);
    assert_eq!(found[0].field, Field::Username);
    assert_eq!(found[0].message, text("five"));
    assert_eq!(found[1].field, Field::Password);
    // only the second declaration would be broken if the first were absent
    let found = validate(&payload(Some("abcd"), Some("x")), &rules);
    assert_eq!(found.len(), 1);
    assert_eq!(found[0].message, text("five"));
    let found = validate(&payload(Some("abcdef"), Some("x")), &rules);
    assert!(found.is_empty());
}

#[test]
fn later_declaration_reports_where_the_earlier_one_holds() {
    let rules = RuleSet {
        fields: vec![
            FieldRules { field: Field::Username, rules: vec![rule(Check::Required, "first")] },
            FieldRules { field: Field::Username, rules: vec![rule(Check::MinLength(3), "second")] },
        ],
    };
    let found = validate(&payload(None, None), &rules);
    assert_eq!(found.len(), 1);
    assert_eq!(found[0].message, text("first"));
    let found = validate(&payload(Some("ab"), None), &rules);
    assert_eq!(found.len(), 1);
    assert_eq!(found[0].message, text("second"));
}

#[test]
fn is_reported_finds_a_field_among_violations() {
    let found = vec![Violation { field: Field::Password, check: Check::Required, message: None }];
    assert!(is_reported(&found, Field::Password));
    assert!(!is_reported(&found, Field::Username));
    assert!(!is_reported(&Vec::new(), Field::Password));
}
