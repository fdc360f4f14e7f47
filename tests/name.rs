use valid_npm_name::rules::{classify_char, is_url_safe, is_valid_char};
use valid_npm_name::{Error, ErrorKind, ValidName};

fn kind_of(name: &str) -> Option<ErrorKind> {
    match ValidName::parse(name) {
        Ok(_) => None,
        Err(e) => Some(e.kind()),
    }
}

#[test]
fn convert() {
    let foo = ValidName::parse("foo").unwrap();
    assert_eq!("foo", foo.to_string());

    let bar_name = ValidName::parse("bar").unwrap();
    let bar = bar_name.as_ref();
    assert_eq!("bar", bar);

    let baz = ValidName::parse("baz").unwrap();
    assert_eq!("baz", baz.as_str());

    let foo2: ValidName = "foo2".try_into().unwrap();
    assert_eq!("foo2", foo2.as_str());
}

#[test]
fn valid() {
    let cases = vec![
        "some-package",
        "example.com",
        "under_score",
        "period.js",
        "123numeric",
        "@npm/thingy",
        "vite",
        "@vitejs/plugin-react",
        "@napi-rs/canvas",
    ];

    for case in cases {
        assert!(ValidName::parse(case).is_ok());
        assert_eq!(case, ValidName::parse(case).unwrap().as_str());
    }
}

#[test]
fn invalid() {
    let long_name = "ifyouwanttogetthesumoftwonumberswherethosetwonumbersarechosenbyfindingthelargestoftwooutofthreenumbersandsquaringthemwhichismultiplyingthembyitselfthenyoushouldinputthreenumbersintothisfunctionanditwilldothatforyou-";
    let cases = vec![
        ("", ErrorKind::LessThanZero),
        (&long_name, ErrorKind::LongerThanMax),
        ("crazy!", ErrorKind::InvalidCharacter),
        ("@npm-zors/money!time.js", ErrorKind::InvalidCharacter),
        (".start-with-period", ErrorKind::InvalidCharacter),
        ("_start-with-underscore", ErrorKind::InvalidCharacter),
        ("contain:colons", ErrorKind::NotUrlSafe),
        (" leading-space", ErrorKind::InvalidCharacter),
        ("trailing-space ", ErrorKind::InvalidCharacter),
        ("s/l/a/s/h/e/s", ErrorKind::NotUrlSafe),
        ("node_modules", ErrorKind::InBlackList),
        ("favicon.ico", ErrorKind::InBlackList),
        ("http", ErrorKind::InBlackList),
        ("process", ErrorKind::InBlackList),
        ("CAPITAL-LETTERS", ErrorKind::ContainsCapitalLetter),
        ("assert/strict", ErrorKind::InBlackList),
        ("dns/promises", ErrorKind::InBlackList),
        ("fs/promises", ErrorKind::InBlackList),
        ("path/posix", ErrorKind::InBlackList),
        ("path/win32", ErrorKind::InBlackList),
        ("stream/consumers", ErrorKind::InBlackList),
        ("stream/promises", ErrorKind::InBlackList),
        ("stream/web", ErrorKind::InBlackList),
        ("timers/promises", ErrorKind::InBlackList),
        ("util/types", ErrorKind::InBlackList),
    ];

    for (name, _) in cases {
        assert!(ValidName::parse(name).is_err());
    }
}

#[test]
fn scenario_some_package_displays_as_itself() {
    let name = ValidName::parse("some-package").unwrap();
    assert_eq!(name.to_string(), "some-package");
    assert_eq!(&*name, "some-package");
}

#[test]
fn scenario_scoped_name_is_accepted() {
    assert_eq!(ValidName::parse("@npm/thingy").unwrap().as_str(), "@npm/thingy");
}

#[test]
fn scenario_empty_is_too_short() {
    assert_eq!(kind_of(""), Some(ErrorKind::LessThanZero));
}

#[test]
fn scenario_capitals_are_rejected() {
    assert_eq!(kind_of("CAPITAL-LETTERS"), Some(ErrorKind::ContainsCapitalLetter));
}

#[test]
fn scenario_colons_are_not_url_safe() {
    assert_eq!(kind_of("contain:colons"), Some(ErrorKind::NotUrlSafe));
}

#[test]
fn scenario_node_modules_is_reserved() {
    assert_eq!(kind_of("node_modules"), Some(ErrorKind::InBlackList));
}

#[test]
fn scenario_leading_period_wins() {
    assert_eq!(kind_of(".start-with-period"), Some(ErrorKind::StartsWithAPeriod));
    assert_eq!(kind_of(".A:!"), Some(ErrorKind::StartsWithAPeriod));
}

#[test]
fn exact_kinds_of_the_original_cases() {
    let long_name = "ifyouwanttogetthesumoftwonumberswherethosetwonumbersarechosenbyfindingthelargestoftwooutofthreenumbersandsquaringthemwhichismultiplyingthembyitselfthenyoushouldinputthreenumbersintothisfunctionanditwilldothatforyou-";
    assert_eq!(kind_of(long_name), Some(ErrorKind::LongerThanMax));
    assert_eq!(kind_of("crazy!"), Some(ErrorKind::InvalidCharacter));
    assert_eq!(kind_of("@npm-zors/money!time.js"), Some(ErrorKind::InvalidCharacter));
    assert_eq!(kind_of("_start-with-underscore"), Some(ErrorKind::StartsWithAnUnderscore));
    assert_eq!(kind_of(" leading-space"), Some(ErrorKind::InvalidCharacter));
    assert_eq!(kind_of("trailing-space "), Some(ErrorKind::InvalidCharacter));
    assert_eq!(kind_of("s/l/a/s/h/e/s"), Some(ErrorKind::NotUrlSafe));
    assert_eq!(kind_of("favicon.ico"), Some(ErrorKind::InBlackList));
    assert_eq!(kind_of("http"), Some(ErrorKind::InBlackList));
    assert_eq!(kind_of("process"), Some(ErrorKind::InBlackList));
    // a reserved name with a slash breaks the URL-safety rule first
    assert_eq!(kind_of("assert/strict"), Some(ErrorKind::NotUrlSafe));
    assert_eq!(kind_of("util/types"), Some(ErrorKind::NotUrlSafe));
}

#[test]
fn length_limit_counts_characters() {
    let longest = "a".repeat(214);
    assert!(ValidName::parse(&longest).is_ok());
    let too_long = "a".repeat(215);
    assert_eq!(kind_of(&too_long), Some(ErrorKind::LongerThanMax));
    // two bytes each, but 214 characters
    let accented = "é".repeat(214);
    assert!(ValidName::parse(&accented).is_ok());
    assert_eq!(kind_of(&"é".repeat(215)), Some(ErrorKind::LongerThanMax));
}

#[test]
fn too_long_wins_over_leading_period() {
    let s = format!(".{}", "a".repeat(214));
    assert_eq!(kind_of(&s), Some(ErrorKind::LongerThanMax));
}

#[test]
fn leading_underscore_is_rejected() {
    assert_eq!(kind_of("_x"), Some(ErrorKind::StartsWithAnUnderscore));
    assert_eq!(kind_of("x_"), None);
}

#[test]
fn uppercase_is_checked_before_other_characters() {
    assert_eq!(kind_of("aB!"), Some(ErrorKind::ContainsCapitalLetter));
    assert_eq!(kind_of("a!B"), Some(ErrorKind::InvalidCharacter));
    assert_eq!(kind_of("a:B"), Some(ErrorKind::NotUrlSafe));
    assert_eq!(kind_of("ÉCOLE"), Some(ErrorKind::ContainsCapitalLetter));
}

#[test]
fn every_forbidden_character_is_invalid() {
    for c in ['~', ')', '(', '\'', '!', '*', ' ', '\t', '\n', '\u{3000}', '\u{a0}'] {
        let name = format!("ab{}cd", c);
        assert_eq!(kind_of(&name), Some(ErrorKind::InvalidCharacter), "{:?}", c);
    }
}

#[test]
fn slash_rules() {
    assert_eq!(kind_of("a/b"), Some(ErrorKind::NotUrlSafe));
    assert_eq!(kind_of("@a/b"), None);
    assert_eq!(kind_of("@a/b/c"), None);
    assert_eq!(kind_of("@a:b"), Some(ErrorKind::NotUrlSafe));
    assert_eq!(kind_of("@a/b:c"), Some(ErrorKind::NotUrlSafe));
}

#[test]
fn reserved_names_are_exact_and_case_sensitive() {
    assert_eq!(kind_of("fs"), Some(ErrorKind::InBlackList));
    assert_eq!(kind_of("diagnostics_channel"), Some(ErrorKind::InBlackList));
    assert_eq!(kind_of("zlib"), Some(ErrorKind::InBlackList));
    assert_eq!(kind_of("fss"), None);
    assert_eq!(kind_of("f"), None);
    assert_eq!(kind_of("https2"), None);
    assert_eq!(kind_of("HTTP"), Some(ErrorKind::ContainsCapitalLetter));
}

#[test]
fn reserved_lookup_directly() {
    assert!(valid_npm_name::reserved::is_reserved("stream/consumers"));
    assert!(valid_npm_name::reserved::is_reserved("worker_threads"));
    assert!(!valid_npm_name::reserved::is_reserved("stream/consumer"));
    assert!(!valid_npm_name::reserved::is_reserved(""));
}

#[test]
fn parse_is_deterministic() {
    for s in ["vite", "Vite", "", "a/b", "http"] {
        assert_eq!(kind_of(s), kind_of(s));
    }
}

#[test]
fn validate_hands_back_the_input() {
    let input = String::from("left-pad");
    let out = valid_npm_name::validate(&input).unwrap();
    assert_eq!(out, "left-pad");
    assert!(std::ptr::eq(out, input.as_str()));
}

#[test]
fn per_character_checks() {
    assert_eq!(is_url_safe('/', false), Some(ErrorKind::NotUrlSafe));
    assert_eq!(is_url_safe('/', true), None);
    assert_eq!(is_url_safe(':', true), Some(ErrorKind::NotUrlSafe));
    assert_eq!(is_url_safe('a', false), None);
    assert_eq!(is_valid_char('Q', true), Some(ErrorKind::ContainsCapitalLetter));
    assert_eq!(is_valid_char(' ', true), Some(ErrorKind::InvalidCharacter));
    assert_eq!(is_valid_char('-', false), None);
}

#[test]
fn error_messages() {
    assert_eq!(Error::from(ErrorKind::InBlackList).message(), "in black list");
    assert_eq!(Error::from(ErrorKind::LessThanZero).message(), "less than zero");
    assert_eq!(Error::from(ErrorKind::LongerThanMax).message(), "longer than max: 214");
    assert_eq!(Error::from(ErrorKind::ContainsCapitalLetter).message(), "contains capital letter");
    assert_eq!(Error::from(ErrorKind::NotUrlSafe).message(), "not url safe");
    assert_eq!(Error::from(ErrorKind::InvalidCharacter).message(), "invalid character");
    assert_eq!(Error::from(ErrorKind::StartsWithAPeriod).message(), "starts with a period");
    assert_eq!(
        Error::from(ErrorKind::StartsWithAnUnderscore).message(),
        "starts with an underscore"
    );
}

#[test]
fn valid_names_compare_by_content() {
    let a = String::from("same");
    let b = String::from("same");
    assert_eq!(ValidName::parse(&a).unwrap(), ValidName::parse(&b).unwrap());
    assert_ne!(ValidName::parse("same").unwrap(), ValidName::parse("other").unwrap());
}

#[test]
fn character_rules_given_the_classification() {
    assert_eq!(classify_char('x', false, true, true), Some(ErrorKind::ContainsCapitalLetter));
    assert_eq!(classify_char('x', false, false, true), Some(ErrorKind::InvalidCharacter));
    assert_eq!(classify_char('*', false, false, false), Some(ErrorKind::InvalidCharacter));
    assert_eq!(classify_char('/', false, false, false), Some(ErrorKind::NotUrlSafe));
    assert_eq!(classify_char('/', true, false, false), None);
    assert_eq!(classify_char(':', true, false, false), Some(ErrorKind::NotUrlSafe));
    assert_eq!(classify_char('x', true, false, false), None);
}

#[test]
fn reserved_name_needs_every_other_rule_to_pass() {
    assert_eq!(kind_of("tty"), Some(ErrorKind::InBlackList));
    assert_eq!(kind_of("@types/node"), None);
    assert_eq!(kind_of("ttY"), Some(ErrorKind::ContainsCapitalLetter));
}

#[test]
fn whitespace_is_the_unicode_white_space_set() {
    for c in ['\u{b}', '\u{c}', '\u{d}', '\u{85}', '\u{1680}', '\u{2000}', '\u{200a}', '\u{2028}', '\u{2029}', '\u{202f}', '\u{205f}'] {
        assert_eq!(kind_of(&format!("a{}b", c)), Some(ErrorKind::InvalidCharacter), "{:?}", c);
    }
    // zero width space and the Mongolian vowel separator are not White_Space
    assert_eq!(kind_of("a\u{200b}b"), None);
    assert_eq!(kind_of("a\u{180e}b"), None);
}

#[test]
fn deref_and_as_ref_give_the_name() {
    let v = ValidName::parse("bar").unwrap();
    assert_eq!(v.as_ref(), "bar");
    assert_eq!(&*v, v.as_str());
    assert_eq!(ValidName::parse(&*v).unwrap(), v);
}
