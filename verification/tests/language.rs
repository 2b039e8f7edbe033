use baca::model::Language;

#[test]
fn from_string() {
    assert_eq!(Language::from_str("C++").unwrap(), Language::Cpp);
    assert_eq!(Language::from_str("Java").unwrap(), Language::Java);
    assert_eq!(Language::from_str("Bash").unwrap(), Language::Bash);
    assert_eq!(
        Language::from_str("C++ z obsluga plikow").unwrap(),
        Language::CppWithFileSupport
    );
    assert_eq!(Language::from_str("Ada").unwrap(), Language::Unsupported);
    assert_eq!(Language::from_str("C").unwrap(), Language::Unsupported);
}

#[test]
fn to_string() {
    assert_eq!(Language::Unsupported.to_string(), "Unsupported language");
    assert_eq!(Language::Cpp.to_string(), "C++");
    assert_eq!(Language::Java.to_string(), "Java");
    assert_eq!(Language::Bash.to_string(), "Bash");
    assert_eq!(
        Language::CppWithFileSupport.to_string(),
        "C++ with file support"
    );
}

#[test]
fn from_invalid_string() {
    assert_eq!(
        Language::from_str("C++ z obsługą plików").unwrap(),
        Language::Unsupported
    );
    assert_eq!(
        Language::from_str("sada224214@dasdas").unwrap(),
        Language::Unsupported
    );
}

#[test]
fn from_different_case_string() {
    assert_eq!(
        Language::from_str("c++ z Obsluga pliKOW").unwrap(),
        Language::CppWithFileSupport
    );
}

#[test]
fn codes() {
    assert_eq!(Language::Unsupported.code(), "0");
    assert_eq!(Language::Cpp.code(), "1");
    assert_eq!(Language::Java.code(), "4");
    assert_eq!(Language::Bash.code(), "10");
    assert_eq!(Language::CppWithFileSupport.code(), "12");
}

#[test]
fn codes_of_different_languages_differ() {
    let all = [
        Language::Unsupported,
        Language::Cpp,
        Language::Java,
        Language::Bash,
        Language::CppWithFileSupport,
    ];
    for a in all.iter() {
        for b in all.iter() {
            if a != b {
                assert_ne!(a.code(), b.code());
            }
        }
    }
}

#[test]
fn lowercase_names_are_read_directly() {
    assert_eq!(Language::from_lowercase("java"), Language::Java);
    assert_eq!(Language::from_lowercase("Java"), Language::Unsupported);
    assert_eq!(Language::from_str("BASH").unwrap(), Language::Bash);
}

#[test]
fn shown_names_read_back() {
    for l in [Language::Unsupported, Language::Cpp, Language::Java, Language::Bash] {
        assert_eq!(Language::from_str(&l.to_string()).unwrap(), l);
    }
    assert_eq!(
        Language::from_str(&Language::CppWithFileSupport.to_string()).unwrap(),
        Language::Unsupported
    );
}
