use http_head::Method;

#[test]
fn known_verbs_in_upper_case() {
    assert_eq!(Method::Options, Method::from("OPTIONS"));
    assert_eq!(Method::Get, Method::from("GET"));
    assert_eq!(Method::Post, Method::from("POST"));
    assert_eq!(Method::Put, Method::from("PUT"));
    assert_eq!(Method::Delete, Method::from("DELETE"));
    assert_eq!(Method::Head, Method::from("HEAD"));
    assert_eq!(Method::Trace, Method::from("TRACE"));
    assert_eq!(Method::Connect, Method::from("CONNECT"));
    assert_eq!(Method::Patch, Method::from("PATCH"));
}

#[test]
fn known_verbs_in_lower_case() {
    assert_eq!(Method::Options, Method::from("options"));
    assert_eq!(Method::Get, Method::from("get"));
    assert_eq!(Method::Post, Method::from("post"));
    assert_eq!(Method::Put, Method::from("put"));
    assert_eq!(Method::Delete, Method::from("delete"));
    assert_eq!(Method::Head, Method::from("head"));
    assert_eq!(Method::Trace, Method::from("trace"));
    assert_eq!(Method::Connect, Method::from("connect"));
    assert_eq!(Method::Patch, Method::from("patch"));
}

#[test]
fn known_verbs_with_a_capital() {
    assert_eq!(Method::Options, Method::from("Options"));
    assert_eq!(Method::Get, Method::from("Get"));
    assert_eq!(Method::Post, Method::from("Post"));
    assert_eq!(Method::Put, Method::from("Put"));
    assert_eq!(Method::Delete, Method::from("Delete"));
    assert_eq!(Method::Head, Method::from("Head"));
    assert_eq!(Method::Trace, Method::from("Trace"));
    assert_eq!(Method::Connect, Method::from("Connect"));
    assert_eq!(Method::Patch, Method::from("Patch"));
}

#[test]
fn known_verbs_in_mixed_case() {
    assert_eq!(Method::Options, Method::from("oPTIONs"));
    assert_eq!(Method::Get, Method::from("gEt"));
    assert_eq!(Method::Post, Method::from("pOSt"));
    assert_eq!(Method::Put, Method::from("puT"));
    assert_eq!(Method::Delete, Method::from("DeLeTe"));
    assert_eq!(Method::Head, Method::from("hEAD"));
    assert_eq!(Method::Trace, Method::from("tRaCe"));
    assert_eq!(Method::Connect, Method::from("conNECT"));
    assert_eq!(Method::Patch, Method::from("PATCh"));
}

#[test]
fn every_casing_of_get_is_get() {
    for mask in 0..8u32 {
        let token: String = "get"
            .chars()
            .enumerate()
            .map(|(i, c)| if mask & (1 << i) != 0 { c.to_ascii_uppercase() } else { c })
            .collect();
        assert_eq!(Method::Get, Method::from(token.as_str()), "{}", token);
    }
}

#[test]
fn other_tokens_are_kept_as_written() {
    assert_eq!(Method::Extension("Brew"), Method::from("Brew"));
    assert_eq!(Method::Extension("PURGE"), Method::from("PURGE"));
    assert_eq!(Method::Extension("purge"), Method::from("purge"));
    assert_ne!(Method::from("PURGE"), Method::from("purge"));
    assert_eq!(Method::Extension("M-SEARCH"), Method::from("M-SEARCH"));
    assert_eq!(Method::Extension(""), Method::from(""));
}

#[test]
fn extension_borrows_the_token_it_was_given() {
    let token = String::from("Propfind");
    match Method::from(token.as_str()) {
        Method::Extension(kept) => {
            assert_eq!(token.as_ptr(), kept.as_ptr());
            assert_eq!(token.len(), kept.len());
        },
        other => panic!("an extension was expected, not {:?}", other),
    }
}

#[test]
fn near_misses_are_extensions() {
    assert_eq!(Method::Extension("GE"), Method::from("GE"));
    assert_eq!(Method::Extension("GETS"), Method::from("GETS"));
    assert_eq!(Method::Extension("GOT"), Method::from("GOT"));
    assert_eq!(Method::Extension("POTS"), Method::from("POTS"));
    assert_eq!(Method::Extension("HEAP"), Method::from("HEAP"));
    assert_eq!(Method::Extension("TRACK"), Method::from("TRACK"));
    assert_eq!(Method::Extension("G.T"), Method::from("G.T"));
    assert_eq!(Method::Extension("PUT\0"), Method::from("PUT\0"));
}

#[test]
fn white_space_is_part_of_the_token() {
    assert_eq!(Method::Extension(" GET"), Method::from(" GET"));
    assert_eq!(Method::Extension("GET "), Method::from("GET "));
    assert_eq!(Method::Extension("G ET"), Method::from("G ET"));
}

#[test]
fn only_ascii_letters_fold() {
    assert_eq!(Method::Extension("g\u{e9}t"), Method::from("g\u{e9}t"));
    assert_eq!(Method::Extension("\u{ff27}\u{ff25}\u{ff34}"), Method::from("\u{ff27}\u{ff25}\u{ff34}"));
    assert_eq!(Method::Extension("\u{212a}"), Method::from("\u{212a}"));
    assert_eq!(Method::Extension("PATC\u{127}"), Method::from("PATC\u{127}"));
    assert_eq!(Method::Extension("`et"), Method::from("`et"));
    assert_eq!(Method::Extension("[ET"), Method::from("[ET"));
    assert_eq!(Method::Extension("@ET"), Method::from("@ET"));
    assert_eq!(Method::Extension("{et"), Method::from("{et"));
}

#[test]
fn methods_copy_and_compare() {
    let m = Method::from("Trace");
    let n = m;
    assert_eq!(m, n);
    assert_eq!(m.clone(), Method::Trace);
    assert_ne!(Method::Get, Method::Head);
}
