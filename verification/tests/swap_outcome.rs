use coinswap_js::swap_outcome::{contains_text, is_offerbook_shortage};

#[test]
fn shortage_reason_is_recognised() {
    assert!(is_offerbook_shortage("NotEnoughMakersInOfferBook"));
    assert!(is_offerbook_shortage(
        "Protocol error: NotEnoughMakersInOfferBook (found 0)"
    ));
}

#[test]
fn other_reasons_are_not_a_shortage() {
    assert!(!is_offerbook_shortage(""));
    assert!(!is_offerbook_shortage("Wallet(InsufficientFunds)"));
    assert!(!is_offerbook_shortage("NotEnoughMakersInOfferboo"));
    assert!(!is_offerbook_shortage("notenoughmakersinofferbook"));
}

#[test]
fn substring_search_edges() {
    assert!(contains_text("abc", ""));
    assert!(contains_text("", ""));
    assert!(!contains_text("", "a"));
    assert!(contains_text("abc", "abc"));
    assert!(contains_text("abc", "c"));
    assert!(!contains_text("ab", "abc"));
    assert!(contains_text("aaab", "aab"));
    assert!(contains_text("héllo wörld", "ö"));
}
