//! Minimal test of the lex entry point.

use synkit::TokenStream;

#[test]
fn basic_lex() {
    let ts = TokenStream::lex("a").expect("lex failed");
    assert_eq!(ts.all().len(), 1);
}
