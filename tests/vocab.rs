use rado::{Kw, Sym};

#[test]
fn kws_parse() {
    assert_eq!(Kw::Progressive, "progressive".parse().unwrap());
    assert_eq!(Kw::Enum, "enum".parse().unwrap());
    assert_eq!(Kw::To, "to".parse().unwrap());
    assert_eq!(Kw::Modify, "modify".parse().unwrap());
}

#[test]
fn bad_kws_fail_parse() {
    assert!("foobar".parse::<Kw>().is_err());
    assert!("Requires".parse::<Kw>().is_err());
    assert!("".parse::<Kw>().is_err());
    assert!("samus".parse::<Kw>().is_err());
}

#[test]
fn kws_display() {
    assert_eq!("alias", Kw::Alias.as_str());
    assert_eq!("link", Kw::Link.as_str());
    assert_eq!("items", Kw::Items.as_str());
    assert_eq!("in", Kw::In.as_str());
}

#[test]
fn syms_parse() {
    assert_eq!(Sym::Plus, "+".parse().unwrap());
    assert_eq!(Sym::Dot, ".".parse().unwrap());
    assert_eq!(Sym::RBrace, "}".parse().unwrap());
    assert_eq!(Sym::DoubleArrow, "=>".parse().unwrap());
}

#[test]
fn bad_syms_fail_parse() {
    assert!("\"".parse::<Sym>().is_err());
    assert!("".parse::<Sym>().is_err());
    assert!("++".parse::<Sym>().is_err());
}

#[test]
fn toks_display() {
    assert_eq!("<=", Sym::LE.as_str());
    assert_eq!(")", Sym::RParen.as_str());
    assert_eq!("*", Sym::Star.as_str());
}

#[test]
fn comparison_spellings_match_lexing() {
    assert_eq!(">", Sym::GT.as_str());
    assert_eq!(">=", Sym::GE.as_str());
    assert_eq!(Sym::GT, ">".parse().unwrap());
    assert_eq!(Sym::GE, ">=".parse().unwrap());
}

#[test]
fn every_keyword_round_trips() {
    let all = [
        Kw::Region, Kw::Link, Kw::Item, Kw::Items, Kw::Location, Kw::Locations, Kw::Fn,
        Kw::Enum, Kw::Config, Kw::Configs, Kw::Configset, Kw::Random, Kw::If, Kw::Else,
        Kw::Modify, Kw::Override, Kw::Requires, Kw::Visible, Kw::Unlock, Kw::Tag, Kw::Alias,
        Kw::Provides, Kw::Progressive, Kw::Val, Kw::Max, Kw::Consumable, Kw::Avail,
        Kw::Infinity, Kw::Grants, Kw::Count, Kw::Start, Kw::Num, Kw::Bool, Kw::Then,
        Kw::Match, Kw::True, Kw::False, Kw::Not, Kw::And, Kw::Or, Kw::Min, Kw::Sum, Kw::With,
        Kw::To, Kw::From, Kw::In, Kw::Default,
    ];
    for k in all {
        assert_eq!(k, k.as_str().parse::<Kw>().unwrap());
    }
}

#[test]
fn every_symbol_round_trips() {
    let all = [
        Sym::LParen, Sym::RParen, Sym::LBrack, Sym::RBrack, Sym::LBrace, Sym::RBrace,
        Sym::Semi, Sym::Comma, Sym::Colon, Sym::Dot, Sym::Assign, Sym::Arrow, Sym::DoubleArrow,
        Sym::Plus, Sym::Minus, Sym::Star, Sym::Slash, Sym::Percent, Sym::Eq, Sym::NEq,
        Sym::LT, Sym::LE, Sym::GT, Sym::GE,
    ];
    for s in all {
        assert_eq!(s, s.as_str().parse::<Sym>().unwrap());
    }
}

#[test]
fn parse_errors_keep_the_text() {
    let e = "samus".parse::<Kw>().unwrap_err();
    assert_eq!("samus", e.text());
    assert_eq!("\"samus\" is not a keyword", e.message());
    let e = "++".parse::<Sym>().unwrap_err();
    assert_eq!("++", e.text());
    assert_eq!("\"++\" is not a symbol", e.message());
}
