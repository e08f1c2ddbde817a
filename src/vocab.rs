use vstd::prelude::*;
use vstd::string::StringExecFns;
use crate::chars::{chars_eq_str, str_chars};
use crate::token::{debug_quoted, quote_for_display};

verus! {

/// The keywords of the language.
#[derive(Copy, Clone, PartialEq, Eq, Structural, PartialOrd, Ord, Hash, Debug)]
pub enum Kw {
    // Declarations
    Region,
    Link,
    Item,
    Items,
    Location,
    Locations,
    Fn,
    Enum,
    Config,
    Configs,
    Configset,
    Random,
    If,
    Else,
    Modify,
    Override,

    // Properties
    Requires,
    Visible,
    Unlock,
    Tag,
    Alias,
    Provides,
    Progressive,
    Val,
    Max,
    Consumable,
    Avail,
    Infinity,
    Grants,
    Count,
    Start,

    // Expressions and types
    Num,
    Bool,
    Then,
    Match,
    True,
    False,
    Not,
    And,
    Or,
    Min,
    Sum,

    // Miscellaneous
    With,
    To,
    From,
    In,
    Default,
}

impl Kw {
    /// The canonical spelling of this keyword.
    pub open spec fn spelling(self) -> Seq<char> {
        match self {
            Kw::Region => "region"@,
            Kw::Link => "link"@,
            Kw::Item => "item"@,
            Kw::Items => "items"@,
            Kw::Location => "location"@,
            Kw::Locations => "locations"@,
            Kw::Fn => "fn"@,
            Kw::Enum => "enum"@,
            Kw::Config => "config"@,
            Kw::Configs => "configs"@,
            Kw::Configset => "configset"@,
            Kw::Random => "random"@,
            Kw::If => "if"@,
            Kw::Else => "else"@,
            Kw::Modify => "modify"@,
            Kw::Override => "override"@,
            Kw::Requires => "requires"@,
            Kw::Visible => "visible"@,
            Kw::Unlock => "unlock"@,
            Kw::Tag => "tag"@,
            Kw::Alias => "alias"@,
            Kw::Provides => "provides"@,
            Kw::Progressive => "progressive"@,
            Kw::Val => "val"@,
            Kw::Max => "max"@,
            Kw::Consumable => "consumable"@,
            Kw::Avail => "avail"@,
            Kw::Infinity => "infinity"@,
            Kw::Grants => "grants"@,
            Kw::Count => "count"@,
            Kw::Start => "start"@,
            Kw::Num => "num"@,
            Kw::Bool => "bool"@,
            Kw::Then => "then"@,
            Kw::Match => "match"@,
            Kw::True => "true"@,
            Kw::False => "false"@,
            Kw::Not => "not"@,
            Kw::And => "and"@,
            Kw::Or => "or"@,
            Kw::Min => "min"@,
            Kw::Sum => "sum"@,
            Kw::With => "with"@,
            Kw::To => "to"@,
            Kw::From => "from"@,
            Kw::In => "in"@,
            Kw::Default => "default"@,
        }
    }

    /// The canonical spelling of this keyword.
    pub fn as_str(self) -> (r: &'static str)
        ensures
            r@ == self.spelling(),
    {
        match self {
            Kw::Region => "region",
            Kw::Link => "link",
            Kw::Item => "item",
            Kw::Items => "items",
            Kw::Location => "location",
            Kw::Locations => "locations",
            Kw::Fn => "fn",
            Kw::Enum => "enum",
            Kw::Config => "config",
            Kw::Configs => "configs",
            Kw::Configset => "configset",
            Kw::Random => "random",
            Kw::If => "if",
            Kw::Else => "else",
            Kw::Modify => "modify",
            Kw::Override => "override",
            Kw::Requires => "requires",
            Kw::Visible => "visible",
            Kw::Unlock => "unlock",
            Kw::Tag => "tag",
            Kw::Alias => "alias",
            Kw::Provides => "provides",
            Kw::Progressive => "progressive",
            Kw::Val => "val",
            Kw::Max => "max",
            Kw::Consumable => "consumable",
            Kw::Avail => "avail",
            Kw::Infinity => "infinity",
            Kw::Grants => "grants",
            Kw::Count => "count",
            Kw::Start => "start",
            Kw::Num => "num",
            Kw::Bool => "bool",
            Kw::Then => "then",
            Kw::Match => "match",
            Kw::True => "true",
            Kw::False => "false",
            Kw::Not => "not",
            Kw::And => "and",
            Kw::Or => "or",
            Kw::Min => "min",
            Kw::Sum => "sum",
            Kw::With => "with",
            Kw::To => "to",
            Kw::From => "from",
            Kw::In => "in",
            Kw::Default => "default",
        }
    }
}

/// Symbol tokens. Each operator is a distinct token, so some symbols are
/// two characters long. `GT` is spelled `>` and `GE` is spelled `>=`.
#[derive(Copy, Clone, PartialEq, Eq, Structural, PartialOrd, Ord, Hash, Debug)]
pub enum Sym {
    // Delimiters
    LParen,
    RParen,
    LBrack,
    RBrack,
    LBrace,
    RBrace,

    // Punctuation
    Semi,
    Comma,
    Colon,
    Dot,
    Assign,
    Arrow,
    DoubleArrow,

    // Operators
    Plus,
    Minus,
    Star,
    Slash,
    Percent,
    Eq,
    NEq,
    LT,
    LE,
    GT,
    GE,
}

impl Sym {
    /// The canonical spelling of this symbol.
    pub open spec fn spelling(self) -> Seq<char> {
        match self {
            Sym::LParen => "("@,
            Sym::RParen => ")"@,
            Sym::LBrack => "["@,
            Sym::RBrack => "]"@,
            Sym::LBrace => "{"@,
            Sym::RBrace => "}"@,
            Sym::Semi => ";"@,
            Sym::Comma => ","@,
            Sym::Colon => ":"@,
            Sym::Dot => "."@,
            Sym::Assign => "="@,
            Sym::Arrow => "->"@,
            Sym::DoubleArrow => "=>"@,
            Sym::Plus => "+"@,
            Sym::Minus => "-"@,
            Sym::Star => "*"@,
            Sym::Slash => "/"@,
            Sym::Percent => "%"@,
            Sym::Eq => "=="@,
            Sym::NEq => "!="@,
            Sym::LT => "<"@,
            Sym::LE => "<="@,
            Sym::GT => ">"@,
            Sym::GE => ">="@,
        }
    }

    /// The canonical spelling of this symbol.
    pub fn as_str(self) -> (r: &'static str)
        ensures
            r@ == self.spelling(),
    {
        match self {
            Sym::LParen => "(",
            Sym::RParen => ")",
            Sym::LBrack => "[",
            Sym::RBrack => "]",
            Sym::LBrace => "{",
            Sym::RBrace => "}",
            Sym::Semi => ";",
            Sym::Comma => ",",
            Sym::Colon => ":",
            Sym::Dot => ".",
            Sym::Assign => "=",
            Sym::Arrow => "->",
            Sym::DoubleArrow => "=>",
            Sym::Plus => "+",
            Sym::Minus => "-",
            Sym::Star => "*",
            Sym::Slash => "/",
            Sym::Percent => "%",
            Sym::Eq => "==",
            Sym::NEq => "!=",
            Sym::LT => "<",
            Sym::LE => "<=",
            Sym::GT => ">",
            Sym::GE => ">=",
        }
    }
}

/// The keyword spelled exactly `s`, if any.
pub open spec fn kw_of(s: Seq<char>) -> Option<Kw> {
    if s == "region"@ {
        Some(Kw::Region)
    } else if s == "link"@ {
        Some(Kw::Link)
    } else if s == "item"@ {
        Some(Kw::Item)
    } else if s == "items"@ {
        Some(Kw::Items)
    } else if s == "location"@ {
        Some(Kw::Location)
    } else if s == "locations"@ {
        Some(Kw::Locations)
    } else if s == "fn"@ {
        Some(Kw::Fn)
    } else if s == "enum"@ {
        Some(Kw::Enum)
    } else if s == "config"@ {
        Some(Kw::Config)
    } else if s == "configs"@ {
        Some(Kw::Configs)
    } else if s == "configset"@ {
        Some(Kw::Configset)
    } else if s == "random"@ {
        Some(Kw::Random)
    } else if s == "if"@ {
        Some(Kw::If)
    } else if s == "else"@ {
        Some(Kw::Else)
    } else if s == "modify"@ {
        Some(Kw::Modify)
    } else if s == "override"@ {
        Some(Kw::Override)
    } else if s == "requires"@ {
        Some(Kw::Requires)
    } else if s == "visible"@ {
        Some(Kw::Visible)
    } else if s == "unlock"@ {
        Some(Kw::Unlock)
    } else if s == "tag"@ {
        Some(Kw::Tag)
    } else if s == "alias"@ {
        Some(Kw::Alias)
    } else if s == "provides"@ {
        Some(Kw::Provides)
    } else if s == "progressive"@ {
        Some(Kw::Progressive)
    } else if s == "val"@ {
        Some(Kw::Val)
    } else if s == "max"@ {
        Some(Kw::Max)
    } else if s == "consumable"@ {
        Some(Kw::Consumable)
    } else if s == "avail"@ {
        Some(Kw::Avail)
    } else if s == "infinity"@ {
        Some(Kw::Infinity)
    } else if s == "grants"@ {
        Some(Kw::Grants)
    } else if s == "count"@ {
        Some(Kw::Count)
    } else if s == "start"@ {
        Some(Kw::Start)
    } else if s == "num"@ {
        Some(Kw::Num)
    } else if s == "bool"@ {
        Some(Kw::Bool)
    } else if s == "then"@ {
        Some(Kw::Then)
    } else if s == "match"@ {
        Some(Kw::Match)
    } else if s == "true"@ {
        Some(Kw::True)
    } else if s == "false"@ {
        Some(Kw::False)
    } else if s == "not"@ {
        Some(Kw::Not)
    } else if s == "and"@ {
        Some(Kw::And)
    } else if s == "or"@ {
        Some(Kw::Or)
    } else if s == "min"@ {
        Some(Kw::Min)
    } else if s == "sum"@ {
        Some(Kw::Sum)
    } else if s == "with"@ {
        Some(Kw::With)
    } else if s == "to"@ {
        Some(Kw::To)
    } else if s == "from"@ {
        Some(Kw::From)
    } else if s == "in"@ {
        Some(Kw::In)
    } else if s == "default"@ {
        Some(Kw::Default)
    } else {
        None
    }
}

/// The symbol spelled exactly `s`, if any.
pub open spec fn sym_of(s: Seq<char>) -> Option<Sym> {
    if s == "("@ {
        Some(Sym::LParen)
    } else if s == ")"@ {
        Some(Sym::RParen)
    } else if s == "["@ {
        Some(Sym::LBrack)
    } else if s == "]"@ {
        Some(Sym::RBrack)
    } else if s == "{"@ {
        Some(Sym::LBrace)
    } else if s == "}"@ {
        Some(Sym::RBrace)
    } else if s == ";"@ {
        Some(Sym::Semi)
    } else if s == ","@ {
        Some(Sym::Comma)
    } else if s == ":"@ {
        Some(Sym::Colon)
    } else if s == "."@ {
        Some(Sym::Dot)
    } else if s == "="@ {
        Some(Sym::Assign)
    } else if s == "->"@ {
        Some(Sym::Arrow)
    } else if s == "=>"@ {
        Some(Sym::DoubleArrow)
    } else if s == "+"@ {
        Some(Sym::Plus)
    } else if s == "-"@ {
        Some(Sym::Minus)
    } else if s == "*"@ {
        Some(Sym::Star)
    } else if s == "/"@ {
        Some(Sym::Slash)
    } else if s == "%"@ {
        Some(Sym::Percent)
    } else if s == "=="@ {
        Some(Sym::Eq)
    } else if s == "!="@ {
        Some(Sym::NEq)
    } else if s == "<"@ {
        Some(Sym::LT)
    } else if s == "<="@ {
        Some(Sym::LE)
    } else if s == ">"@ {
        Some(Sym::GT)
    } else if s == ">="@ {
        Some(Sym::GE)
    } else {
        None
    }
}

impl Kw {
    /// The keyword spelled exactly by `v[lo..hi]`, if any.
    pub fn from_chars(v: &[char], lo: usize, hi: usize) -> (r: Option<Kw>)
        requires
            lo <= hi <= v@.len(),
        ensures
            r == kw_of(v@.subrange(lo as int, hi as int)),
    {
        if chars_eq_str(v, lo, hi, "region") {
            Some(Kw::Region)
        } else if chars_eq_str(v, lo, hi, "link") {
            Some(Kw::Link)
        } else if chars_eq_str(v, lo, hi, "item") {
            Some(Kw::Item)
        } else if chars_eq_str(v, lo, hi, "items") {
            Some(Kw::Items)
        } else if chars_eq_str(v, lo, hi, "location") {
            Some(Kw::Location)
        } else if chars_eq_str(v, lo, hi, "locations") {
            Some(Kw::Locations)
        } else if chars_eq_str(v, lo, hi, "fn") {
            Some(Kw::Fn)
        } else if chars_eq_str(v, lo, hi, "enum") {
            Some(Kw::Enum)
        } else if chars_eq_str(v, lo, hi, "config") {
            Some(Kw::Config)
        } else if chars_eq_str(v, lo, hi, "configs") {
            Some(Kw::Configs)
        } else if chars_eq_str(v, lo, hi, "configset") {
            Some(Kw::Configset)
        } else if chars_eq_str(v, lo, hi, "random") {
            Some(Kw::Random)
        } else if chars_eq_str(v, lo, hi, "if") {
            Some(Kw::If)
        } else if chars_eq_str(v, lo, hi, "else") {
            Some(Kw::Else)
        } else if chars_eq_str(v, lo, hi, "modify") {
            Some(Kw::Modify)
        } else if chars_eq_str(v, lo, hi, "override") {
            Some(Kw::Override)
        } else if chars_eq_str(v, lo, hi, "requires") {
            Some(Kw::Requires)
        } else if chars_eq_str(v, lo, hi, "visible") {
            Some(Kw::Visible)
        } else if chars_eq_str(v, lo, hi, "unlock") {
            Some(Kw::Unlock)
        } else if chars_eq_str(v, lo, hi, "tag") {
            Some(Kw::Tag)
        } else if chars_eq_str(v, lo, hi, "alias") {
            Some(Kw::Alias)
        } else if chars_eq_str(v, lo, hi, "provides") {
            Some(Kw::Provides)
        } else if chars_eq_str(v, lo, hi, "progressive") {
            Some(Kw::Progressive)
        } else if chars_eq_str(v, lo, hi, "val") {
            Some(Kw::Val)
        } else if chars_eq_str(v, lo, hi, "max") {
            Some(Kw::Max)
        } else if chars_eq_str(v, lo, hi, "consumable") {
            Some(Kw::Consumable)
        } else if chars_eq_str(v, lo, hi, "avail") {
            Some(Kw::Avail)
        } else if chars_eq_str(v, lo, hi, "infinity") {
            Some(Kw::Infinity)
        } else if chars_eq_str(v, lo, hi, "grants") {
            Some(Kw::Grants)
        } else if chars_eq_str(v, lo, hi, "count") {
            Some(Kw::Count)
        } else if chars_eq_str(v, lo, hi, "start") {
            Some(Kw::Start)
        } else if chars_eq_str(v, lo, hi, "num") {
            Some(Kw::Num)
        } else if chars_eq_str(v, lo, hi, "bool") {
            Some(Kw::Bool)
        } else if chars_eq_str(v, lo, hi, "then") {
            Some(Kw::Then)
        } else if chars_eq_str(v, lo, hi, "match") {
            Some(Kw::Match)
        } else if chars_eq_str(v, lo, hi, "true") {
            Some(Kw::True)
        } else if chars_eq_str(v, lo, hi, "false") {
            Some(Kw::False)
        } else if chars_eq_str(v, lo, hi, "not") {
            Some(Kw::Not)
        } else if chars_eq_str(v, lo, hi, "and") {
            Some(Kw::And)
        } else if chars_eq_str(v, lo, hi, "or") {
            Some(Kw::Or)
        } else if chars_eq_str(v, lo, hi, "min") {
            Some(Kw::Min)
        } else if chars_eq_str(v, lo, hi, "sum") {
            Some(Kw::Sum)
        } else if chars_eq_str(v, lo, hi, "with") {
            Some(Kw::With)
        } else if chars_eq_str(v, lo, hi, "to") {
            Some(Kw::To)
        } else if chars_eq_str(v, lo, hi, "from") {
            Some(Kw::From)
        } else if chars_eq_str(v, lo, hi, "in") {
            Some(Kw::In)
        } else if chars_eq_str(v, lo, hi, "default") {
            Some(Kw::Default)
        } else {
            None
        }
    }
}

impl Sym {
    /// The symbol spelled exactly by `v[lo..hi]`, if any.
    pub fn from_chars(v: &[char], lo: usize, hi: usize) -> (r: Option<Sym>)
        requires
            lo <= hi <= v@.len(),
        ensures
            r == sym_of(v@.subrange(lo as int, hi as int)),
    {
        if chars_eq_str(v, lo, hi, "(") {
            Some(Sym::LParen)
        } else if chars_eq_str(v, lo, hi, ")") {
            Some(Sym::RParen)
        } else if chars_eq_str(v, lo, hi, "[") {
            Some(Sym::LBrack)
        } else if chars_eq_str(v, lo, hi, "]") {
            Some(Sym::RBrack)
        } else if chars_eq_str(v, lo, hi, "{") {
            Some(Sym::LBrace)
        } else if chars_eq_str(v, lo, hi, "}") {
            Some(Sym::RBrace)
        } else if chars_eq_str(v, lo, hi, ";") {
            Some(Sym::Semi)
        } else if chars_eq_str(v, lo, hi, ",") {
            Some(Sym::Comma)
        } else if chars_eq_str(v, lo, hi, ":") {
            Some(Sym::Colon)
        } else if chars_eq_str(v, lo, hi, ".") {
            Some(Sym::Dot)
        } else if chars_eq_str(v, lo, hi, "=") {
            Some(Sym::Assign)
        } else if chars_eq_str(v, lo, hi, "->") {
            Some(Sym::Arrow)
        } else if chars_eq_str(v, lo, hi, "=>") {
            Some(Sym::DoubleArrow)
        } else if chars_eq_str(v, lo, hi, "+") {
            Some(Sym::Plus)
        } else if chars_eq_str(v, lo, hi, "-") {
            Some(Sym::Minus)
        } else if chars_eq_str(v, lo, hi, "*") {
            Some(Sym::Star)
        } else if chars_eq_str(v, lo, hi, "/") {
            Some(Sym::Slash)
        } else if chars_eq_str(v, lo, hi, "%") {
            Some(Sym::Percent)
        } else if chars_eq_str(v, lo, hi, "==") {
            Some(Sym::Eq)
        } else if chars_eq_str(v, lo, hi, "!=") {
            Some(Sym::NEq)
        } else if chars_eq_str(v, lo, hi, "<") {
            Some(Sym::LT)
        } else if chars_eq_str(v, lo, hi, "<=") {
            Some(Sym::LE)
        } else if chars_eq_str(v, lo, hi, ">") {
            Some(Sym::GT)
        } else if chars_eq_str(v, lo, hi, ">=") {
            Some(Sym::GE)
        } else {
            None
        }
    }
}

/// The error of reading a keyword from text that spells none.
#[derive(Clone, Debug)]
pub struct LexKwError {
    s: String,
}

/// The error of reading a symbol from text that spells none.
#[derive(Clone, Debug)]
pub struct LexSymError {
    s: String,
}

impl View for LexKwError {
    type V = Seq<char>;

    closed spec fn view(&self) -> Seq<char> {
        self.s@
    }
}

impl View for LexSymError {
    type V = Seq<char>;

    closed spec fn view(&self) -> Seq<char> {
        self.s@
    }
}

impl LexKwError {
    /// The error for text `s` that is not a keyword.
    pub fn new(s: &str) -> (r: LexKwError)
        ensures
            r@ == s@,
    {
        LexKwError { s: s.to_owned() }
    }

    /// The text that is not a keyword.
    pub fn text(&self) -> (r: &str)
        ensures
            r@ == self@,
    {
        self.s.as_str()
    }

    /// Renders the error as a message.
    pub fn message(&self) -> (r: String)
        ensures
            r@ == debug_quoted(self@) + " is not a keyword"@,
    {
        let mut m = quote_for_display(self.s.as_str());
        m.append(" is not a keyword");
        m
    }
}

impl LexSymError {
    /// The error for text `s` that is not a symbol.
    pub fn new(s: &str) -> (r: LexSymError)
        ensures
            r@ == s@,
    {
        LexSymError { s: s.to_owned() }
    }

    /// The text that is not a symbol.
    pub fn text(&self) -> (r: &str)
        ensures
            r@ == self@,
    {
        self.s.as_str()
    }

    /// Renders the error as a message.
    pub fn message(&self) -> (r: String)
        ensures
            r@ == debug_quoted(self@) + " is not a symbol"@,
    {
        let mut m = quote_for_display(self.s.as_str());
        m.append(" is not a symbol");
        m
    }
}

impl Kw {
    /// The keyword spelled exactly `s`; the match is case-sensitive.
    pub fn from_spelling(s: &str) -> (r: Result<Kw, LexKwError>)
        ensures
            match r {
                Ok(k) => kw_of(s@) == Some(k),
                Err(e) => kw_of(s@) is None && e@ == s@,
            },
    {
        let v = str_chars(s);
        match Kw::from_chars(v.as_slice(), 0, v.len()) {
            Some(k) => {
                assert(v@.subrange(0, v@.len() as int) =~= s@);
                Ok(k)
            },
            None => {
                assert(v@.subrange(0, v@.len() as int) =~= s@);
                Err(LexKwError::new(s))
            },
        }
    }
}

impl Sym {
    /// The symbol spelled exactly `s`.
    pub fn from_spelling(s: &str) -> (r: Result<Sym, LexSymError>)
        ensures
            match r {
                Ok(k) => sym_of(s@) == Some(k),
                Err(e) => sym_of(s@) is None && e@ == s@,
            },
    {
        let v = str_chars(s);
        match Sym::from_chars(v.as_slice(), 0, v.len()) {
            Some(k) => {
                assert(v@.subrange(0, v@.len() as int) =~= s@);
                Ok(k)
            },
            None => {
                assert(v@.subrange(0, v@.len() as int) =~= s@);
                Err(LexSymError::new(s))
            },
        }
    }
}

impl std::str::FromStr for Kw {
    type Err = LexKwError;

    fn from_str(s: &str) -> Result<Kw, LexKwError> {
        Kw::from_spelling(s)
    }
}

impl std::str::FromStr for Sym {
    type Err = LexSymError;

    fn from_str(s: &str) -> Result<Sym, LexSymError> {
        Sym::from_spelling(s)
    }
}

/// Reading the spelling of any keyword gives that keyword back: no two
/// keywords share a spelling.
pub proof fn lemma_kw_spelling_round_trip(k: Kw)
    ensures
        kw_of(k.spelling()) == Some(k),
{
    reveal_strlit("region");
    assert("region"@[0] == 'r' && "region"@[1] == 'e' && "region"@[2] == 'g' && "region"@[3] == 'i' && "region"@[4] == 'o' && "region"@[5] == 'n');
    reveal_strlit("link");
    assert("link"@[0] == 'l' && "link"@[1] == 'i' && "link"@[2] == 'n' && "link"@[3] == 'k');
    reveal_strlit("item");
    assert("item"@[0] == 'i' && "item"@[1] == 't' && "item"@[2] == 'e' && "item"@[3] == 'm');
    reveal_strlit("items");
    assert("items"@[0] == 'i' && "items"@[1] == 't' && "items"@[2] == 'e' && "items"@[3] == 'm' && "items"@[4] == 's');
    reveal_strlit("location");
    assert("location"@[0] == 'l' && "location"@[1] == 'o' && "location"@[2] == 'c' && "location"@[3] == 'a' && "location"@[4] == 't' && "location"@[5] == 'i' && "location"@[6] == 'o' && "location"@[7] == 'n');
    reveal_strlit("locations");
    assert("locations"@[0] == 'l' && "locations"@[1] == 'o' && "locations"@[2] == 'c' && "locations"@[3] == 'a' && "locations"@[4] == 't' && "locations"@[5] == 'i' && "locations"@[6] == 'o' && "locations"@[7] == 'n' && "locations"@[8] == 's');
    reveal_strlit("fn");
    assert("fn"@[0] == 'f' && "fn"@[1] == 'n');
    reveal_strlit("enum");
    assert("enum"@[0] == 'e' && "enum"@[1] == 'n' && "enum"@[2] == 'u' && "enum"@[3] == 'm');
    reveal_strlit("config");
    assert("config"@[0] == 'c' && "config"@[1] == 'o' && "config"@[2] == 'n' && "config"@[3] == 'f' && "config"@[4] == 'i' && "config"@[5] == 'g');
    reveal_strlit("configs");
    assert("configs"@[0] == 'c' && "configs"@[1] == 'o' && "configs"@[2] == 'n' && "configs"@[3] == 'f' && "configs"@[4] == 'i' && "configs"@[5] == 'g' && "configs"@[6] == 's');
    reveal_strlit("configset");
    assert("configset"@[0] == 'c' && "configset"@[1] == 'o' && "configset"@[2] == 'n' && "configset"@[3] == 'f' && "configset"@[4] == 'i' && "configset"@[5] == 'g' && "configset"@[6] == 's' && "configset"@[7] == 'e' && "configset"@[8] == 't');
    reveal_strlit("random");
    assert("random"@[0] == 'r' && "random"@[1] == 'a' && "random"@[2] == 'n' && "random"@[3] == 'd' && "random"@[4] == 'o' && "random"@[5] == 'm');
    reveal_strlit("if");
    assert("if"@[0] == 'i' && "if"@[1] == 'f');
    reveal_strlit("else");
    assert("else"@[0] == 'e' && "else"@[1] == 'l' && "else"@[2] == 's' && "else"@[3] == 'e');
    reveal_strlit("modify");
    assert("modify"@[0] == 'm' && "modify"@[1] == 'o' && "modify"@[2] == 'd' && "modify"@[3] == 'i' && "modify"@[4] == 'f' && "modify"@[5] == 'y');
    reveal_strlit("override");
    assert("override"@[0] == 'o' && "override"@[1] == 'v' && "override"@[2] == 'e' && "override"@[3] == 'r' && "override"@[4] == 'r' && "override"@[5] == 'i' && "override"@[6] == 'd' && "override"@[7] == 'e');
    reveal_strlit("requires");
    assert("requires"@[0] == 'r' && "requires"@[1] == 'e' && "requires"@[2] == 'q' && "requires"@[3] == 'u' && "requires"@[4] == 'i' && "requires"@[5] == 'r' && "requires"@[6] == 'e' && "requires"@[7] == 's');
    reveal_strlit("visible");
    assert("visible"@[0] == 'v' && "visible"@[1] == 'i' && "visible"@[2] == 's' && "visible"@[3] == 'i' && "visible"@[4] == 'b' && "visible"@[5] == 'l' && "visible"@[6] == 'e');
    reveal_strlit("unlock");
    assert("unlock"@[0] == 'u' && "unlock"@[1] == 'n' && "unlock"@[2] == 'l' && "unlock"@[3] == 'o' && "unlock"@[4] == 'c' && "unlock"@[5] == 'k');
    reveal_strlit("tag");
    assert("tag"@[0] == 't' && "tag"@[1] == 'a' && "tag"@[2] == 'g');
    reveal_strlit("alias");
    assert("alias"@[0] == 'a' && "alias"@[1] == 'l' && "alias"@[2] == 'i' && "alias"@[3] == 'a' && "alias"@[4] == 's');
    reveal_strlit("provides");
    assert("provides"@[0] == 'p' && "provides"@[1] == 'r' && "provides"@[2] == 'o' && "provides"@[3] == 'v' && "provides"@[4] == 'i' && "provides"@[5] == 'd' && "provides"@[6] == 'e' && "provides"@[7] == 's');
    reveal_strlit("progressive");
    assert("progressive"@[0] == 'p' && "progressive"@[1] == 'r' && "progressive"@[2] == 'o' && "progressive"@[3] == 'g' && "progressive"@[4] == 'r' && "progressive"@[5] == 'e' && "progressive"@[6] == 's' && "progressive"@[7] == 's' && "progressive"@[8] == 'i' && "progressive"@[9] == 'v' && "progressive"@[10] == 'e');
    reveal_strlit("val");
    assert("val"@[0] == 'v' && "val"@[1] == 'a' && "val"@[2] == 'l');
    reveal_strlit("max");
    assert("max"@[0] == 'm' && "max"@[1] == 'a' && "max"@[2] == 'x');
    reveal_strlit("consumable");
    assert("consumable"@[0] == 'c' && "consumable"@[1] == 'o' && "consumable"@[2] == 'n' && "consumable"@[3] == 's' && "consumable"@[4] == 'u' && "consumable"@[5] == 'm' && "consumable"@[6] == 'a' && "consumable"@[7] == 'b' && "consumable"@[8] == 'l' && "consumable"@[9] == 'e');
    reveal_strlit("avail");
    assert("avail"@[0] == 'a' && "avail"@[1] == 'v' && "avail"@[2] == 'a' && "avail"@[3] == 'i' && "avail"@[4] == 'l');
    reveal_strlit("infinity");
    assert("infinity"@[0] == 'i' && "infinity"@[1] == 'n' && "infinity"@[2] == 'f' && "infinity"@[3] == 'i' && "infinity"@[4] == 'n' && "infinity"@[5] == 'i' && "infinity"@[6] == 't' && "infinity"@[7] == 'y');
    reveal_strlit("grants");
    assert("grants"@[0] == 'g' && "grants"@[1] == 'r' && "grants"@[2] == 'a' && "grants"@[3] == 'n' && "grants"@[4] == 't' && "grants"@[5] == 's');
    reveal_strlit("count");
    assert("count"@[0] == 'c' && "count"@[1] == 'o' && "count"@[2] == 'u' && "count"@[3] == 'n' && "count"@[4] == 't');
    reveal_strlit("start");
    assert("start"@[0] == 's' && "start"@[1] == 't' && "start"@[2] == 'a' && "start"@[3] == 'r' && "start"@[4] == 't');
    reveal_strlit("num");
    assert("num"@[0] == 'n' && "num"@[1] == 'u' && "num"@[2] == 'm');
    reveal_strlit("bool");
    assert("bool"@[0] == 'b' && "bool"@[1] == 'o' && "bool"@[2] == 'o' && "bool"@[3] == 'l');
    reveal_strlit("then");
    assert("then"@[0] == 't' && "then"@[1] == 'h' && "then"@[2] == 'e' && "then"@[3] == 'n');
    reveal_strlit("match");
    assert("match"@[0] == 'm' && "match"@[1] == 'a' && "match"@[2] == 't' && "match"@[3] == 'c' && "match"@[4] == 'h');
    reveal_strlit("true");
    assert("true"@[0] == 't' && "true"@[1] == 'r' && "true"@[2] == 'u' && "true"@[3] == 'e');
    reveal_strlit("false");
    assert("false"@[0] == 'f' && "false"@[1] == 'a' && "false"@[2] == 'l' && "false"@[3] == 's' && "false"@[4] == 'e');
    reveal_strlit("not");
    assert("not"@[0] == 'n' && "not"@[1] == 'o' && "not"@[2] == 't');
    reveal_strlit("and");
    assert("and"@[0] == 'a' && "and"@[1] == 'n' && "and"@[2] == 'd');
    reveal_strlit("or");
    assert("or"@[0] == 'o' && "or"@[1] == 'r');
    reveal_strlit("min");
    assert("min"@[0] == 'm' && "min"@[1] == 'i' && "min"@[2] == 'n');
    reveal_strlit("sum");
    assert("sum"@[0] == 's' && "sum"@[1] == 'u' && "sum"@[2] == 'm');
    reveal_strlit("with");
    assert("with"@[0] == 'w' && "with"@[1] == 'i' && "with"@[2] == 't' && "with"@[3] == 'h');
    reveal_strlit("to");
    assert("to"@[0] == 't' && "to"@[1] == 'o');
    reveal_strlit("from");
    assert("from"@[0] == 'f' && "from"@[1] == 'r' && "from"@[2] == 'o' && "from"@[3] == 'm');
    reveal_strlit("in");
    assert("in"@[0] == 'i' && "in"@[1] == 'n');
    reveal_strlit("default");
    assert("default"@[0] == 'd' && "default"@[1] == 'e' && "default"@[2] == 'f' && "default"@[3] == 'a' && "default"@[4] == 'u' && "default"@[5] == 'l' && "default"@[6] == 't');
    match k {
        Kw::Region => {},
        Kw::Link => {},
        Kw::Item => {},
        Kw::Items => {
            assert(Kw::Items.spelling().len() != Kw::Item.spelling().len());
        },
        Kw::Location => {},
        Kw::Locations => {
            assert(Kw::Locations.spelling().len() != Kw::Location.spelling().len());
        },
        Kw::Fn => {},
        Kw::Enum => {},
        Kw::Config => {},
        Kw::Configs => {
            assert(Kw::Configs.spelling().len() != Kw::Config.spelling().len());
        },
        Kw::Configset => {
            assert(Kw::Configset.spelling().len() != Kw::Config.spelling().len());
            assert(Kw::Configset.spelling().len() != Kw::Configs.spelling().len());
        },
        Kw::Random => {},
        Kw::If => {},
        Kw::Else => {},
        Kw::Modify => {},
        Kw::Override => {},
        Kw::Requires => {},
        Kw::Visible => {},
        Kw::Unlock => {},
        Kw::Tag => {},
        Kw::Alias => {},
        Kw::Provides => {},
        Kw::Progressive => {},
        Kw::Val => {},
        Kw::Max => {},
        Kw::Consumable => {},
        Kw::Avail => {},
        Kw::Infinity => {},
        Kw::Grants => {},
        Kw::Count => {},
        Kw::Start => {},
        Kw::Num => {},
        Kw::Bool => {},
        Kw::Then => {},
        Kw::Match => {},
        Kw::True => {},
        Kw::False => {},
        Kw::Not => {},
        Kw::And => {},
        Kw::Or => {},
        Kw::Min => {},
        Kw::Sum => {},
        Kw::With => {},
        Kw::To => {},
        Kw::From => {},
        Kw::In => {
            assert(Kw::In.spelling().len() != Kw::Infinity.spelling().len());
        },
        Kw::Default => {},
    }
}

/// Reading the spelling of any symbol gives that symbol back: no two
/// symbols share a spelling.
pub proof fn lemma_sym_spelling_round_trip(k: Sym)
    ensures
        sym_of(k.spelling()) == Some(k),
{
    reveal_strlit("(");
    assert("("@[0] == '(');
    reveal_strlit(")");
    assert(")"@[0] == ')');
    reveal_strlit("[");
    assert("["@[0] == '[');
    reveal_strlit("]");
    assert("]"@[0] == ']');
    reveal_strlit("{");
    assert("{"@[0] == '{');
    reveal_strlit("}");
    assert("}"@[0] == '}');
    reveal_strlit(";");
    assert(";"@[0] == ';');
    reveal_strlit(",");
    assert(","@[0] == ',');
    reveal_strlit(":");
    assert(":"@[0] == ':');
    reveal_strlit(".");
    assert("."@[0] == '.');
    reveal_strlit("=");
    assert("="@[0] == '=');
    reveal_strlit("->");
    assert("->"@[0] == '-' && "->"@[1] == '>');
    reveal_strlit("=>");
    assert("=>"@[0] == '=' && "=>"@[1] == '>');
    reveal_strlit("+");
    assert("+"@[0] == '+');
    reveal_strlit("-");
    assert("-"@[0] == '-');
    reveal_strlit("*");
    assert("*"@[0] == '*');
    reveal_strlit("/");
    assert("/"@[0] == '/');
    reveal_strlit("%");
    assert("%"@[0] == '%');
    reveal_strlit("==");
    assert("=="@[0] == '=' && "=="@[1] == '=');
    reveal_strlit("!=");
    assert("!="@[0] == '!' && "!="@[1] == '=');
    reveal_strlit("<");
    assert("<"@[0] == '<');
    reveal_strlit("<=");
    assert("<="@[0] == '<' && "<="@[1] == '=');
    reveal_strlit(">");
    assert(">"@[0] == '>');
    reveal_strlit(">=");
    assert(">="@[0] == '>' && ">="@[1] == '=');
    match k {
        Sym::LParen => {},
        Sym::RParen => {},
        Sym::LBrack => {},
        Sym::RBrack => {},
        Sym::LBrace => {},
        Sym::RBrace => {},
        Sym::Semi => {},
        Sym::Comma => {},
        Sym::Colon => {},
        Sym::Dot => {},
        Sym::Assign => {},
        Sym::Arrow => {},
        Sym::DoubleArrow => {
            assert(Sym::DoubleArrow.spelling().len() != Sym::Assign.spelling().len());
        },
        Sym::Plus => {},
        Sym::Minus => {
            assert(Sym::Minus.spelling().len() != Sym::Arrow.spelling().len());
        },
        Sym::Star => {},
        Sym::Slash => {},
        Sym::Percent => {},
        Sym::Eq => {
            assert(Sym::Eq.spelling().len() != Sym::Assign.spelling().len());
        },
        Sym::NEq => {},
        Sym::LT => {},
        Sym::LE => {
            assert(Sym::LE.spelling().len() != Sym::LT.spelling().len());
        },
        Sym::GT => {},
        Sym::GE => {
            assert(Sym::GE.spelling().len() != Sym::GT.spelling().len());
        },
    }
}

} // verus!
