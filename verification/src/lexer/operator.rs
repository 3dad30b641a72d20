//! Operators of the language.

use vstd::prelude::*;
use crate::text::{str_eq, string_of, concat3};

verus! {

/// An operator. Operations are written in Polish notation: the operator
/// comes first, then its operands.
#[derive(Clone, Copy, Debug, PartialEq, Eq, Structural)]
pub enum Operator {
    Add,
    Sub,
    Mul,
    Div,
    Mod,
    Eq,
    Gr,
    Lw,
    Ge,
    Le,
    And,
    Or,
    Inv,
    Len,
}

/// The text of each operator, in the order the lexer tries them: `<=` and
/// `>=` come before `<` and `>`.
pub open spec fn operator_texts() -> Seq<Seq<char>> {
    seq!["+"@, "-"@, "*"@, "/"@, "%"@, "<="@, ">="@, "=="@, "<"@, ">"@, "&"@, "?"@, "!"@, "#"@]
}

/// The operators, in the order of `operator_texts`.
pub open spec fn operator_list() -> Seq<Operator> {
    seq![Operator::Add, Operator::Sub, Operator::Mul, Operator::Div, Operator::Mod, Operator::Le,
        Operator::Ge, Operator::Eq, Operator::Lw, Operator::Gr, Operator::And, Operator::Or,
        Operator::Inv, Operator::Len]
}

impl Operator {
    /// The source text of the operator.
    pub open spec fn text(self) -> Seq<char> {
        match self {
            Operator::Add => "+"@,
            Operator::Sub => "-"@,
            Operator::Mul => "*"@,
            Operator::Div => "/"@,
            Operator::Mod => "%"@,
            Operator::Eq => "=="@,
            Operator::Gr => ">"@,
            Operator::Lw => "<"@,
            Operator::Ge => ">="@,
            Operator::Le => "<="@,
            Operator::And => "&"@,
            Operator::Or => "?"@,
            Operator::Inv => "!"@,
            Operator::Len => "#"@,
        }
    }

    /// The unique name of the operator, used to name the function that
    /// implements it.
    pub open spec fn name(self) -> Seq<char> {
        match self {
            Operator::Add => "add"@,
            Operator::Sub => "sub"@,
            Operator::Mul => "mul"@,
            Operator::Div => "div"@,
            Operator::Mod => "mod"@,
            Operator::Eq => "eq"@,
            Operator::Gr => "gr"@,
            Operator::Lw => "lw"@,
            Operator::Ge => "ge"@,
            Operator::Le => "le"@,
            Operator::And => "and"@,
            Operator::Or => "or"@,
            Operator::Inv => "inv"@,
            Operator::Len => "len"@,
        }
    }

    /// The operator written `s`, if any.
    pub open spec fn parse_spec(s: Seq<char>) -> Option<Operator> {
        if s == "+"@ { Some(Operator::Add) }
        else if s == "-"@ { Some(Operator::Sub) }
        else if s == "*"@ { Some(Operator::Mul) }
        else if s == "/"@ { Some(Operator::Div) }
        else if s == "%"@ { Some(Operator::Mod) }
        else if s == "=="@ { Some(Operator::Eq) }
        else if s == ">"@ { Some(Operator::Gr) }
        else if s == "<"@ { Some(Operator::Lw) }
        else if s == ">="@ { Some(Operator::Ge) }
        else if s == "<="@ { Some(Operator::Le) }
        else if s == "&"@ { Some(Operator::And) }
        else if s == "?"@ { Some(Operator::Or) }
        else if s == "!"@ { Some(Operator::Inv) }
        else if s == "#"@ { Some(Operator::Len) }
        else { None }
    }

    /// The source text of the operator.
    pub fn to_string(&self) -> (r: String)
        ensures
            r@ == self.text(),
    {
        match self {
            Operator::Add => string_of("+"),
            Operator::Sub => string_of("-"),
            Operator::Mul => string_of("*"),
            Operator::Div => string_of("/"),
            Operator::Mod => string_of("%"),
            Operator::Eq => string_of("=="),
            Operator::Gr => string_of(">"),
            Operator::Lw => string_of("<"),
            Operator::Ge => string_of(">="),
            Operator::Le => string_of("<="),
            Operator::And => string_of("&"),
            Operator::Or => string_of("?"),
            Operator::Inv => string_of("!"),
            Operator::Len => string_of("#"),
        }
    }

    /// Return the unique name of this operator (add, mul, div, etc.)
    pub fn get_name(&self) -> (r: String)
        ensures
            r@ == self.name(),
    {
        match self {
            Operator::Add => string_of("add"),
            Operator::Sub => string_of("sub"),
            Operator::Mul => string_of("mul"),
            Operator::Div => string_of("div"),
            Operator::Mod => string_of("mod"),
            Operator::Eq => string_of("eq"),
            Operator::Gr => string_of("gr"),
            Operator::Lw => string_of("lw"),
            Operator::Ge => string_of("ge"),
            Operator::Le => string_of("le"),
            Operator::And => string_of("and"),
            Operator::Or => string_of("or"),
            Operator::Inv => string_of("inv"),
            Operator::Len => string_of("len"),
        }
    }

    /// The operator written `str`; an error message when `str` is no operator.
    pub fn from_str(str: &str) -> (r: Result<Operator, String>)
        ensures
            match r {
                Ok(o) => Operator::parse_spec(str@) == Some(o),
                Err(m) => Operator::parse_spec(str@) is None
                    && m@ == "Unimplemented operator '"@ + str@ + "'"@,
            },
    {
        if str_eq(str, "+") { Ok(Operator::Add) }
        else if str_eq(str, "-") { Ok(Operator::Sub) }
        else if str_eq(str, "*") { Ok(Operator::Mul) }
        else if str_eq(str, "/") { Ok(Operator::Div) }
        else if str_eq(str, "%") { Ok(Operator::Mod) }
        else if str_eq(str, "==") { Ok(Operator::Eq) }
        else if str_eq(str, ">") { Ok(Operator::Gr) }
        else if str_eq(str, "<") { Ok(Operator::Lw) }
        else if str_eq(str, ">=") { Ok(Operator::Ge) }
        else if str_eq(str, "<=") { Ok(Operator::Le) }
        else if str_eq(str, "&") { Ok(Operator::And) }
        else if str_eq(str, "?") { Ok(Operator::Or) }
        else if str_eq(str, "!") { Ok(Operator::Inv) }
        else if str_eq(str, "#") { Ok(Operator::Len) }
        else { Err(concat3("Unimplemented operator '", str, "'")) }
    }
}

/// Makes the characters of the operator texts known to the solver.
pub proof fn reveal_operator_texts()
    ensures
        "+"@ =~= seq!['+'], "-"@ =~= seq!['-'], "*"@ =~= seq!['*'], "/"@ =~= seq!['/'],
        "%"@ =~= seq!['%'], "<="@ =~= seq!['<', '='], ">="@ =~= seq!['>', '='],
        "=="@ =~= seq!['=', '='], "<"@ =~= seq!['<'], ">"@ =~= seq!['>'], "&"@ =~= seq!['&'],
        "?"@ =~= seq!['?'], "!"@ =~= seq!['!'], "#"@ =~= seq!['#'],
{
    reveal_strlit("+");
    reveal_strlit("-");
    reveal_strlit("*");
    reveal_strlit("/");
    reveal_strlit("%");
    reveal_strlit("<=");
    reveal_strlit(">=");
    reveal_strlit("==");
    reveal_strlit("<");
    reveal_strlit(">");
    reveal_strlit("&");
    reveal_strlit("?");
    reveal_strlit("!");
    reveal_strlit("#");
}

/// Makes the characters of the operator names known to the solver.
proof fn reveal_operator_names()
    ensures
        "add"@ =~= seq!['a', 'd', 'd'],
        "sub"@ =~= seq!['s', 'u', 'b'],
        "mul"@ =~= seq!['m', 'u', 'l'],
        "div"@ =~= seq!['d', 'i', 'v'],
        "mod"@ =~= seq!['m', 'o', 'd'],
        "eq"@ =~= seq!['e', 'q'],
        "gr"@ =~= seq!['g', 'r'],
        "lw"@ =~= seq!['l', 'w'],
        "ge"@ =~= seq!['g', 'e'],
        "le"@ =~= seq!['l', 'e'],
        "and"@ =~= seq!['a', 'n', 'd'],
        "or"@ =~= seq!['o', 'r'],
        "inv"@ =~= seq!['i', 'n', 'v'],
        "len"@ =~= seq!['l', 'e', 'n'],
{
    reveal_strlit("add");
    reveal_strlit("sub");
    reveal_strlit("mul");
    reveal_strlit("div");
    reveal_strlit("mod");
    reveal_strlit("eq");
    reveal_strlit("gr");
    reveal_strlit("lw");
    reveal_strlit("ge");
    reveal_strlit("le");
    reveal_strlit("and");
    reveal_strlit("or");
    reveal_strlit("inv");
    reveal_strlit("len");
}

/// Each operator has a name of its own, made of lowercase ASCII letters.
pub proof fn lemma_operator_names(a: Operator, b: Operator)
    ensures
        a.name().len() > 0,
        forall|i: int| 0 <= i < a.name().len() ==> 'a' <= #[trigger] a.name()[i] <= 'z',
        a.name() == b.name() ==> a == b,
{
    reveal_operator_names();
    if a.name() == b.name() {
        assert(a.name().len() == b.name().len());
        assert(a.name()[0] == b.name()[0]);
        assert(a.name()[1] == b.name()[1]);
    }
}

/// Reading back the text of an operator gives the operator, and each
/// operator stands in the lexer's table with its own text.
pub proof fn lemma_operator_round_trip(o: Operator)
    ensures
        Operator::parse_spec(o.text()) == Some(o),
        operator_texts().len() == operator_list().len(),
        forall|i: int| 0 <= i < operator_texts().len()
            ==> #[trigger] operator_texts()[i] == operator_list()[i].text(),
        operator_list().contains(o),
{
    reveal_operator_texts();
    assert("+"@[0] == '+' && "+"@.len() == 1);
    assert("-"@[0] == '-' && "-"@.len() == 1);
    assert("*"@[0] == '*' && "*"@.len() == 1);
    assert("/"@[0] == '/' && "/"@.len() == 1);
    assert("%"@[0] == '%' && "%"@.len() == 1);
    assert("<="@[0] == '<' && "<="@.len() == 2);
    assert(">="@[0] == '>' && ">="@.len() == 2);
    assert("=="@[0] == '=' && "=="@.len() == 2);
    assert("<"@[0] == '<' && "<"@.len() == 1);
    assert(">"@[0] == '>' && ">"@.len() == 1);
    assert("&"@[0] == '&' && "&"@.len() == 1);
    assert("?"@[0] == '?' && "?"@.len() == 1);
    assert("!"@[0] == '!' && "!"@.len() == 1);
    assert("#"@[0] == '#' && "#"@.len() == 1);
    assert("<="@[1] == '=' && ">="@[1] == '=' && "=="@[1] == '=');
    match o {
        Operator::Add => assert(operator_list()[0] == o),
        Operator::Sub => assert(operator_list()[1] == o),
        Operator::Mul => assert(operator_list()[2] == o),
        Operator::Div => assert(operator_list()[3] == o),
        Operator::Mod => assert(operator_list()[4] == o),
        Operator::Le => assert(operator_list()[5] == o),
        Operator::Ge => assert(operator_list()[6] == o),
        Operator::Eq => assert(operator_list()[7] == o),
        Operator::Lw => assert(operator_list()[8] == o),
        Operator::Gr => assert(operator_list()[9] == o),
        Operator::And => assert(operator_list()[10] == o),
        Operator::Or => assert(operator_list()[11] == o),
        Operator::Inv => assert(operator_list()[12] == o),
        Operator::Len => assert(operator_list()[13] == o),
    }
}

} // verus!
