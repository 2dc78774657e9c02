use parser::ast::{
    BinOperator, BoolOperator, CompOperator, ContractFieldQual, EventFieldQual, FuncQual,
    TypeDesc, UnaryOperator,
};
use parser::classify::ClassifyError;
use parser::span::{Located, Span};
use parser::token::{text_eq, Token};

fn tok(lexeme: &str, start: usize, end: usize) -> Token<'_> {
    Token::new(lexeme, Span::new(start, end))
}

#[test]
fn contract_field_qual_spellings() {
    let t = tok("const", 4, 9);
    assert_eq!(
        ContractFieldQual::from_token(&t),
        Ok(Located { node: ContractFieldQual::Const, span: Span { start: 4, end: 9 } })
    );
    let t = tok("pub", 0, 3);
    assert_eq!(
        ContractFieldQual::from_token(&t),
        Ok(Located { node: ContractFieldQual::Pub, span: Span { start: 0, end: 3 } })
    );
}

#[test]
fn event_and_func_qual_spellings() {
    let t = tok("idx", 10, 13);
    assert_eq!(
        EventFieldQual::from_token(&t),
        Ok(Located { node: EventFieldQual::Idx, span: t.span })
    );
    let t = tok("pub", 2, 5);
    assert_eq!(FuncQual::from_token(&t), Ok(Located { node: FuncQual::Pub, span: t.span }));
}

#[test]
fn bool_operator_spellings() {
    let t = tok("and", 1, 4);
    assert_eq!(BoolOperator::from_token(&t), Ok(Located { node: BoolOperator::And, span: t.span }));
    let t = tok("or", 5, 7);
    assert_eq!(BoolOperator::from_token(&t), Ok(Located { node: BoolOperator::Or, span: t.span }));
}

#[test]
fn unary_operator_spellings() {
    let cases = [
        ("~", UnaryOperator::Invert),
        ("not", UnaryOperator::Not),
        ("+", UnaryOperator::UAdd),
        ("-", UnaryOperator::USub),
    ];
    for (i, (lexeme, v)) in cases.iter().enumerate() {
        let t = tok(lexeme, i, i + lexeme.len());
        assert_eq!(UnaryOperator::from_token(&t), Ok(Located { node: *v, span: t.span }));
    }
}

#[test]
fn bin_operator_spellings() {
    let cases = [
        ("+", BinOperator::Add),
        ("-", BinOperator::Sub),
        ("*", BinOperator::Mult),
        ("/", BinOperator::Div),
        ("%", BinOperator::Mod),
        ("**", BinOperator::Pow),
        ("<<", BinOperator::LShift),
        (">>", BinOperator::RShift),
        ("|", BinOperator::BitOr),
        ("^", BinOperator::BitXor),
        ("&", BinOperator::BitAnd),
        ("//", BinOperator::FloorDiv),
    ];
    for (lexeme, v) in cases.iter() {
        let t = tok(lexeme, 7, 7 + lexeme.len());
        assert_eq!(BinOperator::from_token(&t), Ok(Located { node: *v, span: t.span }));
        let assign = format!("{}=", lexeme);
        let t = tok(&assign, 7, 7 + assign.len());
        assert_eq!(BinOperator::from_token(&t), Ok(Located { node: *v, span: t.span }));
    }
}

#[test]
fn compound_assignment_collapses() {
    let plus = tok("+", 3, 4);
    let plus_eq = tok("+=", 3, 4);
    let a = BinOperator::from_token(&plus);
    let b = BinOperator::from_token(&plus_eq);
    assert_eq!(a, Ok(Located { node: BinOperator::Add, span: Span { start: 3, end: 4 } }));
    assert_eq!(a, b);
}

#[test]
fn comp_operator_single_words() {
    let cases = [
        ("==", CompOperator::Eq),
        ("!=", CompOperator::NotEq),
        ("<", CompOperator::Lt),
        ("<=", CompOperator::LtE),
        (">", CompOperator::Gt),
        (">=", CompOperator::GtE),
        ("is", CompOperator::Is),
        ("in", CompOperator::In),
    ];
    for (lexeme, v) in cases.iter() {
        let t = tok(lexeme, 2, 2 + lexeme.len());
        assert_eq!(CompOperator::from_tokens(&[&t]), Ok(Located { node: *v, span: t.span }));
    }
}

#[test]
fn comp_operator_is_not() {
    let a = tok("is", 10, 12);
    let b = tok("not", 13, 16);
    assert_eq!(
        CompOperator::from_tokens(&[&a, &b]),
        Ok(Located {
            node: CompOperator::IsNot,
            span: Span::from_pair(a.span, b.span),
        })
    );
    assert_eq!(Span::from_pair(a.span, b.span), Span { start: 10, end: 16 });
}

#[test]
fn comp_operator_not_in() {
    let a = tok("not", 0, 3);
    let b = tok("in", 4, 6);
    assert_eq!(
        CompOperator::from_tokens(&[&a, &b]),
        Ok(Located { node: CompOperator::NotIn, span: Span { start: 0, end: 6 } })
    );
}

#[test]
fn comp_operator_is_alone() {
    let a = tok("is", 5, 7);
    assert_eq!(
        CompOperator::from_tokens(&[&a]),
        Ok(Located { node: CompOperator::Is, span: Span { start: 5, end: 7 } })
    );
}

#[test]
fn comp_operator_rejects_other_runs() {
    let is = tok("is", 0, 2);
    let foo = tok("foo", 3, 6);
    let not = tok("not", 3, 6);
    let in_ = tok("in", 7, 9);
    let err = Err(ClassifyError::UnrecognizedStrings);
    assert_eq!(CompOperator::from_tokens(&[&is, &foo]), err);
    assert_eq!(CompOperator::from_tokens(&[&not, &is]), err);
    assert_eq!(CompOperator::from_tokens(&[&not]), err);
    assert_eq!(CompOperator::from_tokens(&[]), err);
    assert_eq!(CompOperator::from_tokens(&[&is, &not, &in_]), err);
}

#[test]
fn unrecognized_lexemes_fail() {
    let t = tok("Const", 0, 5);
    assert_eq!(ContractFieldQual::from_token(&t), Err(ClassifyError::UnrecognizedString));
    let t = tok("pub ", 0, 4);
    assert_eq!(FuncQual::from_token(&t), Err(ClassifyError::UnrecognizedString));
    let t = tok("id", 0, 2);
    assert_eq!(EventFieldQual::from_token(&t), Err(ClassifyError::UnrecognizedString));
    let t = tok("&&", 0, 2);
    assert_eq!(BoolOperator::from_token(&t), Err(ClassifyError::UnrecognizedToken));
    let t = tok("!", 0, 1);
    assert_eq!(UnaryOperator::from_token(&t), Err(ClassifyError::UnrecognizedString));
    let t = tok("=", 0, 1);
    assert_eq!(BinOperator::from_token(&t), Err(ClassifyError::UnrecognizedToken));
    let t = tok("", 0, 0);
    assert_eq!(BinOperator::from_token(&t), Err(ClassifyError::UnrecognizedToken));
}

#[test]
fn classifiers_are_independent() {
    // "not" is a unary operator but neither a binary nor a boolean one.
    let t = tok("not", 0, 3);
    assert_eq!(UnaryOperator::from_token(&t), Ok(Located { node: UnaryOperator::Not, span: t.span }));
    assert_eq!(BinOperator::from_token(&t), Err(ClassifyError::UnrecognizedToken));
    assert_eq!(BoolOperator::from_token(&t), Err(ClassifyError::UnrecognizedToken));
    // "+" is both unary and binary, each in its own category.
    let t = tok("+", 0, 1);
    assert_eq!(UnaryOperator::from_token(&t), Ok(Located { node: UnaryOperator::UAdd, span: t.span }));
    assert_eq!(BinOperator::from_token(&t), Ok(Located { node: BinOperator::Add, span: t.span }));
    // "pub" qualifies both contract fields and functions, but not events.
    let t = tok("pub", 0, 3);
    assert!(ContractFieldQual::from_token(&t).is_ok());
    assert!(FuncQual::from_token(&t).is_ok());
    assert_eq!(EventFieldQual::from_token(&t), Err(ClassifyError::UnrecognizedString));
}

#[test]
fn span_is_kept_exactly() {
    let t = tok("**=", 100, 103);
    let r = BinOperator::from_token(&t).unwrap();
    assert_eq!(r.span, Span { start: 100, end: 103 });
    let t = tok("idx", 42, 42);
    assert_eq!(EventFieldQual::from_token(&t).unwrap().span, Span { start: 42, end: 42 });
}

#[test]
fn type_name_never_fails() {
    for lexeme in ["u256", "address", "+", "", "Map<u8, bool>"] {
        let t = tok(lexeme, 8, 8 + lexeme.len());
        let r = TypeDesc::from_token(&t);
        assert_eq!(r, Located { node: TypeDesc::Base { base: lexeme }, span: t.span });
    }
}

#[test]
fn order_of_classification_does_not_matter() {
    let t = tok("-", 3, 4);
    let u1 = UnaryOperator::from_token(&t);
    let b1 = BinOperator::from_token(&t);
    let q1 = ContractFieldQual::from_token(&t);
    let q2 = ContractFieldQual::from_token(&t);
    let b2 = BinOperator::from_token(&t);
    let u2 = UnaryOperator::from_token(&t);
    assert_eq!(u1, u2);
    assert_eq!(b1, b2);
    assert_eq!(q1, q2);
    assert_eq!(u1, Ok(Located { node: UnaryOperator::USub, span: t.span }));
    assert_eq!(b1, Ok(Located { node: BinOperator::Sub, span: t.span }));
}

#[test]
fn span_from_pair_covers_both() {
    let a = Span::new(5, 9);
    let b = Span::new(2, 7);
    assert_eq!(Span::from_pair(a, b), Span { start: 2, end: 9 });
    assert_eq!(Span::from_pair(b, a), Span { start: 2, end: 9 });
    assert_eq!(Span::from_pair(a, a), a);
}

#[test]
fn text_eq_is_exact() {
    assert!(text_eq("not", "not"));
    assert!(text_eq("", ""));
    assert!(text_eq("é≠", "é≠"));
    assert!(!text_eq("not", "Not"));
    assert!(!text_eq("no", "not"));
    assert!(!text_eq("not", "no"));
    assert!(!text_eq(" not", "not"));
}

#[test]
fn error_messages() {
    assert_eq!(ClassifyError::UnrecognizedString.message(), "unrecognized string");
    assert_eq!(ClassifyError::UnrecognizedToken.message(), "unrecognized token");
    assert_eq!(ClassifyError::UnrecognizedStrings.message(), "unrecognized strings");
}
