use vstd::prelude::*;

use crate::ast::{
    BinOperator, BoolOperator, CompOperator, ContractFieldQual, EventFieldQual, FuncQual,
    TypeDesc, UnaryOperator,
};
use crate::span::{Located, Span};
use crate::token::{text_eq, Token};

verus! {

/// Why a token (or run of tokens) does not belong to a category.
#[derive(Debug, Clone, Copy, PartialEq, Eq, Structural)]
pub enum ClassifyError {
    UnrecognizedString,
    UnrecognizedToken,
    UnrecognizedStrings,
}

impl ClassifyError {
    pub open spec fn spec_message(self) -> Seq<char> {
        match self {
            ClassifyError::UnrecognizedString => "unrecognized string"@,
            ClassifyError::UnrecognizedToken => "unrecognized token"@,
            ClassifyError::UnrecognizedStrings => "unrecognized strings"@,
        }
    }

    /// A short description of the failure.
    pub fn message(&self) -> (r: &'static str)
        ensures
            r@ == self.spec_message(),
    {
        match self {
            ClassifyError::UnrecognizedString => "unrecognized string",
            ClassifyError::UnrecognizedToken => "unrecognized token",
            ClassifyError::UnrecognizedStrings => "unrecognized strings",
        }
    }
}

/// The outcome of a classification: the recognised node at `span`, or `e`.
pub open spec fn classified<T>(v: Option<T>, span: Span, e: ClassifyError) -> Result<
    Located<T>,
    ClassifyError,
> {
    match v {
        Some(node) => Ok(Located { node, span }),
        None => Err(e),
    }
}

/// The lexemes of a run of tokens, in order.
pub open spec fn lexemes(toks: Seq<&Token>) -> Seq<Seq<char>> {
    Seq::new(toks.len(), |i: int| toks[i].lexeme@)
}

/// The span covering the first and the last token of a run.
pub open spec fn run_span(toks: Seq<&Token>) -> Span {
    Span::merge(toks[0].span, toks.last().span)
}

impl CompOperator {
    /// The outcome of classifying a run of tokens: what its lexemes denote,
    /// located from the first to the last token, or `UnrecognizedStrings`.
    pub open spec fn spec_from_tokens(toks: Seq<&Token>) -> Result<Located<Self>, ClassifyError> {
        classified(
            CompOperator::lookup(lexemes(toks)),
            run_span(toks),
            ClassifyError::UnrecognizedStrings,
        )
    }

    /// Classifies a run of one or two tokens as a comparison operator. The
    /// caller decides how many tokens to offer; the lexemes must equal one
    /// spelling exactly, in order.
    pub fn from_tokens(toks: &[&Token]) -> (r: Result<Located<CompOperator>, ClassifyError>)
        ensures
            r == CompOperator::spec_from_tokens(toks@),
    {
        let n = toks.len();
        let ghost ws = lexemes(toks@);
        let node = if n == 1 {
            let w = toks[0].lexeme;
            assert(w@ == ws[0]);
            if text_eq(w, "==") {
                CompOperator::Eq
            } else if text_eq(w, "!=") {
                CompOperator::NotEq
            } else if text_eq(w, "<") {
                CompOperator::Lt
            } else if text_eq(w, "<=") {
                CompOperator::LtE
            } else if text_eq(w, ">") {
                CompOperator::Gt
            } else if text_eq(w, ">=") {
                CompOperator::GtE
            } else if text_eq(w, "is") {
                CompOperator::Is
            } else if text_eq(w, "in") {
                CompOperator::In
            } else {
                return Err(ClassifyError::UnrecognizedStrings);
            }
        } else if n == 2 {
            let a = toks[0].lexeme;
            let b = toks[1].lexeme;
            assert(a@ == ws[0] && b@ == ws[1]);
            if text_eq(a, "is") && text_eq(b, "not") {
                CompOperator::IsNot
            } else if text_eq(a, "not") && text_eq(b, "in") {
                CompOperator::NotIn
            } else {
                return Err(ClassifyError::UnrecognizedStrings);
            }
        } else {
            return Err(ClassifyError::UnrecognizedStrings);
        };
        let span = Span::from_pair(toks[0].span, toks[n - 1].span);
        Ok(Located { node, span })
    }
}

impl BinOperator {
    /// The outcome of classifying `tok`: what its lexeme denotes, located at
    /// the token's span, or `UnrecognizedToken` when it denotes nothing.
    pub open spec fn spec_from_token(tok: Token) -> Result<Located<Self>, ClassifyError> {
        classified(BinOperator::lookup(tok.lexeme@), tok.span, ClassifyError::UnrecognizedToken)
    }
    /// Classifies a token as a binary operator. A compound-assignment spelling
    /// (`+=`) gives the same operator as its bare symbol (`+`): whether the token
    /// assigns is not kept.
    pub fn from_token(tok: &Token) -> (r: Result<Located<BinOperator>, ClassifyError>)
        ensures
            r == BinOperator::spec_from_token(*tok),
    {
        let w = tok.lexeme;
        let node = if text_eq(w, "+") || text_eq(w, "+=") {
            BinOperator::Add
        } else if text_eq(w, "-") || text_eq(w, "-=") {
            BinOperator::Sub
        } else if text_eq(w, "*") || text_eq(w, "*=") {
            BinOperator::Mult
        } else if text_eq(w, "/") || text_eq(w, "/=") {
            BinOperator::Div
        } else if text_eq(w, "%") || text_eq(w, "%=") {
            BinOperator::Mod
        } else if text_eq(w, "**") || text_eq(w, "**=") {
            BinOperator::Pow
        } else if text_eq(w, "<<") || text_eq(w, "<<=") {
            BinOperator::LShift
        } else if text_eq(w, ">>") || text_eq(w, ">>=") {
            BinOperator::RShift
        } else if text_eq(w, "|") || text_eq(w, "|=") {
            BinOperator::BitOr
        } else if text_eq(w, "^") || text_eq(w, "^=") {
            BinOperator::BitXor
        } else if text_eq(w, "&") || text_eq(w, "&=") {
            BinOperator::BitAnd
        } else if text_eq(w, "//") || text_eq(w, "//=") {
            BinOperator::FloorDiv
        } else {
            return Err(ClassifyError::UnrecognizedToken);
        };
        Ok(Located { node, span: tok.span })
    }
}

impl ContractFieldQual {
    /// The outcome of classifying `tok`: what its lexeme denotes, located at
    /// the token's span, or `UnrecognizedString` when it denotes nothing.
    pub open spec fn spec_from_token(tok: Token) -> Result<Located<Self>, ClassifyError> {
        classified(
            ContractFieldQual::lookup(tok.lexeme@),
            tok.span,
            ClassifyError::UnrecognizedString,
        )
    }
    /// Classifies a token as a contract field qualifier.
    pub fn from_token(tok: &Token) -> (r: Result<Located<ContractFieldQual>, ClassifyError>)
        ensures
            r == ContractFieldQual::spec_from_token(*tok),
    {
        let w = tok.lexeme;
        let node = if text_eq(w, "const") {
            ContractFieldQual::Const
        } else if text_eq(w, "pub") {
            ContractFieldQual::Pub
        } else {
            return Err(ClassifyError::UnrecognizedString);
        };
        Ok(Located { node, span: tok.span })
    }
}

impl EventFieldQual {
    /// The outcome of classifying `tok`: what its lexeme denotes, located at
    /// the token's span, or `UnrecognizedString` when it denotes nothing.
    pub open spec fn spec_from_token(tok: Token) -> Result<Located<Self>, ClassifyError> {
        classified(EventFieldQual::lookup(tok.lexeme@), tok.span, ClassifyError::UnrecognizedString)
    }
    /// Classifies a token as an event field qualifier.
    pub fn from_token(tok: &Token) -> (r: Result<Located<EventFieldQual>, ClassifyError>)
        ensures
            r == EventFieldQual::spec_from_token(*tok),
    {
        let w = tok.lexeme;
        let node = if text_eq(w, "idx") {
            EventFieldQual::Idx
        } else {
            return Err(ClassifyError::UnrecognizedString);
        };
        Ok(Located { node, span: tok.span })
    }
}

impl FuncQual {
    /// The outcome of classifying `tok`: what its lexeme denotes, located at
    /// the token's span, or `UnrecognizedString` when it denotes nothing.
    pub open spec fn spec_from_token(tok: Token) -> Result<Located<Self>, ClassifyError> {
        classified(FuncQual::lookup(tok.lexeme@), tok.span, ClassifyError::UnrecognizedString)
    }
    /// Classifies a token as a function qualifier.
    pub fn from_token(tok: &Token) -> (r: Result<Located<FuncQual>, ClassifyError>)
        ensures
            r == FuncQual::spec_from_token(*tok),
    {
        let w = tok.lexeme;
        let node = if text_eq(w, "pub") {
            FuncQual::Pub
        } else {
            return Err(ClassifyError::UnrecognizedString);
        };
        Ok(Located { node, span: tok.span })
    }
}

impl BoolOperator {
    /// The outcome of classifying `tok`: what its lexeme denotes, located at
    /// the token's span, or `UnrecognizedToken` when it denotes nothing.
    pub open spec fn spec_from_token(tok: Token) -> Result<Located<Self>, ClassifyError> {
        classified(BoolOperator::lookup(tok.lexeme@), tok.span, ClassifyError::UnrecognizedToken)
    }
    /// Classifies a token as a boolean operator.
    pub fn from_token(tok: &Token) -> (r: Result<Located<BoolOperator>, ClassifyError>)
        ensures
            r == BoolOperator::spec_from_token(*tok),
    {
        let w = tok.lexeme;
        let node = if text_eq(w, "and") {
            BoolOperator::And
        } else if text_eq(w, "or") {
            BoolOperator::Or
        } else {
            return Err(ClassifyError::UnrecognizedToken);
        };
        Ok(Located { node, span: tok.span })
    }
}

impl UnaryOperator {
    /// The outcome of classifying `tok`: what its lexeme denotes, located at
    /// the token's span, or `UnrecognizedString` when it denotes nothing.
    pub open spec fn spec_from_token(tok: Token) -> Result<Located<Self>, ClassifyError> {
        classified(UnaryOperator::lookup(tok.lexeme@), tok.span, ClassifyError::UnrecognizedString)
    }
    /// Classifies a token as a unary operator.
    pub fn from_token(tok: &Token) -> (r: Result<Located<UnaryOperator>, ClassifyError>)
        ensures
            r == UnaryOperator::spec_from_token(*tok),
    {
        let w = tok.lexeme;
        let node = if text_eq(w, "~") {
            UnaryOperator::Invert
        } else if text_eq(w, "not") {
            UnaryOperator::Not
        } else if text_eq(w, "+") {
            UnaryOperator::UAdd
        } else if text_eq(w, "-") {
            UnaryOperator::USub
        } else {
            return Err(ClassifyError::UnrecognizedString);
        };
        Ok(Located { node, span: tok.span })
    }
}

impl<'a> TypeDesc<'a> {
    /// Wraps any token's lexeme as a base type name. This never fails and
    /// does not look at the lexeme's shape.
    pub fn from_token(tok: &Token<'a>) -> (r: Located<TypeDesc<'a>>)
        ensures
            r.node == (TypeDesc::Base { base: tok.lexeme }),
            r.span == tok.span,
    {
        Located { node: TypeDesc::Base { base: tok.lexeme }, span: tok.span }
    }
}

} // verus!
