use vstd::prelude::*;

use crate::ast::{
    BinOperator, BoolOperator, CompOperator, ContractFieldQual, EventFieldQual, FuncQual,
    UnaryOperator,
};
use crate::classify::{classified, lexemes, run_span, ClassifyError};
use crate::span::Span;
use crate::token::Token;

verus! {

/// A lexeme denotes a contract field qualifier exactly when it is that
/// qualifier's spelling; a lexeme that spells none of them denotes nothing.
pub proof fn lemma_contract_field_qual_table(v: ContractFieldQual, s: Seq<char>)
    ensures
        ContractFieldQual::lookup(s) == Some(v) <==> v.spells(s),
        ContractFieldQual::lookup(s) is None <==> forall|w: ContractFieldQual| !w.spells(s),
{
    reveal_strlit("const");
    reveal_strlit("pub");
    assert("const"@ =~= seq!['c', 'o', 'n', 's', 't']);
    assert("pub"@ =~= seq!['p', 'u', 'b']);
    if ContractFieldQual::lookup(s) is Some {
        assert(ContractFieldQual::lookup(s)->Some_0.spells(s));
    }
}

/// A lexeme denotes an event field qualifier exactly when it is that
/// qualifier's spelling; a lexeme that spells none of them denotes nothing.
pub proof fn lemma_event_field_qual_table(v: EventFieldQual, s: Seq<char>)
    ensures
        EventFieldQual::lookup(s) == Some(v) <==> v.spells(s),
        EventFieldQual::lookup(s) is None <==> forall|w: EventFieldQual| !w.spells(s),
{
    reveal_strlit("idx");
    assert("idx"@ =~= seq!['i', 'd', 'x']);
    if EventFieldQual::lookup(s) is Some {
        assert(EventFieldQual::lookup(s)->Some_0.spells(s));
    }
}

/// A lexeme denotes a function qualifier exactly when it is that qualifier's
/// spelling; a lexeme that spells none of them denotes nothing.
pub proof fn lemma_func_qual_table(v: FuncQual, s: Seq<char>)
    ensures
        FuncQual::lookup(s) == Some(v) <==> v.spells(s),
        FuncQual::lookup(s) is None <==> forall|w: FuncQual| !w.spells(s),
{
    reveal_strlit("pub");
    assert("pub"@ =~= seq!['p', 'u', 'b']);
    if FuncQual::lookup(s) is Some {
        assert(FuncQual::lookup(s)->Some_0.spells(s));
    }
}

/// A lexeme denotes a boolean operator exactly when it is that operator's
/// spelling; a lexeme that spells none of them denotes nothing.
pub proof fn lemma_bool_operator_table(v: BoolOperator, s: Seq<char>)
    ensures
        BoolOperator::lookup(s) == Some(v) <==> v.spells(s),
        BoolOperator::lookup(s) is None <==> forall|w: BoolOperator| !w.spells(s),
{
    reveal_strlit("and");
    reveal_strlit("or");
    assert("and"@ =~= seq!['a', 'n', 'd']);
    assert("or"@ =~= seq!['o', 'r']);
    assert("or"@[0] == 'o' && "or"@[1] == 'r');
    if BoolOperator::lookup(s) is Some {
        assert(BoolOperator::lookup(s)->Some_0.spells(s));
    }
}

/// A lexeme denotes a unary operator exactly when it is that operator's
/// spelling; a lexeme that spells none of them denotes nothing.
pub proof fn lemma_unary_operator_table(v: UnaryOperator, s: Seq<char>)
    ensures
        UnaryOperator::lookup(s) == Some(v) <==> v.spells(s),
        UnaryOperator::lookup(s) is None <==> forall|w: UnaryOperator| !w.spells(s),
{
    reveal_strlit("~");
    reveal_strlit("not");
    reveal_strlit("+");
    reveal_strlit("-");
    assert("~"@ =~= seq!['~']);
    assert("~"@[0] == '~');
    assert("not"@ =~= seq!['n', 'o', 't']);
    assert("+"@ =~= seq!['+']);
    assert("+"@[0] == '+');
    assert("-"@ =~= seq!['-']);
    assert("-"@[0] == '-');
    if UnaryOperator::lookup(s) is Some {
        assert(UnaryOperator::lookup(s)->Some_0.spells(s));
    }
}

/// A lexeme denotes a binary operator exactly when it is that operator's bare
/// symbol or its compound-assignment form; a lexeme that spells none of them
/// denotes nothing.
pub proof fn lemma_bin_operator_table(v: BinOperator, s: Seq<char>)
    ensures
        BinOperator::lookup(s) == Some(v) <==> v.spells(s),
        BinOperator::lookup(s) is None <==> forall|w: BinOperator| !w.spells(s),
{
    reveal_strlit("+");
    reveal_strlit("+=");
    reveal_strlit("-");
    reveal_strlit("-=");
    reveal_strlit("*");
    reveal_strlit("*=");
    reveal_strlit("/");
    reveal_strlit("/=");
    reveal_strlit("%");
    reveal_strlit("%=");
    reveal_strlit("**");
    reveal_strlit("**=");
    reveal_strlit("<<");
    reveal_strlit("<<=");
    reveal_strlit(">>");
    reveal_strlit(">>=");
    reveal_strlit("|");
    reveal_strlit("|=");
    reveal_strlit("^");
    reveal_strlit("^=");
    reveal_strlit("&");
    reveal_strlit("&=");
    reveal_strlit("//");
    reveal_strlit("//=");
    reveal_strlit("=");
    assert("+"@ =~= seq!['+'] && "+="@ =~= seq!['+', '=']);
    assert("-"@ =~= seq!['-'] && "-="@ =~= seq!['-', '=']);
    assert("*"@ =~= seq!['*'] && "*="@ =~= seq!['*', '=']);
    assert("/"@ =~= seq!['/'] && "/="@ =~= seq!['/', '=']);
    assert("%"@ =~= seq!['%'] && "%="@ =~= seq!['%', '=']);
    assert("**"@ =~= seq!['*', '*'] && "**="@ =~= seq!['*', '*', '=']);
    assert("<<"@ =~= seq!['<', '<'] && "<<="@ =~= seq!['<', '<', '=']);
    assert(">>"@ =~= seq!['>', '>'] && ">>="@ =~= seq!['>', '>', '=']);
    assert("|"@ =~= seq!['|'] && "|="@ =~= seq!['|', '=']);
    assert("^"@ =~= seq!['^'] && "^="@ =~= seq!['^', '=']);
    assert("&"@ =~= seq!['&'] && "&="@ =~= seq!['&', '=']);
    assert("//"@ =~= seq!['/', '/'] && "//="@ =~= seq!['/', '/', '=']);
    assert(BinOperator::Add.symbol() + "="@ =~= "+="@);
    assert(BinOperator::Sub.symbol() + "="@ =~= "-="@);
    assert(BinOperator::Mult.symbol() + "="@ =~= "*="@);
    assert(BinOperator::Div.symbol() + "="@ =~= "/="@);
    assert(BinOperator::Mod.symbol() + "="@ =~= "%="@);
    assert(BinOperator::Pow.symbol() + "="@ =~= "**="@);
    assert(BinOperator::LShift.symbol() + "="@ =~= "<<="@);
    assert(BinOperator::RShift.symbol() + "="@ =~= ">>="@);
    assert(BinOperator::BitOr.symbol() + "="@ =~= "|="@);
    assert(BinOperator::BitXor.symbol() + "="@ =~= "^="@);
    assert(BinOperator::BitAnd.symbol() + "="@ =~= "&="@);
    assert(BinOperator::FloorDiv.symbol() + "="@ =~= "//="@);
    if BinOperator::lookup(s) is Some {
        assert(BinOperator::lookup(s)->Some_0.spells(s));
    }
}

/// A run of lexemes denotes a comparison operator exactly when it is that
/// operator's sequence of words, in order; any other run denotes nothing.
pub proof fn lemma_comp_operator_table(v: CompOperator, ws: Seq<Seq<char>>)
    ensures
        CompOperator::lookup(ws) == Some(v) <==> v.spells(ws),
        CompOperator::lookup(ws) is None <==> forall|w: CompOperator| !w.spells(ws),
{
    reveal_strlit("==");
    reveal_strlit("!=");
    reveal_strlit("<");
    reveal_strlit("<=");
    reveal_strlit(">");
    reveal_strlit(">=");
    reveal_strlit("is");
    reveal_strlit("in");
    reveal_strlit("not");
    assert("=="@ =~= seq!['=', '=']);
    assert("=="@[0] == '=' && "=="@[1] == '=');
    assert("!="@ =~= seq!['!', '=']);
    assert("!="@[0] == '!' && "!="@[1] == '=');
    assert("<"@ =~= seq!['<']);
    assert("<"@[0] == '<');
    assert("<="@ =~= seq!['<', '=']);
    assert("<="@[0] == '<' && "<="@[1] == '=');
    assert(">"@ =~= seq!['>']);
    assert(">"@[0] == '>');
    assert(">="@ =~= seq!['>', '=']);
    assert(">="@[0] == '>' && ">="@[1] == '=');
    assert("is"@ =~= seq!['i', 's']);
    assert("is"@[0] == 'i' && "is"@[1] == 's');
    assert("in"@ =~= seq!['i', 'n']);
    assert("in"@[0] == 'i' && "in"@[1] == 'n');
    assert("not"@ =~= seq!['n', 'o', 't']);
    assert("not"@[0] == 'n' && "not"@[1] == 'o' && "not"@[2] == 't');
    assert(ws.len() == 1 ==> ws =~= seq![ws[0]]);
    assert(ws.len() == 2 ==> ws =~= seq![ws[0], ws[1]]);
    if CompOperator::lookup(ws) is Some {
        assert(CompOperator::lookup(ws)->Some_0.spells(ws));
    }
}

/// Compound assignment collapses: an operator's compound-assignment form and
/// its bare symbol denote the same operator, so the two cannot be told apart.
pub proof fn lemma_compound_assignment_collapse(v: BinOperator)
    ensures
        BinOperator::lookup(v.symbol() + "="@) == BinOperator::lookup(v.symbol()),
        BinOperator::lookup(v.symbol()) == Some(v),
{
    lemma_bin_operator_table(v, v.symbol());
    lemma_bin_operator_table(v, v.symbol() + "="@);
}

/// A successful classification carries exactly the span it was given, neither
/// widened nor cut.
pub proof fn lemma_span_fidelity<T>(v: Option<T>, span: Span, e: ClassifyError)
    ensures
        classified(v, span, e) is Ok ==> classified(v, span, e)->Ok_0.span == span,
        classified(v, span, e) is Ok <==> v is Some,
{
}

/// A two-token run is located at the merge of its first and second token's
/// spans.
pub proof fn lemma_two_token_span(toks: Seq<&Token>)
    requires
        toks.len() == 2,
    ensures
        run_span(toks) == Span::merge(toks[0].span, toks[1].span),
{
}

/// Classification is pure: tokens with the same text and span get the same
/// outcome from each classifier, whatever was classified before or in between.
pub proof fn lemma_classification_is_pure(a: Token, b: Token)
    requires
        a.lexeme@ == b.lexeme@,
        a.span == b.span,
    ensures
        ContractFieldQual::spec_from_token(a) == ContractFieldQual::spec_from_token(b),
        EventFieldQual::spec_from_token(a) == EventFieldQual::spec_from_token(b),
        FuncQual::spec_from_token(a) == FuncQual::spec_from_token(b),
        BoolOperator::spec_from_token(a) == BoolOperator::spec_from_token(b),
        UnaryOperator::spec_from_token(a) == UnaryOperator::spec_from_token(b),
        BinOperator::spec_from_token(a) == BinOperator::spec_from_token(b),
{
}

/// A run of tokens gets the same comparison outcome as any other run with the
/// same lexemes and the same first and last spans.
pub proof fn lemma_comp_classification_is_pure(a: Seq<&Token>, b: Seq<&Token>)
    requires
        lexemes(a) == lexemes(b),
        a.len() > 0 ==> a[0].span == b[0].span && a.last().span == b.last().span,
    ensures
        CompOperator::spec_from_tokens(a) == CompOperator::spec_from_tokens(b),
{
}

} // verus!
