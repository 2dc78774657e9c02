use vstd::prelude::*;

verus! {

/// Qualifier of a contract field.
#[derive(Debug, Clone, Copy, PartialEq, Eq, Structural)]
pub enum ContractFieldQual {
    Const,
    Pub,
}

/// Qualifier of an event field.
#[derive(Debug, Clone, Copy, PartialEq, Eq, Structural)]
pub enum EventFieldQual {
    Idx,
}

/// Qualifier of a function.
#[derive(Debug, Clone, Copy, PartialEq, Eq, Structural)]
pub enum FuncQual {
    Pub,
}

/// A boolean connective.
#[derive(Debug, Clone, Copy, PartialEq, Eq, Structural)]
pub enum BoolOperator {
    And,
    Or,
}

/// A prefix operator.
#[derive(Debug, Clone, Copy, PartialEq, Eq, Structural)]
pub enum UnaryOperator {
    Invert,
    Not,
    UAdd,
    USub,
}

/// An arithmetic or bitwise binary operator.
#[derive(Debug, Clone, Copy, PartialEq, Eq, Structural)]
pub enum BinOperator {
    Add,
    Sub,
    Mult,
    Div,
    Mod,
    Pow,
    LShift,
    RShift,
    BitOr,
    BitXor,
    BitAnd,
    FloorDiv,
}

/// A comparison operator, spelled by one or two words.
#[derive(Debug, Clone, Copy, PartialEq, Eq, Structural)]
pub enum CompOperator {
    Eq,
    NotEq,
    Lt,
    LtE,
    Gt,
    GtE,
    Is,
    IsNot,
    In,
    NotIn,
}

/// A type description; only base type names are produced at this layer.
#[derive(Debug, Clone, Copy, PartialEq, Eq)]
pub enum TypeDesc<'a> {
    Base { base: &'a str },
}

impl ContractFieldQual {
    /// The spelling of each qualifier.
    pub open spec fn spells(self, s: Seq<char>) -> bool {
        match self {
            ContractFieldQual::Const => s == "const"@,
            ContractFieldQual::Pub => s == "pub"@,
        }
    }

    /// The qualifier that a lexeme denotes, if any.
    pub open spec fn lookup(s: Seq<char>) -> Option<ContractFieldQual> {
        if s == "const"@ {
            Some(ContractFieldQual::Const)
        } else if s == "pub"@ {
            Some(ContractFieldQual::Pub)
        } else {
            None
        }
    }
}

impl EventFieldQual {
    /// The spelling of each qualifier.
    pub open spec fn spells(self, s: Seq<char>) -> bool {
        match self {
            EventFieldQual::Idx => s == "idx"@,
        }
    }

    /// The qualifier that a lexeme denotes, if any.
    pub open spec fn lookup(s: Seq<char>) -> Option<EventFieldQual> {
        if s == "idx"@ {
            Some(EventFieldQual::Idx)
        } else {
            None
        }
    }
}

impl FuncQual {
    /// The spelling of each qualifier.
    pub open spec fn spells(self, s: Seq<char>) -> bool {
        match self {
            FuncQual::Pub => s == "pub"@,
        }
    }

    /// The qualifier that a lexeme denotes, if any.
    pub open spec fn lookup(s: Seq<char>) -> Option<FuncQual> {
        if s == "pub"@ {
            Some(FuncQual::Pub)
        } else {
            None
        }
    }
}

impl BoolOperator {
    /// The spelling of each operator.
    pub open spec fn spells(self, s: Seq<char>) -> bool {
        match self {
            BoolOperator::And => s == "and"@,
            BoolOperator::Or => s == "or"@,
        }
    }

    /// The operator that a lexeme denotes, if any.
    pub open spec fn lookup(s: Seq<char>) -> Option<BoolOperator> {
        if s == "and"@ {
            Some(BoolOperator::And)
        } else if s == "or"@ {
            Some(BoolOperator::Or)
        } else {
            None
        }
    }
}

impl UnaryOperator {
    /// The spelling of each operator.
    pub open spec fn spells(self, s: Seq<char>) -> bool {
        match self {
            UnaryOperator::Invert => s == "~"@,
            UnaryOperator::Not => s == "not"@,
            UnaryOperator::UAdd => s == "+"@,
            UnaryOperator::USub => s == "-"@,
        }
    }

    /// The operator that a lexeme denotes, if any.
    pub open spec fn lookup(s: Seq<char>) -> Option<UnaryOperator> {
        if s == "~"@ {
            Some(UnaryOperator::Invert)
        } else if s == "not"@ {
            Some(UnaryOperator::Not)
        } else if s == "+"@ {
            Some(UnaryOperator::UAdd)
        } else if s == "-"@ {
            Some(UnaryOperator::USub)
        } else {
            None
        }
    }
}

impl BinOperator {
    /// The bare operator symbol.
    pub open spec fn symbol(self) -> Seq<char> {
        match self {
            BinOperator::Add => "+"@,
            BinOperator::Sub => "-"@,
            BinOperator::Mult => "*"@,
            BinOperator::Div => "/"@,
            BinOperator::Mod => "%"@,
            BinOperator::Pow => "**"@,
            BinOperator::LShift => "<<"@,
            BinOperator::RShift => ">>"@,
            BinOperator::BitOr => "|"@,
            BinOperator::BitXor => "^"@,
            BinOperator::BitAnd => "&"@,
            BinOperator::FloorDiv => "//"@,
        }
    }

    /// An operator is spelled by its bare symbol or by its compound-assignment
    /// form, the symbol followed by `=`.
    pub open spec fn spells(self, s: Seq<char>) -> bool {
        s == self.symbol() || s == self.symbol() + "="@
    }

    /// The operator that a lexeme denotes, if any; compound-assignment forms
    /// denote the same operator as their bare symbol.
    pub open spec fn lookup(s: Seq<char>) -> Option<BinOperator> {
        if s == "+"@ || s == "+="@ {
            Some(BinOperator::Add)
        } else if s == "-"@ || s == "-="@ {
            Some(BinOperator::Sub)
        } else if s == "*"@ || s == "*="@ {
            Some(BinOperator::Mult)
        } else if s == "/"@ || s == "/="@ {
            Some(BinOperator::Div)
        } else if s == "%"@ || s == "%="@ {
            Some(BinOperator::Mod)
        } else if s == "**"@ || s == "**="@ {
            Some(BinOperator::Pow)
        } else if s == "<<"@ || s == "<<="@ {
            Some(BinOperator::LShift)
        } else if s == ">>"@ || s == ">>="@ {
            Some(BinOperator::RShift)
        } else if s == "|"@ || s == "|="@ {
            Some(BinOperator::BitOr)
        } else if s == "^"@ || s == "^="@ {
            Some(BinOperator::BitXor)
        } else if s == "&"@ || s == "&="@ {
            Some(BinOperator::BitAnd)
        } else if s == "//"@ || s == "//="@ {
            Some(BinOperator::FloorDiv)
        } else {
            None
        }
    }
}

impl CompOperator {
    /// The sequence of lexemes that spells each comparison operator.
    pub open spec fn words(self) -> Seq<Seq<char>> {
        match self {
            CompOperator::Eq => seq!["=="@],
            CompOperator::NotEq => seq!["!="@],
            CompOperator::Lt => seq!["<"@],
            CompOperator::LtE => seq!["<="@],
            CompOperator::Gt => seq![">"@],
            CompOperator::GtE => seq![">="@],
            CompOperator::Is => seq!["is"@],
            CompOperator::IsNot => seq!["is"@, "not"@],
            CompOperator::In => seq!["in"@],
            CompOperator::NotIn => seq!["not"@, "in"@],
        }
    }

    /// A run of lexemes spells an operator when it equals its words exactly.
    pub open spec fn spells(self, ws: Seq<Seq<char>>) -> bool {
        ws == self.words()
    }

    /// The operator that a sequence of lexemes denotes, if any.
    pub open spec fn lookup(ws: Seq<Seq<char>>) -> Option<CompOperator> {
        if ws.len() == 1 {
            let w = ws[0];
            if w == "=="@ {
                Some(CompOperator::Eq)
            } else if w == "!="@ {
                Some(CompOperator::NotEq)
            } else if w == "<"@ {
                Some(CompOperator::Lt)
            } else if w == "<="@ {
                Some(CompOperator::LtE)
            } else if w == ">"@ {
                Some(CompOperator::Gt)
            } else if w == ">="@ {
                Some(CompOperator::GtE)
            } else if w == "is"@ {
                Some(CompOperator::Is)
            } else if w == "in"@ {
                Some(CompOperator::In)
            } else {
                None
            }
        } else if ws.len() == 2 {
            if ws[0] == "is"@ && ws[1] == "not"@ {
                Some(CompOperator::IsNot)
            } else if ws[0] == "not"@ && ws[1] == "in"@ {
                Some(CompOperator::NotIn)
            } else {
                None
            }
        } else {
            None
        }
    }
}

} // verus!
